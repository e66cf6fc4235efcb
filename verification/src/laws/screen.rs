//! Promises of the screen: what is drawn for what the dashboard holds, and where.

use vstd::prelude::*;

use crate::app;
use crate::app::{AppModel, MenuActionModel, ModeModel};
use crate::client;
use crate::geometry;
use crate::geometry::{Part, Rect};
use crate::history::SampleModel;
use crate::input;
use crate::items::{Align, BorderModel, ItemModel, PanelModel};
use crate::laws;
use crate::number;
use crate::panels;
use crate::panels::{Readings, StatusPlaces};
use crate::plan;
use crate::popups;
use crate::style;
use crate::style::{Color, LineModel, SpanModel, Style};
use crate::text;
use crate::trend;
use crate::ui;
use crate::ui::Places;
use crate::vars;

verus! {

// ------------------------------------------------------------------- styles

/// A style: a color or none, bold or not, muted or not, italic or not.
pub open spec fn look(color: Option<Color>, bold: bool, dim: bool, italic: bool) -> Style {
    Style { fg: color, bg: None, bold, dim, italic, reversed: false }
}

/// A piece of text in a style.
pub open spec fn is_piece(s: SpanModel, text: Seq<char>, look: Style) -> bool {
    s.text == text && s.style == look
}

/// Each style changes one thing about a text and leaves the rest alone.
pub proof fn styles_change_one_thing(s: Style, color: Color)
    ensures
        style::plain() == look(None, false, false, false),
        style::gray() == look(None, false, true, false),
        style::fg(color) == look(Some(color), false, false, false),
        style::on(s, color) == (Style { bg: Some(color), ..s }),
        style::bold(s) == (Style { bold: true, ..s }),
        style::italic(s) == (Style { italic: true, ..s }),
        style::reversed() == (Style { reversed: true, ..look(None, false, false, false) }),
{
}

/// A line holds the pieces that it is made of, in their order, with no style of its own.
pub proof fn lines_hold_their_pieces(spans: Seq<SpanModel>, text: Seq<char>, s: Style)
    ensures
        style::line(spans).spans == spans,
        style::line(spans).style == look(None, false, false, false),
        style::words(text).spans.len() == 1,
        is_piece(style::words(text).spans[0], text, look(None, false, false, false)),
        is_piece(style::piece(text, s), text, s),
{
}

// ------------------------------------------------------------------- status

/// What the known words of a status mean, and the colors in which they are shown.
pub proof fn known_words_of_a_status()
    ensures
        panels::token("OL"@) == ("ONLINE"@, Color::Green),
        panels::token("OB"@) == ("ON BATTERY"@, Color::Yellow),
        panels::token("LB"@) == ("LOW BATTERY"@, Color::Red),
        panels::token("HB"@) == ("HIGH BATTERY"@, Color::Yellow),
        panels::token("CHRG"@) == ("CHARGING"@, Color::Cyan),
        panels::token("DISCHRG"@) == ("DISCHARGING"@, Color::Yellow),
        panels::token("RB"@) == ("REPLACE BATTERY"@, Color::Red),
        panels::token("BYPASS"@) == ("BYPASS"@, Color::Red),
        panels::token("OFF"@) == ("OUTPUT OFF"@, Color::Red),
        panels::token("OVER"@) == ("OVERLOAD"@, Color::Red),
        panels::token("TRIM"@) == ("TRIMMING"@, Color::Yellow),
        panels::token("BOOST"@) == ("BOOSTING"@, Color::Yellow),
        panels::token("CAL"@) == ("CALIBRATING"@, Color::Cyan),
        panels::token("FSD"@) == ("FORCED SHUTDOWN"@, Color::Red),
{
    reveal_strlit("OL");
    reveal_strlit("OB");
    reveal_strlit("LB");
    reveal_strlit("HB");
    reveal_strlit("CHRG");
    reveal_strlit("DISCHRG");
    reveal_strlit("RB");
    reveal_strlit("BYPASS");
    reveal_strlit("OFF");
    reveal_strlit("OVER");
    reveal_strlit("TRIM");
    reveal_strlit("BOOST");
    reveal_strlit("CAL");
    reveal_strlit("FSD");
    assert("OL"@[0] == 'O' && "OL"@[1] == 'L' && "OB"@[0] == 'O' && "OB"@[1] == 'B');
    assert("LB"@[0] == 'L' && "HB"@[0] == 'H' && "RB"@[0] == 'R');
    assert("OFF"@[0] == 'O' && "CAL"@[0] == 'C' && "FSD"@[0] == 'F');
    assert("CHRG"@[0] == 'C' && "OVER"@[0] == 'O' && "TRIM"@[0] == 'T');
    assert("OL"@.len() == 2 && "OB"@.len() == 2 && "LB"@.len() == 2 && "HB"@.len() == 2
        && "RB"@.len() == 2);
    assert("OFF"@.len() == 3 && "CAL"@.len() == 3 && "FSD"@.len() == 3);
    assert("CHRG"@.len() == 4 && "OVER"@.len() == 4 && "TRIM"@.len() == 4);
    assert("BOOST"@.len() == 5 && "BYPASS"@.len() == 6 && "DISCHRG"@.len() == 7);
}

/// Whether a word of a status is known.
pub open spec fn is_known(word: Seq<char>) -> bool {
    ||| word == "OL"@ || word == "OB"@ || word == "LB"@ || word == "HB"@ || word == "RB"@
    ||| word == "CHRG"@ || word == "DISCHRG"@ || word == "BYPASS"@ || word == "OFF"@
    ||| word == "OVER"@ || word == "TRIM"@ || word == "BOOST"@ || word == "CAL"@ || word == "FSD"@
}

/// Any other word of a status is shown as it is, in white.
pub proof fn other_words_of_a_status(word: Seq<char>)
    requires
        !is_known(word),
    ensures
        panels::token(word) == (word, Color::White),
{
}

/// The status line shows, behind its label, what each word of the status means, in the
/// order of the words, bold and in its color, with a muted dot between two of them.
pub proof fn status_line_shows_every_word(a: AppModel, i: int)
    requires
        a.vars.contains_key("ups.status"@),
        0 <= i < text::words_of(a.vars["ups.status"@]).len(),
    ensures
        ({
            let words = text::words_of(a.vars["ups.status"@]);
            let spans = panels::status_line(a).spans;
            &&& spans.len() == 2 * words.len()
            &&& is_piece(spans[0], "Status   "@, look(None, false, true, false))
            &&& is_piece(
                spans[2 * i + 1],
                panels::token(words[i]).0,
                look(Some(panels::token(words[i]).1), true, false, false),
            )
            &&& i > 0 ==> is_piece(spans[2 * i], " · "@, look(None, false, true, false))
        }),
{
    let s = a.vars["ups.status"@];
    let words = text::words_of(s);
    if s.len() == 0 {
        let none = Seq::<char>::empty();
        assert(s =~= none);
        laws::text::words_come_one_by_one(none, seq!['x'], none);
    }
    lemma_pieces(words, i);
    let label = seq![style::piece("Status   "@, style::gray())];
    let all = label + panels::token_pieces(words);
    assert(all[2 * i + 1] == panels::token_pieces(words)[2 * i]);
    if i > 0 {
        assert(all[2 * i] == panels::token_pieces(words)[2 * i - 1]);
    }
}

proof fn lemma_pieces(words: Seq<Seq<char>>, i: int)
    requires
        0 <= i < words.len(),
    ensures
        panels::token_pieces(words).len() == 2 * words.len() - 1,
        is_piece(
            panels::token_pieces(words)[2 * i],
            panels::token(words[i]).0,
            look(Some(panels::token(words[i]).1), true, false, false),
        ),
        i > 0 ==> is_piece(
            panels::token_pieces(words)[2 * i - 1],
            " · "@,
            look(None, false, true, false),
        ),
    decreases words.len(),
{
    if words.len() > 1 {
        let front = words.drop_last();
        if i < front.len() {
            lemma_pieces(front, i);
        } else {
            lemma_pieces(front, 0);
        }
    }
}

/// A status of one word shows that word's meaning alone.
pub proof fn status_of_one_word(a: AppModel, gap: Seq<char>, word: Seq<char>)
    requires
        a.vars.contains_key("ups.status"@),
        a.vars["ups.status"@] == gap + word,
        laws::text::blank(gap),
        word.len() > 0,
        laws::text::solid(word),
    ensures
        panels::status_line(a).spans.len() == 2,
        panels::status_line(a).spans[1].text == panels::token(word).0,
{
    let none = Seq::<char>::empty();
    laws::text::words_come_one_by_one(gap, word, none);
    laws::text::words_come_one_by_one(none, word, none);
    assert(gap + word + none =~= gap + word);
    assert(seq![word] + Seq::<Seq<char>>::empty() =~= seq![word]);
    status_line_shows_every_word(a, 0);
}

/// The status line says that there is no data yet if and only if the status is not
/// known or empty. White space alone shows nothing behind the label.
pub proof fn no_data_only_without_a_status(a: AppModel)
    ensures
        !a.vars.contains_key("ups.status"@) || a.vars["ups.status"@].len() == 0 ==> {
            let spans = panels::status_line(a).spans;
            &&& spans.len() == 2
            &&& is_piece(spans[0], "Status   "@, look(None, false, true, false))
            &&& is_piece(spans[1], "no data yet"@, look(None, false, true, true))
        },
        a.vars.contains_key("ups.status"@) && a.vars["ups.status"@].len() > 0 ==> {
            let spans = panels::status_line(a).spans;
            let words = text::words_of(a.vars["ups.status"@]);
            &&& is_piece(spans[0], "Status   "@, look(None, false, true, false))
            &&& words.len() == 0 ==> spans.len() == 1
            &&& spans.len() > 1 ==> !spans[1].style.italic
        },
        panels::status_line(a).style == look(None, false, false, false),
{
    laws::state::status_is_a_variable(a);
    if a.vars.contains_key("ups.status"@) && a.vars["ups.status"@].len() > 0 {
        let words = text::words_of(a.vars["ups.status"@]);
        if words.len() > 0 {
            status_line_shows_every_word(a, 0);
        }
    }
}

// -------------------------------------------------------------- status panel

/// A label stands muted in nine columns, and the value behind it.
pub open spec fn is_labelled(l: LineModel, label: Seq<char>, value: Seq<char>) -> bool {
    &&& l.spans.len() == 2
    &&& l.spans[0].text.len() == 9
    &&& l.spans[0].text.take(label.len() as int) == label
    &&& forall|i: int| label.len() <= i < 9 ==> #[trigger] l.spans[0].text[i] == ' '
    &&& l.spans[0].style == look(None, false, true, false)
    &&& is_piece(l.spans[1], value, look(None, false, false, false))
    &&& l.style == look(None, false, false, false)
}

proof fn lemma_labelled(label: Seq<char>, value: Seq<char>)
    requires
        label.len() <= 9,
    ensures
        is_labelled(panels::labelled(label, value), label, value),
{
    let l = panels::labelled(label, value);
    assert(l.spans[0].text.take(label.len() as int) =~= label);
}

/// The value of a variable, or a dash where the device does not report it.
pub open spec fn value_or_dash(a: AppModel, key: Seq<char>) -> Seq<char> {
    if a.vars.contains_key(key) {
        a.vars[key]
    } else {
        "–"@
    }
}

/// The lines of the status panel: status, runtime, trend, battery, power, temperature
/// with beeper, and test result, each with the values of its own variables, and a free
/// line.
pub proof fn lines_of_the_status_panel(a: AppModel, r: Readings)
    ensures
        ({
            let lines = panels::info_lines(a, r);
            &&& lines.len() == 8
            &&& lines[0] == panels::status_line(a)
            &&& is_labelled(lines[1], "Runtime"@, panels::runtime_text(r))
            &&& trend::prediction(a, r.trend) matches Some(p) ==> is_labelled(
                lines[2],
                "Trend"@,
                p,
            )
            &&& trend::prediction(a, r.trend) is None ==> is_labelled(
                lines[2],
                "Trend"@,
                "steady"@,
            )
            &&& is_labelled(
                lines[3],
                "Battery"@,
                value_or_dash(a, "battery.voltage"@) + " V (nom "@ + value_or_dash(
                    a,
                    "battery.voltage.nominal"@,
                ) + " V) · "@ + value_or_dash(a, "battery.type"@),
            )
            &&& is_labelled(
                lines[4],
                "Power"@,
                "in "@ + value_or_dash(a, "input.voltage"@) + " V · "@ + value_or_dash(
                    a,
                    "input.frequency"@,
                ) + " Hz   out "@ + value_or_dash(a, "output.voltage"@) + " V · "@ + value_or_dash(
                    a,
                    "output.frequency"@,
                ) + " Hz"@,
            )
            &&& is_labelled(
                lines[5],
                "Misc"@,
                "temp "@ + value_or_dash(a, "ups.temperature"@) + " °C · beeper "@ + value_or_dash(
                    a,
                    "ups.beeper.status"@,
                ),
            )
            &&& is_labelled(lines[6], "Test"@, value_or_dash(a, "ups.test.result"@))
            &&& lines[7].spans.len() == 0
        }),
{
    reveal_strlit("Runtime");
    reveal_strlit("Trend");
    reveal_strlit("Battery");
    reveal_strlit("Power");
    reveal_strlit("Misc");
    reveal_strlit("Test");
    lemma_labelled("Runtime"@, panels::runtime_text(r));
    lemma_labelled(
        "Trend"@,
        match trend::prediction(a, r.trend) {
            Some(p) => p,
            None => "steady"@,
        },
    );
    lemma_labelled("Battery"@, panels::battery_text(a));
    lemma_labelled("Power"@, panels::power_text(a));
    lemma_labelled("Misc"@, panels::misc_text(a));
    lemma_labelled("Test"@, app::shown(a, "ups.test.result"@));
}

/// The runtime that is left, or a dash, and in brackets the runtime below which the
/// system is shut down, where that is known.
pub proof fn runtime_in_words(r: Readings, left: u64, low: u64)
    ensures
        r.runtime == Some(left) && r.low_runtime == Some(low) ==> panels::runtime_text(r)
            == trend::duration(left as nat) + " (shutdown below "@ + trend::duration(low as nat)
            + ")"@,
        r.runtime == Some(left) && r.low_runtime is None ==> panels::runtime_text(r)
            == trend::duration(left as nat),
        r.runtime is None && r.low_runtime == Some(low) ==> panels::runtime_text(r) == "–"@
            + " (shutdown below "@ + trend::duration(low as nat) + ")"@,
        r.runtime is None && r.low_runtime is None ==> panels::runtime_text(r) == "–"@,
{
    reveal_strlit("");
    let none = Seq::<char>::empty();
    assert(""@ =~= none);
    assert(trend::duration(left as nat) + none =~= trend::duration(left as nat));
    assert("–"@ + none =~= "–"@);
    let behind = " (shutdown below "@ + trend::duration(low as nat) + ")"@;
    assert(trend::duration(left as nat) + behind =~= trend::duration(left as nat)
        + " (shutdown below "@ + trend::duration(low as nat) + ")"@);
    assert("–"@ + behind =~= "–"@ + " (shutdown below "@ + trend::duration(low as nat) + ")"@);
}

/// A gauge of a style on black.
pub open spec fn is_gauge(
    x: ItemModel,
    area: Rect,
    value: Seq<char>,
    label: Seq<char>,
    color: Color,
) -> bool {
    x == (ItemModel::Gauge {
        area,
        value,
        label,
        style: Style { bg: Some(Color::Black), ..look(Some(color), false, false, false) },
    })
}

/// The number of a variable, or zero.
pub open spec fn number_or_zero(a: AppModel, key: Seq<char>) -> Seq<char> {
    if laws::state::reports(a.vars, key) {
        text::trimmed(a.vars[key])
    } else {
        "0"@
    }
}

/// A percentage that may be missing, with zero in its place.
pub open spec fn percent(o: Option<String>) -> Seq<char> {
    (match o {
        Some(s) => s@,
        None => "0"@,
    }) + "%"@
}

/// The gauge of the charge is filled by `battery.charge` and named by it: green above
/// one half, else yellow above the cutoff, else red.
pub proof fn gauge_of_the_charge(a: AppModel, r: Readings, area: Rect)
    ensures
        ({
            let x = panels::charge_gauge(a, r, area);
            let value = number_or_zero(a, "battery.charge"@);
            let label = "battery "@ + percent(r.charge);
            &&& r.charge_over_half ==> is_gauge(x, area, value, label, Color::Green)
            &&& !r.charge_over_half && r.charge_over_cutoff ==> is_gauge(
                x,
                area,
                value,
                label,
                Color::Yellow,
            )
            &&& !r.charge_over_half && !r.charge_over_cutoff ==> is_gauge(
                x,
                area,
                value,
                label,
                Color::Red,
            )
        }),
{
    let c = panels::or_text(r.charge, "0"@);
    assert("battery "@ + (c + "%"@) =~= "battery "@ + c + "%"@);
}

/// The gauge of the load is filled by `ups.load` and named by it, with the power where
/// it is known: cyan below sixty percent, else yellow below eighty-five, else red.
pub proof fn gauge_of_the_load(a: AppModel, r: Readings, area: Rect)
    ensures
        ({
            let x = panels::load_gauge(a, r, area);
            let value = number_or_zero(a, "ups.load"@);
            let label = match r.watts {
                Some(w) => "load "@ + percent(r.load) + (" · ~"@ + w@ + " W"@),
                None => "load "@ + percent(r.load),
            };
            &&& r.load_under_60 ==> is_gauge(x, area, value, label, Color::Cyan)
            &&& !r.load_under_60 && r.load_under_85 ==> is_gauge(
                x,
                area,
                value,
                label,
                Color::Yellow,
            )
            &&& !r.load_under_60 && !r.load_under_85 ==> is_gauge(
                x,
                area,
                value,
                label,
                Color::Red,
            )
        }),
{
    reveal_strlit("");
    let c = panels::or_text(r.load, "0"@);
    let named = "load "@ + c + "%"@;
    assert("load "@ + (c + "%"@) =~= named);
    assert(named + ""@ =~= named);
}

/// The title of the status panel names the maker, the model and the serial number,
/// without white space around them.
pub proof fn title_names_the_device(a: AppModel)
    ensures
        panels::device_title(a) == " "@ + text::trimmed(value_or_dash(a, "device.mfr"@)) + " "@
            + text::trimmed(value_or_dash(a, "device.model"@)) + " · SN "@ + text::trimmed(
            value_or_dash(a, "device.serial"@),
        ) + " "@,
{
}

/// A button shows its label and its key in brackets, in cyan, in a muted frame.
pub proof fn button_shows_its_key(label: Seq<char>, key: char, cmd: Seq<char>, area: Rect)
    ensures
        panels::button_item(input::ButtonModel { label, key, cmd }, area) matches ItemModel::Panel(p)
            && p.area == area && p.align == Align::Center && p.style == look(
            Some(Color::Cyan),
            false,
            false,
            false,
        ) && p.border == Some(
            (BorderModel { title: None, style: look(None, false, true, false) }),
        ) && p.lines.len() == 1 && p.lines[0].spans.len() == 1 && p.lines[0].spans[0].text == label
            + " ("@ + seq![key] + ")"@,
{
}

/// The log shows its newest lines, as many as there is room for, the newest last, muted.
pub proof fn log_shows_the_newest(a: AppModel, room: nat, i: int)
    ensures
        ({
            let lines = panels::log_lines(a, room);
            &&& a.log.len() <= room ==> lines.len() == a.log.len()
            &&& a.log.len() > room ==> lines.len() == room
            &&& 0 <= i < lines.len() ==> lines[i].spans.len() == 1 && lines[i].spans[0].text
                == a.log[a.log.len() - lines.len() + i] && lines[i].style == look(
                None,
                false,
                true,
                false,
            )
        }),
{
}

/// Whether an item is a panel of plain text in an area, with the given border.
pub open spec fn is_panel(
    x: ItemModel,
    area: Rect,
    lines: Seq<LineModel>,
    align: Align,
    border: Option<BorderModel>,
) -> bool {
    x == ItemModel::Panel(
        PanelModel { area, lines, align, style: look(None, false, false, false), border },
    )
}

/// A border in a color or none, with a title.
pub open spec fn bordered(title: Seq<char>, color: Option<Color>) -> Option<BorderModel> {
    Some(BorderModel { title: Some(title), style: look(color, false, false, false) })
}

/// The status panel is its frame with the device's name, the lines of text, the gauges
/// of the charge and of the load, the four buttons and the log, each in its own place.
pub proof fn parts_of_the_status_panel(a: AppModel, r: Readings, p: StatusPlaces, i: int)
    ensures
        ({
            let all = panels::status_panel(a, r, p);
            &&& all.len() == 9
            &&& is_panel(
                all[0],
                p.frame,
                Seq::empty(),
                Align::Left,
                bordered(panels::device_title(a), None),
            )
            &&& is_panel(all[1], p.info, panels::info_lines(a, r), Align::Left, None)
            &&& all[2] == panels::charge_gauge(a, r, p.charge)
            &&& all[3] == panels::load_gauge(a, r, p.load)
            &&& 0 <= i < 4 ==> all[4 + i] == panels::button_item(
                input::all_buttons()[i],
                p.buttons@[i],
            )
            &&& is_panel(
                all[8],
                p.log,
                panels::log_lines(a, p.log.height as nat),
                Align::Left,
                None,
            )
        }),
{
}

/// The boxes that can be clicked are where the buttons are, each with the command of its
/// button.
pub proof fn boxes_of_the_buttons(areas: Seq<Rect>)
    ensures
        ({
            let boxes = panels::hitboxes(areas);
            &&& boxes.len() == 4
            &&& boxes[0] == (areas[0], "test.battery.start.quick"@)
            &&& boxes[1] == (areas[1], "test.battery.start.deep"@)
            &&& boxes[2] == (areas[2], "test.battery.stop"@)
            &&& boxes[3] == (areas[3], "beeper"@)
        }),
{
}

// ------------------------------------------------------------------- charts

/// The samples of the last quarter of an hour.
pub open spec fn quarter_hour(s: Seq<SampleModel>, now: u128) -> Seq<SampleModel> {
    s.filter(laws::state::at_most(now, 900_000_000_000))
}

/// The time axis of both charts runs from a quarter of an hour ago to now.
pub proof fn time_axis_is_a_quarter_of_an_hour()
    ensures
        ({
            let x = panels::time_axis();
            &&& x.low == -900 && x.high == 0
            &&& x.style == look(None, false, true, false)
            &&& x.labels.len() == 4
            &&& x.labels[0] == "-15m"@ && x.labels[1] == "-10m"@
            &&& x.labels[2] == "-5m"@ && x.labels[3] == "now"@
        }),
{
}

/// The chart of the charge shows the charge of the last quarter of an hour in green,
/// named with the percentage where it is known, from 0 to 100 percent, and a muted line
/// at the cutoff, which is `battery.charge.low` or else 20 percent.
pub proof fn chart_of_the_charge(a: AppModel, r: Readings, now: u128, area: Rect)
    ensures
        ({
            let x = panels::battery_chart(a, r, now, area);
            &&& x is BatteryChart
            &&& x->BatteryChart_area == area
            &&& x->BatteryChart_title == " Battery charge "@
            &&& r.cutoff matches Some(c) ==> x->cutoff == "cutoff "@ + c@ + "%"@
            &&& r.cutoff is None ==> x->cutoff == "cutoff "@ + "20"@ + "%"@
            &&& laws::state::reports(a.vars, "battery.charge.low"@) ==> x->cutoff_level
                == text::trimmed(a.vars["battery.charge.low"@])
            &&& !laws::state::reports(a.vars, "battery.charge.low"@) ==> x->cutoff_level == "20"@
            &&& x->cutoff_style == look(None, false, true, false)
            &&& r.charge matches Some(c) ==> x->charge.name == "charge "@ + c@ + "%"@
            &&& r.charge is None ==> x->charge.name == "charge"@
            &&& x->charge.style == look(Some(Color::Green), false, false, false)
            &&& x->charge.samples == quarter_hour(a.charge, now)
            &&& x->BatteryChart_now == now
            &&& x->BatteryChart_x == panels::time_axis()
            &&& x->y.low == 0 && x->y.high == 100
            &&& x->y.style == look(None, false, true, false)
            &&& x->y.labels.len() == 3
            &&& x->y.labels[0] == "0%"@ && x->y.labels[1] == "50%"@ && x->y.labels[2] == "100%"@
        }),
{
    laws::state::chart_shows_a_quarter_of_an_hour(a.charge, now);
}

/// The chart of the voltages shows the input voltage of the last quarter of an hour in
/// yellow and the output voltage in cyan, each named with its volts where they are
/// known. Its title shows the transfer window where both of its ends are known.
pub proof fn chart_of_the_voltages(a: AppModel, r: Readings, now: u128, area: Rect)
    ensures
        ({
            let x = panels::voltage_chart(a, r, now, area);
            &&& x is VoltageChart
            &&& x->VoltageChart_area == area
            &&& r.transfer_low is Some && r.transfer_high is Some ==> x->VoltageChart_title
                == " Voltage · transfer window "@ + (r.transfer_low->0)@ + "–"@ + (
            r.transfer_high->0)@ + " V "@
            &&& r.transfer_low is None || r.transfer_high is None ==> x->VoltageChart_title
                == " Voltage "@
            &&& r.volts_in matches Some(v) ==> x->input.name == "in"@ + " "@ + v@ + "V"@
            &&& r.volts_in is None ==> x->input.name == "in"@
            &&& x->input.style == look(Some(Color::Yellow), false, false, false)
            &&& x->input.samples == quarter_hour(a.volt_in, now)
            &&& r.volts_out matches Some(v) ==> x->output.name == "out"@ + " "@ + v@ + "V"@
            &&& r.volts_out is None ==> x->output.name == "out"@
            &&& x->output.style == look(Some(Color::Cyan), false, false, false)
            &&& x->output.samples == quarter_hour(a.volt_out, now)
            &&& x->VoltageChart_now == now
            &&& x->VoltageChart_x == panels::time_axis()
            &&& x->y_style == look(None, false, true, false)
        }),
{
    laws::state::chart_shows_a_quarter_of_an_hour(a.volt_in, now);
    laws::state::chart_shows_a_quarter_of_an_hour(a.volt_out, now);
}

// --------------------------------------------------------- table and footer

/// The table lists every variable once with its value, and nothing else, below a bold
/// muted header; the title counts them.
pub proof fn table_lists_the_variables(a: AppModel, area: Rect)
    ensures
        ({
            let x = panels::vars_table(a, area);
            &&& x is Table
            &&& x->Table_area == area
            &&& x->Table_title == " All UPS data · "@ + number::decimal_of(a.vars.len())
                + " vars "@
            &&& x->header.0 == "variable"@ && x->header.1 == "value"@
            &&& x->header_style == look(None, true, true, false)
            &&& x->widths == (2u16, 3u16)
            &&& x->rows == vars::listing(a.vars)
            &&& x->Table_selected == (Style { reversed: true, ..look(None, false, false, false) })
        }),
{
}

/// The footer shows a dot, green while the server answers and red while it does not,
/// the device with its address, the last error in red where there is one, and the keys.
pub proof fn footer_shows_the_connection(a: AppModel)
    ensures
        ({
            let spans = panels::footer_line(a).spans;
            &&& a.connected ==> is_piece(
                spans[1],
                "●"@,
                look(Some(Color::Green), false, false, false),
            )
            &&& !a.connected ==> is_piece(
                spans[1],
                "●"@,
                look(Some(Color::Red), false, false, false),
            )
            &&& is_piece(spans[0], " "@, look(None, false, false, false))
            &&& is_piece(
                spans[2],
                " "@ + a.ups + "@"@ + client::address(a.host, a.port) + "  "@,
                look(None, false, false, false),
            )
            &&& a.last_error is None ==> spans.len() == 4
            &&& a.last_error matches Some(e) ==> spans.len() == 5 && is_piece(
                spans[3],
                e + "  "@,
                look(Some(Color::Red), false, false, false),
            )
            &&& is_piece(
                spans.last(),
                "q quit · m menu · t/d/s tests · b beeper · ↑↓ scroll"@,
                look(None, false, true, false),
            )
        }),
{
}

/// The footer stands at the left of its row, and the hint at the help at the right.
pub proof fn footer_and_its_hint(a: AppModel, area: Rect, hint: Rect)
    ensures
        ({
            let all = panels::footer(a, area, hint);
            &&& all.len() == 2
            &&& is_panel(all[0], area, seq![panels::footer_line(a)], Align::Left, None)
            &&& all[1] matches ItemModel::Panel(p) && p.area == hint && p.align == Align::Right
                && p.border is None && p.lines.len() == 1 && p.lines[0].spans.len() == 1 && is_piece(
                p.lines[0].spans[0],
                "Press '?' for help "@,
                look(None, false, true, true),
            )
        }),
{
}

/// A frame is the charts, the status panel and the table, the footer, and over them the
/// overlay, in this order. In basic mode there are neither charts nor table.
pub proof fn frame_in_order(a: AppModel, r: Readings, p: Places, now: u128)
    ensures
        ({
            let all = ui::frame(a, r, p, now);
            let status = panels::status_panel(a, r, p.status);
            let foot = panels::footer(a, p.footer, p.hint);
            let over = popups::popup(a, p.whole);
            &&& p.full is None ==> all == status + foot + over
            &&& p.full matches Some(f) ==> all == seq![
                panels::battery_chart(a, r, now, f.battery),
                panels::voltage_chart(a, r, now, f.voltage),
            ] + status + seq![panels::vars_table(a, f.vars)] + foot + over
        }),
{
}

// ----------------------------------------------------------------- overlays

/// The menu shows a row for each command and each variable that can be set, and a row
/// names what it does when it is activated: a command in red where it has to be
/// confirmed and else in cyan, with its description, or a variable in yellow, with its
/// value.
pub proof fn menu_row_names_its_action(a: AppModel, row: int)
    requires
        0 <= row < a.cmds.len() + a.rw.len(),
    ensures
        popups::menu_lines(a).len() == a.cmds.len() + a.rw.len(),
        ({
            let spans = popups::menu_lines(a)[row].spans;
            &&& spans.len() == 2
            &&& app::menu_row(a, row) matches Some(MenuActionModel::Cmd(name)) ==> {
                &&& spans[0].text == " "@ + text::padded_to(name, 28)
                &&& app::dangerous(name) ==> spans[0].style == look(
                    Some(Color::Red),
                    false,
                    false,
                    false,
                )
                &&& !app::dangerous(name) ==> spans[0].style == look(
                    Some(Color::Cyan),
                    false,
                    false,
                    false,
                )
                &&& row < a.cmds.len() && a.cmds[row].0 == name
                &&& is_piece(spans[1], a.cmds[row].1, look(None, false, true, false))
            }
            &&& app::menu_row(a, row) matches Some(MenuActionModel::SetVar(name)) ==> {
                &&& is_piece(
                    spans[0],
                    " set "@ + text::padded_to(name, 24),
                    look(Some(Color::Yellow), false, false, false),
                )
                &&& is_piece(
                    spans[1],
                    "current "@ + value_or_dash(a, name) + " · Enter to edit"@,
                    look(None, false, true, false),
                )
                &&& row >= a.cmds.len() && a.rw[row - a.cmds.len()] == name
            }
            &&& app::menu_row(a, row) is Some
        }),
{
}

/// What is drawn where the menu is open: its rows below a title, as wide as 78 columns
/// and as high as its rows and a border, or a remark where there are no rows yet.
pub proof fn menu_is_drawn(a: AppModel, whole: Rect)
    requires
        a.mode is Menu,
        a.cmds.len() + a.rw.len() <= usize::MAX,
    ensures
        ({
            let all = popups::popup(a, whole);
            let rows = a.cmds.len() + a.rw.len();
            &&& all.len() == 2
            &&& rows > 0 ==> {
                let area = geometry::middle(whole, 78, (rows + 2) as int);
                &&& all[0] == ItemModel::Clear(area)
                &&& all[1] == (ItemModel::Menu {
                    area,
                    title:
                        " Commands & settings — Enter runs or edits · red needs y/N confirm · Esc closes "@,
                    lines: popups::menu_lines(a),
                    selected: Style { reversed: true, ..look(None, false, false, false) },
                })
            }
            &&& rows == 0 ==> {
                let area = geometry::middle(whole, 56, 3);
                &&& all[0] == ItemModel::Clear(area)
                &&& is_panel(
                    all[1],
                    area,
                    seq![style::words("command list not loaded yet (server unreachable?)"@)],
                    Align::Center,
                    bordered(" Commands "@, None),
                )
            }
        }),
{
}

/// The question names the command in bold red, warns, and asks for a `y`.
pub proof fn question_names_the_command(a: AppModel, cmd: Seq<char>, whole: Rect)
    requires
        a.mode == ModeModel::Confirm(cmd),
    ensures
        ({
            let all = popups::popup(a, whole);
            let area = geometry::middle(whole, 60, 5);
            let red = look(Some(Color::Red), true, false, false);
            &&& all.len() == 2
            &&& all[0] == ItemModel::Clear(area)
            &&& all[1] matches ItemModel::Panel(p) && p.area == area && p.align == Align::Center
                && p.border == bordered(" Confirm "@, Some(Color::Red)) && p.lines.len() == 3
                && p.lines[0].spans.len() == 3 && p.lines[0].spans[0].text == "Really run "@
                && is_piece(p.lines[0].spans[1], cmd, red) && p.lines[0].spans[2].text == "?"@
                && p.lines[1] == style::words(
                "This can cut output power or shut the system down."@,
            ) && p.lines[2].spans.len() == 2 && is_piece(p.lines[2].spans[0], "y"@, red)
                && p.lines[2].spans[1].text == " to confirm · any other key to cancel"@
        }),
{
}

/// The editor shows the variable, its value, and what has been typed with a cursor
/// behind it.
pub proof fn editor_shows_what_is_typed(
    a: AppModel,
    name: Seq<char>,
    buffer: Seq<char>,
    whole: Rect,
)
    requires
        a.mode == (ModeModel::SetVar { name, buffer }),
    ensures
        ({
            let all = popups::popup(a, whole);
            let area = geometry::middle(whole, 46, 6);
            &&& all.len() == 2
            &&& all[0] == ItemModel::Clear(area)
            &&& all[1] matches ItemModel::Panel(p) && p.area == area && p.align == Align::Center
                && p.border == bordered(" Set variable "@, Some(Color::Yellow)) && p.lines.len() == 4
                && p.lines[0].spans.len() == 1 && is_piece(
                p.lines[0].spans[0],
                name,
                look(Some(Color::Yellow), true, false, false),
            ) && p.lines[1] == style::words("current: "@ + value_or_dash(a, name))
                && p.lines[2].spans.len() == 2 && p.lines[2].spans[0].text == "new: "@ && is_piece(
                p.lines[2].spans[1],
                buffer + "_"@,
                look(Some(Color::Cyan), true, false, false),
            ) && p.lines[3].spans.len() == 1 && is_piece(
                p.lines[3].spans[0],
                "digits · Enter apply · Esc cancel"@,
                look(None, false, true, false),
            )
        }),
{
}

/// Whether a line of the help text explains keys: the keys bold and in cyan in fifteen
/// columns, then what they do.
pub open spec fn explains(l: LineModel, keys: Seq<char>, does: Seq<char>) -> bool {
    &&& l.spans.len() == 2
    &&& is_piece(
        l.spans[0],
        "  "@ + text::padded_to(keys, 15),
        look(Some(Color::Cyan), true, false, false),
    )
    &&& is_piece(l.spans[1], does, look(None, false, false, false))
}

/// The help text explains every key.
pub proof fn help_explains_the_keys(a: AppModel, whole: Rect)
    requires
        a.mode is Help,
    ensures
        ({
            let all = popups::popup(a, whole);
            let area = geometry::middle(whole, 62, 12);
            let lines = popups::help_lines();
            &&& all.len() == 2
            &&& all[0] == ItemModel::Clear(area)
            &&& is_panel(
                all[1],
                area,
                lines,
                Align::Left,
                bordered(" Help — press ? or Esc to close "@, None),
            )
            &&& lines.len() == 10
            &&& explains(lines[0], "q / Esc"@, "quit (or close this popup)"@)
            &&& explains(lines[1], "?"@, "toggle this help"@)
            &&& explains(lines[2], "m"@, "menu: commands & settable variables"@)
            &&& explains(lines[3], "t / d / s"@, "quick test · deep test · stop test"@)
            &&& explains(lines[4], "b"@, "toggle beeper on/off"@)
            &&& explains(lines[5], "↑ ↓ / k j"@, "scroll variables / menu"@)
            &&& explains(lines[6], "g / G"@, "jump to top / bottom"@)
            &&& explains(lines[7], "h / l"@, "in menu: close / run selected"@)
            &&& explains(lines[8], "PgUp PgDn"@, "scroll faster"@)
            &&& explains(lines[9], "mouse"@, "click the buttons"@)
        }),
{
}

/// With no overlay open nothing is drawn over the rest.
pub proof fn nothing_over_the_rest(a: AppModel, whole: Rect)
    requires
        a.mode is Normal,
    ensures
        popups::popup(a, whole).len() == 0,
{
}

// ------------------------------------------------------------------- places

/// A popup has the size that it wants, as far as it leaves one cell free on each side,
/// and stands in the middle: what is left over differs by at most one cell between the
/// two sides, the far side having more.
pub proof fn popup_stands_in_the_middle(area: Rect, width: int, height: int)
    requires
        width >= 0,
        height >= 0,
        area.width >= 2,
        area.height >= 2,
        area.x + area.width <= 65535,
        area.y + area.height <= 65535,
    ensures
        ({
            let p = geometry::middle(area, width, height);
            let left = p.x - area.x;
            let right = area.x + area.width - (p.x + p.width);
            let above = p.y - area.y;
            let below = area.y + area.height - (p.y + p.height);
            &&& width <= area.width - 2 ==> p.width == width
            &&& width > area.width - 2 ==> p.width == area.width - 2
            &&& height <= area.height - 2 ==> p.height == height
            &&& height > area.height - 2 ==> p.height == area.height - 2
            &&& left <= right <= left + 1
            &&& above <= below <= above + 1
        }),
{
}

/// A border takes one cell on each side.
pub proof fn border_takes_a_cell(area: Rect)
    requires
        area.width >= 2,
        area.height >= 2,
        area.x + area.width <= 65535,
        area.y + area.height <= 65535,
    ensures
        geometry::within_border(area) == (Rect {
            x: (area.x + 1) as u16,
            y: (area.y + 1) as u16,
            width: (area.width - 2) as u16,
            height: (area.height - 2) as u16,
        }),
{
}

/// The lesser of two numbers.
pub open spec fn least(a: int, b: int) -> int {
    if a < b {
        a
    } else {
        b
    }
}

/// Where a popup and what a border leaves are on every screen, also where there is next
/// to no room, or where the screen reaches beyond the coordinates that there are.
pub proof fn places_on_every_screen(area: Rect, width: int, height: int)
    requires
        width >= 0,
        height >= 0,
    ensures
        ({
            let p = geometry::middle(area, width, height);
            let w = if area.width < 2 {
                0
            } else {
                least(width, area.width - 2)
            };
            let h = if area.height < 2 {
                0
            } else {
                least(height, area.height - 2)
            };
            let b = geometry::within_border(area);
            &&& p.x == least(area.x + (area.width - w) / 2, 65535)
            &&& p.y == least(area.y + (area.height - h) / 2, 65535)
            &&& p.width == least(w, 65535 - p.x)
            &&& p.height == least(h, 65535 - p.y)
            &&& b.x == least(area.x + least(1, area.width as int), 65535)
            &&& b.y == least(area.y + least(1, area.height as int), 65535)
            &&& area.width >= 2 ==> b.width == area.width - 2
            &&& area.width < 2 ==> b.width == 0
            &&& area.height >= 2 ==> b.height == area.height - 2
            &&& area.height < 2 ==> b.height == 0
        }),
{
}

/// What the dashboard wants of the screen: the charts 45 hundredths of its height, the
/// panels below them at least fifteen rows, the footer one; the charts half the width
/// each, the status panel 46 hundredths and the table 54. Of the status panel the lines
/// of text want eight rows, the gauges one each, the buttons three with a quarter of the
/// width each, and the log at least two. The hint of the footer wants twenty columns.
pub proof fn sizes_of_the_parts()
    ensures
        plan::basic_row_parts() == seq![Part::Min(0), Part::Length(1)],
        plan::full_row_parts() == seq![Part::Percentage(45), Part::Min(15), Part::Length(1)],
        plan::chart_column_parts() == seq![Part::Percentage(50), Part::Percentage(50)],
        plan::main_column_parts() == seq![Part::Percentage(46), Part::Percentage(54)],
        plan::status_row_parts() == seq![
            Part::Length(8),
            Part::Length(1),
            Part::Length(1),
            Part::Length(3),
            Part::Min(2),
        ],
        plan::button_column_parts() == seq![
            Part::Ratio(1, 4),
            Part::Ratio(1, 4),
            Part::Ratio(1, 4),
            Part::Ratio(1, 4),
        ],
        plan::footer_column_parts() == seq![Part::Min(0), Part::Length(20)],
{
}

} // verus!
