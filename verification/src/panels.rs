//! The panels of the dashboard: charts, status, variables and footer.

use vstd::prelude::*;

use crate::app;
use crate::app::{App, AppModel};
use crate::client;
use crate::geometry::Rect;
use crate::history;
use crate::input;
use crate::input::{Button, ButtonModel};
use crate::items;
use crate::items::{
    Align, Axis, AxisModel, Border, BorderModel, Item, ItemModel, Panel, PanelModel, Series,
    SeriesModel,
};
use crate::number;
use crate::style;
use crate::style::{Color, Line, LineModel, Span, SpanModel, Style};
use crate::text;
use crate::trend;
use crate::trend::Trend;
use crate::vars;

verus! {

/// What the readings of the device come to: the numbers among its variables,
/// compared and rounded in floating point elsewhere. A number that the device
/// does not report is missing.
pub struct Readings {
    /// The charge, as a whole percentage.
    pub charge: Option<String>,
    /// The charge at which the device cuts off, as a whole percentage.
    pub cutoff: Option<String>,
    /// Whether the charge is more than fifty percent.
    pub charge_over_half: bool,
    /// Whether the charge is more than the cutoff.
    pub charge_over_cutoff: bool,
    /// The load, as a whole percentage.
    pub load: Option<String>,
    /// Whether the load is less than sixty percent.
    pub load_under_60: bool,
    /// Whether the load is less than eighty-five percent.
    pub load_under_85: bool,
    /// The power that is drawn, in whole watts.
    pub watts: Option<String>,
    /// The input voltage, to a tenth of a volt.
    pub volts_in: Option<String>,
    /// The output voltage, to a tenth of a volt.
    pub volts_out: Option<String>,
    /// The lower limit of the transfer window, in whole volts.
    pub transfer_low: Option<String>,
    /// The upper limit of the transfer window, in whole volts.
    pub transfer_high: Option<String>,
    /// The runtime that is left, in whole seconds.
    pub runtime: Option<u64>,
    /// The runtime below which the system is shut down, in whole seconds.
    pub low_runtime: Option<u64>,
    /// The trend of the charge.
    pub trend: Option<Trend>,
}

/// A text that may be missing, with another in its place.
pub open spec fn or_text(o: Option<String>, other: Seq<char>) -> Seq<char> {
    match o {
        Some(s) => s@,
        None => other,
    }
}

fn text_or<'a>(o: &'a Option<String>, other: &'a str) -> (res: &'a str)
    ensures
        res@ == or_text(*o, other@),
{
    match o {
        Some(s) => s.as_str(),
        None => other,
    }
}

/// The text of a variable that denotes a number, with another in its place.
pub open spec fn reading_or(a: AppModel, key: Seq<char>, other: Seq<char>) -> Seq<char> {
    match app::reading(a.vars, key) {
        Some(v) => v,
        None => other,
    }
}

fn number_or(a: &App, key: &str, other: &str) -> (res: String)
    ensures
        res@ == reading_or(a@, key@, other@),
{
    match a.f(key) {
        Some(v) => v.to_owned(),
        None => other.to_owned(),
    }
}

// ------------------------------------------------------------------ charts

/// The time axis of a chart: the last quarter of an hour, in seconds from now.
pub open spec fn time_axis() -> AxisModel {
    AxisModel {
        style: style::gray(),
        low: -(history::HIST_SECS as int),
        high: 0,
        labels: seq!["-15m"@, "-10m"@, "-5m"@, "now"@],
    }
}

fn make_time_axis() -> (res: Axis)
    ensures
        res@ == time_axis(),
{
    let mut labels: Vec<String> = Vec::new();
    labels.push("-15m".to_owned());
    labels.push("-10m".to_owned());
    labels.push("-5m".to_owned());
    labels.push("now".to_owned());
    assert(text::strings_view(labels@) =~= time_axis().labels);
    Axis { style: Style::gray(), low: -(history::HIST_SECS as i64), high: 0, labels }
}

/// The axis of the charge, in percent.
pub open spec fn percent_axis() -> AxisModel {
    AxisModel { style: style::gray(), low: 0, high: 100, labels: seq!["0%"@, "50%"@, "100%"@] }
}

fn make_percent_axis() -> (res: Axis)
    ensures
        res@ == percent_axis(),
{
    let mut labels: Vec<String> = Vec::new();
    labels.push("0%".to_owned());
    labels.push("50%".to_owned());
    labels.push("100%".to_owned());
    assert(text::strings_view(labels@) =~= percent_axis().labels);
    Axis { style: Style::gray(), low: 0, high: 100, labels }
}

/// The chart of the charge, over the last quarter of an hour: the charge in green,
/// the cutoff muted.
pub open spec fn battery_chart(a: AppModel, r: Readings, now: u128, area: Rect) -> ItemModel {
    ItemModel::BatteryChart {
        area,
        title: " Battery charge "@,
        cutoff: "cutoff "@ + or_text(r.cutoff, "20"@) + "%"@,
        cutoff_level: reading_or(a, "battery.charge.low"@, "20"@),
        cutoff_style: style::gray(),
        charge: SeriesModel {
            name: match r.charge {
                Some(c) => "charge "@ + c@ + "%"@,
                None => "charge"@,
            },
            style: style::fg(Color::Green),
            samples: history::recent(a.charge, now, history::HIST_SECS as int),
        },
        now,
        x: time_axis(),
        y: percent_axis(),
    }
}

/// Computes the chart of the charge.
pub fn draw_battery_chart(a: &App, r: &Readings, now: u128, area: Rect) -> (res: Item)
    ensures
        res@ == battery_chart(a@, *r, now, area),
{
    let mut cutoff: String = "cutoff ".to_owned();
    cutoff.append(text_or(&r.cutoff, "20"));
    cutoff.append("%");
    let name: String = match &r.charge {
        Some(c) => {
            let mut name: String = "charge ".to_owned();
            name.append(c.as_str());
            name.append("%");
            name
        },
        None => "charge".to_owned(),
    };
    Item::BatteryChart {
        area,
        title: " Battery charge ".to_owned(),
        cutoff,
        cutoff_level: number_or(a, "battery.charge.low", "20"),
        cutoff_style: Style::gray(),
        charge: Series {
            name,
            style: Style::fg(Color::Green),
            samples: history::displayed(&a.charge, now),
        },
        now,
        x: make_time_axis(),
        y: make_percent_axis(),
    }
}

/// What a voltage is called in the chart.
pub open spec fn voltage_name(side: Seq<char>, volts: Option<String>) -> Seq<char> {
    match volts {
        Some(v) => side + " "@ + v@ + "V"@,
        None => side,
    }
}

/// The chart of the voltages, over the last quarter of an hour: the input in yellow,
/// the output in cyan.
pub open spec fn voltage_chart(a: AppModel, r: Readings, now: u128, area: Rect) -> ItemModel {
    ItemModel::VoltageChart {
        area,
        title: match (r.transfer_low, r.transfer_high) {
            (Some(low), Some(high)) => " Voltage · transfer window "@ + low@ + "–"@ + high@ + " V "@,
            _ => " Voltage "@,
        },
        input: SeriesModel {
            name: voltage_name("in"@, r.volts_in),
            style: style::fg(Color::Yellow),
            samples: history::recent(a.volt_in, now, history::HIST_SECS as int),
        },
        output: SeriesModel {
            name: voltage_name("out"@, r.volts_out),
            style: style::fg(Color::Cyan),
            samples: history::recent(a.volt_out, now, history::HIST_SECS as int),
        },
        now,
        x: time_axis(),
        y_style: style::gray(),
    }
}

fn make_voltage_name(side: &str, volts: &Option<String>) -> (res: String)
    ensures
        res@ == voltage_name(side@, *volts),
{
    let mut name: String = side.to_owned();
    if let Some(v) = volts {
        name.append(" ");
        name.append(v.as_str());
        name.append("V");
    }
    name
}

/// Computes the chart of the voltages.
pub fn draw_voltage_chart(a: &App, r: &Readings, now: u128, area: Rect) -> (res: Item)
    ensures
        res@ == voltage_chart(a@, *r, now, area),
{
    let title: String = match (&r.transfer_low, &r.transfer_high) {
        (Some(low), Some(high)) => {
            let mut title: String = " Voltage · transfer window ".to_owned();
            title.append(low.as_str());
            title.append("–");
            title.append(high.as_str());
            title.append(" V ");
            title
        },
        _ => " Voltage ".to_owned(),
    };
    Item::VoltageChart {
        area,
        title,
        input: Series {
            name: make_voltage_name("in", &r.volts_in),
            style: Style::fg(Color::Yellow),
            samples: history::displayed(&a.volt_in, now),
        },
        output: Series {
            name: make_voltage_name("out", &r.volts_out),
            style: Style::fg(Color::Cyan),
            samples: history::displayed(&a.volt_out, now),
        },
        now,
        x: make_time_axis(),
        y_style: Style::gray(),
    }
}

// ------------------------------------------------------------------ status

/// What a word of the status means, and in which color it is shown. A word that
/// is not known is shown as it is.
pub open spec fn token(word: Seq<char>) -> (Seq<char>, Color) {
    if word == "OL"@ {
        ("ONLINE"@, Color::Green)
    } else if word == "OB"@ {
        ("ON BATTERY"@, Color::Yellow)
    } else if word == "LB"@ {
        ("LOW BATTERY"@, Color::Red)
    } else if word == "HB"@ {
        ("HIGH BATTERY"@, Color::Yellow)
    } else if word == "CHRG"@ {
        ("CHARGING"@, Color::Cyan)
    } else if word == "DISCHRG"@ {
        ("DISCHARGING"@, Color::Yellow)
    } else if word == "RB"@ {
        ("REPLACE BATTERY"@, Color::Red)
    } else if word == "BYPASS"@ {
        ("BYPASS"@, Color::Red)
    } else if word == "OFF"@ {
        ("OUTPUT OFF"@, Color::Red)
    } else if word == "OVER"@ {
        ("OVERLOAD"@, Color::Red)
    } else if word == "TRIM"@ {
        ("TRIMMING"@, Color::Yellow)
    } else if word == "BOOST"@ {
        ("BOOSTING"@, Color::Yellow)
    } else if word == "CAL"@ {
        ("CALIBRATING"@, Color::Cyan)
    } else if word == "FSD"@ {
        ("FORCED SHUTDOWN"@, Color::Red)
    } else {
        (word, Color::White)
    }
}

/// What a word of the status means, and in which color it is shown.
pub fn status_token(word: &str) -> (res: (String, Color))
    ensures
        (res.0@, res.1) == token(word@),
{
    let (label, color): (&str, Color) = if text::same(word, "OL") {
        ("ONLINE", Color::Green)
    } else if text::same(word, "OB") {
        ("ON BATTERY", Color::Yellow)
    } else if text::same(word, "LB") {
        ("LOW BATTERY", Color::Red)
    } else if text::same(word, "HB") {
        ("HIGH BATTERY", Color::Yellow)
    } else if text::same(word, "CHRG") {
        ("CHARGING", Color::Cyan)
    } else if text::same(word, "DISCHRG") {
        ("DISCHARGING", Color::Yellow)
    } else if text::same(word, "RB") {
        ("REPLACE BATTERY", Color::Red)
    } else if text::same(word, "BYPASS") {
        ("BYPASS", Color::Red)
    } else if text::same(word, "OFF") {
        ("OUTPUT OFF", Color::Red)
    } else if text::same(word, "OVER") {
        ("OVERLOAD", Color::Red)
    } else if text::same(word, "TRIM") {
        ("TRIMMING", Color::Yellow)
    } else if text::same(word, "BOOST") {
        ("BOOSTING", Color::Yellow)
    } else if text::same(word, "CAL") {
        ("CALIBRATING", Color::Cyan)
    } else if text::same(word, "FSD") {
        ("FORCED SHUTDOWN", Color::Red)
    } else {
        (word, Color::White)
    };
    (label.to_owned(), color)
}

/// A word of the status as it is shown.
pub open spec fn token_piece(word: Seq<char>) -> SpanModel {
    style::piece(token(word).0, style::bold(style::fg(token(word).1)))
}

/// The words of the status as they are shown, with dots between them.
pub open spec fn token_pieces(words: Seq<Seq<char>>) -> Seq<SpanModel>
    decreases words.len(),
{
    if words.len() == 0 {
        Seq::empty()
    } else if words.len() == 1 {
        seq![token_piece(words[0])]
    } else {
        token_pieces(words.drop_last()).push(style::piece(" · "@, style::gray())).push(
            token_piece(words.last()),
        )
    }
}

/// The line with the status of the device.
pub open spec fn status_line(a: AppModel) -> LineModel {
    let label = seq![style::piece("Status   "@, style::gray())];
    let status = app::status_of(a);
    style::line(
        if status.len() == 0 {
            label.push(style::piece("no data yet"@, style::italic(style::gray())))
        } else {
            label + token_pieces(text::words_of(status))
        },
    )
}

fn make_status_line(a: &App) -> (res: Line)
    ensures
        res@ == status_line(a@),
{
    let mut spans: Vec<Span> = Vec::new();
    spans.push(Span::new("Status   ", Style::gray()));
    let ghost label = seq![style::piece("Status   "@, style::gray())];
    assert(style::spans_view(spans@) =~= label);
    if a.status().unicode_len() == 0 {
        spans.push(Span::new("no data yet", Style::gray().italic()));
        assert(style::spans_view(spans@) =~= label.push(
            style::piece("no data yet"@, style::italic(style::gray())),
        ));
        return Line { spans, style: Style::plain() };
    }
    let words: Vec<String> = text::words(a.status());
    let ghost all = text::strings_view(words@);
    let mut i: usize = 0;
    assert(style::spans_view(spans@) =~= label + token_pieces(all.take(0)));
    while i < words.len()
        invariant
            i <= words@.len(),
            all == text::strings_view(words@),
            style::spans_view(spans@) == label + token_pieces(all.take(i as int)),
        decreases words@.len() - i,
    {
        let ghost before = style::spans_view(spans@);
        let ghost done = token_pieces(all.take(i as int));
        proof {
            assert(all.take(i + 1).drop_last() =~= all.take(i as int));
            assert(all.take(i + 1).last() == words@[i as int]@);
        }
        if i > 0 {
            spans.push(Span::new(" · ", Style::gray()));
        }
        let (label_text, color): (String, Color) = status_token(words[i].as_str());
        spans.push(Span { text: label_text, style: Style::fg(color).bold() });
        proof {
            let this = token_piece(words@[i as int]@);
            let dot = style::piece(" · "@, style::gray());
            if i > 0 {
                assert(style::spans_view(spans@) =~= before.push(dot).push(this));
                assert(style::spans_view(spans@) =~= label + done.push(dot).push(this));
            } else {
                assert(style::spans_view(spans@) =~= before.push(this));
                assert(all.take(1)[0] == words@[0]@);
                assert(style::spans_view(spans@) =~= label + seq![this]);
            }
        }
        i = i + 1;
    }
    assert(all.take(i as int) =~= all);
    Line { spans, style: Style::plain() }
}

/// A label, then a value.
pub open spec fn labelled(label: Seq<char>, value: Seq<char>) -> LineModel {
    style::line(
        seq![
            style::piece(text::padded_to(label, 9), style::gray()),
            style::piece(value, style::plain()),
        ],
    )
}

fn kv(label: &str, value: &str) -> (res: Line)
    ensures
        res@ == labelled(label@, value@),
{
    Line::two(
        Span::new(text::padded(label, 9).as_str(), Style::gray()),
        Span::new(value, Style::plain()),
    )
}

/// The runtime that is left, and the one below which the system is shut down.
pub open spec fn runtime_text(r: Readings) -> Seq<char> {
    (match r.runtime {
        Some(secs) => trend::duration(secs as nat),
        None => "–"@,
    }) + match r.low_runtime {
        Some(secs) => " (shutdown below "@ + trend::duration(secs as nat) + ")"@,
        None => ""@,
    }
}

fn make_runtime_text(r: &Readings) -> (res: String)
    ensures
        res@ == runtime_text(*r),
{
    let mut out: String = match r.runtime {
        Some(secs) => trend::fmt_dur(secs),
        None => "–".to_owned(),
    };
    match r.low_runtime {
        Some(secs) => {
            let mut low: String = " (shutdown below ".to_owned();
            low.append(trend::fmt_dur(secs).as_str());
            low.append(")");
            out.append(low.as_str());
        },
        None => {
            out.append("");
        },
    }
    out
}

/// The state of the battery.
pub open spec fn battery_text(a: AppModel) -> Seq<char> {
    app::shown(a, "battery.voltage"@) + " V (nom "@ + app::shown(a, "battery.voltage.nominal"@)
        + " V) · "@ + app::shown(a, "battery.type"@)
}

fn make_battery_text(a: &App) -> (res: String)
    ensures
        res@ == battery_text(a@),
{
    let mut out: String = a.s("battery.voltage").to_owned();
    out.append(" V (nom ");
    out.append(a.s("battery.voltage.nominal"));
    out.append(" V) · ");
    out.append(a.s("battery.type"));
    out
}

/// The state of the mains and of the output.
pub open spec fn power_text(a: AppModel) -> Seq<char> {
    "in "@ + app::shown(a, "input.voltage"@) + " V · "@ + app::shown(a, "input.frequency"@)
        + " Hz   out "@ + app::shown(a, "output.voltage"@) + " V · "@ + app::shown(
        a,
        "output.frequency"@,
    ) + " Hz"@
}

fn make_power_text(a: &App) -> (res: String)
    ensures
        res@ == power_text(a@),
{
    let mut out: String = "in ".to_owned();
    out.append(a.s("input.voltage"));
    out.append(" V · ");
    out.append(a.s("input.frequency"));
    out.append(" Hz   out ");
    out.append(a.s("output.voltage"));
    out.append(" V · ");
    out.append(a.s("output.frequency"));
    out.append(" Hz");
    out
}

/// Temperature and beeper.
pub open spec fn misc_text(a: AppModel) -> Seq<char> {
    "temp "@ + app::shown(a, "ups.temperature"@) + " °C · beeper "@ + app::shown(
        a,
        "ups.beeper.status"@,
    )
}

fn make_misc_text(a: &App) -> (res: String)
    ensures
        res@ == misc_text(a@),
{
    let mut out: String = "temp ".to_owned();
    out.append(a.s("ups.temperature"));
    out.append(" °C · beeper ");
    out.append(a.s("ups.beeper.status"));
    out
}

/// The lines at the top of the status panel.
pub open spec fn info_lines(a: AppModel, r: Readings) -> Seq<LineModel> {
    seq![
        status_line(a),
        labelled("Runtime"@, runtime_text(r)),
        labelled(
            "Trend"@,
            match trend::prediction(a, r.trend) {
                Some(p) => p,
                None => "steady"@,
            },
        ),
        labelled("Battery"@, battery_text(a)),
        labelled("Power"@, power_text(a)),
        labelled("Misc"@, misc_text(a)),
        labelled("Test"@, app::shown(a, "ups.test.result"@)),
        style::line(Seq::empty()),
    ]
}

fn make_info_lines(a: &App, r: &Readings) -> (res: Vec<Line>)
    ensures
        style::lines_view(res@) == info_lines(a@, *r),
{
    let trend_text: String = match a.trend_eta(&r.trend) {
        Some(p) => p,
        None => "steady".to_owned(),
    };
    let mut lines: Vec<Line> = Vec::new();
    lines.push(make_status_line(a));
    lines.push(kv("Runtime", make_runtime_text(r).as_str()));
    lines.push(kv("Trend", trend_text.as_str()));
    lines.push(kv("Battery", make_battery_text(a).as_str()));
    lines.push(kv("Power", make_power_text(a).as_str()));
    lines.push(kv("Misc", make_misc_text(a).as_str()));
    lines.push(kv("Test", a.s("ups.test.result")));
    lines.push(Line::empty());
    assert(style::lines_view(lines@) =~= info_lines(a@, *r));
    lines
}

/// The title of the status panel: what the device is.
pub open spec fn device_title(a: AppModel) -> Seq<char> {
    " "@ + text::trimmed(app::shown(a, "device.mfr"@)) + " "@ + text::trimmed(
        app::shown(a, "device.model"@),
    ) + " · SN "@ + text::trimmed(app::shown(a, "device.serial"@)) + " "@
}

fn make_device_title(a: &App) -> (res: String)
    ensures
        res@ == device_title(a@),
{
    let mut out: String = " ".to_owned();
    out.append(text::trim(a.s("device.mfr")));
    out.append(" ");
    out.append(text::trim(a.s("device.model")));
    out.append(" · SN ");
    out.append(text::trim(a.s("device.serial")));
    out.append(" ");
    out
}

/// A gauge is filled in a color, on black.
pub open spec fn gauge_style(color: Color) -> Style {
    style::on(style::fg(color), Color::Black)
}

/// The gauge of the charge: green above one half, yellow above the cutoff, red
/// below.
pub open spec fn charge_gauge(a: AppModel, r: Readings, area: Rect) -> ItemModel {
    ItemModel::Gauge {
        area,
        value: reading_or(a, "battery.charge"@, "0"@),
        label: "battery "@ + or_text(r.charge, "0"@) + "%"@,
        style: gauge_style(
            if r.charge_over_half {
                Color::Green
            } else if r.charge_over_cutoff {
                Color::Yellow
            } else {
                Color::Red
            },
        ),
    }
}

fn draw_charge_gauge(a: &App, r: &Readings, area: Rect) -> (res: Item)
    ensures
        res@ == charge_gauge(a@, *r, area),
{
    let mut label: String = "battery ".to_owned();
    label.append(text_or(&r.charge, "0"));
    label.append("%");
    let color: Color = if r.charge_over_half {
        Color::Green
    } else if r.charge_over_cutoff {
        Color::Yellow
    } else {
        Color::Red
    };
    Item::Gauge {
        area,
        value: number_or(a, "battery.charge", "0"),
        label,
        style: Style::fg(color).on(Color::Black),
    }
}

/// The gauge of the load, with the power where it is known.
pub open spec fn load_gauge(a: AppModel, r: Readings, area: Rect) -> ItemModel {
    ItemModel::Gauge {
        area,
        value: reading_or(a, "ups.load"@, "0"@),
        label: "load "@ + or_text(r.load, "0"@) + "%"@ + match r.watts {
            Some(w) => " · ~"@ + w@ + " W"@,
            None => ""@,
        },
        style: gauge_style(
            if r.load_under_60 {
                Color::Cyan
            } else if r.load_under_85 {
                Color::Yellow
            } else {
                Color::Red
            },
        ),
    }
}

fn draw_load_gauge(a: &App, r: &Readings, area: Rect) -> (res: Item)
    ensures
        res@ == load_gauge(a@, *r, area),
{
    let mut label: String = "load ".to_owned();
    label.append(text_or(&r.load, "0"));
    label.append("%");
    match &r.watts {
        Some(w) => {
            let mut watts: String = " · ~".to_owned();
            watts.append(w.as_str());
            watts.append(" W");
            label.append(watts.as_str());
        },
        None => {
            label.append("");
        },
    }
    let color: Color = if r.load_under_60 {
        Color::Cyan
    } else if r.load_under_85 {
        Color::Yellow
    } else {
        Color::Red
    };
    Item::Gauge {
        area,
        value: number_or(a, "ups.load", "0"),
        label,
        style: Style::fg(color).on(Color::Black),
    }
}

/// A button as it is shown.
pub open spec fn button_item(b: ButtonModel, area: Rect) -> ItemModel {
    ItemModel::Panel(
        PanelModel {
            area,
            lines: seq![style::words(b.label + " ("@ + seq![b.key] + ")"@)],
            align: Align::Center,
            style: style::fg(Color::Cyan),
            border: Some(BorderModel { title: None, style: style::gray() }),
        },
    )
}

fn draw_button(b: &Button, area: Rect) -> (res: Item)
    ensures
        res@ == button_item(b@, area),
{
    let mut label: String = b.label.clone();
    label.append(" (");
    label.push(b.key);
    label.append(")");
    assert(label@ =~= b.label@ + " ("@ + seq![b.key] + ")"@);
    let mut lines: Vec<Line> = Vec::new();
    lines.push(Line::words(label.as_str()));
    assert(style::lines_view(lines@) =~= seq![style::words(label@)]);
    let res = Item::Panel(
        Panel {
            area,
            lines,
            align: Align::Center,
            style: Style::fg(Color::Cyan),
            border: Some(Border { title: None, style: Style::gray() }),
        },
    );
    assert(res@->Panel_0 =~= button_item(b@, area)->Panel_0);
    res
}

/// The newest lines of the log, as many as there is room for.
pub open spec fn log_lines(a: AppModel, room: nat) -> Seq<LineModel> {
    app::newest(a.log, room).map_values(
        |l: Seq<char>| LineModel { spans: seq![style::piece(l, style::plain())], style: style::gray() },
    )
}

fn make_log_lines(a: &App, room: u16) -> (res: Vec<Line>)
    ensures
        style::lines_view(res@) == log_lines(a@, room as nat),
{
    let ghost shown = log_lines(a@, room as nat);
    let len: usize = a.log.len();
    let start: usize = if len <= room as usize {
        0
    } else {
        len - room as usize
    };
    let mut out: Vec<Line> = Vec::new();
    let mut i: usize = start;
    while i < len
        invariant
            start <= i <= len,
            len == a.log@.len(),
            start == if len <= room {
                0
            } else {
                len - room
            },
            shown == log_lines(a@, room as nat),
            style::lines_view(out@) =~= shown.take(i - start),
        decreases len - i,
    {
        let ghost before = style::lines_view(out@);
        let mut line: Line = Line::words(a.log[i].as_str());
        line.style = Style::gray();
        out.push(line);
        assert(app::newest(a@.log, room as nat)[i - start] == a.log@[i as int]@);
        assert(style::lines_view(out@) =~= before.push(shown[i - start]));
        i = i + 1;
    }
    assert(shown.take(i - start) =~= shown);
    out
}

/// Where the parts of the status panel are.
pub struct StatusPlaces {
    pub frame: Rect,
    pub info: Rect,
    pub charge: Rect,
    pub load: Rect,
    /// The row of the buttons.
    pub bar: Rect,
    /// One area for each button.
    pub buttons: [Rect; 4],
    pub log: Rect,
}

/// The status panel.
pub open spec fn status_panel(a: AppModel, r: Readings, p: StatusPlaces) -> Seq<ItemModel> {
    seq![
        items::panel(
            p.frame,
            Seq::empty(),
            Align::Left,
            items::titled(device_title(a), style::plain()),
        ),
        items::panel(p.info, info_lines(a, r), Align::Left, None),
        charge_gauge(a, r, p.charge),
        load_gauge(a, r, p.load),
    ] + Seq::new(
        input::all_buttons().len(),
        |i: int| button_item(input::all_buttons()[i], p.buttons@[i]),
    ) + seq![items::panel(p.log, log_lines(a, p.log.height as nat), Align::Left, None)]
}

/// Computes the status panel.
pub fn draw_status(a: &App, r: &Readings, p: &StatusPlaces) -> (res: Vec<Item>)
    ensures
        items::items_view(res@) == status_panel(a@, *r, *p),
{
    let mut out: Vec<Item> = Vec::new();
    let none: Vec<Line> = Vec::new();
    assert(style::lines_view(none@) =~= Seq::<LineModel>::empty());
    out.push(
        items::make_panel(
            p.frame,
            none,
            Align::Left,
            items::border_with(make_device_title(a).as_str(), Style::plain()),
        ),
    );
    out.push(items::make_panel(p.info, make_info_lines(a, r), Align::Left, None));
    out.push(draw_charge_gauge(a, r, p.charge));
    out.push(draw_load_gauge(a, r, p.load));
    let ghost head = items::items_view(out@);
    assert(head =~= seq![
        items::panel(
            p.frame,
            Seq::empty(),
            Align::Left,
            items::titled(device_title(a@), style::plain()),
        ),
        items::panel(p.info, info_lines(a@, *r), Align::Left, None),
        charge_gauge(a@, *r, p.charge),
        load_gauge(a@, *r, p.load),
    ]);
    let ghost middle = Seq::new(
        input::all_buttons().len(),
        |i: int| button_item(input::all_buttons()[i], p.buttons@[i]),
    );
    let list: Vec<Button> = input::buttons();
    let mut i: usize = 0;
    assert(items::items_view(out@) =~= head + middle.take(0));
    while i < list.len()
        invariant
            i <= list@.len(),
            list@.map_values(|b: Button| b@) == input::all_buttons(),
            middle == Seq::new(
                input::all_buttons().len(),
                |i: int| button_item(input::all_buttons()[i], p.buttons@[i]),
            ),
            items::items_view(out@) =~= head + middle.take(i as int),
        decreases list@.len() - i,
    {
        let ghost before = items::items_view(out@);
        assert(list@.map_values(|b: Button| b@)[i as int] == list@[i as int]@);
        out.push(draw_button(&list[i], p.buttons[i]));
        assert(items::items_view(out@) =~= before.push(middle[i as int]));
        i = i + 1;
    }
    assert(list@.map_values(|b: Button| b@).len() == list@.len());
    let ghost so_far = items::items_view(out@);
    assert(so_far =~= head + middle);
    out.push(items::make_panel(p.log, make_log_lines(a, p.log.height), Align::Left, None));
    assert(items::items_view(out@) =~= so_far.push(
        items::panel(p.log, log_lines(a@, p.log.height as nat), Align::Left, None),
    ));
    assert(items::items_view(out@) =~= status_panel(a@, *r, *p));
    out
}

/// The hitboxes of the buttons.
pub open spec fn hitboxes(areas: Seq<Rect>) -> Seq<(Rect, Seq<char>)> {
    Seq::new(input::all_buttons().len(), |i: int| (areas[i], input::all_buttons()[i].cmd))
}

/// Computes the hitboxes of the buttons.
pub fn button_boxes(areas: &[Rect; 4]) -> (res: Vec<(Rect, String)>)
    ensures
        app::buttons_view(res@) == hitboxes(areas@),
{
    let list: Vec<Button> = input::buttons();
    let mut out: Vec<(Rect, String)> = Vec::new();
    let mut i: usize = 0;
    while i < list.len()
        invariant
            i <= list@.len(),
            list@.map_values(|b: Button| b@) == input::all_buttons(),
            app::buttons_view(out@) =~= hitboxes(areas@).take(i as int),
        decreases list@.len() - i,
    {
        let ghost before = app::buttons_view(out@);
        assert(list@.map_values(|b: Button| b@)[i as int] == list@[i as int]@);
        out.push((areas[i], list[i].cmd.clone()));
        assert(app::buttons_view(out@) =~= before.push(hitboxes(areas@)[i as int]));
        i = i + 1;
    }
    assert(list@.map_values(|b: Button| b@).len() == list@.len());
    assert(hitboxes(areas@).take(i as int) =~= hitboxes(areas@));
    out
}

// ------------------------------------------------------- variables and footer

/// The table of all variables, in the order of their names, below a header. The
/// names get two fifths of the width, the values three.
pub open spec fn vars_table(a: AppModel, area: Rect) -> ItemModel {
    ItemModel::Table {
        area,
        title: " All UPS data · "@ + number::decimal_of(a.vars.len()) + " vars "@,
        header: ("variable"@, "value"@),
        header_style: style::bold(style::gray()),
        widths: (2, 3),
        rows: vars::listing(a.vars),
        selected: style::reversed(),
    }
}

fn copied(pairs: &Vec<(String, String)>) -> (res: Vec<(String, String)>)
    ensures
        text::pairs_view(res@) == text::pairs_view(pairs@),
{
    let mut out: Vec<(String, String)> = Vec::new();
    let mut i: usize = 0;
    while i < pairs.len()
        invariant
            i <= pairs@.len(),
            text::pairs_view(out@) =~= text::pairs_view(pairs@).take(i as int),
        decreases pairs@.len() - i,
    {
        let ghost before = text::pairs_view(out@);
        out.push((pairs[i].0.clone(), pairs[i].1.clone()));
        assert(text::pairs_view(out@) =~= before.push(text::pairs_view(pairs@)[i as int]));
        i = i + 1;
    }
    out
}

/// Computes the table of all variables.
pub fn draw_vars(a: &App, area: Rect) -> (res: Item)
    ensures
        res@ == vars_table(a@, area),
{
    let mut title: String = " All UPS data · ".to_owned();
    title.append(number::decimal(a.vars.len() as u128).as_str());
    title.append(" vars ");
    Item::Table {
        area,
        title,
        header: ("variable".to_owned(), "value".to_owned()),
        header_style: Style::gray().bold(),
        widths: (2, 3),
        rows: copied(a.vars.entries()),
        selected: Style::reversed(),
    }
}

/// What the footer says: whether the server answers, who it is, what went wrong
/// last, and the most useful keys.
pub open spec fn footer_line(a: AppModel) -> LineModel {
    style::line(
        seq![
            style::piece(" "@, style::plain()),
            style::piece(
                "●"@,
                style::fg(
                    if a.connected {
                        Color::Green
                    } else {
                        Color::Red
                    },
                ),
            ),
            style::piece(
                " "@ + a.ups + "@"@ + client::address(a.host, a.port) + "  "@,
                style::plain(),
            ),
        ] + match a.last_error {
            Some(e) => seq![style::piece(e + "  "@, style::fg(Color::Red))],
            None => Seq::empty(),
        } + seq![
            style::piece("q quit · m menu · t/d/s tests · b beeper · ↑↓ scroll"@, style::gray()),
        ],
    )
}

fn make_footer_line(a: &App) -> (res: Line)
    ensures
        res@ == footer_line(a@),
{
    let mut who: String = " ".to_owned();
    who.append(a.ups.as_str());
    who.append("@");
    who.append(client::address_text(a.host.as_str(), a.port).as_str());
    who.append("  ");
    let dot: Color = if a.connected {
        Color::Green
    } else {
        Color::Red
    };
    let mut spans: Vec<Span> = Vec::new();
    spans.push(Span::new(" ", Style::plain()));
    spans.push(Span::new("●", Style::fg(dot)));
    spans.push(Span::new(who.as_str(), Style::plain()));
    if let Some(e) = &a.last_error {
        let mut error: String = e.clone();
        error.append("  ");
        spans.push(Span::new(error.as_str(), Style::fg(Color::Red)));
    }
    spans.push(Span::new("q quit · m menu · t/d/s tests · b beeper · ↑↓ scroll", Style::gray()));
    assert(style::spans_view(spans@) =~= footer_line(a@).spans);
    Line { spans, style: Style::plain() }
}

/// The footer, and the hint at its end.
pub open spec fn footer(a: AppModel, area: Rect, hint: Rect) -> Seq<ItemModel> {
    seq![
        items::panel(area, seq![footer_line(a)], Align::Left, None),
        items::panel(
            hint,
            seq![
                style::line(
                    seq![style::piece("Press '?' for help "@, style::italic(style::gray()))],
                ),
            ],
            Align::Right,
            None,
        ),
    ]
}

/// Computes the footer.
pub fn draw_footer(a: &App, area: Rect, hint: Rect) -> (res: Vec<Item>)
    ensures
        items::items_view(res@) == footer(a@, area, hint),
{
    let mut left: Vec<Line> = Vec::new();
    left.push(make_footer_line(a));
    assert(style::lines_view(left@) =~= seq![footer_line(a@)]);
    let mut right: Vec<Line> = Vec::new();
    right.push(Line::one(Span::new("Press '?' for help ", Style::gray().italic())));
    assert(style::lines_view(right@) =~= seq![
        style::line(seq![style::piece("Press '?' for help "@, style::italic(style::gray()))]),
    ]);
    let mut out: Vec<Item> = Vec::new();
    out.push(items::make_panel(area, left, Align::Left, None));
    out.push(items::make_panel(hint, right, Align::Right, None));
    assert(items::items_view(out@) =~= footer(a@, area, hint));
    out
}

} // verus!
