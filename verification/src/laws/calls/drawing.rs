//! What the calls that compute the screen promise.

use vstd::prelude::*;

use crate::app;
use crate::app::{App, AppModel};
use crate::geometry;
use crate::geometry::{Part, Rect};
use crate::items;
use crate::items::{Align, Border, Item, ItemModel};
use crate::laws;
use crate::panels;
use crate::panels::{Readings, StatusPlaces};
use crate::plan;
use crate::popups;
use crate::style;
use crate::style::{Color, Line, Span, Style};
use crate::text;
use crate::ui;
use crate::ui::Places;

verus! {

// ------------------------------------------------------------------- pieces

/// Styles: without anything, muted, in a color, on a color, with the colors swapped,
/// bold, italic.
pub proof fn making_styles(
    s: Style,
    color: Color,
    plain: Style,
    gray: Style,
    fg: Style,
    on: Style,
    reversed: Style,
    bold: Style,
    italic: Style,
)
    requires
        call_ensures(Style::plain, (), plain),
        call_ensures(Style::gray, (), gray),
        call_ensures(Style::fg, (color,), fg),
        call_ensures(Style::on, (s, color), on),
        call_ensures(Style::reversed, (), reversed),
        call_ensures(Style::bold, (s,), bold),
        call_ensures(Style::italic, (s,), italic),
    ensures
        plain == laws::screen::look(None, false, false, false),
        gray == laws::screen::look(None, false, true, false),
        fg == laws::screen::look(Some(color), false, false, false),
        on == (Style { bg: Some(color), ..s }),
        reversed == (Style { reversed: true, ..plain }),
        bold == (Style { bold: true, ..s }),
        italic == (Style { italic: true, ..s }),
{
    laws::screen::styles_change_one_thing(s, color);
}

/// A piece holds its text in its style, and a line its pieces in their order.
pub proof fn making_lines(
    t: &str,
    s: Style,
    a: Span,
    b: Span,
    c: Span,
    piece: Span,
    one: Line,
    two: Line,
    three: Line,
    words: Line,
    none: Line,
)
    requires
        call_ensures(Span::new, (t, s), piece),
        call_ensures(Line::one, (a,), one),
        call_ensures(Line::two, (a, b), two),
        call_ensures(Line::three, (a, b, c), three),
        call_ensures(Line::words, (t,), words),
        call_ensures(Line::empty, (), none),
    ensures
        piece.text@ == t@ && piece.style == s,
        one.spans@.len() == 1 && one.spans@[0]@ == a@,
        two.spans@.len() == 2 && two.spans@[0]@ == a@ && two.spans@[1]@ == b@,
        three.spans@.len() == 3 && three.spans@[0]@ == a@ && three.spans@[1]@ == b@
            && three.spans@[2]@ == c@,
        words.spans@.len() == 1 && words.spans@[0].text@ == t@,
        words.spans@[0].style == laws::screen::look(None, false, false, false),
        none.spans@.len() == 0,
        one.style == laws::screen::look(None, false, false, false),
        two.style == one.style && three.style == one.style && words.style == one.style,
{
    assert(piece@.text == piece.text@);
    assert(one@.spans.len() == one.spans@.len() && one@.spans[0] == one.spans@[0]@);
    assert(two@.spans.len() == two.spans@.len());
    assert(two@.spans[0] == two.spans@[0]@ && two@.spans[1] == two.spans@[1]@);
    assert(three@.spans.len() == three.spans@.len());
    assert(three@.spans[0] == three.spans@[0]@ && three@.spans[1] == three.spans@[1]@);
    assert(three@.spans[2] == three.spans@[2]@);
    laws::screen::lines_hold_their_pieces(Seq::empty(), t@, s);
    assert(words@.spans.len() == words.spans@.len());
    assert(words@.spans[0] == words.spans@[0]@);
    assert(none@.spans.len() == none.spans@.len());
}

/// A panel holds its lines in its area, in the plain style; a border holds its title.
pub proof fn making_panels(
    area: Rect,
    lines: Vec<Line>,
    align: Align,
    border: Option<Border>,
    title: &str,
    s: Style,
    item: Item,
    with: Option<Border>,
)
    requires
        call_ensures(items::make_panel, (area, lines, align, border), item),
        call_ensures(items::border_with, (title, s), with),
    ensures
        item matches Item::Panel(p) && p.area == area && p.align == align && p.style
            == laws::screen::look(None, false, false, false) && style::lines_view(p.lines@)
            == style::lines_view(lines@) && (p.border is Some <==> border is Some),
        with matches Some(b) && b.style == s && (b.title matches Some(t) && t@ == title@),
{
    assert(with is Some);
    let b = with->0;
    assert(b@.title == text::opt_view(b.title));
    if let Item::Panel(p) = item {
        assert(item@ == ItemModel::Panel(p@));
        assert(p@.lines == style::lines_view(p.lines@));
    }
}

/// Items are modelled one by one, each with its own contents.
pub proof fn model_of_items(
    area: Rect,
    x: String,
    y: String,
    s: Style,
    lines: Vec<Line>,
    rows: Vec<(String, String)>,
)
    ensures
        Item::Clear(area)@ == ItemModel::Clear(area),
        (Item::Gauge { area, value: x, label: y, style: s })@ == (ItemModel::Gauge {
            area,
            value: x@,
            label: y@,
            style: s,
        }),
        (Item::Menu { area, title: x, lines, selected: s })@ == (ItemModel::Menu {
            area,
            title: x@,
            lines: style::lines_view(lines@),
            selected: s,
        }),
        (Item::Table {
            area,
            title: x,
            header: (x, y),
            header_style: s,
            widths: (2, 3),
            rows,
            selected: s,
        })@ == (ItemModel::Table {
            area,
            title: x@,
            header: (x@, y@),
            header_style: s,
            widths: (2, 3),
            rows: text::pairs_view(rows@),
            selected: s,
        }),
{
}

/// What a word of the status is shown as.
pub proof fn showing_a_word(word: &str, res: (String, Color))
    requires
        call_ensures(panels::status_token, (word,), res),
    ensures
        word@ == "OL"@ ==> res.0@ == "ONLINE"@ && res.1 == Color::Green,
        word@ == "OB"@ ==> res.0@ == "ON BATTERY"@ && res.1 == Color::Yellow,
        word@ == "LB"@ ==> res.0@ == "LOW BATTERY"@ && res.1 == Color::Red,
        word@ == "HB"@ ==> res.0@ == "HIGH BATTERY"@ && res.1 == Color::Yellow,
        word@ == "CHRG"@ ==> res.0@ == "CHARGING"@ && res.1 == Color::Cyan,
        word@ == "DISCHRG"@ ==> res.0@ == "DISCHARGING"@ && res.1 == Color::Yellow,
        word@ == "RB"@ ==> res.0@ == "REPLACE BATTERY"@ && res.1 == Color::Red,
        word@ == "BYPASS"@ ==> res.0@ == "BYPASS"@ && res.1 == Color::Red,
        word@ == "OFF"@ ==> res.0@ == "OUTPUT OFF"@ && res.1 == Color::Red,
        word@ == "OVER"@ ==> res.0@ == "OVERLOAD"@ && res.1 == Color::Red,
        word@ == "TRIM"@ ==> res.0@ == "TRIMMING"@ && res.1 == Color::Yellow,
        word@ == "BOOST"@ ==> res.0@ == "BOOSTING"@ && res.1 == Color::Yellow,
        word@ == "CAL"@ ==> res.0@ == "CALIBRATING"@ && res.1 == Color::Cyan,
        word@ == "FSD"@ ==> res.0@ == "FORCED SHUTDOWN"@ && res.1 == Color::Red,
        !laws::screen::is_known(word@) ==> res.0@ == word@ && res.1 == Color::White,
{
    laws::screen::known_words_of_a_status();
    if !laws::screen::is_known(word@) {
        laws::screen::other_words_of_a_status(word@);
    }
}

// ------------------------------------------------------------------- panels

/// The charts are drawn for the samples of the dashboard, the table for its variables.
pub proof fn drawing_charts_and_table(
    a: &App,
    r: &Readings,
    now: u128,
    area: Rect,
    battery: Item,
    voltage: Item,
    table: Item,
)
    requires
        call_ensures(panels::draw_battery_chart, (a, r, now, area), battery),
        call_ensures(panels::draw_voltage_chart, (a, r, now, area), voltage),
        call_ensures(panels::draw_vars, (a, area), table),
    ensures
        battery@ == panels::battery_chart(a@, *r, now, area),
        battery@ is BatteryChart && battery@->charge.samples == laws::screen::quarter_hour(
            a@.charge,
            now,
        ),
        voltage@ == panels::voltage_chart(a@, *r, now, area),
        voltage@ is VoltageChart && voltage@->input.samples == laws::screen::quarter_hour(
            a@.volt_in,
            now,
        ) && voltage@->output.samples == laws::screen::quarter_hour(a@.volt_out, now),
        table@ == panels::vars_table(a@, area),
{
    laws::screen::chart_of_the_charge(a@, *r, now, area);
    laws::screen::chart_of_the_voltages(a@, *r, now, area);
}

/// The status panel shows, behind the label of its first line, the meaning of each word
/// of the status in order; that there is no data yet it shows only without a status.
pub proof fn drawing_the_status(a: &App, r: &Readings, p: &StatusPlaces, i: int, res: Vec<Item>)
    requires
        call_ensures(panels::draw_status, (a, r, p), res),
    ensures
        items::items_view(res@) == panels::status_panel(a@, *r, *p),
        res@.len() == 9,
        res@[1]@ matches ItemModel::Panel(info) && info.area == p.info && info.lines.len() == 8 && {
            let spans = info.lines[0].spans;
            &&& a.vars@.contains_key("ups.status"@) && 0 <= i < text::words_of(
                a.vars@["ups.status"@],
            ).len() ==> {
                let words = text::words_of(a.vars@["ups.status"@]);
                spans.len() == 2 * words.len() && laws::screen::is_piece(
                    spans[2 * i + 1],
                    panels::token(words[i]).0,
                    laws::screen::look(Some(panels::token(words[i]).1), true, false, false),
                )
            }
            &&& !a.vars@.contains_key("ups.status"@) || a.vars@["ups.status"@].len() == 0
                ==> spans.len() == 2 && spans[1].text == "no data yet"@
        },
{
    let all = items::items_view(res@);
    laws::screen::parts_of_the_status_panel(a@, *r, *p, 0);
    laws::screen::lines_of_the_status_panel(a@, *r);
    laws::screen::no_data_only_without_a_status(a@);
    assert(all.len() == res@.len());
    assert(all[1] == res@[1]@);
    if a.vars@.contains_key("ups.status"@) && 0 <= i < text::words_of(a.vars@["ups.status"@]).len() {
        laws::screen::status_line_shows_every_word(a@, i);
    }
}

/// The boxes of the buttons are where the buttons are, with their commands.
pub proof fn boxing_the_buttons(areas: &[Rect; 4], res: Vec<(Rect, String)>)
    requires
        call_ensures(panels::button_boxes, (areas,), res),
    ensures
        res@.len() == 4,
        res@[0].0 == areas@[0] && res@[0].1@ == "test.battery.start.quick"@,
        res@[1].0 == areas@[1] && res@[1].1@ == "test.battery.start.deep"@,
        res@[2].0 == areas@[2] && res@[2].1@ == "test.battery.stop"@,
        res@[3].0 == areas@[3] && res@[3].1@ == "beeper"@,
{
    let boxes = app::buttons_view(res@);
    laws::screen::boxes_of_the_buttons(areas@);
    assert(boxes.len() == res@.len());
    assert(boxes[0] == (res@[0].0, res@[0].1@) && boxes[1] == (res@[1].0, res@[1].1@));
    assert(boxes[2] == (res@[2].0, res@[2].1@) && boxes[3] == (res@[3].0, res@[3].1@));
}

/// The footer is its line and its hint, and the overlay is that of the mode.
pub proof fn drawing_footer_and_overlay(
    a: &App,
    area: Rect,
    hint: Rect,
    whole: Rect,
    footer: Vec<Item>,
    over: Vec<Item>,
)
    requires
        call_ensures(panels::draw_footer, (a, area, hint), footer),
        call_ensures(popups::draw_popup, (a, whole), over),
    ensures
        items::items_view(footer@) == panels::footer(a@, area, hint),
        items::items_view(over@) == popups::popup(a@, whole),
        a.mode is Normal ==> over@.len() == 0,
        !(a.mode is Normal) ==> over@.len() == 2 && over@[0]@ is Clear,
{
    assert(items::items_view(over@).len() == over@.len());
    if !(a.mode is Normal) {
        assert(items::items_view(over@)[0] == over@[0]@);
    }
}

/// Where the menu is open, the row that is drawn at a place names what activating the
/// row at that place does.
pub proof fn drawing_the_menu(a: &App, whole: Rect, row: int, over: Vec<Item>)
    requires
        call_ensures(popups::draw_popup, (a, whole), over),
        a.mode is Menu,
        0 <= row < a.cmds@.len() + a.rw@.len(),
        a.cmds@.len() + a.rw@.len() <= usize::MAX,
    ensures
        over@.len() == 2,
        over@[1]@ matches ItemModel::Menu { lines, .. } && lines.len() == a.cmds@.len() + a.rw@.len()
            && lines[row].spans.len() == 2 && (row < a.cmds@.len() ==> lines[row].spans[0].text
            == " "@ + text::padded_to(a.cmds@[row].0@, 28) && lines[row].spans[1].text
            == a.cmds@[row].1@) && (row >= a.cmds@.len() ==> lines[row].spans[0].text == " set "@
            + text::padded_to(a.rw@[row - a.cmds@.len()]@, 24)),
{
    let m = a@;
    assert(m.mode == a.mode@);
    assert(m.cmds.len() == a.cmds@.len() && m.rw.len() == a.rw@.len());
    laws::screen::menu_is_drawn(m, whole);
    laws::screen::menu_row_names_its_action(m, row);
    assert(items::items_view(over@).len() == over@.len());
    assert(items::items_view(over@)[1] == over@[1]@);
    if row < a.cmds@.len() {
        laws::state::menu_rows_in_order(m, row);
        assert(m.cmds[row] == (a.cmds@[row].0@, a.cmds@[row].1@));
    } else {
        laws::state::menu_rows_in_order(m, row - a.cmds@.len());
        assert(m.rw[row - a.cmds@.len()] == a.rw@[row - a.cmds@.len()]@);
    }
}

// ------------------------------------------------------------------- places

/// A popup stands in the middle of the screen.
pub proof fn placing_a_popup(area: Rect, width: u32, height: u32, res: Rect)
    requires
        call_ensures(geometry::popup_area, (area, width, height), res),
        area.width >= 2,
        area.height >= 2,
        area.x + area.width <= 65535,
        area.y + area.height <= 65535,
    ensures
        ({
            let left = res.x - area.x;
            let right = area.x + area.width - (res.x + res.width);
            let above = res.y - area.y;
            let below = area.y + area.height - (res.y + res.height);
            &&& width <= area.width - 2 ==> res.width == width
            &&& width > area.width - 2 ==> res.width == area.width - 2
            &&& height <= area.height - 2 ==> res.height == height
            &&& height > area.height - 2 ==> res.height == area.height - 2
            &&& left <= right <= left + 1
            &&& above <= below <= above + 1
        }),
{
    laws::screen::popup_stands_in_the_middle(area, width as int, height as int);
}

/// The sizes that the parts of the screen want.
pub proof fn planning_the_screen(
    basic: Vec<Part>,
    full: Vec<Part>,
    charts: Vec<Part>,
    main: Vec<Part>,
    status: Vec<Part>,
    buttons: Vec<Part>,
    footer: Vec<Part>,
)
    requires
        call_ensures(plan::basic_rows, (), basic),
        call_ensures(plan::full_rows, (), full),
        call_ensures(plan::chart_columns, (), charts),
        call_ensures(plan::main_columns, (), main),
        call_ensures(plan::status_rows, (), status),
        call_ensures(plan::button_columns, (), buttons),
        call_ensures(plan::footer_columns, (), footer),
    ensures
        basic@ == seq![Part::Min(0), Part::Length(1)],
        full@ == seq![Part::Percentage(45), Part::Min(15), Part::Length(1)],
        charts@ == seq![Part::Percentage(50), Part::Percentage(50)],
        main@ == seq![Part::Percentage(46), Part::Percentage(54)],
        status@ == seq![
            Part::Length(8),
            Part::Length(1),
            Part::Length(1),
            Part::Length(3),
            Part::Min(2),
        ],
        buttons@ == seq![
            Part::Ratio(1, 4),
            Part::Ratio(1, 4),
            Part::Ratio(1, 4),
            Part::Ratio(1, 4),
        ],
        footer@ == seq![Part::Min(0), Part::Length(20)],
{
}

/// The parts get their areas in order: from top to bottom the info, the gauges of the
/// charge and of the load, the buttons and the log; the status panel above the footer;
/// the charts above both; and from left to right the two of each row.
pub proof fn arranging_the_screen(
    frame: Rect,
    whole: Rect,
    rows: &Vec<Rect>,
    columns: &Vec<Rect>,
    two: &Vec<Rect>,
    three: &Vec<Rect>,
    charts: &Vec<Rect>,
    main: &Vec<Rect>,
    bottom: &Vec<Rect>,
    part: StatusPlaces,
    status: StatusPlaces,
    basic: Places,
    full: Places,
)
    requires
        call_ensures(ui::arrange_status, (frame, rows, columns), status),
        call_ensures(ui::arrange_basic, (whole, two, bottom, part), basic),
        call_ensures(ui::arrange_full, (whole, three, charts, main, bottom, part), full),
    ensures
        status.frame == frame && status.info == rows@[0] && status.charge == rows@[1],
        status.load == rows@[2] && status.bar == rows@[3] && status.log == rows@[4],
        status.buttons@ == columns@,
        basic.whole == whole && basic.full is None && basic.bottom == two@[1],
        basic.footer == bottom@[0] && basic.hint == bottom@[1] && basic.status == part,
        full.whole == whole && full.bottom == three@[2] && full.status == part,
        full.footer == bottom@[0] && full.hint == bottom@[1],
        full.full matches Some(f) && f.charts == three@[0] && f.battery == charts@[0] && f.voltage
            == charts@[1] && f.main == three@[1] && f.vars == main@[1],
{
}

/// A layout has its parts where they belong, in basic mode without charts and table.
pub proof fn laying_out(whole: Rect, basic: bool, res: Places)
    requires
        call_ensures(ui::lay_out, (whole, basic), res),
    ensures
        ui::fits(res, whole, basic),
        ui::is_laid_out(res, whole),
        res.whole == whole,
        basic <==> res.full is None,
        whole.height >= 30 && whole.width >= 20 && whole.x + whole.width <= 65535 && whole.y
            + whole.height <= 65535 && !basic ==> {
            let high = (45 * whole.height + 50) / 100;
            let left = (46 * whole.width + 50) / 100;
            &&& res.status.frame == ui::boxed(
                whole.x as int,
                whole.y + high,
                left,
                whole.height - 1 - high,
            )
            &&& res.hint == ui::boxed(
                whole.x + whole.width - 20,
                whole.y + whole.height - 1,
                20,
                1,
            )
        },
{
    if whole.height >= 30 && whole.width >= 20 && whole.x + whole.width <= 65535 && whole.y
        + whole.height <= 65535 && !basic {
        ui::panels_of_a_large_screen(res, whole);
    }
}

/// A frame is drawn in a layout that fits the screen, at the given time or at that of
/// the clock, and leaves the boxes of the buttons where they are drawn. Nothing else of
/// the dashboard changes.
pub proof fn drawing_a_frame(
    a: &mut App,
    b: &mut App,
    c: &App,
    r: &Readings,
    p: &Places,
    whole: Rect,
    now: u128,
    one: Vec<Item>,
    other: Vec<Item>,
    composed: Vec<Item>,
)
    requires
        call_ensures(ui::draw_at, (a, r, whole, now), one),
        call_ensures(ui::draw, (b, r, whole), other),
        call_ensures(ui::compose, (c, r, p, now), composed),
    ensures
        items::items_view(composed@) == ui::frame(c@, *r, *p, now),
        exists|q: Places|
            #![trigger ui::fits(q, whole, old(a)@.basic)]
            ui::fits(q, whole, old(a)@.basic) && ui::is_laid_out(q, whole) && final(a)@ == (AppModel {
                buttons: panels::hitboxes(q.status.buttons@),
                ..old(a)@
            }) && items::items_view(one@) == ui::frame(final(a)@, *r, q, now),
        exists|q: Places, t: u128|
            #![trigger ui::frame(final(b)@, *r, q, t)]
            old(b).can_show(t) && ui::fits(q, whole, old(b)@.basic) && ui::is_laid_out(q, whole)
                && final(b)@ == (AppModel {
                buttons: panels::hitboxes(q.status.buttons@),
                ..old(b)@
            }) && items::items_view(other@) == ui::frame(final(b)@, *r, q, t),
{
    let q = choose|q: Places|
        ui::is_laid_out(q, whole) && #[trigger] ui::drawn(
            old(a)@,
            final(a)@,
            *r,
            whole,
            now,
            q,
            items::items_view(one@),
        );
    assert(ui::fits(q, whole, old(a)@.basic));
    let (t, u) = choose|t: u128, u: Places|
        t <= app::longest_span() && old(b).can_show(t) && ui::is_laid_out(u, whole)
            && #[trigger] ui::drawn(
            old(b)@,
            final(b)@,
            *r,
            whole,
            t,
            u,
            items::items_view(other@),
        );
    assert(items::items_view(other@) == ui::frame(final(b)@, *r, u, t));
}

} // verus!
