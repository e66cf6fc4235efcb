//! A frame of the dashboard: where everything is, and all that is drawn.

use vstd::prelude::*;

use crate::app;
use crate::app::{App, AppModel};
use crate::geometry;
use crate::geometry::{Flow, Rect};
use crate::input;
use crate::items;
use crate::items::{Item, ItemModel};
use crate::panels;
use crate::panels::{Readings, StatusPlaces};
use crate::plan;
use crate::popups;

verus! {

/// Where the charts and the table of variables are.
pub struct FullPlaces {
    /// The row of the charts.
    pub charts: Rect,
    pub battery: Rect,
    pub voltage: Rect,
    /// The row of the status panel and the table.
    pub main: Rect,
    pub vars: Rect,
}

/// Where everything is.
pub struct Places {
    pub whole: Rect,
    /// Missing in basic mode, which shows the summary only.
    pub full: Option<FullPlaces>,
    pub status: StatusPlaces,
    /// The row of the footer and its hint.
    pub bottom: Rect,
    pub footer: Rect,
    pub hint: Rect,
}

/// What holds of every layout of the status panel: inside its border, the info
/// lines, the gauge of the charge, that of the load, the buttons and the log follow
/// one another from top to bottom, and the buttons from left to right.
pub open spec fn status_fits(s: StatusPlaces) -> bool {
    &&& geometry::divided(
        geometry::within_border(s.frame),
        Flow::Down,
        plan::status_row_parts(),
        seq![s.info, s.charge, s.load, s.bar, s.log],
    )
    &&& geometry::divided(s.bar, Flow::Across, plan::button_column_parts(), s.buttons@)
}

/// What holds of every layout: from top to bottom the charts, the status panel with
/// the table and the footer divide the whole area; from left to right the charge and
/// the voltages divide the row of the charts, the status panel and the table the row
/// below it, the footer and its hint the last row. In basic mode the status panel
/// and the footer divide the whole area.
pub open spec fn fits(p: Places, whole: Rect, basic: bool) -> bool {
    &&& p.whole == whole
    &&& basic <==> p.full is None
    &&& match p.full {
        Some(f) => {
            &&& geometry::divided(
                whole,
                Flow::Down,
                plan::full_row_parts(),
                seq![f.charts, f.main, p.bottom],
            )
            &&& geometry::divided(
                f.charts,
                Flow::Across,
                plan::chart_column_parts(),
                seq![f.battery, f.voltage],
            )
            &&& geometry::divided(
                f.main,
                Flow::Across,
                plan::main_column_parts(),
                seq![p.status.frame, f.vars],
            )
        },
        None => geometry::divided(
            whole,
            Flow::Down,
            plan::basic_row_parts(),
            seq![p.status.frame, p.bottom],
        ),
    }
    &&& geometry::divided(
        p.bottom,
        Flow::Across,
        plan::footer_column_parts(),
        seq![p.footer, p.hint],
    )
    &&& status_fits(p.status)
}

/// Whether the parts of the status panel are where the layout can put them.
pub open spec fn status_is_laid_out(s: StatusPlaces) -> bool {
    &&& geometry::can_divide(
        geometry::within_border(s.frame),
        Flow::Down,
        plan::status_row_parts(),
        seq![s.info, s.charge, s.load, s.bar, s.log],
    )
    &&& geometry::can_divide(s.bar, Flow::Across, plan::button_column_parts(), s.buttons@)
}

/// Whether everything is where the layout can put it.
pub open spec fn is_laid_out(p: Places, whole: Rect) -> bool {
    &&& match p.full {
        Some(f) => {
            &&& geometry::can_divide(
                whole,
                Flow::Down,
                plan::full_row_parts(),
                seq![f.charts, f.main, p.bottom],
            )
            &&& geometry::can_divide(
                f.charts,
                Flow::Across,
                plan::chart_column_parts(),
                seq![f.battery, f.voltage],
            )
            &&& geometry::can_divide(
                f.main,
                Flow::Across,
                plan::main_column_parts(),
                seq![p.status.frame, f.vars],
            )
        },
        None => geometry::can_divide(
            whole,
            Flow::Down,
            plan::basic_row_parts(),
            seq![p.status.frame, p.bottom],
        ),
    }
    &&& geometry::can_divide(
        p.bottom,
        Flow::Across,
        plan::footer_column_parts(),
        seq![p.footer, p.hint],
    )
    &&& status_is_laid_out(p.status)
}

/// Gives the parts of the status panel their areas: `rows` from top to bottom, and
/// `columns` of the row of the buttons from left to right.
pub fn arrange_status(frame: Rect, rows: &Vec<Rect>, columns: &Vec<Rect>) -> (res: StatusPlaces)
    requires
        rows@.len() == 5,
        columns@.len() == 4,
    ensures
        res.frame == frame,
        res.info == rows@[0],
        res.charge == rows@[1],
        res.load == rows@[2],
        res.bar == rows@[3],
        res.log == rows@[4],
        res.buttons@ == columns@,
{
    let res = StatusPlaces {
        frame,
        info: rows[0],
        charge: rows[1],
        load: rows[2],
        bar: rows[3],
        buttons: [columns[0], columns[1], columns[2], columns[3]],
        log: rows[4],
    };
    assert(res.buttons@ =~= columns@);
    res
}

/// Gives the panels of basic mode their areas: `rows` of the screen from top to
/// bottom, and `bottom`, the columns of the last of them, from left to right.
pub fn arrange_basic(whole: Rect, rows: &Vec<Rect>, bottom: &Vec<Rect>, status: StatusPlaces) -> (res:
    Places)
    requires
        rows@.len() == 2,
        bottom@.len() == 2,
    ensures
        res.whole == whole,
        res.full is None,
        res.status == status,
        res.bottom == rows@[1],
        res.footer == bottom@[0],
        res.hint == bottom@[1],
{
    Places { whole, full: None, status, bottom: rows[1], footer: bottom[0], hint: bottom[1] }
}

/// Gives all panels their areas: `rows` of the screen from top to bottom, and
/// `charts`, `main` and `bottom`, the columns of each of them, from left to right.
pub fn arrange_full(
    whole: Rect,
    rows: &Vec<Rect>,
    charts: &Vec<Rect>,
    main: &Vec<Rect>,
    bottom: &Vec<Rect>,
    status: StatusPlaces,
) -> (res: Places)
    requires
        rows@.len() == 3,
        charts@.len() == 2,
        main@.len() == 2,
        bottom@.len() == 2,
    ensures
        res.whole == whole,
        res.full == Some(
            (FullPlaces {
                charts: rows@[0],
                battery: charts@[0],
                voltage: charts@[1],
                main: rows@[1],
                vars: main@[1],
            }),
        ),
        res.status == status,
        res.bottom == rows@[2],
        res.footer == bottom@[0],
        res.hint == bottom@[1],
{
    Places {
        whole,
        full: Some(
            FullPlaces {
                charts: rows[0],
                battery: charts[0],
                voltage: charts[1],
                main: rows[1],
                vars: main[1],
            },
        ),
        status,
        bottom: rows[2],
        footer: bottom[0],
        hint: bottom[1],
    }
}

fn place_status(frame: Rect) -> (res: StatusPlaces)
    ensures
        res.frame == frame,
        status_fits(res),
        status_is_laid_out(res),
{
    let inner: Rect = geometry::bordered_inner(frame);
    let rows: Vec<Rect> = geometry::divide(inner, Flow::Down, &plan::status_rows());
    let columns: Vec<Rect> = geometry::divide(rows[3], Flow::Across, &plan::button_columns());
    let res: StatusPlaces = arrange_status(frame, &rows, &columns);
    assert(rows@ =~= seq![res.info, res.charge, res.load, res.bar, res.log]);
    res
}

/// Lays the dashboard out in an area.
pub fn lay_out(whole: Rect, basic: bool) -> (res: Places)
    ensures
        fits(res, whole, basic),
        is_laid_out(res, whole),
{
    if basic {
        let rows: Vec<Rect> = geometry::divide(whole, Flow::Down, &plan::basic_rows());
        let bottom: Vec<Rect> = geometry::divide(rows[1], Flow::Across, &plan::footer_columns());
        let res: Places = arrange_basic(whole, &rows, &bottom, place_status(rows[0]));
        assert(rows@ =~= seq![res.status.frame, res.bottom]);
        assert(bottom@ =~= seq![res.footer, res.hint]);
        res
    } else {
        let rows: Vec<Rect> = geometry::divide(whole, Flow::Down, &plan::full_rows());
        let charts: Vec<Rect> = geometry::divide(rows[0], Flow::Across, &plan::chart_columns());
        let main: Vec<Rect> = geometry::divide(rows[1], Flow::Across, &plan::main_columns());
        let bottom: Vec<Rect> = geometry::divide(rows[2], Flow::Across, &plan::footer_columns());
        let status: StatusPlaces = place_status(main[0]);
        let res: Places = arrange_full(whole, &rows, &charts, &main, &bottom, status);
        assert(rows@ =~= seq![rows@[0], rows@[1], rows@[2]]);
        assert(charts@ =~= seq![charts@[0], charts@[1]]);
        assert(main@ =~= seq![res.status.frame, main@[1]]);
        assert(bottom@ =~= seq![res.footer, res.hint]);
        res
    }
}

/// All that is drawn at the time `now`, in the given places: the charts, the status
/// panel and the table (in basic mode the status panel alone), the footer, and over
/// them the overlay that is open.
pub open spec fn frame(a: AppModel, r: Readings, p: Places, now: u128) -> Seq<ItemModel> {
    (match p.full {
        Some(f) => seq![
            panels::battery_chart(a, r, now, f.battery),
            panels::voltage_chart(a, r, now, f.voltage),
        ] + panels::status_panel(a, r, p.status) + seq![panels::vars_table(a, f.vars)],
        None => panels::status_panel(a, r, p.status),
    }) + panels::footer(a, p.footer, p.hint) + popups::popup(a, p.whole)
}

fn put(out: &mut Vec<Item>, more: Vec<Item>)
    ensures
        items::items_view(final(out)@) == items::items_view(old(out)@) + items::items_view(more@),
{
    let ghost before = items::items_view(out@);
    let ghost added = items::items_view(more@);
    let mut more: Vec<Item> = more;
    out.append(&mut more);
    assert(items::items_view(out@) =~= before + added);
}

/// Computes all that is drawn at the time `now`, in the given places.
pub fn compose(a: &App, r: &Readings, p: &Places, now: u128) -> (res: Vec<Item>)
    ensures
        items::items_view(res@) == frame(a@, *r, *p, now),
{
    let mut out: Vec<Item> = Vec::new();
    match &p.full {
        Some(f) => {
            out.push(panels::draw_battery_chart(a, r, now, f.battery));
            out.push(panels::draw_voltage_chart(a, r, now, f.voltage));
            assert(items::items_view(out@) =~= seq![
                panels::battery_chart(a@, *r, now, f.battery),
                panels::voltage_chart(a@, *r, now, f.voltage),
            ]);
            put(&mut out, panels::draw_status(a, r, &p.status));
            let ghost before = items::items_view(out@);
            out.push(panels::draw_vars(a, f.vars));
            assert(items::items_view(out@) =~= before + seq![panels::vars_table(a@, f.vars)]);
        },
        None => {
            put(&mut out, panels::draw_status(a, r, &p.status));
            assert(items::items_view(out@) =~= panels::status_panel(a@, *r, p.status));
        },
    }
    put(&mut out, panels::draw_footer(a, p.footer, p.hint));
    put(&mut out, popups::draw_popup(a, p.whole));
    out
}

/// Whether `list` is a frame of the dashboard in the area `whole` at the time
/// `now`, and `after` the dashboard with the hitboxes of the buttons where they are
/// in that frame, for the layout `p`.
pub open spec fn drawn(
    before: AppModel,
    after: AppModel,
    r: Readings,
    whole: Rect,
    now: u128,
    p: Places,
    list: Seq<ItemModel>,
) -> bool {
    &&& fits(p, whole, before.basic)
    &&& after == (AppModel { buttons: panels::hitboxes(p.status.buttons@), ..before })
    &&& list == frame(after, r, p, now)
}

/// Computes a frame in the given area at the time `now`, and sets the hitboxes of
/// the buttons to where they are in it.
pub fn draw_at(a: &mut App, r: &Readings, whole: Rect, now: u128) -> (res: Vec<Item>)
    ensures
        exists|p: Places|
            is_laid_out(p, whole) && #[trigger] drawn(
                old(a)@,
                final(a)@,
                *r,
                whole,
                now,
                p,
                items::items_view(res@),
            ),
        final(a).start == old(a).start,
{
    let p: Places = lay_out(whole, a.basic);
    a.buttons = panels::button_boxes(&p.status.buttons);
    let res: Vec<Item> = compose(a, r, &p, now);
    assert(drawn(old(a)@, a@, *r, whole, now, p, items::items_view(res@)));
    res
}

/// Computes a frame in the given area, and sets the hitboxes of the buttons to
/// where they are in it.
pub fn draw(a: &mut App, r: &Readings, whole: Rect) -> (res: Vec<Item>)
    ensures
        exists|now: u128, p: Places|
            now <= app::longest_span() && old(a).can_show(now) && is_laid_out(p, whole)
                && #[trigger] drawn(
                old(a)@,
                final(a)@,
                *r,
                whole,
                now,
                p,
                items::items_view(res@),
            ),
        final(a).start == old(a).start,
{
    let now: u128 = a.now();
    draw_at(a, r, whole, now)
}

// -------------------------------------------------------------------- laws

/// The hitboxes that a frame sets belong to the buttons.
pub proof fn frame_sets_button_boxes(areas: Seq<Rect>)
    ensures
        input::boxes_are_buttons(panels::hitboxes(areas)),
{
    let boxes = panels::hitboxes(areas);
    let all = input::all_buttons();
    assert forall|i: int| 0 <= i < boxes.len() implies input::is_button_command(
        #[trigger] boxes[i].1,
    ) by {
        reveal_with_fuel(input::command_of, 5);
        assert(input::command_of(input::all_buttons(), all[i].key) == Some(boxes[i].1));
    }
}

/// Whether every item lies in the given area.
pub open spec fn all_inside(list: Seq<ItemModel>, whole: Rect) -> bool {
    forall|i: int| 0 <= i < list.len() ==> geometry::covers(whole, items::area_of(#[trigger] list[i]))
}

/// Everything that is drawn lies in the area that the frame was laid out in.
pub proof fn frame_stays_inside(
    a: AppModel,
    r: Readings,
    p: Places,
    whole: Rect,
    basic: bool,
    now: u128,
)
    requires
        fits(p, whole, basic),
    ensures
        all_inside(frame(a, r, p, now), whole),
{
    lemma_status_stays_inside(a, r, p, whole, basic);
    lemma_popup_stays_inside(a, whole);
    assert(all_inside(panels::footer(a, p.footer, p.hint), whole));
    if let Some(f) = p.full {
        let charts = seq![
            panels::battery_chart(a, r, now, f.battery),
            panels::voltage_chart(a, r, now, f.voltage),
        ];
        assert(all_inside(charts, whole));
        assert(all_inside(seq![panels::vars_table(a, f.vars)], whole));
    }
}

proof fn lemma_status_stays_inside(a: AppModel, r: Readings, p: Places, whole: Rect, basic: bool)
    requires
        fits(p, whole, basic),
    ensures
        all_inside(panels::status_panel(a, r, p.status), whole),
{
    let all = panels::status_panel(a, r, p.status);
    geometry::border_leaves_the_inside(p.status.frame);
    assert forall|i: int| 0 <= i < all.len() implies geometry::covers(
        whole,
        items::area_of(#[trigger] all[i]),
    ) by {
        if i == 0 {
            assert(items::area_of(all[i]) == p.status.frame);
        } else if i == 1 {
            assert(items::area_of(all[i]) == p.status.info);
        } else if i == 2 {
            assert(items::area_of(all[i]) == p.status.charge);
        } else if i == 3 {
            assert(items::area_of(all[i]) == p.status.load);
        } else if i < 8 {
            assert(items::area_of(all[i]) == p.status.buttons@[i - 4]);
        } else {
            assert(items::area_of(all[i]) == p.status.log);
        }
    }
}

proof fn lemma_popup_stays_inside(a: AppModel, whole: Rect)
    ensures
        all_inside(popups::popup(a, whole), whole),
{
    geometry::popup_stays_inside(whole, 62, popups::help_lines().len() as int + 2);
    geometry::popup_stays_inside(whole, 56, 3);
    geometry::popup_stays_inside(whole, 78, app::menu_rows(a) + 2);
    geometry::popup_stays_inside(whole, 46, 6);
    geometry::popup_stays_inside(whole, 60, 5);
}

/// With an overlay open, the last thing that is drawn belongs to the overlay, and
/// what it covers is wiped out first.
pub proof fn overlay_is_on_top(a: AppModel, r: Readings, p: Places, now: u128)
    requires
        !(a.mode is Normal),
    ensures
        popups::popup(a, p.whole).len() == 2,
        popups::popup(a, p.whole)[0] is Clear,
        popups::popup(a, p.whole).is_suffix_of(frame(a, r, p, now)),
{
    let over = popups::popup(a, p.whole);
    let all = frame(a, r, p, now);
    assert(all.skip(all.len() - over.len()) =~= over);
}

/// Whether no cell lies in both areas.
pub open spec fn apart(a: Rect, b: Rect) -> bool {
    forall|column: u16, row: u16|
        !(#[trigger] geometry::inside(a, column, row) && geometry::inside(b, column, row))
}

/// The areas of the panels.
pub open spec fn panel_areas(p: Places) -> Seq<Rect> {
    match p.full {
        Some(f) => seq![f.battery, f.voltage, p.status.frame, f.vars, p.footer, p.hint],
        None => seq![p.status.frame, p.footer, p.hint],
    }
}

/// The areas of the parts of the status panel.
pub open spec fn status_areas(s: StatusPlaces) -> Seq<Rect> {
    seq![s.info, s.charge, s.load] + s.buttons@ + seq![s.log]
}

/// No two panels share a cell.
pub proof fn panels_do_not_overlap(p: Places, whole: Rect, basic: bool, i: int, j: int)
    requires
        fits(p, whole, basic),
        0 <= i < j < panel_areas(p).len(),
    ensures
        apart(panel_areas(p)[i], panel_areas(p)[j]),
{
    let bottom = seq![p.footer, p.hint];
    geometry::parts_do_not_overlap(p.bottom, Flow::Across, plan::footer_column_parts(), bottom);
    assert(bottom[0] == p.footer && bottom[1] == p.hint);
    match p.full {
        Some(f) => {
            let rows = seq![f.charts, f.main, p.bottom];
            let charts = seq![f.battery, f.voltage];
            let main = seq![p.status.frame, f.vars];
            geometry::parts_do_not_overlap(whole, Flow::Down, plan::full_row_parts(), rows);
            geometry::parts_do_not_overlap(
                f.charts,
                Flow::Across,
                plan::chart_column_parts(),
                charts,
            );
            geometry::parts_do_not_overlap(f.main, Flow::Across, plan::main_column_parts(), main);
            assert(rows[0] == f.charts && rows[1] == f.main && rows[2] == p.bottom);
            assert(charts[0] == f.battery && charts[1] == f.voltage);
            assert(main[0] == p.status.frame && main[1] == f.vars);
        },
        None => {
            let rows = seq![p.status.frame, p.bottom];
            geometry::parts_do_not_overlap(whole, Flow::Down, plan::basic_row_parts(), rows);
            assert(rows[0] == p.status.frame && rows[1] == p.bottom);
        },
    }
}

/// The panels leave no cell of the screen free.
pub proof fn panels_fill_the_screen(p: Places, whole: Rect, basic: bool, column: u16, row: u16)
    requires
        fits(p, whole, basic),
        geometry::inside(whole, column, row),
    ensures
        exists|i: int|
            0 <= i < panel_areas(p).len() && geometry::inside(
                #[trigger] panel_areas(p)[i],
                column,
                row,
            ),
{
    let areas = panel_areas(p);
    match p.full {
        Some(f) => {
            let rows = seq![f.charts, f.main, p.bottom];
            geometry::parts_fill_the_area(whole, Flow::Down, plan::full_row_parts(), rows, column, row);
            let k = choose|k: int|
                0 <= k < rows.len() && geometry::inside(#[trigger] rows[k], column, row);
            assert(areas[0] == f.battery && areas[1] == f.voltage && areas[2] == p.status.frame
                && areas[3] == f.vars && areas[4] == p.footer && areas[5] == p.hint);
            if k == 0 {
                geometry::two_parts_fill_the_area(
                    f.charts,
                    plan::chart_column_parts(),
                    f.battery,
                    f.voltage,
                    column,
                    row,
                );
            } else if k == 1 {
                geometry::two_parts_fill_the_area(
                    f.main,
                    plan::main_column_parts(),
                    p.status.frame,
                    f.vars,
                    column,
                    row,
                );
            } else {
                geometry::two_parts_fill_the_area(
                    p.bottom,
                    plan::footer_column_parts(),
                    p.footer,
                    p.hint,
                    column,
                    row,
                );
            }
        },
        None => {
            let rows = seq![p.status.frame, p.bottom];
            geometry::parts_fill_the_area(whole, Flow::Down, plan::basic_row_parts(), rows, column, row);
            let k = choose|k: int|
                0 <= k < rows.len() && geometry::inside(#[trigger] rows[k], column, row);
            assert(areas[0] == p.status.frame && areas[1] == p.footer && areas[2] == p.hint);
            if k == 1 {
                geometry::two_parts_fill_the_area(
                    p.bottom,
                    plan::footer_column_parts(),
                    p.footer,
                    p.hint,
                    column,
                    row,
                );
            }
        },
    }
}

/// No two parts of the status panel share a cell.
pub proof fn status_parts_do_not_overlap(s: StatusPlaces, i: int, j: int)
    requires
        status_fits(s),
        0 <= i < j < status_areas(s).len(),
    ensures
        apart(status_areas(s)[i], status_areas(s)[j]),
{
    let rows = seq![s.info, s.charge, s.load, s.bar, s.log];
    let inner = geometry::within_border(s.frame);
    geometry::parts_do_not_overlap(inner, Flow::Down, plan::status_row_parts(), rows);
    geometry::parts_do_not_overlap(s.bar, Flow::Across, plan::button_column_parts(), s.buttons@);
    assert(rows[0] == s.info && rows[1] == s.charge && rows[2] == s.load && rows[3] == s.bar
        && rows[4] == s.log);
    let areas = status_areas(s);
    assert forall|k: int| 0 <= k < 4 implies areas[k + 3] == #[trigger] s.buttons@[k] by {}
    if 3 <= i < 7 {
        assert(areas[i] == s.buttons@[i - 3]);
    }
    if 3 <= j < 7 {
        assert(areas[j] == s.buttons@[j - 3]);
    }
}

/// After a frame, with no overlay open, a click in the area in which a button is
/// drawn sends that button's command.
pub proof fn click_on_a_button_sends_its_command(
    before: AppModel,
    after: AppModel,
    r: Readings,
    whole: Rect,
    now: u128,
    p: Places,
    list: Seq<ItemModel>,
    i: int,
    column: u16,
    row: u16,
    later: u128,
)
    requires
        drawn(before, after, r, whole, now, p, list),
        after.mode is Normal,
        0 <= i < input::all_buttons().len(),
        geometry::inside(p.status.buttons@[i], column, row),
    ensures
        list.contains(panels::button_item(input::all_buttons()[i], p.status.buttons@[i])),
        input::clicked(after, column, row, later) == input::sent(
            after,
            input::all_buttons()[i].cmd,
            later,
        ),
{
    let areas = p.status.buttons@;
    geometry::parts_do_not_overlap(p.status.bar, Flow::Across, plan::button_column_parts(), areas);
    lemma_first_hit(panels::hitboxes(areas), i, column, row);
    let status = panels::status_panel(after, r, p.status);
    let button = panels::button_item(input::all_buttons()[i], areas[i]);
    assert(status[i + 4] == button);
    let skipped: int = if p.full is Some {
        2
    } else {
        0
    };
    assert(list[skipped + i + 4] == button);
}

proof fn lemma_first_hit(boxes: Seq<(Rect, Seq<char>)>, i: int, column: u16, row: u16)
    requires
        0 <= i < boxes.len(),
        geometry::inside(boxes[i].0, column, row),
        forall|j: int| 0 <= j < i ==> !geometry::inside(#[trigger] boxes[j].0, column, row),
    ensures
        input::hit(boxes, column, row) == Some(boxes[i].1),
    decreases i,
{
    if i > 0 {
        let rest = boxes.drop_first();
        assert(!geometry::inside(boxes[0].0, column, row));
        assert forall|j: int| 0 <= j < i - 1 implies !geometry::inside(
            #[trigger] rest[j].0,
            column,
            row,
        ) by {
            assert(rest[j] == boxes[j + 1]);
        }
        lemma_first_hit(rest, i - 1, column, row);
    }
}

/// On a screen of at least 30 rows and 20 columns the areas of all panels are known:
/// the charts take 45 hundredths of the height and half of the width each, the footer
/// the last row with the hint in its last 20 columns, and the status panel 46
/// hundredths of the width, the table the rest, of what lies between.
pub proof fn panels_of_a_large_screen(p: Places, whole: Rect)
    requires
        fits(p, whole, false),
        whole.height >= 30,
        whole.width >= 20,
        whole.x + whole.width <= u16::MAX,
        whole.y + whole.height <= u16::MAX,
    ensures
        ({
            let high = (45 * whole.height + 50) / 100;
            let half = (50 * whole.width + 50) / 100;
            let left = (46 * whole.width + 50) / 100;
            &&& p.full matches Some(f)
            &&& f.battery == boxed(whole.x as int, whole.y as int, half, high)
            &&& f.voltage == boxed(whole.x + half, whole.y as int, whole.width - half, high)
            &&& p.status.frame == boxed(
                whole.x as int,
                whole.y + high,
                left,
                whole.height - 1 - high,
            )
            &&& f.vars == boxed(
                whole.x + left,
                whole.y + high,
                whole.width - left,
                whole.height - 1 - high,
            )
            &&& p.footer == boxed(
                whole.x as int,
                whole.y + whole.height - 1,
                whole.width - 20,
                1,
            )
            &&& p.hint == boxed(
                whole.x + whole.width - 20,
                whole.y + whole.height - 1,
                20,
                1,
            )
        }),
{
    let f = p.full->0;
    plan::full_row_offsets(whole.height as int);
    plan::chart_column_offsets(whole.width as int);
    plan::main_column_offsets(whole.width as int);
    plan::footer_column_offsets(whole.width as int);
    let rows = seq![f.charts, f.main, p.bottom];
    assert(rows[0] == f.charts && rows[1] == f.main && rows[2] == p.bottom);
    let charts = seq![f.battery, f.voltage];
    assert(charts[0] == f.battery && charts[1] == f.voltage);
    let main = seq![p.status.frame, f.vars];
    assert(main[0] == p.status.frame && main[1] == f.vars);
    let bottom = seq![p.footer, p.hint];
    assert(bottom[0] == p.footer && bottom[1] == p.hint);
}

/// In basic mode, on a screen of at least one row and 20 columns, the footer takes the
/// last row with the hint in its last 20 columns, and the status panel the rest.
pub proof fn panels_of_a_basic_screen(p: Places, whole: Rect)
    requires
        fits(p, whole, true),
        whole.height >= 1,
        whole.width >= 20,
        whole.x + whole.width <= u16::MAX,
        whole.y + whole.height <= u16::MAX,
    ensures
        ({
            let last = whole.y + whole.height - 1;
            &&& p.status.frame == boxed(
                whole.x as int,
                whole.y as int,
                whole.width as int,
                whole.height - 1,
            )
            &&& p.footer == boxed(whole.x as int, last, whole.width - 20, 1)
            &&& p.hint == boxed(whole.x + whole.width - 20, last, 20, 1)
        }),
{
    plan::basic_row_offsets(whole.height as int);
    plan::footer_column_offsets(whole.width as int);
    let rows = seq![p.status.frame, p.bottom];
    assert(rows[0] == p.status.frame && rows[1] == p.bottom);
    let bottom = seq![p.footer, p.hint];
    assert(bottom[0] == p.footer && bottom[1] == p.hint);
}

/// The area with the given corner, width and height.
pub open spec fn boxed(x: int, y: int, width: int, height: int) -> Rect {
    Rect { x: x as u16, y: y as u16, width: width as u16, height: height as u16 }
}

/// In a status panel of at least 17 rows the parts have the heights that they want:
/// eight rows of info, one for each gauge, three for the buttons, and the log gets
/// the rest. The buttons divide their row at its quarters.
pub proof fn parts_of_a_high_status_panel(s: StatusPlaces)
    requires
        status_fits(s),
        s.frame.height >= 17,
        s.frame.width >= 2,
        s.frame.x + s.frame.width <= u16::MAX,
        s.frame.y + s.frame.height <= u16::MAX,
    ensures
        ({
            let x = s.frame.x + 1;
            let y = s.frame.y + 1;
            let w = s.frame.width - 2;
            &&& s.info == boxed(x, y, w, 8)
            &&& s.charge == boxed(x, y + 8, w, 1)
            &&& s.load == boxed(x, y + 9, w, 1)
            &&& s.log == boxed(x, y + 13, w, s.frame.height - 15)
            &&& forall|i: int|
                0 <= i < 4 ==> #[trigger] s.buttons@[i] == boxed(
                    x + quarter(w, i),
                    y + 10,
                    quarter(w, i + 1) - quarter(w, i),
                    3,
                )
        }),
{
    let inner = geometry::within_border(s.frame);
    plan::status_row_offsets(inner.height as int);
    plan::button_column_offsets(inner.width as int);
    let rows = seq![s.info, s.charge, s.load, s.bar, s.log];
    assert(rows[0] == s.info && rows[1] == s.charge && rows[2] == s.load && rows[3] == s.bar
        && rows[4] == s.log);
    let b = s.buttons@;
    let w = s.frame.width - 2;
    assert(quarter(w, 0) == 0 && quarter(w, 1) == (25 * w + 50) / 100 && quarter(w, 2) == (50 * w + 50)
        / 100 && quarter(w, 3) == (75 * w + 50) / 100 && quarter(w, 4) == w) by {
        assert(25 * 0 * w == 0 && 25 * 1 * w == 25 * w && 25 * 2 * w == 50 * w && 25 * 3 * w == 75 * w
            && 25 * 4 * w == 100 * w) by (nonlinear_arith);
    }
    assert(geometry::end_of(b[0], Flow::Across) == geometry::start_of(b[1], Flow::Across));
    assert(geometry::end_of(b[1], Flow::Across) == geometry::start_of(b[2], Flow::Across));
    assert(geometry::end_of(b[2], Flow::Across) == geometry::start_of(b[3], Flow::Across));
    assert(b[3] == b.last());
}

/// The cell nearest to `k` quarters of a width.
pub open spec fn quarter(width: int, k: int) -> int {
    (25 * k * width + 50) / 100
}

} // verus!
