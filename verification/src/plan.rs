//! How the screen is divided: the lists of parts that the dashboard is laid out
//! by.

use vstd::prelude::*;

use crate::geometry;
use crate::geometry::Part;

verus! {

/// The rows of the screen in basic mode: the summary panel and the footer.
pub open spec fn basic_row_parts() -> Seq<Part> {
    seq![Part::Min(0), Part::Length(1)]
}

/// The rows of the screen: the charts, the status panel with the table, the
/// footer.
pub open spec fn full_row_parts() -> Seq<Part> {
    seq![Part::Percentage(45), Part::Min(15), Part::Length(1)]
}

/// The columns of the charts: the charge and the voltages.
pub open spec fn chart_column_parts() -> Seq<Part> {
    seq![Part::Percentage(50), Part::Percentage(50)]
}

/// The columns below the charts: the status panel and the table.
pub open spec fn main_column_parts() -> Seq<Part> {
    seq![Part::Percentage(46), Part::Percentage(54)]
}

/// The rows of the status panel: the info lines, the gauges of the charge and of
/// the load, the buttons, the log.
pub open spec fn status_row_parts() -> Seq<Part> {
    seq![Part::Length(8), Part::Length(1), Part::Length(1), Part::Length(3), Part::Min(2)]
}

/// The columns of the buttons: a quarter for each.
pub open spec fn button_column_parts() -> Seq<Part> {
    seq![Part::Ratio(1, 4), Part::Ratio(1, 4), Part::Ratio(1, 4), Part::Ratio(1, 4)]
}

/// The columns of the footer: its text and its hint.
pub open spec fn footer_column_parts() -> Seq<Part> {
    seq![Part::Min(0), Part::Length(20)]
}

/// Whether the dashboard divides an area by these parts.
pub open spec fn in_use(parts: Seq<Part>) -> bool {
    ||| parts == basic_row_parts()
    ||| parts == full_row_parts()
    ||| parts == chart_column_parts()
    ||| parts == main_column_parts()
    ||| parts == status_row_parts()
    ||| parts == button_column_parts()
    ||| parts == footer_column_parts()
}

fn two(a: Part, b: Part) -> (res: Vec<Part>)
    ensures
        res@ == seq![a, b],
{
    let mut parts: Vec<Part> = Vec::new();
    parts.push(a);
    parts.push(b);
    assert(parts@ =~= seq![a, b]);
    parts
}

/// The rows of the screen in basic mode.
pub fn basic_rows() -> (res: Vec<Part>)
    ensures
        res@ == basic_row_parts(),
{
    two(Part::Min(0), Part::Length(1))
}

/// The rows of the screen.
pub fn full_rows() -> (res: Vec<Part>)
    ensures
        res@ == full_row_parts(),
{
    let mut parts: Vec<Part> = Vec::new();
    parts.push(Part::Percentage(45));
    parts.push(Part::Min(15));
    parts.push(Part::Length(1));
    assert(parts@ =~= full_row_parts());
    parts
}

/// The columns of the charts.
pub fn chart_columns() -> (res: Vec<Part>)
    ensures
        res@ == chart_column_parts(),
{
    two(Part::Percentage(50), Part::Percentage(50))
}

/// The columns below the charts.
pub fn main_columns() -> (res: Vec<Part>)
    ensures
        res@ == main_column_parts(),
{
    two(Part::Percentage(46), Part::Percentage(54))
}

/// The rows of the status panel.
pub fn status_rows() -> (res: Vec<Part>)
    ensures
        res@ == status_row_parts(),
{
    let mut parts: Vec<Part> = Vec::new();
    parts.push(Part::Length(8));
    parts.push(Part::Length(1));
    parts.push(Part::Length(1));
    parts.push(Part::Length(3));
    parts.push(Part::Min(2));
    assert(parts@ =~= status_row_parts());
    parts
}

/// The columns of the buttons.
pub fn button_columns() -> (res: Vec<Part>)
    ensures
        res@ == button_column_parts(),
{
    let mut parts: Vec<Part> = Vec::new();
    parts.push(Part::Ratio(1, 4));
    parts.push(Part::Ratio(1, 4));
    parts.push(Part::Ratio(1, 4));
    parts.push(Part::Ratio(1, 4));
    assert(parts@ =~= button_column_parts());
    parts
}

/// The columns of the footer.
pub fn footer_columns() -> (res: Vec<Part>)
    ensures
        res@ == footer_column_parts(),
{
    two(Part::Min(0), Part::Length(20))
}

// -------------------------------------------------------------------- laws

/// From 30 rows on there is room for the rows of the screen: the charts take 45
/// hundredths of them, the footer the last one.
pub proof fn full_row_offsets(size: int)
    requires
        size >= 30,
    ensures
        geometry::suits(full_row_parts(), size),
        geometry::offset(full_row_parts(), size, 0) == 0,
        geometry::offset(full_row_parts(), size, 1) == 45 * size,
        geometry::offset(full_row_parts(), size, 2) == 100 * size - 100,
{
    let parts = full_row_parts();
    reveal_with_fuel(geometry::claimed, 4);
    reveal_with_fuel(geometry::offset, 3);
    assert(geometry::share(parts[0], size) == 45 * size);
    assert(parts[1] is Min);
}

/// There is always room for the columns of the charts: they meet in the middle.
pub proof fn chart_column_offsets(size: int)
    ensures
        geometry::suits(chart_column_parts(), size),
        geometry::offset(chart_column_parts(), size, 0) == 0,
        geometry::offset(chart_column_parts(), size, 1) == 50 * size,
{
    let parts = chart_column_parts();
    reveal_with_fuel(geometry::claimed, 3);
    reveal_with_fuel(geometry::offset, 2);
    assert(geometry::share(parts[0], size) == 50 * size);
    assert(geometry::share(parts[1], size) == 50 * size);
}

/// There is always room for the columns below the charts: they meet at 46
/// hundredths.
pub proof fn main_column_offsets(size: int)
    ensures
        geometry::suits(main_column_parts(), size),
        geometry::offset(main_column_parts(), size, 0) == 0,
        geometry::offset(main_column_parts(), size, 1) == 46 * size,
{
    let parts = main_column_parts();
    reveal_with_fuel(geometry::claimed, 3);
    reveal_with_fuel(geometry::offset, 2);
    assert(geometry::share(parts[0], size) == 46 * size);
    assert(geometry::share(parts[1], size) == 54 * size);
}

/// From one row on there is room for the rows of basic mode: the footer takes the
/// last one.
pub proof fn basic_row_offsets(size: int)
    requires
        size >= 1,
    ensures
        geometry::suits(basic_row_parts(), size),
        geometry::offset(basic_row_parts(), size, 0) == 0,
        geometry::offset(basic_row_parts(), size, 1) == 100 * size - 100,
{
    let parts = basic_row_parts();
    reveal_with_fuel(geometry::claimed, 3);
    reveal_with_fuel(geometry::offset, 2);
    assert(parts[0] is Min);
}

/// From 15 rows on there is room for the rows of the status panel.
pub proof fn status_row_offsets(size: int)
    requires
        size >= 15,
    ensures
        geometry::suits(status_row_parts(), size),
        geometry::offset(status_row_parts(), size, 0) == 0,
        geometry::offset(status_row_parts(), size, 1) == 800,
        geometry::offset(status_row_parts(), size, 2) == 900,
        geometry::offset(status_row_parts(), size, 3) == 1000,
        geometry::offset(status_row_parts(), size, 4) == 1300,
{
    let parts = status_row_parts();
    reveal_with_fuel(geometry::claimed, 6);
    reveal_with_fuel(geometry::offset, 5);
    assert(parts[4] is Min);
}

/// There is always room for the columns of the buttons: they meet at the quarters.
pub proof fn button_column_offsets(size: int)
    ensures
        geometry::suits(button_column_parts(), size),
        geometry::offset(button_column_parts(), size, 0) == 0,
        geometry::offset(button_column_parts(), size, 1) == 25 * size,
        geometry::offset(button_column_parts(), size, 2) == 50 * size,
        geometry::offset(button_column_parts(), size, 3) == 75 * size,
{
    let parts = button_column_parts();
    reveal_with_fuel(geometry::claimed, 5);
    reveal_with_fuel(geometry::offset, 4);
    assert(100 * 1 * size / 4 == 25 * size) by (nonlinear_arith);
    assert(geometry::share(parts[0], size) == 25 * size);
    assert(geometry::share(parts[1], size) == 25 * size);
    assert(geometry::share(parts[2], size) == 25 * size);
    assert(geometry::share(parts[3], size) == 25 * size);
    assert(parts.len() == 4);
    assert(geometry::claimed(parts, size, 4) == 100 * size);
    assert forall|i: int| 0 <= i < parts.len() implies !(#[trigger] parts[i] is Min) by {}
}

/// From 20 columns on there is room for the columns of the footer: its hint takes
/// the last 20.
pub proof fn footer_column_offsets(size: int)
    requires
        size >= 20,
    ensures
        geometry::suits(footer_column_parts(), size),
        geometry::offset(footer_column_parts(), size, 0) == 0,
        geometry::offset(footer_column_parts(), size, 1) == 100 * size - 2000,
{
    let parts = footer_column_parts();
    reveal_with_fuel(geometry::claimed, 3);
    reveal_with_fuel(geometry::offset, 2);
    assert(parts[0] is Min);
}

} // verus!
