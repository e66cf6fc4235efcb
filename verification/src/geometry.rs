//! Areas of the screen.

use ratatui::layout::{Constraint, Direction, Layout, Position};
use ratatui::widgets::Block;
use vstd::prelude::*;

use crate::plan;

verus! {

/// A rectangle of character cells.
#[derive(Clone, Copy, Debug, PartialEq, Eq, Structural)]
pub struct Rect {
    pub x: u16,
    pub y: u16,
    pub width: u16,
    pub height: u16,
}

/// The sum of two coordinates, or the largest coordinate there is.
pub open spec fn capped(a: u16, b: u16) -> int {
    if a + b > u16::MAX {
        u16::MAX as int
    } else {
        a + b
    }
}

/// Whether a cell lies in a rectangle.
pub open spec fn inside(r: Rect, column: u16, row: u16) -> bool {
    &&& r.x <= column < capped(r.x, r.width)
    &&& r.y <= row < capped(r.y, r.height)
}

/// `Rect::contains` of `ratatui`: whether the position is at or behind the left
/// and upper edge and before the right and lower edge, which are capped at the
/// largest coordinate.
#[verifier::external_body]
pub(crate) fn contains(r: Rect, column: u16, row: u16) -> (res: bool)
    ensures
        res == inside(r, column, row),
{
    let rect = ratatui::layout::Rect { x: r.x, y: r.y, width: r.width, height: r.height };
    rect.contains(Position { x: column, y: row })
}

// ------------------------------------------------------------------- layout

/// How large a part of an area is to be.
#[derive(Clone, Copy, Debug, PartialEq, Eq, Structural)]
pub enum Part {
    /// At least this many cells.
    Min(u16),
    /// This many cells.
    Length(u16),
    /// This many hundredths of the whole.
    Percentage(u16),
    /// This fraction of the whole: numerator, denominator.
    Ratio(u32, u32),
}

/// In which direction the parts of an area follow one another.
#[derive(Clone, Copy, Debug, PartialEq, Eq, Structural)]
pub enum Flow {
    /// From top to bottom.
    Down,
    /// From left to right.
    Across,
}

/// Whether one area lies in another.
pub open spec fn covers(area: Rect, r: Rect) -> bool {
    &&& area.x <= r.x && r.x + r.width <= area.x + area.width
    &&& area.y <= r.y && r.y + r.height <= area.y + area.height
}

/// Where an area starts, in the direction of the flow.
pub open spec fn start_of(r: Rect, flow: Flow) -> int {
    match flow {
        Flow::Down => r.y as int,
        Flow::Across => r.x as int,
    }
}

/// Where an area ends, in the direction of the flow.
pub open spec fn end_of(r: Rect, flow: Flow) -> int {
    match flow {
        Flow::Down => capped(r.y, r.height),
        Flow::Across => capped(r.x, r.width),
    }
}

/// Whether two areas span the same cells across the direction of the flow.
pub open spec fn aligned(a: Rect, b: Rect, flow: Flow) -> bool {
    match flow {
        Flow::Down => a.x == b.x && a.width == b.width,
        Flow::Across => a.y == b.y && a.height == b.height,
    }
}

/// What a part claims of `size` cells, in hundredths of a cell. A minimum claims
/// nothing beforehand.
pub open spec fn share(part: Part, size: int) -> int {
    match part {
        Part::Min(_) => 0,
        Part::Length(n) => 100 * n,
        Part::Percentage(p) => p * size,
        Part::Ratio(n, d) => 100 * n * size / d as int,
    }
}

/// What the first `k` parts claim together.
pub open spec fn claimed(parts: Seq<Part>, size: int, k: nat) -> int
    decreases k,
{
    if k == 0 {
        0
    } else {
        claimed(parts, size, (k - 1) as nat) + share(parts[k - 1], size)
    }
}

/// What the parts leave of `size` cells, in hundredths of a cell.
pub open spec fn left_over(parts: Seq<Part>, size: int) -> int {
    100 * size - claimed(parts, size, parts.len())
}

/// Whether `size` cells are as many as the parts want: what the others leave is
/// enough for the minimum, or is nothing where there is no minimum.
pub open spec fn suits(parts: Seq<Part>, size: int) -> bool {
    if exists|i: int| 0 <= i < parts.len() && #[trigger] parts[i] is Min {
        forall|i: int|
            0 <= i < parts.len() && #[trigger] parts[i] is Min ==> left_over(parts, size) >= 100
                * parts[i]->Min_0
    } else {
        left_over(parts, size) == 0
    }
}

/// Where the part with the number `k` starts, in hundredths of a cell, if each
/// part gets what it claims and the minimum gets what is left over.
pub open spec fn offset(parts: Seq<Part>, size: int, k: nat) -> int
    decreases k,
{
    if k == 0 {
        0
    } else {
        offset(parts, size, (k - 1) as nat) + if parts[k - 1] is Min {
            left_over(parts, size)
        } else {
            share(parts[k - 1], size)
        }
    }
}

/// Whether an area is divided into one area for each part. They lie in the area,
/// aligned with it; the first starts where it starts, each ends where the next one
/// starts, and the last ends where it ends. Where its size suits the parts, each
/// starts at the cell nearest to where its claim puts it.
pub open spec fn divided(area: Rect, flow: Flow, parts: Seq<Part>, areas: Seq<Rect>) -> bool {
    let size = end_of(area, flow) - start_of(area, flow);
    &&& areas.len() == parts.len()
    &&& forall|i: int|
        0 <= i < areas.len() ==> covers(area, #[trigger] areas[i]) && aligned(areas[i], area, flow)
    &&& forall|i: int, j: int|
        0 <= i && j == i + 1 && j < areas.len() ==> end_of(#[trigger] areas[i], flow) == start_of(
            #[trigger] areas[j],
            flow,
        )
    &&& areas.len() > 0 ==> start_of(areas[0], flow) == start_of(area, flow) && end_of(
        areas.last(),
        flow,
    ) == end_of(area, flow)
    &&& suits(parts, size) ==> forall|i: int|
        0 <= i < areas.len() ==> start_of(#[trigger] areas[i], flow) == start_of(area, flow) + (
        offset(parts, size, i as nat) + 50) / 100
}

/// `Layout::split` of `ratatui`, with its default settings and for the lists of
/// parts in [`plan`]: the area is divided into one area for each part. Gaps between
/// the areas are held to nothing more strongly than any part is held to its size,
/// and a minimum grows more strongly than the room behind the last area. Where all
/// parts can have their sizes they have them, and edges are rounded to whole cells.
/// Which parts give way where there is not enough room is left unsaid: the solver
/// walks hash maps in an order that each process seeds, and the documentation
/// calls such results indeterminate.
#[verifier::external_body]
pub(crate) fn split(area: Rect, flow: Flow, parts: &Vec<Part>) -> (res: Vec<Rect>)
    requires
        plan::in_use(parts@),
    ensures
        divided(area, flow, parts@, res@),
{
    let direction = match flow {
        Flow::Down => Direction::Vertical,
        Flow::Across => Direction::Horizontal,
    };
    let constraints = parts.iter().map(|p| match *p {
        Part::Min(n) => Constraint::Min(n),
        Part::Length(n) => Constraint::Length(n),
        Part::Percentage(n) => Constraint::Percentage(n),
        Part::Ratio(n, d) => Constraint::Ratio(n, d),
    });
    let whole = ratatui::layout::Rect { x: area.x, y: area.y, width: area.width, height: area.height };
    let areas = Layout::new(direction, constraints).split(whole);
    areas.iter().map(|r| Rect { x: r.x, y: r.y, width: r.width, height: r.height }).collect()
}

/// Whether the layout of `ratatui` can divide an area into these areas.
pub closed spec fn can_divide(area: Rect, flow: Flow, parts: Seq<Part>, areas: Seq<Rect>) -> bool {
    exists|p: Vec<Part>, r: Vec<Rect>|
        p@ == parts && r@ == areas && #[trigger] call_ensures(split, (area, flow, &p), r)
}

/// Divides an area into one area for each part.
pub(crate) fn divide(area: Rect, flow: Flow, parts: &Vec<Part>) -> (res: Vec<Rect>)
    requires
        plan::in_use(parts@),
    ensures
        divided(area, flow, parts@, res@),
        can_divide(area, flow, parts@, res@),
{
    let res: Vec<Rect> = split(area, flow, parts);
    assert(call_ensures(split, (area, flow, parts), res));
    res
}

/// `a - b`, or 0 where that is negative.
pub open spec fn floored(a: int, b: int) -> int {
    if a < b {
        0
    } else {
        a - b
    }
}

pub open spec fn lesser(a: int, b: int) -> int {
    if a < b {
        a
    } else {
        b
    }
}

/// What a border leaves of an area: one cell less on each side.
pub open spec fn within_border(area: Rect) -> Rect {
    Rect {
        x: lesser(capped(area.x, 1), capped(area.x, area.width)) as u16,
        y: lesser(capped(area.y, 1), capped(area.y, area.height)) as u16,
        width: floored(area.width as int, 2) as u16,
        height: floored(area.height as int, 2) as u16,
    }
}

/// `Block::inner` of `ratatui` for a block with a border all round: the area that
/// the border leaves.
#[verifier::external_body]
pub(crate) fn bordered_inner(area: Rect) -> (res: Rect)
    ensures
        res == within_border(area),
{
    let outer = ratatui::layout::Rect { x: area.x, y: area.y, width: area.width, height: area.height };
    let inner = Block::bordered().inner(outer);
    Rect { x: inner.x, y: inner.y, width: inner.width, height: inner.height }
}

/// The middle of an area: `width` by `height` cells, but at least one cell away
/// from the edges on each side, as far as there is room.
pub open spec fn middle(area: Rect, width: int, height: int) -> Rect {
    let w = lesser(width, floored(area.width as int, 2));
    let h = lesser(height, floored(area.height as int, 2));
    let x = capped(area.x, ((area.width - w) / 2) as u16);
    let y = capped(area.y, ((area.height - h) / 2) as u16);
    Rect {
        x: x as u16,
        y: y as u16,
        width: (capped(x as u16, w as u16) - x) as u16,
        height: (capped(y as u16, h as u16) - y) as u16,
    }
}

/// A centered popup area.
pub fn popup_area(area: Rect, width: u32, height: u32) -> (res: Rect)
    ensures
        res == middle(area, width as int, height as int),
{
    let room_w: u16 = area.width.saturating_sub(2);
    let room_h: u16 = area.height.saturating_sub(2);
    let w: u16 = if width < room_w as u32 {
        width as u16
    } else {
        room_w
    };
    let h: u16 = if height < room_h as u32 {
        height as u16
    } else {
        room_h
    };
    let x: u16 = area.x.saturating_add((area.width - w) / 2);
    let y: u16 = area.y.saturating_add((area.height - h) / 2);
    Rect { x, y, width: x.saturating_add(w) - x, height: y.saturating_add(h) - y }
}

// -------------------------------------------------------------------- laws

/// A popup lies inside the area that it is centered in.
pub proof fn popup_stays_inside(area: Rect, width: int, height: int)
    requires
        width >= 0,
        height >= 0,
    ensures
        covers(area, middle(area, width, height)),
{
}

/// What a border leaves of an area lies in the area.
pub proof fn border_leaves_the_inside(area: Rect)
    ensures
        covers(area, within_border(area)),
{
}

/// The areas that an area is divided into share no cell.
pub proof fn parts_do_not_overlap(area: Rect, flow: Flow, parts: Seq<Part>, areas: Seq<Rect>)
    requires
        divided(area, flow, parts, areas),
    ensures
        forall|i: int, j: int, column: u16, row: u16|
            0 <= i < j < areas.len() ==> !(#[trigger] inside(areas[i], column, row)
                && #[trigger] inside(areas[j], column, row)),
{
    assert forall|i: int, j: int, column: u16, row: u16| 0 <= i < j < areas.len() implies !(
    #[trigger] inside(areas[i], column, row) && #[trigger] inside(areas[j], column, row)) by {
        lemma_in_order(area, flow, parts, areas, i, j);
    }
}

proof fn lemma_in_order(area: Rect, flow: Flow, parts: Seq<Part>, areas: Seq<Rect>, i: int, j: int)
    requires
        divided(area, flow, parts, areas),
        0 <= i < j < areas.len(),
    ensures
        end_of(areas[i], flow) <= start_of(areas[j], flow),
    decreases j - i,
{
    assert(end_of(areas[j - 1], flow) == start_of(areas[j], flow));
    if i < j - 1 {
        lemma_in_order(area, flow, parts, areas, i, j - 1);
    }
}

/// Each cell of an area lies in one of the areas that it is divided into.
pub proof fn parts_fill_the_area(
    area: Rect,
    flow: Flow,
    parts: Seq<Part>,
    areas: Seq<Rect>,
    column: u16,
    row: u16,
)
    requires
        divided(area, flow, parts, areas),
        areas.len() > 0,
        inside(area, column, row),
    ensures
        exists|k: int| 0 <= k < areas.len() && inside(#[trigger] areas[k], column, row),
{
    let at = match flow {
        Flow::Down => row as int,
        Flow::Across => column as int,
    };
    assert(areas[areas.len() - 1] == areas.last());
    let k = lemma_reached(area, flow, parts, areas, at, areas.len() - 1);
    assert(aligned(areas[k], area, flow));
    assert(inside(areas[k], column, row));
}

/// Finds the area that holds a position.
proof fn lemma_reached(
    area: Rect,
    flow: Flow,
    parts: Seq<Part>,
    areas: Seq<Rect>,
    at: int,
    last: int,
) -> (k: int)
    requires
        divided(area, flow, parts, areas),
        0 <= last < areas.len(),
        start_of(area, flow) <= at < end_of(areas[last], flow),
    ensures
        0 <= k <= last,
        start_of(areas[k], flow) <= at < end_of(areas[k], flow),
    decreases last,
{
    if start_of(areas[last], flow) <= at {
        last
    } else {
        assert(end_of(areas[last - 1], flow) == start_of(areas[last], flow));
        lemma_reached(area, flow, parts, areas, at, last - 1)
    }
}

/// Each cell of an area that is divided into two columns lies in one of them.
pub proof fn two_parts_fill_the_area(
    area: Rect,
    parts: Seq<Part>,
    left: Rect,
    right: Rect,
    column: u16,
    row: u16,
)
    requires
        divided(area, Flow::Across, parts, seq![left, right]),
        inside(area, column, row),
    ensures
        inside(left, column, row) || inside(right, column, row),
{
    let areas = seq![left, right];
    parts_fill_the_area(area, Flow::Across, parts, areas, column, row);
    let k = choose|k: int| 0 <= k < areas.len() && inside(#[trigger] areas[k], column, row);
    assert(areas[0] == left && areas[1] == right);
}

} // verus!
