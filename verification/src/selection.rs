//! The mouse selection of a terminal.

use alacritty_terminal::index::{Column, Line, Point as GridPoint, Side as GridSide};
use alacritty_terminal::selection::{Selection, SelectionType as GridSelectionType};

use vstd::prelude::*;

verus! {

/// A cell of the grid.
#[derive(Copy, Clone, Debug, PartialEq, Eq, Structural)]
pub struct Point {
    pub line: i32,
    pub column: usize,
}

/// A side of a cell.
#[derive(Copy, Clone, Debug, PartialEq, Eq, Structural)]
pub enum Direction {
    Left,
    Right,
}

/// The ways in which a selection grows: by cells, by rectangles of cells, by words, by lines.
#[derive(Copy, Clone, Debug, PartialEq, Eq, Structural)]
pub enum SelectionType {
    Simple,
    Block,
    Semantic,
    Lines,
}

/// One end of a selection: a side of a cell.
pub struct Anchor {
    pub point: Point,
    pub side: Direction,
}

/// What a selection holds: how it grows, where it started and where it ends.
pub struct SelectionView {
    pub kind: SelectionType,
    pub start: Anchor,
    pub end: Anchor,
}

/// The selection of `alacritty_terminal`, which its terminal holds, scrolls and renders.
#[verifier::external_type_specification]
#[verifier::external_body]
pub struct ExSelection(alacritty_terminal::selection::Selection);

/// What a selection of `alacritty_terminal` holds.
pub uninterp spec fn held(selection: Selection) -> SelectionView;

/// Calls `Selection::new`: a selection of the given kind that starts and ends at `side` of `point`.
#[verifier::external_body]
pub(crate) fn new_selection(kind: SelectionType, point: Point, side: Direction) -> (selection:
    Selection)
    ensures
        held(selection) == started(kind, point, side),
{
    let ty = match kind {
        SelectionType::Simple => GridSelectionType::Simple,
        SelectionType::Block => GridSelectionType::Block,
        SelectionType::Semantic => GridSelectionType::Semantic,
        SelectionType::Lines => GridSelectionType::Lines,
    };
    let side = match side {
        Direction::Left => GridSide::Left,
        Direction::Right => GridSide::Right,
    };
    Selection::new(ty, GridPoint::new(Line(point.line), Column(point.column)), side)
}

/// Calls `Selection::update`: the selection now ends at `side` of `point`, and is otherwise as it was.
#[verifier::external_body]
pub(crate) fn extend_selection(selection: &mut Selection, point: Point, side: Direction)
    ensures
        held(*final(selection)) == (SelectionView {
            end: Anchor { point, side },
            ..held(*old(selection))
        }),
{
    let side = match side {
        Direction::Left => GridSide::Left,
        Direction::Right => GridSide::Right,
    };
    selection.update(GridPoint::new(Line(point.line), Column(point.column)), side);
}

/// What the selection of a terminal holds, if it has one.
pub open spec fn held_in(slot: Option<Selection>) -> Option<SelectionView> {
    match slot {
        Some(selection) => Some(held(selection)),
        None => None,
    }
}

/// A selection that starts and ends at `side` of `point`.
pub open spec fn started(kind: SelectionType, point: Point, side: Direction) -> SelectionView {
    SelectionView { kind, start: Anchor { point, side }, end: Anchor { point, side } }
}

/// The selection after a number of clicks at one place. A release, which counts no click, leaves it;
/// one, two and three clicks start a selection by cells, words and lines; more clear it.
pub open spec fn clicked(
    selection: Option<SelectionView>,
    point: Point,
    side: Direction,
    clicks: nat,
) -> Option<SelectionView> {
    if clicks == 0 {
        selection
    } else if clicks == 1 {
        Some(started(SelectionType::Simple, point, side))
    } else if clicks == 2 {
        Some(started(SelectionType::Semantic, point, side))
    } else if clicks == 3 {
        Some(started(SelectionType::Lines, point, side))
    } else {
        None
    }
}

/// The selection after the mouse was dragged to a place: it ends there, if there is one.
pub open spec fn dragged(
    selection: Option<SelectionView>,
    point: Point,
    side: Direction,
) -> Option<SelectionView> {
    match selection {
        Some(held) => Some(SelectionView { end: Anchor { point, side }, ..held }),
        None => None,
    }
}

/// A drag after a click selects from where the click was to where the drag ended, in the way that the
/// number of clicks chose; it selects nothing if the clicks cleared the selection.
pub proof fn law_click_then_drag(
    selection: Option<SelectionView>,
    from: Point,
    from_side: Direction,
    clicks: nat,
    to: Point,
    to_side: Direction,
)
    requires
        clicks >= 1,
    ensures
        ({
            let after = dragged(clicked(selection, from, from_side, clicks), to, to_side);
            &&& after is Some <==> clicks <= 3
            &&& after matches Some(region) ==> {
                &&& region.start == Anchor { point: from, side: from_side }
                &&& region.end == Anchor { point: to, side: to_side }
                &&& region.kind == (if clicks == 1 {
                    SelectionType::Simple
                } else if clicks == 2 {
                    SelectionType::Semantic
                } else {
                    SelectionType::Lines
                })
            }
        }),
{
}

/// Of several drags only the last one counts, a drag neither starts nor clears a selection, and it
/// never moves where the selection started.
pub proof fn law_drags(
    selection: Option<SelectionView>,
    via: Point,
    via_side: Direction,
    to: Point,
    to_side: Direction,
)
    ensures
        dragged(dragged(selection, via, via_side), to, to_side) == dragged(selection, to, to_side),
        dragged(selection, to, to_side) is Some <==> selection is Some,
        selection is Some ==> dragged(selection, to, to_side)->0.start == selection->0.start,
{
}

/// After one, two or three clicks, and before any drag, the selection starts and ends at the very
/// place of the clicks, whatever was selected before; it is by cells, words or lines.
pub proof fn law_clicks(
    selection: Option<SelectionView>,
    point: Point,
    side: Direction,
    clicks: nat,
)
    requires
        1 <= clicks <= 3,
    ensures
        clicked(selection, point, side, clicks) matches Some(region) && region.start == region.end
            && region.start.point == point && region.start.side == side && (clicks == 1
            <==> region.kind == SelectionType::Simple) && (clicks == 2 <==> region.kind
            == SelectionType::Semantic) && (clicks == 3 <==> region.kind == SelectionType::Lines),
{
}

/// A release leaves the selection, whatever it is and wherever the mouse is; more than three clicks
/// clear it.
pub proof fn law_release_and_many_clicks(
    selection: Option<SelectionView>,
    point: Point,
    side: Direction,
    clicks: nat,
)
    ensures
        clicked(selection, point, side, 0) == selection,
        clicks > 3 ==> clicked(selection, point, side, clicks) is None,
{
}

/// A selection that starts at a place is of the kind asked for, and both its ends are at that place.
pub proof fn law_started(kind: SelectionType, point: Point, side: Direction)
    ensures
        started(kind, point, side).kind == kind,
        started(kind, point, side).start == (Anchor { point, side }),
        started(kind, point, side).end == (Anchor { point, side }),
{
}

/// A drag ends the selection at the very place that the mouse was dragged to, and leaves its kind and
/// its start; where nothing is selected it selects nothing.
pub proof fn law_drag(region: SelectionView, point: Point, side: Direction)
    ensures
        dragged(Some(region), point, side) matches Some(after) && after.end.point == point
            && after.end.side == side && after.start == region.start && after.kind == region.kind,
        dragged(None, point, side) is None,
{
}

/// What an emulator's selection holds is what `held` says of it, and without one nothing is held.
pub proof fn law_held_in(selection: Selection)
    ensures
        held_in(Some(selection)) == Some(held(selection)),
        held_in(None) is None,
{
}

} // verus!
