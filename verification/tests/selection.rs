use alacritty_terminal::index::{Column, Line, Point as GridPoint, Side};
use alacritty_terminal::selection::{Selection, SelectionType};
use terminal::selection::{Direction, Point};
use terminal::terminal::Terminal;

fn terminal() -> Terminal<(), (), ()> {
    Terminal { title: String::new(), event_stack: vec![] }
}

fn point(line: i32, column: usize) -> Point {
    Point { line, column }
}

fn selection(ty: SelectionType, line: i32, column: usize, side: Side) -> Selection {
    Selection::new(ty, GridPoint::new(Line(line), Column(column)), side)
}

#[test]
fn clicks_choose_what_is_selected() {
    let expected = [SelectionType::Simple, SelectionType::Semantic, SelectionType::Lines];
    for (i, ty) in expected.iter().enumerate() {
        let mut slot = None;
        terminal().click(&mut slot, point(-2, 9), Direction::Right, i + 1);
        assert_eq!(slot, Some(selection(*ty, -2, 9, Side::Right)));
    }
}

#[test]
fn a_release_leaves_the_selection() {
    let held = Some(selection(SelectionType::Block, 1, 2, Side::Left));
    let mut slot = held.clone();
    terminal().click(&mut slot, point(5, 5), Direction::Left, 0);
    assert_eq!(slot, held);
    let mut empty = None;
    terminal().click(&mut empty, point(5, 5), Direction::Left, 0);
    assert_eq!(empty, None);
}

#[test]
fn more_than_three_clicks_clear_the_selection() {
    for clicks in [4, 5, usize::MAX] {
        let mut slot = Some(selection(SelectionType::Lines, 1, 2, Side::Left));
        terminal().click(&mut slot, point(1, 2), Direction::Left, clicks);
        assert_eq!(slot, None);
    }
}

#[test]
fn a_drag_moves_the_end_of_the_selection() {
    let mut slot = None;
    terminal().click(&mut slot, point(3, 4), Direction::Left, 2);
    terminal().drag(&mut slot, point(7, 0), Direction::Left);
    terminal().drag(&mut slot, point(5, 6), Direction::Right);
    let mut expected = selection(SelectionType::Semantic, 3, 4, Side::Left);
    expected.update(GridPoint::new(Line(5), Column(6)), Side::Right);
    assert_eq!(slot, Some(expected));
}

#[test]
fn a_drag_without_a_selection_selects_nothing() {
    let mut slot = None;
    terminal().drag(&mut slot, point(7, 0), Direction::Left);
    assert_eq!(slot, None);
}

#[test]
fn pressing_the_mouse_starts_a_simple_selection() {
    let mut pressed = Some(selection(SelectionType::Lines, 1, 2, Side::Left));
    terminal().mouse_down(&mut pressed, point(0, 8), Direction::Right);
    assert_eq!(pressed, Some(selection(SelectionType::Simple, 0, 8, Side::Right)));
}

#[test]
fn a_selection_that_is_taken_can_be_put_back() {
    let held = Some(selection(SelectionType::Lines, 1, 2, Side::Left));
    let mut slot = held.clone();
    let taken = terminal().take_selection(&mut slot);
    assert_eq!(taken, held);
    assert_eq!(slot, None);
    terminal().set_selection(&mut slot, taken);
    assert_eq!(slot, held);
}
