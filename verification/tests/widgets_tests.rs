use naim_remote::widgets::{ListState, StatefulList, TableState};

fn list() -> StatefulList<u32> {
    StatefulList::with_items(vec![10, 20, 30, 40])
}

#[test]
fn with_items_selects_first() {
    let l = list();
    assert_eq!(l.state.selected, Some(0));
    assert_eq!(l.items, vec![10, 20, 30, 40]);
}

#[test]
fn next_steps_forward() {
    let mut l = list();
    l.next(1);
    assert_eq!(l.state.selected, Some(1));
    l.next(2);
    assert_eq!(l.state.selected, Some(3));
}

#[test]
fn next_past_end_wraps_to_first() {
    let mut l = list();
    l.next(1);
    l.next(3);
    assert_eq!(l.state.selected, Some(0));
}

#[test]
fn previous_steps_back() {
    let mut l = list();
    l.next(3);
    l.previous(1);
    assert_eq!(l.state.selected, Some(2));
}

#[test]
fn previous_from_first_wraps_to_last() {
    let mut l = list();
    l.previous(1);
    assert_eq!(l.state.selected, Some(3));
}

#[test]
fn previous_with_big_step_stops_at_first() {
    let mut l = list();
    l.next(2);
    l.previous(10);
    assert_eq!(l.state.selected, Some(0));
}

#[test]
fn next_from_cleared_selection_selects_first() {
    let mut l = list();
    l.state.select(None);
    l.next(1);
    assert_eq!(l.state.selected, Some(0));
    l.state.select(None);
    l.previous(1);
    assert_eq!(l.state.selected, Some(0));
}

#[test]
fn cursor_defaults_to_nothing() {
    assert_eq!(ListState::default().selected, None);
    assert_eq!(TableState::default().selected, None);
}

#[test]
fn cursor_select_and_read() {
    let mut s = TableState::default();
    s.select(Some(5));
    assert_eq!(s.selected(), Some(5));
    s.select(None);
    assert_eq!(s.selected(), None);
}
