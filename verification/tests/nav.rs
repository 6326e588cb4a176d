use clifana::make_menu;
use clifana::MenuAction;
use clifana::NavState;

#[test]
fn esc_returns_to_closed_from_every_state() {
    // Closed.
    let mut nav = make_menu();
    nav.esc();
    assert!(matches!(nav.state, NavState::Closed));
    // A group open.
    let mut nav = make_menu();
    nav.enter();
    assert!(matches!(nav.state, NavState::GroupOpen { group: 0 }));
    nav.esc();
    assert!(matches!(nav.state, NavState::Closed));
    // An item focused.
    let mut nav = make_menu();
    nav.enter();
    nav.down();
    assert!(matches!(nav.state, NavState::ItemFocused { group: 0, item: 0 }));
    nav.esc();
    assert!(matches!(nav.state, NavState::Closed));
}

#[test]
fn enter_emits_selection_once_and_closes() {
    let mut nav = make_menu();
    assert_eq!(nav.enter(), None); // opens the first group
    assert_eq!(nav.enter(), None); // focuses the first item
    assert_eq!(nav.enter(), Some(MenuAction::Exit)); // selects, closes
    assert!(matches!(nav.state, NavState::Closed));
    // The selection is not emitted again.
    assert_eq!(nav.enter(), None);
}

#[test]
fn left_right_move_between_groups() {
    let mut nav = make_menu();
    nav.enter();
    nav.right();
    assert!(matches!(nav.state, NavState::GroupOpen { group: 1 }));
    nav.right(); // wraps
    assert!(matches!(nav.state, NavState::GroupOpen { group: 0 }));
    nav.left(); // wraps back
    assert!(matches!(nav.state, NavState::GroupOpen { group: 1 }));
}

#[test]
fn second_group_selects_about() {
    let mut nav = make_menu();
    nav.enter();
    nav.right();
    nav.down();
    assert!(matches!(nav.state, NavState::ItemFocused { group: 1, item: 0 }));
    assert_eq!(nav.enter(), Some(MenuAction::About));
    assert!(matches!(nav.state, NavState::Closed));
}

#[test]
fn up_from_first_item_returns_to_group_header() {
    let mut nav = make_menu();
    nav.enter();
    nav.down();
    nav.up();
    assert!(matches!(nav.state, NavState::GroupOpen { group: 0 }));
}

#[test]
fn arrows_do_nothing_while_closed() {
    let mut nav = make_menu();
    nav.left();
    nav.right();
    nav.up();
    nav.down();
    assert!(matches!(nav.state, NavState::Closed));
}
