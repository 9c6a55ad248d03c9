use kino::geometry::{Rectangle, Size};
use kino::menu::{menu, Menu, MenuEvent, MenuOutcome, MenuState, Position, MENU_GAP};

fn closed() -> MenuState {
    MenuState { is_open: false, overlay: false }
}

#[test]
fn menu_is_set_up_by_its_builders() {
    let plain = menu();
    assert_eq!(plain, Menu::new());
    assert_eq!(plain, Menu { on_toggle: false, position: Position::Top, auto_close: true });
    let other = plain.position(Position::Left).on_toggle().auto_close(false);
    assert_eq!(other, Menu { on_toggle: true, position: Position::Left, auto_close: false });
    assert_eq!(other.state(), closed());
}

#[test]
fn click_on_the_widget_opens_the_panel() {
    let menu = Menu::new().on_toggle();
    let mut state = menu.state();
    let outcome = menu.update(&mut state, MenuEvent::LeftPressed, false, true);
    assert_eq!(outcome, MenuOutcome { toggled: Some(true), captured: true });
    assert!(state.is_open);
    // the next press anywhere closes it again, and goes on to others
    let outcome = menu.update(&mut state, MenuEvent::LeftPressed, false, false);
    assert_eq!(outcome, MenuOutcome { toggled: Some(false), captured: false });
    assert!(!state.is_open);
}

#[test]
fn click_elsewhere_opens_nothing() {
    let menu = Menu::new().on_toggle();
    let mut state = menu.state();
    let quiet = MenuOutcome { toggled: None, captured: false };
    assert_eq!(menu.update(&mut state, MenuEvent::LeftPressed, false, false), quiet);
    assert_eq!(menu.update(&mut state, MenuEvent::OtherPressed, false, true), quiet);
    assert_eq!(menu.update(&mut state, MenuEvent::Released, false, true), quiet);
    assert_eq!(menu.update(&mut state, MenuEvent::Other, false, true), quiet);
    assert_eq!(state, closed());
}

#[test]
fn event_that_the_widget_consumed_changes_nothing() {
    let menu = Menu::new().on_toggle();
    let mut state = menu.state();
    let outcome = menu.update(&mut state, MenuEvent::LeftPressed, true, true);
    assert_eq!(outcome, MenuOutcome { toggled: None, captured: true });
    assert_eq!(state, closed());
}

#[test]
fn menu_that_announces_nothing_still_opens() {
    let menu = Menu::new();
    let mut state = menu.state();
    let outcome = menu.update(&mut state, MenuEvent::LeftPressed, false, true);
    assert_eq!(outcome, MenuOutcome { toggled: None, captured: true });
    assert!(state.is_open);
}

#[test]
fn press_that_went_to_the_panel_keeps_it_open() {
    let menu = Menu::new().on_toggle();
    let mut state = MenuState { is_open: true, overlay: false };
    menu.update_panel(&mut state, MenuEvent::LeftPressed, false, true);
    assert_eq!(state, MenuState { is_open: true, overlay: true });
    // the widget sees the same press, away from itself
    let outcome = menu.update(&mut state, MenuEvent::LeftPressed, false, false);
    assert_eq!(outcome, MenuOutcome { toggled: None, captured: false });
    assert!(state.is_open);
    menu.update_panel(&mut state, MenuEvent::Released, false, true);
    assert_eq!(state, MenuState { is_open: true, overlay: false });
    menu.update_panel(&mut state, MenuEvent::OtherPressed, false, true);
    assert!(state.overlay);
    menu.update_panel(&mut state, MenuEvent::LeftPressed, false, false);
    assert!(!state.overlay);
}

#[test]
fn panel_closes_by_itself_when_something_in_it_was_used() {
    let menu = Menu::new();
    let mut state = MenuState { is_open: true, overlay: false };
    menu.update_panel(&mut state, MenuEvent::Released, true, true);
    assert!(!state.is_open);
    let mut state = MenuState { is_open: true, overlay: false };
    menu.update_panel(&mut state, MenuEvent::Released, true, false);
    assert!(state.is_open);
    let staying = Menu::new().auto_close(false);
    menu.update_panel(&mut state, MenuEvent::Other, false, true);
    staying.update_panel(&mut state, MenuEvent::Released, true, true);
    assert!(state.is_open);
    let mut state = closed();
    staying.update_panel(&mut state, MenuEvent::Released, false, true);
    assert!(state.is_open);
}

#[test]
fn panel_lies_beside_the_widget() {
    assert_eq!(MENU_GAP, 5);
    let panel = Rectangle { x: 100, y: 200, width: 60, height: 40 };
    let base = Size { width: 30, height: 20 };
    let at = |position| Menu::new().position(position).place_panel(panel, base);
    assert_eq!(at(Position::Top), Rectangle { x: 100, y: 155, ..panel });
    assert_eq!(at(Position::Bottom), Rectangle { x: 100, y: 225, ..panel });
    assert_eq!(at(Position::Left), Rectangle { x: 35, y: 200, ..panel });
    assert_eq!(at(Position::Right), Rectangle { x: 135, y: 200, ..panel });
    let far = Rectangle { x: i32::MAX, y: i32::MIN, width: i32::MAX, height: i32::MAX };
    let huge = Size { width: i32::MAX, height: i32::MAX };
    let placed = Menu::new().position(Position::Right).place_panel(far, huge);
    assert_eq!((placed.x, placed.y), (i32::MAX, i32::MIN));
    let placed = Menu::new().position(Position::Top).place_panel(far, huge);
    assert_eq!((placed.x, placed.y), (i32::MAX, i32::MIN));
}

#[test]
fn pointer_is_shown_over_a_widget_without_its_own() {
    assert!(Menu::wants_pointer(true, true));
    assert!(!Menu::wants_pointer(false, true));
    assert!(!Menu::wants_pointer(true, false));
}
