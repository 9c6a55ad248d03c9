//! A widget that opens a floating panel beside itself when it is clicked.

use vstd::prelude::*;
use crate::geometry::{clamp_coordinate, saturate, Rectangle, Size};

verus! {

/// On which side of the widget the panel opens.
#[derive(Debug, Clone, Copy, PartialEq, Eq, Structural)]
pub enum Position {
    Top,
    Right,
    Bottom,
    Left,
}

/// How a menu is set up.
#[derive(Debug, Clone, Copy, PartialEq, Eq, Structural)]
pub struct Menu {
    /// Whether the opening and the closing are announced.
    pub on_toggle: bool,
    pub position: Position,
    /// Whether the panel closes when something in it was clicked.
    pub auto_close: bool,
}

/// What a menu remembers between events.
#[derive(Debug, Clone, Copy, PartialEq, Eq, Structural)]
pub struct MenuState {
    pub is_open: bool,
    /// Whether the last press went to the panel.
    pub overlay: bool,
}

/// The mouse events that a menu tells apart.
#[derive(Debug, Clone, Copy, PartialEq, Eq, Structural)]
pub enum MenuEvent {
    /// The primary button went down.
    LeftPressed,
    /// Another button went down.
    OtherPressed,
    /// A button went up.
    Released,
    Other,
}

/// What the caller has to do after an event on the widget.
#[derive(Debug, Clone, Copy, PartialEq, Eq, Structural)]
pub struct MenuOutcome {
    /// Whether the panel opened or closed, where that is announced.
    pub toggled: Option<bool>,
    /// Whether the event was consumed.
    pub captured: bool,
}

/// The room between the widget and its panel.
pub const MENU_GAP: i32 = 5;

/// A menu that opens above the widget, closes by itself and announces
/// nothing.
pub fn menu() -> (menu: Menu)
    ensures
        menu == (Menu { on_toggle: false, position: Position::Top, auto_close: true }),
{
    Menu::new()
}

impl Menu {
    pub fn new() -> (menu: Menu)
        ensures
            menu == (Menu { on_toggle: false, position: Position::Top, auto_close: true }),
    {
        Menu { on_toggle: false, position: Position::Top, auto_close: true }
    }

    pub fn position(self, position: Position) -> (menu: Menu)
        ensures
            menu == (Menu { position, ..self }),
    {
        Menu { position, ..self }
    }

    /// Has the opening and the closing announced.
    pub fn on_toggle(self) -> (menu: Menu)
        ensures
            menu == (Menu { on_toggle: true, ..self }),
    {
        Menu { on_toggle: true, ..self }
    }

    pub fn auto_close(self, auto_close: bool) -> (menu: Menu)
        ensures
            menu == (Menu { auto_close, ..self }),
    {
        Menu { auto_close, ..self }
    }

    /// The state of a menu that has seen no event yet: closed.
    pub fn state(&self) -> (state: MenuState)
        ensures
            state == (MenuState { is_open: false, overlay: false }),
    {
        MenuState { is_open: false, overlay: false }
    }

    /// The state after an event on the widget. An event that the widget
    /// itself consumed changes nothing. A press of the primary button
    /// closes an open panel unless the last press went to the panel; else
    /// it opens the panel where the cursor is over the widget.
    pub open spec fn state_after(
        self,
        state: MenuState,
        event: MenuEvent,
        captured: bool,
        over: bool,
    ) -> MenuState {
        if captured || event != MenuEvent::LeftPressed {
            state
        } else if state.is_open && !state.overlay {
            MenuState { is_open: false, ..state }
        } else if over {
            MenuState { is_open: true, ..state }
        } else {
            state
        }
    }

    /// What the caller has to do after an event on the widget: announce
    /// that the panel opened or closed, where the menu announces it, and
    /// consume the event that opened the panel.
    pub open spec fn outcome(
        self,
        state: MenuState,
        event: MenuEvent,
        captured: bool,
        over: bool,
    ) -> MenuOutcome {
        let next = self.state_after(state, event, captured, over);
        MenuOutcome {
            toggled: if self.on_toggle && !captured && event == MenuEvent::LeftPressed && ((
            state.is_open && !state.overlay) || over) {
                Some(next.is_open)
            } else {
                None
            },
            captured: captured || (event == MenuEvent::LeftPressed && !(state.is_open
                && !state.overlay) && over),
        }
    }

    /// Handles an event on the widget. `captured` says whether the widget
    /// itself consumed the event, and `over` whether the cursor is over it.
    pub fn update(
        &self,
        state: &mut MenuState,
        event: MenuEvent,
        captured: bool,
        over: bool,
    ) -> (outcome: MenuOutcome)
        ensures
            *final(state) == self.state_after(*old(state), event, captured, over),
            outcome == self.outcome(*old(state), event, captured, over),
    {
        if captured {
            return MenuOutcome { toggled: None, captured: true };
        }
        let mut toggled: Option<bool> = None;
        let mut capture = false;
        if let MenuEvent::LeftPressed = event {
            if state.is_open && !state.overlay {
                state.is_open = false;
                if self.on_toggle {
                    toggled = Some(false);
                }
            } else if over {
                state.is_open = true;
                if self.on_toggle {
                    toggled = Some(true);
                }
                capture = true;
            }
        }
        MenuOutcome { toggled, captured: capture }
    }

    /// The state after an event on the open panel. A press over the panel
    /// is remembered as one that went to the panel. A release over the
    /// panel that nothing in it consumed keeps the panel open; an event
    /// over the panel that something in it consumed closes a panel that
    /// closes by itself.
    pub open spec fn panel_state_after(
        self,
        state: MenuState,
        event: MenuEvent,
        captured: bool,
        over: bool,
    ) -> MenuState {
        MenuState {
            overlay: over && (event == MenuEvent::LeftPressed || event == MenuEvent::OtherPressed),
            is_open: if !captured && over && event == MenuEvent::Released {
                true
            } else if captured && self.auto_close && over {
                false
            } else {
                state.is_open
            },
        }
    }

    /// Handles an event on the open panel. `captured` says whether
    /// something in the panel consumed the event, and `over` whether the
    /// cursor is over the panel.
    pub fn update_panel(&self, state: &mut MenuState, event: MenuEvent, captured: bool, over: bool)
        ensures
            *final(state) == self.panel_state_after(*old(state), event, captured, over),
    {
        state.overlay = over && matches!(event, MenuEvent::LeftPressed | MenuEvent::OtherPressed);
        if !captured && over && matches!(event, MenuEvent::Released) {
            state.is_open = true;
        } else if captured && self.auto_close && over {
            state.is_open = false;
        }
    }

    /// Where the panel lies when it is laid out at `panel` and the widget
    /// has the size `base`: moved by its own extent and a gap to the side
    /// that the menu names, so that it touches neither the widget nor
    /// covers it.
    pub open spec fn panel_bounds(self, panel: Rectangle, base: Size) -> Rectangle {
        let dx = match self.position {
            Position::Left => -panel.width - MENU_GAP,
            Position::Right => base.width + MENU_GAP,
            _ => 0,
        };
        let dy = match self.position {
            Position::Top => -MENU_GAP - panel.height,
            Position::Bottom => base.height + MENU_GAP,
            _ => 0,
        };
        Rectangle {
            x: clamp_coordinate(panel.x + dx) as i32,
            y: clamp_coordinate(panel.y + dy) as i32,
            ..panel
        }
    }

    /// Computes [`Menu::panel_bounds`].
    pub fn place_panel(&self, panel: Rectangle, base: Size) -> (bounds: Rectangle)
        ensures
            bounds == self.panel_bounds(panel, base),
    {
        let dx: i64 = match self.position {
            Position::Left => -(panel.width as i64) - MENU_GAP as i64,
            Position::Right => base.width as i64 + MENU_GAP as i64,
            _ => 0,
        };
        let dy: i64 = match self.position {
            Position::Top => -(MENU_GAP as i64) - panel.height as i64,
            Position::Bottom => base.height as i64 + MENU_GAP as i64,
            _ => 0,
        };
        Rectangle {
            x: saturate(panel.x as i64 + dx),
            y: saturate(panel.y as i64 + dy),
            width: panel.width,
            height: panel.height,
        }
    }

    /// Whether the cursor is shown as a pointing hand: where the widget
    /// itself asks for no cursor and the cursor is over it.
    pub fn wants_pointer(base_wants_none: bool, over: bool) -> (pointer: bool)
        ensures
            pointer == (base_wants_none && over),
    {
        base_wants_none && over
    }
}

} // verus!
