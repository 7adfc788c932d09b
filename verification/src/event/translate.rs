//! From what the host says of one of its events to an event of this library.

use super::{Event, MouseButton};
use crate::host::Host;
use crate::key::Key;
use vstd::prelude::*;

verus! {

pub const LEFT_MOUSE_DOWN: u64 = 1;

pub const LEFT_MOUSE_UP: u64 = 2;

pub const RIGHT_MOUSE_DOWN: u64 = 3;

pub const RIGHT_MOUSE_UP: u64 = 4;

pub const MOUSE_MOVED: u64 = 5;

pub const LEFT_MOUSE_DRAGGED: u64 = 6;

pub const RIGHT_MOUSE_DRAGGED: u64 = 7;

pub const MOUSE_ENTERED: u64 = 8;

pub const MOUSE_EXITED: u64 = 9;

pub const OTHER_MOUSE_DOWN: u64 = 25;

pub const OTHER_MOUSE_UP: u64 = 26;

pub const OTHER_MOUSE_DRAGGED: u64 = 27;

/// What the host says of one of its events, as far as the translation reads it.
///
/// `button` is the number of the mouse button and is read only where `reads_button`
/// says so; `window` is the address of the window the event belongs to, zero if it
/// belongs to none.
pub struct NativeEvent<P: Host> {
    pub ty: u64,
    pub button: i64,
    pub window: usize,
    pub x: P::Coord,
    pub y: P::Coord,
}

/// A mouse button went down.
pub open spec fn is_button_down(ty: u64) -> bool {
    ty == LEFT_MOUSE_DOWN || ty == RIGHT_MOUSE_DOWN || ty == OTHER_MOUSE_DOWN
}

/// A mouse button came up.
pub open spec fn is_button_up(ty: u64) -> bool {
    ty == LEFT_MOUSE_UP || ty == RIGHT_MOUSE_UP || ty == OTHER_MOUSE_UP
}

/// The mouse moved with a button held down.
pub open spec fn is_drag(ty: u64) -> bool {
    ty == LEFT_MOUSE_DRAGGED || ty == RIGHT_MOUSE_DRAGGED || ty == OTHER_MOUSE_DRAGGED
}

/// The mouse entered or left a tracked area.
pub open spec fn is_crossing(ty: u64) -> bool {
    ty == MOUSE_ENTERED || ty == MOUSE_EXITED
}

/// The button with the given number, if the number is one of the three known ones.
pub open spec fn button_of(number: i64) -> Option<MouseButton> {
    if number == 0 {
        Some(MouseButton::Left)
    } else if number == 1 {
        Some(MouseButton::Middle)
    } else if number == 2 {
        Some(MouseButton::Right)
    } else {
        None
    }
}

/// The event that a press or release of a mouse button stands for. There is none if the
/// button is unknown or the event belongs to no window.
pub open spec fn button_translation<P: Host>(ty: u64, button: i64, window: usize, x: P::Coord, y: P::Coord)
    -> Option<Event<P>> {
    match button_of(button) {
        Some(button) if window != 0 => if is_button_down(ty) {
            Some(Event::ButtonDown { window: Key::at(window), button, x, y })
        } else {
            Some(Event::ButtonUp { window: Key::at(window), button, x, y })
        },
        _ => None,
    }
}

/// The event that a movement of the mouse stands for. There is none if the button is
/// unknown or the event belongs to no window.
pub open spec fn mouse_translation<P: Host>(ty: u64, button: i64, window: usize, x: P::Coord, y: P::Coord)
    -> Option<Event<P>> {
    match button_of(button) {
        Some(button) if window != 0 => if is_drag(ty) {
            Some(Event::MouseDrag { window: Key::at(window), button, x, y })
        } else {
            Some(Event::MouseMove { window: Key::at(window), x, y })
        },
        _ => None,
    }
}

/// The event that the mouse entering or leaving stands for. There is none if the event
/// belongs to no window.
pub open spec fn enter_translation<P: Host>(ty: u64, window: usize, x: P::Coord, y: P::Coord) -> Option<
    Event<P>,
> {
    if window == 0 {
        None
    } else if ty == MOUSE_ENTERED {
        Some(Event::MouseEntered { window: Key::at(window), x, y })
    } else {
        Some(Event::MouseExited { window: Key::at(window), x, y })
    }
}

/// The event of this library that a host event stands for, if it stands for one.
pub open spec fn translation<P: Host>(event: NativeEvent<P>) -> Option<Event<P>> {
    if is_button_down(event.ty) || is_button_up(event.ty) {
        button_translation(event.ty, event.button, event.window, event.x, event.y)
    } else if is_drag(event.ty) || event.ty == MOUSE_MOVED {
        mouse_translation(event.ty, event.button, event.window, event.x, event.y)
    } else if is_crossing(event.ty) {
        enter_translation(event.ty, event.window, event.x, event.y)
    } else {
        None
    }
}

/// Whether the translation of an event of this type reads the number of its button.
/// The host is to be asked for that number for such events only.
pub fn reads_button(ty: u64) -> (reads: bool)
    ensures
        reads == (is_button_down(ty) || is_button_up(ty) || is_drag(ty) || ty == MOUSE_MOVED),
{
    ty == LEFT_MOUSE_DOWN || ty == RIGHT_MOUSE_DOWN || ty == OTHER_MOUSE_DOWN || ty
        == LEFT_MOUSE_UP || ty == RIGHT_MOUSE_UP || ty == OTHER_MOUSE_UP || ty
        == LEFT_MOUSE_DRAGGED || ty == RIGHT_MOUSE_DRAGGED || ty == OTHER_MOUSE_DRAGGED || ty
        == MOUSE_MOVED
}

/// Translate any given host event into the appropriate event of this library.
pub fn translate_nsevent<P: Host>(event: NativeEvent<P>) -> (translated: Option<Event<P>>)
    ensures
        translated == translation::<P>(event),
{
    let ty: u64 = event.ty;
    if ty == LEFT_MOUSE_DOWN || ty == RIGHT_MOUSE_DOWN || ty == OTHER_MOUSE_DOWN || ty
        == LEFT_MOUSE_UP || ty == RIGHT_MOUSE_UP || ty == OTHER_MOUSE_UP {
        translate_button_event(ty, event.button, event.window, event.x, event.y)
    } else if ty == LEFT_MOUSE_DRAGGED || ty == RIGHT_MOUSE_DRAGGED || ty == OTHER_MOUSE_DRAGGED
        || ty == MOUSE_MOVED {
        translate_mouse_event(ty, event.button, event.window, event.x, event.y)
    } else if ty == MOUSE_ENTERED || ty == MOUSE_EXITED {
        translate_enter_event(ty, event.window, event.x, event.y)
    } else {
        None
    }
}

/// Translate the press or the release of a mouse button.
pub fn translate_button_event<P: Host>(ty: u64, button: i64, window: usize, x: P::Coord, y: P::Coord) -> (translated:
    Option<Event<P>>)
    requires
        is_button_down(ty) || is_button_up(ty),
    ensures
        translated == button_translation::<P>(ty, button, window, x, y),
{
    let button = match mouse_button_for_event(button) {
        Some(button) => button,
        None => { return None; },
    };
    let window = match Key::from_ptr(window) {
        Some(window) => window,
        None => { return None; },
    };
    if ty == LEFT_MOUSE_DOWN || ty == RIGHT_MOUSE_DOWN || ty == OTHER_MOUSE_DOWN {
        Some(Event::ButtonDown { window, x, y, button })
    } else {
        Some(Event::ButtonUp { window, x, y, button })
    }
}

/// The mouse button that the host numbers `button`.
pub fn mouse_button_for_event(button: i64) -> (known: Option<MouseButton>)
    ensures
        known == button_of(button),
{
    if button == 0 {
        Some(MouseButton::Left)
    } else if button == 1 {
        Some(MouseButton::Middle)
    } else if button == 2 {
        Some(MouseButton::Right)
    } else {
        None
    }
}

/// Translate a movement of the mouse, with or without a button held down.
pub fn translate_mouse_event<P: Host>(ty: u64, button: i64, window: usize, x: P::Coord, y: P::Coord) -> (translated:
    Option<Event<P>>)
    requires
        is_drag(ty) || ty == MOUSE_MOVED,
    ensures
        translated == mouse_translation::<P>(ty, button, window, x, y),
{
    let button = match mouse_button_for_event(button) {
        Some(button) => button,
        None => { return None; },
    };
    let window = match Key::from_ptr(window) {
        Some(window) => window,
        None => { return None; },
    };
    if ty == MOUSE_MOVED {
        Some(Event::MouseMove { window, x, y })
    } else {
        Some(Event::MouseDrag { window, x, y, button })
    }
}

/// Translate the mouse entering or leaving a tracked area.
pub fn translate_enter_event<P: Host>(ty: u64, window: usize, x: P::Coord, y: P::Coord) -> (translated: Option<
    Event<P>,
>)
    requires
        is_crossing(ty),
    ensures
        translated == enter_translation::<P>(ty, window, x, y),
{
    let window = match Key::from_ptr(window) {
        Some(window) => window,
        None => { return None; },
    };
    if ty == MOUSE_ENTERED {
        Some(Event::MouseEntered { window, x, y })
    } else {
        Some(Event::MouseExited { window, x, y })
    }
}

} // verus!
