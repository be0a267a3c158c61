//! What the loop hears from the window system, and what it makes of it.

use vstd::prelude::*;
use crate::shape::Color;

verus! {

/// Distance covered per frame at full speed.
pub const NORMAL_BOX_SPEED: i32 = 10;

/// Distance covered per frame while a shift key is held.
pub const SLOW_BOX_SPEED: i32 = 5;

/// The keys the loop reads once per frame: `true` where the key is down.
#[derive(Debug, Clone, Copy, PartialEq, Eq, Structural)]
pub struct Keys {
    pub up: bool,
    pub down: bool,
    pub left: bool,
    pub right: bool,
    pub left_shift: bool,
    pub right_shift: bool,
    pub z: bool,
}

/// The distance that a pressed direction covers in one frame: less while
/// either shift key is held.
pub open spec fn speed(keys: Keys) -> int {
    if keys.left_shift || keys.right_shift {
        SLOW_BOX_SPEED as int
    } else {
        NORMAL_BOX_SPEED as int
    }
}

/// Where one frame of `keys` takes a shape from `at`, before the window's
/// bounds are applied. Up is towards smaller `y`; opposite keys cancel.
pub open spec fn moved(at: (int, int), keys: Keys) -> (int, int) {
    let step = speed(keys);
    let west = if keys.left { step } else { 0 };
    let east = if keys.right { step } else { 0 };
    let north = if keys.up { step } else { 0 };
    let south = if keys.down { step } else { 0 };
    (at.0 - west + east, at.1 - north + south)
}

/// In one frame a shape moves by a full step at most on either axis, and
/// not at all while no direction, or two opposite ones, are down.
pub proof fn lemma_moved_near(at: (int, int), keys: Keys)
    ensures
        at.0 - NORMAL_BOX_SPEED <= moved(at, keys).0 <= at.0 + NORMAL_BOX_SPEED,
        at.1 - NORMAL_BOX_SPEED <= moved(at, keys).1 <= at.1 + NORMAL_BOX_SPEED,
        keys.left == keys.right ==> moved(at, keys).0 == at.0,
        keys.up == keys.down ==> moved(at, keys).1 == at.1,
{
}

impl Keys {
    /// No key is down.
    pub fn none() -> (keys: Keys)
        ensures
            keys == (Keys {
                up: false,
                down: false,
                left: false,
                right: false,
                left_shift: false,
                right_shift: false,
                z: false,
            }),
    {
        Keys {
            up: false,
            down: false,
            left: false,
            right: false,
            left_shift: false,
            right_shift: false,
            z: false,
        }
    }

    /// The distance that a pressed direction covers in this frame.
    pub fn speed(&self) -> (step: i32)
        ensures
            step == speed(*self),
    {
        if self.left_shift || self.right_shift {
            SLOW_BOX_SPEED
        } else {
            NORMAL_BOX_SPEED
        }
    }

    /// The colour of the shape in this frame: red while `z` is down.
    pub fn color(&self) -> (color: Color)
        ensures
            color == if self.z {
                Color::Red
            } else {
                Color::Black
            },
    {
        if self.z {
            Color::Red
        } else {
            Color::Black
        }
    }
}

/// The keys that events tell apart.
#[derive(Debug, Clone, Copy, PartialEq, Eq, Structural)]
pub enum Key {
    Escape,
    Other,
}

/// The changes of the window that events tell apart.
#[derive(Debug, Clone, Copy, PartialEq, Eq, Structural)]
pub enum WindowChange {
    Resized,
    Other,
}

/// An event of the window system, as far as the loop looks at it.
#[derive(Debug, Clone, Copy, PartialEq, Eq, Structural)]
pub enum Event {
    /// The user asked the program to end.
    Quit,
    /// A key went down; `None` where the window system names no key.
    KeyDown(Option<Key>),
    /// Something happened to the window.
    Window(WindowChange),
    /// Anything else.
    Other,
}

/// What the loop does about an event.
#[derive(Debug, Clone, Copy, PartialEq, Eq, Structural)]
pub enum Reaction {
    /// Leave the loop at once.
    Stop,
    /// Clear the window and show it.
    Refresh,
    /// Nothing.
    Ignore,
}

/// What the loop does about `event`: it stops when the user quits or
/// presses escape, refreshes the window when its size changed, and ignores
/// the rest.
pub fn react(event: Event) -> (reaction: Reaction)
    ensures
        (reaction == Reaction::Stop) <==> (event == Event::Quit || event == Event::KeyDown(
            Some(Key::Escape),
        )),
        (reaction == Reaction::Refresh) <==> (event == Event::Window(WindowChange::Resized)),
{
    match event {
        Event::Window(WindowChange::Resized) => Reaction::Refresh,
        Event::Window(_) => Reaction::Ignore,
        Event::Quit | Event::KeyDown(Some(Key::Escape)) => Reaction::Stop,
        _ => Reaction::Ignore,
    }
}

} // verus!
