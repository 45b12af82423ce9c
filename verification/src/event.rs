//! Plain-value models of the input events the tab widgets care about.
//!
//! The host toolkit delivers richer event values; an adapter converts
//! them into these shapes before they reach the verified logic, and maps
//! the results back.

use vstd::prelude::*;
use crate::geometry::XY;

verus! {

/// The navigation keys the bar and the panel react to.
#[derive(Clone, Copy, Debug, PartialEq, Eq, Structural)]
pub enum Key {
    Left,
    Right,
    Up,
    Down,
    Enter,
}

/// The kinds of mouse event the widgets distinguish.
#[derive(Clone, Copy, Debug, PartialEq, Eq, Structural)]
pub enum MouseKind {
    /// A button was pressed down, or a wheel was turned: grabs focus.
    Press,
    /// The left button was released: selects the control under it.
    ReleaseLeft,
    /// Anything else (other releases, drags): neither grabs nor selects.
    Other,
}

impl MouseKind {
    /// Whether this kind of mouse event moves the input focus to the
    /// region it lands in.
    pub open spec fn grabs_focus(self) -> bool {
        self is Press
    }
}

/// An input event, already relative to the receiving widget's parent.
#[derive(Clone, Copy, Debug, PartialEq, Eq, Structural)]
pub enum Event {
    /// A navigation key press.
    Key(Key),
    /// A mouse event: `offset` is the receiving widget's top-left corner
    /// on the screen, `position` the pointer's screen position.
    Mouse { offset: XY, position: XY, kind: MouseKind },
    /// A redraw tick; forwarded to every part, always consumed.
    Refresh,
    /// Any event the tab widgets do not interpret.
    Other,
}

impl Event {
    /// Shift a mouse event's offset by `top_left` (the receiver's corner
    /// inside its parent); leaves other events unchanged.
    pub fn relativized(self, top_left: XY) -> (r: Event)
        ensures
            r == self.spec_relativized(top_left),
    {
        match self {
            Event::Mouse { offset, position, kind } => Event::Mouse {
                offset: offset.plus(top_left),
                position,
                kind,
            },
            e => e,
        }
    }

    /// What [`Event::relativized`] returns.
    pub open spec fn spec_relativized(self, top_left: XY) -> Event {
        match self {
            Event::Mouse { offset, position, kind } => Event::Mouse {
                offset: XY {
                    x: crate::geometry::sat_add(offset.x as int, top_left.x as int) as usize,
                    y: crate::geometry::sat_add(offset.y as int, top_left.y as int) as usize,
                },
                position,
                kind,
            },
            e => e,
        }
    }
}

/// Whether a widget consumed an event or let it propagate.
#[derive(Clone, Copy, Debug, PartialEq, Eq, Structural)]
pub enum EventResult {
    Consumed,
    Ignored,
}

impl EventResult {
    /// Combine two results: the whole is consumed if either part was.
    pub fn and(self, other: EventResult) -> (r: EventResult)
        ensures
            r is Consumed <==> (self is Consumed || other is Consumed),
    {
        match (self, other) {
            (EventResult::Ignored, EventResult::Ignored) => EventResult::Ignored,
            _ => EventResult::Consumed,
        }
    }
}

/// The direction from which a focus request arrives.
#[derive(Clone, Copy, Debug, PartialEq, Eq, Structural)]
pub enum Direction {
    Up,
    Down,
    Left,
    Right,
    /// A relative or unspecified source.
    Other,
}

} // verus!
