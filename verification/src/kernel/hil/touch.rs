//! Touch panels.

use vstd::prelude::*;

verus! {

/// What a finger did.
#[derive(Clone, Copy, Debug, PartialEq, Eq, Structural)]
pub enum TouchStatus {
    Unstarted,
    Pressed,
    Released,
    Moved,
}

/// A gesture that the panel recognised.
#[derive(Clone, Copy, Debug, PartialEq, Eq, Structural)]
pub enum GestureEvent {
    SwipeUp,
    SwipeDown,
    SwipeLeft,
    SwipeRight,
    ZoomIn,
    ZoomOut,
}

/// One touch: where, by which finger, and how.
#[derive(Clone, Copy, Debug, PartialEq, Eq, Structural)]
pub struct TouchEvent {
    pub status: TouchStatus,
    pub x: u16,
    pub y: u16,
    pub id: usize,
    pub size: Option<u16>,
    pub pressure: Option<u16>,
}

} // verus!
