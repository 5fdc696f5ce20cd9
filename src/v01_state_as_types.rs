//! Each state is a type of its own, and each operation exists only on the type of the
//! state where it is defined.
//!
//! A transition takes the door by value and returns the door in its new state, so the
//! old state can no longer be used.
use vstd::prelude::*;

use crate::{brighter_message, knock_message};

verus! {

/// An open door.
pub struct OpenDoor;

/// A closed door.
pub struct ClosedDoor;

impl OpenDoor {
    /// What one sees through the open door.
    pub fn look_through(&self) -> (r: &'static str)
        ensures
            r@ == brighter_message(),
    {
        "It's brighter on the other side!"
    }

    /// Closes the door, consuming the open one.
    pub fn close(self) -> (r: ClosedDoor)
        ensures
            r == ClosedDoor,
    {
        ClosedDoor
    }
}

impl ClosedDoor {
    /// The sound of knocking on the closed door.
    pub fn knock(&self) -> (r: &'static str)
        ensures
            r@ == knock_message(),
    {
        "knock knock"
    }

    /// Opens the door, consuming the closed one.
    pub fn open(self) -> (r: OpenDoor)
        ensures
            r == OpenDoor,
    {
        OpenDoor
    }
}

} // verus!
