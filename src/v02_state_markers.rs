//! One door type, generic over a state marker of which no value is ever made.
//!
//! The color is stored once and read in every state; what is defined in one state only
//! sits in an `impl` for that marker.
use vstd::prelude::*;

use std::marker::PhantomData;

use crate::{brighter_message, knock_message};

verus! {

/// A door in the state `S`, which is [`Open`] or [`Closed`].
pub struct Door<S> {
    state: PhantomData<S>,
    color: &'static str,
}

/// Marks an open door. It has no size, and its private field keeps code outside this
/// module from making a value of it; nothing here makes one either.
pub struct Open {
    marker: (),
}

/// Marks a closed door, in the same way as [`Open`].
pub struct Closed {
    marker: (),
}

impl<S> Door<S> {
    /// The color of the door, the same in every state.
    pub closed spec fn spec_color(&self) -> Seq<char> {
        self.color@
    }

    /// The color of the door.
    pub fn color(&self) -> (r: &str)
        ensures
            r@ == self.spec_color(),
    {
        self.color
    }
}

impl Door<Open> {
    /// An open door of the given color.
    pub fn new_open(color: &'static str) -> (r: Door<Open>)
        ensures
            r.spec_color() == color@,
    {
        Door { state: PhantomData, color }
    }

    /// The same door, closed.
    pub closed spec fn spec_close(self) -> Door<Closed> {
        Door { state: PhantomData, color: self.color }
    }

    /// What one sees through the open door.
    pub fn look_through(&self) -> (r: &'static str)
        ensures
            r@ == brighter_message(),
    {
        "It's brighter on the other side!"
    }

    /// Closes the door; it keeps its color.
    pub fn close(self) -> (r: Door<Closed>)
        ensures
            r == self.spec_close(),
            r.spec_color() == self.spec_color(),
    {
        Door { state: PhantomData, color: self.color }
    }
}

impl Door<Closed> {
    /// A closed door of the given color.
    pub fn new_closed(color: &'static str) -> (r: Door<Closed>)
        ensures
            r.spec_color() == color@,
    {
        Door { state: PhantomData, color }
    }

    /// The same door, open.
    pub closed spec fn spec_open(self) -> Door<Open> {
        Door { state: PhantomData, color: self.color }
    }

    /// The sound of knocking on the closed door.
    pub fn knock(&self) -> (r: &'static str)
        ensures
            r@ == knock_message(),
    {
        "knock knock"
    }

    /// Opens the door; it keeps its color.
    pub fn open(self) -> (r: Door<Open>)
        ensures
            r == self.spec_open(),
            r.spec_color() == self.spec_color(),
    {
        Door { state: PhantomData, color: self.color }
    }
}

/// Closing an open door and opening it again, or opening a closed door and closing it
/// again, leaves its color as it was.
pub proof fn lemma_round_trip_keeps_color(open: Door<Open>, closed: Door<Closed>)
    ensures
        open.spec_close().spec_open().spec_color() == open.spec_color(),
        closed.spec_open().spec_close().spec_color() == closed.spec_color(),
{
}

} // verus!
