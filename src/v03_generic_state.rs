//! One door type, generic over a state value that carries what only that state has.
//!
//! The color is stored once and read in every state; an open door also holds the angle
//! it stands open at, which a closed door does not have.
use vstd::prelude::*;

use crate::{brighter_message, knock_message};

verus! {

/// The angle, in whole degrees, at which a door stands when opened without one given.
pub const DEFAULT_OPEN_ANGLE: u32 = 90;

/// A door in the state `S`, which is [`Open`] or [`Closed`].
pub struct Door<S> {
    state: S,
    color: &'static str,
}

/// The open state: the angle, in whole degrees, at which the door stands open.
pub struct Open {
    angle: u32,
}

/// The closed state; it holds nothing.
pub struct Closed;

impl<S> Door<S> {
    /// The color of the door, the same in every state.
    pub closed spec fn spec_color(&self) -> Seq<char> {
        self.color@
    }

    /// The color of the door.
    pub fn color(&self) -> (r: &str)
        ensures
            r@ == self.spec_color(),
    {
        self.color
    }
}

impl Door<Open> {
    /// An open door of the given color, standing open at `angle` degrees.
    pub fn new_open(color: &'static str, angle: u32) -> (r: Door<Open>)
        ensures
            r.spec_color() == color@,
            r.spec_angle() == angle,
    {
        Door { state: Open { angle }, color }
    }

    /// The angle at which the door stands open.
    pub closed spec fn spec_angle(&self) -> u32 {
        self.state.angle
    }

    /// The same door, closed.
    pub closed spec fn spec_close(self) -> Door<Closed> {
        Door { state: Closed, color: self.color }
    }

    /// What one sees through the open door.
    pub fn look_through(&self) -> (r: &'static str)
        ensures
            r@ == brighter_message(),
    {
        "It's brighter on the other side!"
    }

    /// Closes the door: it keeps its color and loses its angle.
    pub fn close(self) -> (r: Door<Closed>)
        ensures
            r == self.spec_close(),
            r.spec_color() == self.spec_color(),
    {
        Door { state: Closed, color: self.color }
    }

    /// The angle, in whole degrees, at which the door stands open.
    pub fn open_angle(&self) -> (r: u32)
        ensures
            r == self.spec_angle(),
    {
        self.state.angle
    }
}

impl Door<Closed> {
    /// A closed door of the given color.
    pub fn new_closed(color: &'static str) -> (r: Door<Closed>)
        ensures
            r.spec_color() == color@,
    {
        Door { state: Closed, color }
    }

    /// The same door, opened at `angle` degrees.
    pub closed spec fn spec_open_to(self, angle: u32) -> Door<Open> {
        Door { state: Open { angle }, color: self.color }
    }

    /// The same door, opened at the default angle.
    pub open spec fn spec_open(self) -> Door<Open> {
        self.spec_open_to(DEFAULT_OPEN_ANGLE)
    }

    /// The sound of knocking on the closed door.
    pub fn knock(&self) -> (r: &'static str)
        ensures
            r@ == knock_message(),
    {
        "knock knock"
    }

    /// Opens the door at the default angle; it keeps its color.
    pub fn open(self) -> (r: Door<Open>)
        ensures
            r == self.spec_open(),
            r.spec_color() == self.spec_color(),
            r.spec_angle() == DEFAULT_OPEN_ANGLE,
    {
        self.open_to(DEFAULT_OPEN_ANGLE)
    }

    /// Opens the door at `angle` degrees; it keeps its color.
    pub fn open_to(self, angle: u32) -> (r: Door<Open>)
        ensures
            r == self.spec_open_to(angle),
            r.spec_color() == self.spec_color(),
            r.spec_angle() == angle,
    {
        Door { state: Open { angle }, color: self.color }
    }
}

/// The closed door `d` after `n` rounds of opening and closing it again.
pub open spec fn cycled(d: Door<Closed>, n: nat) -> Door<Closed>
    decreases n,
{
    if n == 0 {
        d
    } else {
        cycled(d, (n - 1) as nat).spec_open().spec_close()
    }
}

/// Closing an open door and opening it again, or opening a closed door and closing it
/// again, leaves its color as it was; opening it again brings back the default angle.
pub proof fn lemma_round_trip_keeps_color(open: Door<Open>, closed: Door<Closed>)
    ensures
        open.spec_close().spec_open().spec_color() == open.spec_color(),
        open.spec_close().spec_open().spec_angle() == DEFAULT_OPEN_ANGLE,
        closed.spec_open().spec_close().spec_color() == closed.spec_color(),
{
}

/// Every door reached by transitions from a door has that door's color: a closed door
/// after any number of rounds of opening and closing, opened or not, and likewise an
/// open door after it is closed.
pub proof fn lemma_color_in_every_reachable_state(open: Door<Open>, closed: Door<Closed>, n: nat)
    ensures
        cycled(closed, n).spec_color() == closed.spec_color(),
        cycled(closed, n).spec_open().spec_color() == closed.spec_color(),
        cycled(open.spec_close(), n).spec_color() == open.spec_color(),
        cycled(open.spec_close(), n).spec_open().spec_color() == open.spec_color(),
    decreases n,
{
    if n > 0 {
        lemma_color_in_every_reachable_state(open, closed, (n - 1) as nat);
    }
}

} // verus!
