//! The baseline: the state is a flag, and a misuse is found only when it happens.
//!
//! Operations that are not defined in the current state return an error instead of
//! stopping the program.
use vstd::prelude::*;

use crate::{brighter_message, knock_message};

verus! {

/// An operation that was called in a state where it is not defined.
#[derive(Debug, Clone, Copy, PartialEq, Eq, Structural)]
pub enum InvalidStateOperation {
    /// `look_through` on a closed door.
    LookThroughClosedDoor,
    /// `knock` on an open door.
    KnockOnOpenDoor,
}

/// A door whose state is checked at run time.
pub struct Door {
    pub is_open: bool,
}

impl Door {
    /// A door in the given state.
    pub fn new(is_open: bool) -> (r: Door)
        ensures
            r.is_open == is_open,
    {
        Door { is_open }
    }

    /// What one sees through the door; only an open door can be looked through.
    pub fn look_through(&self) -> (r: Result<&'static str, InvalidStateOperation>)
        ensures
            self.is_open <==> r is Ok,
            r matches Ok(m) ==> m@ == brighter_message(),
            r matches Err(e) ==> e == InvalidStateOperation::LookThroughClosedDoor,
    {
        if self.is_open {
            Ok("It's brighter on the other side!")
        } else {
            Err(InvalidStateOperation::LookThroughClosedDoor)
        }
    }

    /// The sound of knocking; only a closed door can be knocked on.
    pub fn knock(&self) -> (r: Result<&'static str, InvalidStateOperation>)
        ensures
            !self.is_open <==> r is Ok,
            r matches Ok(m) ==> m@ == knock_message(),
            r matches Err(e) ==> e == InvalidStateOperation::KnockOnOpenDoor,
    {
        if self.is_open {
            Err(InvalidStateOperation::KnockOnOpenDoor)
        } else {
            Ok("knock knock")
        }
    }

    /// Opens the door, whatever its state was.
    pub fn open(&mut self)
        ensures
            final(self).is_open,
    {
        self.is_open = true;
    }

    /// Closes the door, whatever its state was.
    pub fn close(&mut self)
        ensures
            !final(self).is_open,
    {
        self.is_open = false;
    }
}

} // verus!
