//! Four ways to give a door, which is either open or closed, only the operations that
//! make sense in its current state.
//!
//! Each module is one encoding, from a flag checked at run time to states that live in
//! the type of the door.
use vstd::prelude::*;

pub mod v00_runtime;
pub mod v01_state_as_types;
pub mod v02_state_markers;
pub mod v03_generic_state;

verus! {

/// Text shown when looking through an open door.
pub open spec fn brighter_message() -> Seq<char> {
    "It's brighter on the other side!"@
}

/// Text shown when knocking on a closed door.
pub open spec fn knock_message() -> Seq<char> {
    "knock knock"@
}

} // verus!
