//! Relative pointer movement as reported to the central.

use vstd::prelude::*;

verus! {

/// A relative pointer movement on the X, Y and Z axes.
#[derive(Clone, Copy, Debug, PartialEq, Eq)]
pub struct Motion {
    pub x: i16,
    pub y: i16,
    pub z: i16,
}

} // verus!
