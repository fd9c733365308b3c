//! The tagged values that may cross the host/guest boundary.
//!
//! The binary module format supports a single 32-bit integer kind and has no
//! native boolean type; boolean results are carried as integers with 1 for
//! true and 0 for false.

use vstd::prelude::*;

verus! {

/// The kind of a value crossing the boundary.
#[derive(Clone, Copy, PartialEq, Eq, Structural, Debug)]
pub enum ValueKind {
    I32,
}

/// A tagged value used for arguments and return values in either direction.
#[derive(Clone, Copy, PartialEq, Eq, Structural, Debug)]
pub enum Value {
    I32(i32),
}

impl Value {
    /// The kind that tags this value.
    pub open spec fn kind(self) -> ValueKind {
        match self {
            Value::I32(_) => ValueKind::I32,
        }
    }

    /// Returns the kind that tags this value.
    pub fn kind_of(&self) -> (k: ValueKind)
        ensures
            k == self.kind(),
    {
        match self {
            Value::I32(_) => ValueKind::I32,
        }
    }
}

} // verus!
