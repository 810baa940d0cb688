//! Binary logic levels as read from an input pin.

use vstd::prelude::*;

verus! {

/// A stabilised or raw binary input level.
#[derive(Copy, Clone, Debug, PartialEq, Eq, Structural)]
pub enum Value {
    Low,
    High,
}

} // verus!
