//! Engine contracts: each operation has a checked entry point that validates
//! its structural preconditions, and an unchecked one that trusts its caller.

use vstd::prelude::*;

verus! {

/// An engine: the backend that operations run on, with its own error type.
pub trait AbstractEngine {
    type EngineError;
}

} // verus!
