//! Shared error values of the stream stack.

use vstd::prelude::*;

verus! {

/// A liveness or drain deadline elapsed; the session is destroyed.
#[derive(Debug, Clone, PartialEq, Eq, Structural)]
pub struct TimeoutError;

} // verus!
