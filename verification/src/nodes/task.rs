//! Background tasks.

use vstd::prelude::*;

verus! {

/// Identifier for a future that attempts to reach a node.
#[derive(Debug, Copy, Clone, Hash, PartialEq, Eq, PartialOrd, Ord, Structural)]
pub struct TaskId(pub usize);

} // verus!
