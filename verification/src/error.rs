//! Errors reported by the controller.
use vstd::prelude::*;

verus! {

/// What the fetch register answers when it hands out no task.
#[derive(Debug, Clone, Copy, PartialEq, Eq, Structural)]
pub enum MoicErr {
    /// The ready queue of the current context is empty.
    NoTask,
    /// The controller could not serve the fetch (it reads back a negative value).
    FetchErr,
}

} // verus!
