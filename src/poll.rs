use vstd::prelude::*;

verus! {

/// Outcome of one non-blocking step of a pollable entity.
#[derive(Clone, Copy, Debug, PartialEq, Eq, Structural)]
pub enum Poll<T> {
    /// The entity produced a value.
    Ready(T),
    /// No further progress this call; poll again later.
    Pending,
}

} // verus!
