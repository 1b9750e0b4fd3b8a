//! Yaoi capacities: what the io_uring bearer is planned with for a pool or
//! a listener.

use vstd::prelude::*;

verus! {

/// The kinds of capacity an io_uring bearer is planned with.
#[derive(Clone, Copy, Debug, PartialEq, Eq)]
pub enum CapacityKind {
    /// io_uring queue capacity.
    CoreQueue,
    /// How many filehandles can be registered.
    RegisteredFd,
    /// How many pending completions.
    PendingCompletions,
    /// How many buffers can be managed.
    Buffers,
    /// How many futexes can be managed.
    Futexes,
}

} // verus!

pub mod tcp_listener;
pub mod tcp_pool;
