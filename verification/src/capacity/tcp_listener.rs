//! Capacities of a TcpListener.

use vstd::prelude::*;

use crate::capacity::CapacityKind;

verus! {

/// Capacity plan of a TcpListener with a pending accept queue of `q_count`.
#[derive(Clone, Debug)]
pub struct TcpListenerCapacity {
    q_count: usize,
}

impl TcpListenerCapacity {
    /// The pending accept queue capacity.
    pub closed spec fn queue(&self) -> usize {
        self.q_count
    }

    /// The capacity for `kind`.
    pub open spec fn setting_of(&self, kind: CapacityKind) -> usize {
        match kind {
            CapacityKind::CoreQueue => self.queue(),
            CapacityKind::RegisteredFd => 1,
            CapacityKind::PendingCompletions => self.queue(),
            CapacityKind::Buffers => 0,
            CapacityKind::Futexes => 0,
        }
    }

    /// Plan for a pending accept queue of `q_count`.
    pub fn provide(q_count: usize) -> (r: Self)
        ensures
            r.queue() == q_count,
    {
        TcpListenerCapacity { q_count }
    }

    /// The capacity for `v`: the queue and pending completions follow the
    /// accept queue, one filehandle is registered, no buffers or futexes.
    pub fn setting(&self, v: &CapacityKind) -> (r: usize)
        ensures
            r == self.setting_of(*v),
    {
        match v {
            CapacityKind::CoreQueue => self.q_count,
            CapacityKind::RegisteredFd => 1,
            CapacityKind::PendingCompletions => self.q_count,
            CapacityKind::Buffers => 0,
            CapacityKind::Futexes => 0,
        }
    }
}

} // verus!
