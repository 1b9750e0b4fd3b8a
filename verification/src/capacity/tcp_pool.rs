//! Capacities of a TcpPool.

use vstd::prelude::*;

use crate::capacity::CapacityKind;

verus! {

/// Capacity plan of a pool of `pool_count` TCP streams.
#[derive(Clone, Debug)]
pub struct TcpPoolCapacity {
    pool_count: usize,
}

impl TcpPoolCapacity {
    /// The number of streams in the pool.
    pub closed spec fn count(&self) -> usize {
        self.pool_count
    }

    /// The capacity for `kind`, as an integer.
    pub open spec fn setting_of(&self, kind: CapacityKind) -> int {
        match kind {
            CapacityKind::CoreQueue => self.count() * 3,
            CapacityKind::RegisteredFd => self.count() as int,
            CapacityKind::PendingCompletions => self.count() * 3,
            CapacityKind::Buffers => self.count() * 3,
            CapacityKind::Futexes => 0,
        }
    }

    /// Plan for a pool of `pool_count` streams.
    pub fn provide(pool_count: usize) -> (r: Self)
        ensures
            r.count() == pool_count,
    {
        TcpPoolCapacity { pool_count }
    }

    /// The number of streams in the pool.
    pub fn pool_count(&self) -> (r: usize)
        ensures
            r == self.count(),
    {
        self.pool_count
    }

    /// The capacity for `v`: every stream takes three queue entries, three
    /// pending completions, three buffers and one registered filehandle.
    pub fn setting(&self, v: &CapacityKind) -> (r: usize)
        requires
            self.setting_of(*v) <= usize::MAX,
        ensures
            r == self.setting_of(*v),
    {
        match v {
            CapacityKind::CoreQueue => self.pool_count * 3,
            CapacityKind::RegisteredFd => self.pool_count,
            CapacityKind::PendingCompletions => self.pool_count * 3,
            CapacityKind::Buffers => self.pool_count * 3,
            CapacityKind::Futexes => 0,
        }
    }
}

} // verus!
