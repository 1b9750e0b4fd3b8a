//! Listener strategies: how accepted sockets are registered and how many
//! connections the listener pool is bounded to.

use vstd::prelude::*;

verus! {

/// How accepted filehandles are registered.
#[derive(Debug)]
pub enum StrategyRegister {
    /// Regular non-fixed filehandles which are not registered with io_uring.
    Regular,
    /// Fixed filehandles registered with io_uring, with the fixed capacity.
    Fixed(u32),
}

/// TcpListener strategies.
#[derive(Debug)]
pub enum StrategyListener {
    /// Replenish single-shot Accept requests: (replenish count, registration, pool capacity).
    Replenish(u32, StrategyRegister, u32),
    /// One multi-shot Accept request: (registration, pool capacity).
    Multi(StrategyRegister, u32),
}

/// Half-built strategy that still needs its filehandle registration.
pub enum NeedRegisterStrategy {
    /// Replenishing single-shot Accepts with the given replenish count.
    Replenish(u32),
    /// Multi-shot Accept.
    Multi,
}

/// Half-built strategy over regular filehandles that still needs its pool capacity.
pub struct NeedCapBounded(StrategyListener);

impl StrategyRegister {
    /// The fixed capacity of a registration, zero when not fixed.
    pub open spec fn fixed_capacity(self) -> u32 {
        match self {
            StrategyRegister::Fixed(r) => r,
            StrategyRegister::Regular => 0,
        }
    }
}

impl StrategyListener {
    /// The bounded pool capacity the strategy carries.
    pub open spec fn pool_cap(self) -> u32 {
        match self {
            StrategyListener::Replenish(_, _, cap_pool) => cap_pool,
            StrategyListener::Multi(_, cap_pool) => cap_pool,
        }
    }

    /// The number of single-shot Accepts replenished, for a replenishing strategy.
    pub open spec fn replenish_count(self) -> Option<u32> {
        match self {
            StrategyListener::Replenish(c, _, _) => Some(c),
            StrategyListener::Multi(_, _) => None,
        }
    }

    /// The strategy with its pool capacity replaced by `p`.
    pub open spec fn with_pool_cap(self, p: u32) -> StrategyListener {
        match self {
            StrategyListener::Replenish(c, reg, _) => StrategyListener::Replenish(c, reg, p),
            StrategyListener::Multi(reg, _) => StrategyListener::Multi(reg, p),
        }
    }

    /// The registration the strategy carries.
    pub open spec fn register(self) -> StrategyRegister {
        match self {
            StrategyListener::Replenish(_, r, _) => r,
            StrategyListener::Multi(r, _) => r,
        }
    }

    /// Construct a new strategy replenishing single-shot Accepts up to `flux_count`.
    pub fn replenishing(flux_count: u32) -> (r: NeedRegisterStrategy)
        ensures
            r == NeedRegisterStrategy::Replenish(flux_count),
    {
        NeedRegisterStrategy::Replenish(flux_count)
    }

    /// Construct a new strategy using one multi-shot Accept.
    pub fn multi() -> (r: NeedRegisterStrategy)
        ensures
            r == NeedRegisterStrategy::Multi,
    {
        NeedRegisterStrategy::Multi
    }

    /// Current bounded pool capacity.
    pub fn cap_pool(&self) -> (r: u32)
        ensures
            r == self.pool_cap(),
    {
        match self {
            Self::Replenish(_, _, cap_pool) => *cap_pool,
            Self::Multi(_, cap_pool) => *cap_pool,
        }
    }

    /// Current fixed capacity; zero means not fixed.
    pub fn cap_fixed(&self) -> (r: u32)
        ensures
            r == self.register().fixed_capacity(),
    {
        let strat_reg = match self {
            Self::Replenish(_, strat_reg, _) => strat_reg,
            Self::Multi(strat_reg, _) => strat_reg,
        };
        match strat_reg {
            StrategyRegister::Fixed(r) => *r,
            StrategyRegister::Regular => 0,
        }
    }
}

impl NeedRegisterStrategy {
    /// The strategy over regular filehandles, before its pool capacity is given.
    pub open spec fn regular(self) -> StrategyListener {
        match self {
            NeedRegisterStrategy::Replenish(c) => StrategyListener::Replenish(
                c,
                StrategyRegister::Regular,
                0,
            ),
            NeedRegisterStrategy::Multi => StrategyListener::Multi(StrategyRegister::Regular, 0),
        }
    }

    /// The strategy over `k` fixed filehandles, which also bound the pool.
    pub open spec fn fixed(self, k: u32) -> StrategyListener {
        match self {
            NeedRegisterStrategy::Replenish(c) => StrategyListener::Replenish(
                c,
                StrategyRegister::Fixed(k),
                k,
            ),
            NeedRegisterStrategy::Multi => StrategyListener::Multi(StrategyRegister::Fixed(k), k),
        }
    }

    /// Accepted sockets get regular filehandles that are not mapped fixed into io_uring.
    pub fn regular_fds(&self) -> (r: NeedCapBounded)
        ensures
            r.pending() == self.regular(),
    {
        match self {
            Self::Replenish(c) => NeedCapBounded(
                StrategyListener::Replenish(*c, StrategyRegister::Regular, 0),
            ),
            Self::Multi => NeedCapBounded(StrategyListener::Multi(StrategyRegister::Regular, 0)),
        }
    }

    /// Accepted sockets are registered as fixed filehandles mapped directly in io_uring;
    /// the fixed capacity also bounds the pool.
    pub fn fixed_fds(&self, fixed_fd_capacity: u32) -> (r: StrategyListener)
        ensures
            r == self.fixed(fixed_fd_capacity),
    {
        match self {
            Self::Replenish(c) => StrategyListener::Replenish(
                *c,
                StrategyRegister::Fixed(fixed_fd_capacity),
                fixed_fd_capacity,
            ),
            Self::Multi => StrategyListener::Multi(
                StrategyRegister::Fixed(fixed_fd_capacity),
                fixed_fd_capacity,
            ),
        }
    }
}

impl NeedCapBounded {
    /// The strategy this half-built value holds.
    pub closed spec fn pending(self) -> StrategyListener {
        self.0
    }

    /// With regular filehandles, supply the bounded capacity (concurrent connections)
    /// of the listener pool.
    pub fn pool_capacity(self, pool_cap: u32) -> (r: StrategyListener)
        ensures
            r == self.pending().with_pool_cap(pool_cap),
    {
        match self.0 {
            StrategyListener::Replenish(replenish_c, strat_reg, _) => {
                StrategyListener::Replenish(replenish_c, strat_reg, pool_cap)
            },
            StrategyListener::Multi(strat_reg, _) => StrategyListener::Multi(strat_reg, pool_cap),
        }
    }
}

/// With fixed filehandles the pool is bounded by the fixed capacity: both
/// capacities are the one given, and the replenish count is kept.
pub proof fn law_fixed_fds_bound_pool(n: NeedRegisterStrategy, k: u32)
    ensures
        n.fixed(k).pool_cap() == k,
        n.fixed(k).register().fixed_capacity() == k,
        n.fixed(k).register() == StrategyRegister::Fixed(k),
        n matches NeedRegisterStrategy::Replenish(c) ==> n.fixed(k).replenish_count() == Some(c),
        n is Multi ==> n.fixed(k).replenish_count() is None,
{
}

/// With regular filehandles the pool capacity is the one given afterwards,
/// the fixed capacity is zero, and the replenish count is kept.
pub proof fn law_regular_fds_take_pool_capacity(n: NeedRegisterStrategy, p: u32)
    ensures
        n.regular().with_pool_cap(p).pool_cap() == p,
        n.regular().with_pool_cap(p).register().fixed_capacity() == 0,
        n.regular().with_pool_cap(p).register() == StrategyRegister::Regular,
        n matches NeedRegisterStrategy::Replenish(c) ==> n.regular().with_pool_cap(p).replenish_count()
            == Some(c),
        n is Multi ==> n.regular().with_pool_cap(p).replenish_count() is None,
{
}

} // verus!
