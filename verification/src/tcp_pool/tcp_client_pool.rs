//! Yaoi TcpClientPool: the state of each client slot and the counts of
//! slots in each state.

use vstd::prelude::*;

use hashbrown::HashMap;
use nohash_hasher::BuildNoHashHasher;

use crate::tcp_stream::{EntConnected, TcpStream};

verus! {

/// Context of each individual client TcpStream slot.
#[derive(Debug, Default)]
pub enum ClientSlotCtx {
    /// Initial state pre-connect.
    #[default]
    Created,
    /// Connecting, with the key of the Connect submission.
    Connecting(usize),
    /// Encountered an I/O error while connecting.
    ConnectingError(i32),
    /// Connected, not reading or writing.
    Connected(TcpStream),
    /// Connected and reading.
    Reading(TcpStream),
    /// Connected and writing.
    Writing(TcpStream),
    /// Connected, reading and writing.
    ReadingAndWriting(TcpStream),
    /// Shut down completed Ok.
    ShutdownOk,
}

impl ClientSlotCtx {
    /// The stream the slot holds, if any.
    pub open spec fn stream(&self) -> Option<TcpStream> {
        match self {
            ClientSlotCtx::Connected(s) => Some(*s),
            ClientSlotCtx::Reading(s) => Some(*s),
            ClientSlotCtx::Writing(s) => Some(*s),
            ClientSlotCtx::ReadingAndWriting(s) => Some(*s),
            _ => None,
        }
    }

    /// Whether a slot holding a stream is writing and reading.
    pub open spec fn wishes(&self) -> Option<(bool, bool)> {
        match self {
            ClientSlotCtx::Connected(_) => Some((false, false)),
            ClientSlotCtx::Reading(_) => Some((false, true)),
            ClientSlotCtx::Writing(_) => Some((true, false)),
            ClientSlotCtx::ReadingAndWriting(_) => Some((true, true)),
            _ => None,
        }
    }

    /// The slot with its stream, if it holds one, replaced by `s`.
    pub open spec fn with_stream_set(self, s: TcpStream) -> ClientSlotCtx {
        match self {
            ClientSlotCtx::Connected(_) => ClientSlotCtx::Connected(s),
            ClientSlotCtx::Reading(_) => ClientSlotCtx::Reading(s),
            ClientSlotCtx::Writing(_) => ClientSlotCtx::Writing(s),
            ClientSlotCtx::ReadingAndWriting(_) => ClientSlotCtx::ReadingAndWriting(s),
            _ => self,
        }
    }

    /// The slot for a connected stream, by whether it writes and reads.
    pub open spec fn slot_for(s: TcpStream, wants_write: bool, wants_read: bool) -> ClientSlotCtx {
        match (wants_write, wants_read) {
            (false, false) => ClientSlotCtx::Connected(s),
            (false, true) => ClientSlotCtx::Reading(s),
            (true, false) => ClientSlotCtx::Writing(s),
            (true, true) => ClientSlotCtx::ReadingAndWriting(s),
        }
    }

    /// Borrow the stream the slot holds, if any, as mutable.
    pub fn tcp_stream_mut(&mut self) -> (r: Option<&mut TcpStream>)
        ensures
            r is Some == old(self).stream() is Some,
            r matches Some(s) ==> *s == old(self).stream()->0,
            r matches Some(s) ==> final(self).stream() == Some(*final(s)),
            r matches Some(s) ==> *final(self) == old(self).with_stream_set(*final(s)),
            r is None ==> *final(self) == *old(self),
            final(self).wishes() == old(self).wishes(),
    {
        match self {
            Self::Connected(s) => Some(s),
            Self::Reading(s) => Some(s),
            Self::Writing(s) => Some(s),
            Self::ReadingAndWriting(s) => Some(s),
            _ => None,
        }
    }

    /// The slot for a connected stream, by whether its Left side wants to
    /// write and to read.
    pub fn with_stream(tcp_stream: TcpStream, wants_write: bool, wants_read: bool) -> (r: Self)
        ensures
            r == ClientSlotCtx::slot_for(tcp_stream, wants_write, wants_read),
            r.stream() == Some(tcp_stream),
            r.wishes() == Some((wants_write, wants_read)),
    {
        match (wants_write, wants_read) {
            (false, false) => ClientSlotCtx::Connected(tcp_stream),
            (false, true) => ClientSlotCtx::Reading(tcp_stream),
            (true, false) => ClientSlotCtx::Writing(tcp_stream),
            (true, true) => ClientSlotCtx::ReadingAndWriting(tcp_stream),
        }
    }
}

/// The counts of client slots in each state.
pub struct PoolCounts {
    /// Slots in the pool.
    pub pool_count: usize,
    /// Slots whose Connect is in flight.
    pub connecting: usize,
    /// Slots whose Connect failed.
    pub error: usize,
    /// Slots connected.
    pub connected: usize,
    /// Slots shut down.
    pub shutdown: usize,
}

impl PoolCounts {
    /// Connects submitted so far: each is in flight, failed or connected.
    pub open spec fn submitted(self) -> int {
        self.connecting + self.error + self.connected
    }

    /// The counts after a Connect was submitted.
    pub open spec fn after_submit(self) -> PoolCounts {
        PoolCounts { connecting: (self.connecting + 1) as usize, ..self }
    }

    /// The counts after a Connect failed.
    pub open spec fn after_failed(self) -> PoolCounts {
        PoolCounts {
            connecting: (self.connecting - 1) as usize,
            error: (self.error + 1) as usize,
            ..self
        }
    }

    /// The counts after a Connect succeeded.
    pub open spec fn after_connected(self) -> PoolCounts {
        PoolCounts {
            connecting: (self.connecting - 1) as usize,
            connected: (self.connected + 1) as usize,
            ..self
        }
    }
}

/// The counts of a client pool's slots in each state.
pub struct ClientPoolStates {
    pool_count: usize,
    state_connecting: usize,
    state_error: usize,
    state_connected: usize,
    state_shutdown: usize,
}

impl View for ClientPoolStates {
    type V = PoolCounts;

    closed spec fn view(&self) -> PoolCounts {
        PoolCounts {
            pool_count: self.pool_count,
            connecting: self.state_connecting,
            error: self.state_error,
            connected: self.state_connected,
            shutdown: self.state_shutdown,
        }
    }
}

impl ClientPoolStates {
    /// A pool of `pool_cap` slots, none connecting, failed, connected or shut down.
    pub fn with_capacity(pool_cap: usize) -> (r: Self)
        ensures
            r@ == (PoolCounts { pool_count: pool_cap, connecting: 0, error: 0, connected: 0, shutdown: 0 }),
    {
        ClientPoolStates {
            pool_count: pool_cap,
            state_connecting: 0,
            state_connected: 0,
            state_shutdown: 0,
            state_error: 0,
        }
    }

    /// Slots in the pool.
    pub fn pool_count(&self) -> (r: usize)
        ensures
            r == self@.pool_count,
    {
        self.pool_count
    }

    /// Slots whose Connect is in flight.
    pub fn connecting(&self) -> (r: usize)
        ensures
            r == self@.connecting,
    {
        self.state_connecting
    }

    /// Slots whose Connect failed.
    pub fn errored(&self) -> (r: usize)
        ensures
            r == self@.error,
    {
        self.state_error
    }

    /// Slots connected.
    pub fn connected(&self) -> (r: usize)
        ensures
            r == self@.connected,
    {
        self.state_connected
    }

    /// Slots shut down.
    pub fn shut_down(&self) -> (r: usize)
        ensures
            r == self@.shutdown,
    {
        self.state_shutdown
    }

    /// A Connect was submitted.
    pub fn connect_submitted(&mut self)
        requires
            old(self)@.connecting < usize::MAX,
        ensures
            final(self)@ == old(self)@.after_submit(),
    {
        self.state_connecting = self.state_connecting + 1;
    }

    /// A Connect failed.
    pub fn connect_failed(&mut self)
        requires
            old(self)@.connecting > 0,
            old(self)@.error < usize::MAX,
        ensures
            final(self)@ == old(self)@.after_failed(),
    {
        self.state_connecting = self.state_connecting - 1;
        self.state_error = self.state_error + 1;
    }

    /// A Connect succeeded.
    pub fn connect_succeeded(&mut self)
        requires
            old(self)@.connecting > 0,
            old(self)@.connected < usize::MAX,
        ensures
            final(self)@ == old(self)@.after_connected(),
    {
        self.state_connecting = self.state_connecting - 1;
        self.state_connected = self.state_connected + 1;
    }
}

/// Every completed Connect moves one slot out of connecting, into failed or
/// connected: what was submitted is kept; submitting adds one.
pub proof fn law_connects_are_kept(c: PoolCounts)
    requires
        c.connecting < usize::MAX,
        c.error < usize::MAX,
        c.connected < usize::MAX,
    ensures
        c.after_submit().submitted() == c.submitted() + 1,
        c.connecting > 0 ==> c.after_failed().submitted() == c.submitted(),
        c.connecting > 0 ==> c.after_connected().submitted() == c.submitted(),
        c.connecting > 0 ==> c.after_failed().pool_count == c.pool_count,
        c.connecting > 0 ==> c.after_connected().pool_count == c.pool_count,
{
}

/// The counts after Connects completed with the given outcomes in order,
/// each a success (`true`) or a failure.
pub open spec fn after_connects(c: PoolCounts, outcomes: Seq<bool>) -> PoolCounts
    decreases outcomes.len(),
{
    if outcomes.len() == 0 {
        c
    } else {
        let next = if outcomes[0] {
            c.after_connected()
        } else {
            c.after_failed()
        };
        after_connects(next, outcomes.drop_first())
    }
}

/// Over any run of completed Connects, each moves one slot out of
/// connecting, into connected or failed: what was submitted is kept, and
/// the pool's size and its shut-down count are untouched.
pub proof fn law_connect_runs_keep_counts(c: PoolCounts, outcomes: Seq<bool>)
    requires
        outcomes.len() <= c.connecting,
        c.error + outcomes.len() <= usize::MAX,
        c.connected + outcomes.len() <= usize::MAX,
    ensures
        after_connects(c, outcomes).submitted() == c.submitted(),
        after_connects(c, outcomes).connecting == c.connecting - outcomes.len(),
        after_connects(c, outcomes).pool_count == c.pool_count,
        after_connects(c, outcomes).shutdown == c.shutdown,
    decreases outcomes.len(),
{
    if outcomes.len() > 0 {
        let next = if outcomes[0] {
            c.after_connected()
        } else {
            c.after_failed()
        };
        law_connect_runs_keep_counts(next, outcomes.drop_first());
    }
}

/// A pool of `n` slots that submitted a Connect for each keeps, whatever
/// its Connects gave, `n` slots among connecting, connected and failed, and
/// none shut down.
pub proof fn law_pool_connects_add_up(n: usize, outcomes: Seq<bool>)
    requires
        outcomes.len() <= n,
    ensures
        ({
            let submitted = PoolCounts { pool_count: n, connecting: n, error: 0, connected: 0, shutdown: 0 };
            let after = after_connects(submitted, outcomes);
            &&& after.connecting + after.connected + after.error == n
            &&& after.shutdown == 0
        }),
{
    let submitted = PoolCounts { pool_count: n, connecting: n, error: 0, connected: 0, shutdown: 0 };
    law_connect_runs_keep_counts(submitted, outcomes);
}

/// A stored stream reads back: once slot `k` is set for stream `s`, the
/// slot holds `s` with the wishes it was stored with, and every other slot
/// is as it was.
pub proof fn law_stored_client_stream_reads_back(
    slots: Map<u32, ClientSlotCtx>,
    k: u32,
    s: TcpStream,
    wants_write: bool,
    wants_read: bool,
)
    ensures
        ({
            let after = slots.insert(k, ClientSlotCtx::slot_for(s, wants_write, wants_read));
            &&& after[k].stream() == Some(s)
            &&& after[k].wishes() == Some((wants_write, wants_read))
            &&& forall|j: u32| j != k ==> (after.contains_key(j) == slots.contains_key(j)
                && (slots.contains_key(j) ==> #[trigger] after[j] == slots[j]))
        }),
{
}

/// The register map a client pool starts with: `pool_count` free fixed slots.
pub fn unregistered_fd_map(pool_count: usize) -> (m: Vec<i32>)
    ensures
        m@ == Seq::new(pool_count as nat, |i: int| -1i32),
{
    let mut m: Vec<i32> = Vec::new();
    let mut i: usize = 0;
    while i < pool_count
        invariant
            i <= pool_count,
            m@ == Seq::new(i as nat, |k: int| -1i32),
        decreases pool_count - i,
    {
        m.push(-1);
        i = i + 1;
        assert(m@ =~= Seq::new(i as nat, |k: int| -1i32));
    }
    m
}


/// The client slots, keyed by fixed filehandle: a `hashbrown::HashMap` with
/// the identity hasher of `nohash_hasher`. It is held opaquely because Verus
/// cannot declare the map type: its allocator parameter's trait cannot be
/// named here.
#[verifier::external_body]
pub struct ClientSlotMap {
    map: HashMap<u32, ClientSlotCtx, BuildNoHashHasher<u32>>,
}

/// The slots a client slot map holds, by key.
pub uninterp spec fn client_slots(m: ClientSlotMap) -> Map<u32, ClientSlotCtx>;

/// `hashbrown::HashMap::with_capacity_and_hasher`, with the default
/// `nohash_hasher::BuildNoHashHasher`: an empty map.
#[verifier::external_body]
fn client_slot_map_new(capacity: usize) -> (r: ClientSlotMap)
    ensures
        client_slots(r).dom() == Set::<u32>::empty(),
{
    ClientSlotMap { map: HashMap::with_capacity_and_hasher(capacity, BuildNoHashHasher::default()) }
}

/// `hashbrown::HashMap::contains_key`: whether the map holds a slot for `k`.
#[verifier::external_body]
fn client_slot_contains(m: &ClientSlotMap, k: u32) -> (r: bool)
    ensures
        r == client_slots(*m).contains_key(k),
{
    m.map.contains_key(&k)
}

/// `hashbrown::HashMap::get_mut`: the slot held for `k`, if any, borrowed
/// mutably; what is written through it is what the map then holds for `k`.
#[verifier::external_body]
fn client_slot_get_mut(m: &mut ClientSlotMap, k: u32) -> (r: Option<&mut ClientSlotCtx>)
    ensures
        r is Some == client_slots(*old(m)).contains_key(k),
        r matches Some(v) ==> *v == client_slots(*old(m))[k],
        r matches Some(v) ==> client_slots(*final(m)) == client_slots(*old(m)).insert(k, *final(v)),
        r is None ==> client_slots(*final(m)) == client_slots(*old(m)),
{
    m.map.get_mut(&k)
}

/// `hashbrown::HashMap::insert`: the map then holds `v` for `k`; the slot
/// it held for `k` before, if any, comes back.
#[verifier::external_body]
fn client_slot_insert(m: &mut ClientSlotMap, k: u32, v: ClientSlotCtx) -> (r: Option<ClientSlotCtx>)
    ensures
        client_slots(*final(m)) == client_slots(*old(m)).insert(k, v),
        r == (if client_slots(*old(m)).contains_key(k) {
            Some(client_slots(*old(m))[k])
        } else {
            None
        }),
{
    m.map.insert(k, v)
}

/// What a completed Connect leads to.
#[derive(Debug)]
pub enum ConnectStep {
    /// The Connect failed; the slot records the error.
    Failed,
    /// The Connect succeeded; the stream is made over this connection.
    Established(EntConnected),
}

/// A client pool's slots and the counts of slots in each state.
pub struct ClientPool {
    slots: ClientSlotMap,
    states: ClientPoolStates,
}

impl ClientPool {
    /// The slots, by fixed filehandle.
    pub closed spec fn slots(&self) -> Map<u32, ClientSlotCtx> {
        client_slots(self.slots)
    }

    /// The counts of slots in each state.
    pub closed spec fn counts(&self) -> PoolCounts {
        self.states@
    }

    /// A pool of `pool_cap` slots, none of them made yet, all counts zero.
    pub fn with_capacity(pool_cap: usize) -> (r: Self)
        ensures
            r.slots() == Map::<u32, ClientSlotCtx>::empty(),
            r.counts() == (PoolCounts {
                pool_count: pool_cap,
                connecting: 0,
                error: 0,
                connected: 0,
                shutdown: 0,
            }),
    {
        ClientPool { slots: client_slot_map_new(pool_cap), states: ClientPoolStates::with_capacity(pool_cap) }
    }

    /// Whether slot `fixed_fd` was made.
    pub fn has_slot(&self, fixed_fd: u32) -> (r: bool)
        ensures
            r == self.slots().contains_key(fixed_fd),
    {
        client_slot_contains(&self.slots, fixed_fd)
    }

    /// The counts of slots in each state.
    pub fn states(&self) -> (r: &ClientPoolStates)
        ensures
            r@ == self.counts(),
    {
        &self.states
    }

    /// The Connect of slot `fixed_fd` was submitted with key `op_idx`.
    pub fn mark_connecting(&mut self, fixed_fd: u32, op_idx: usize)
        requires
            old(self).counts().connecting < usize::MAX,
        ensures
            final(self).counts() == old(self).counts().after_submit(),
            final(self).slots() == old(self).slots().insert(fixed_fd, ClientSlotCtx::Connecting(op_idx)),
    {
        self.states.connect_submitted();
        match client_slot_get_mut(&mut self.slots, fixed_fd) {
            Some(p_entry) => {
                *p_entry = ClientSlotCtx::Connecting(op_idx);
            },
            None => {
                client_slot_insert(&mut self.slots, fixed_fd, ClientSlotCtx::Connecting(op_idx));
            },
        }
    }

    /// The Connect of slot `fixed_fd` completed with `result`: a failure is
    /// recorded in the slot and the counts; a success gives the connection
    /// to make the stream over, the counts moving once it is made.
    pub fn on_connect_result(&mut self, fixed_fd: u32, result: i32) -> (r: ConnectStep)
        requires
            old(self).slots().contains_key(fixed_fd),
            result != 0 ==> old(self).counts().connecting > 0 && old(self).counts().error < usize::MAX,
        ensures
            result != 0 ==> r is Failed && final(self).slots() == old(self).slots().insert(
                fixed_fd,
                ClientSlotCtx::ConnectingError(result),
            ) && final(self).counts() == old(self).counts().after_failed(),
            result == 0 ==> final(self).slots() == old(self).slots() && final(self).counts()
                == old(self).counts(),
            result == 0 ==> (r matches ConnectStep::Established(c) && c.fixed() == Some(fixed_fd)
                && c.peer() is None && c.raw() is None),
    {
        if result != 0 {
            self.states.connect_failed();
            client_slot_insert(&mut self.slots, fixed_fd, ClientSlotCtx::ConnectingError(result));
            ConnectStep::Failed
        } else {
            ConnectStep::Established(EntConnected::from_fixed(fixed_fd))
        }
    }

    /// The stream of a successful Connect was made.
    pub fn connect_established(&mut self)
        requires
            old(self).counts().connecting > 0,
            old(self).counts().connected < usize::MAX,
        ensures
            final(self).counts() == old(self).counts().after_connected(),
            final(self).slots() == old(self).slots(),
    {
        self.states.connect_succeeded();
    }

    /// Slot `fixed_fd` holds the connected stream `s`, by whether it writes and reads.
    pub fn store_stream(&mut self, fixed_fd: u32, s: TcpStream, wants_write: bool, wants_read: bool)
        ensures
            final(self).slots() == old(self).slots().insert(
                fixed_fd,
                ClientSlotCtx::slot_for(s, wants_write, wants_read),
            ),
            final(self).counts() == old(self).counts(),
    {
        let slot = ClientSlotCtx::with_stream(s, wants_write, wants_read);
        client_slot_insert(&mut self.slots, fixed_fd, slot);
    }

    /// Borrow the stream slot `fixed_fd` holds, if the slot was made and
    /// holds one, as mutable.
    pub fn slot_stream_mut(&mut self, fixed_fd: u32) -> (r: Option<&mut TcpStream>)
        ensures
            r is Some == (old(self).slots().contains_key(fixed_fd)
                && old(self).slots()[fixed_fd].stream() is Some),
            r matches Some(s) ==> *s == old(self).slots()[fixed_fd].stream()->0,
            r matches Some(s) ==> final(self).slots() == old(self).slots().insert(
                fixed_fd,
                old(self).slots()[fixed_fd].with_stream_set(*final(s)),
            ),
            r is None ==> final(self).slots() == old(self).slots(),
            final(self).counts() == old(self).counts(),
    {
        match client_slot_get_mut(&mut self.slots, fixed_fd) {
            Some(p_entry) => p_entry.tcp_stream_mut(),
            None => None,
        }
    }
}

} // verus!
