//! Yaoi TcpListener: the registration a strategy asks for, the state of each
//! accepted slot, and what an Accept completion leads to.

use vstd::prelude::*;

use hashbrown::HashMap;
use nohash_hasher::BuildNoHashHasher;

use crate::cmaps::MapAccepted;
use crate::strategy::{StrategyListener, StrategyRegister};
use crate::tcp_stream::{EntConnected, PeerAddr, TcpStream};

verus! {

/// Context of each individual accepted TcpStream slot.
#[derive(Debug, Default)]
pub enum ListenerSlotCtx {
    /// Initial state pre-connect.
    #[default]
    Created,
    /// Accepted, not reading or writing.
    Accepted(TcpStream),
    /// Accepted and reading.
    Reading(TcpStream),
    /// Accepted and writing.
    Writing(TcpStream),
    /// Accepted, reading and writing.
    ReadingAndWriting(TcpStream),
    /// Shut down completed Ok.
    ShutdownOk,
}

impl ListenerSlotCtx {
    /// The stream the slot holds, if any.
    pub open spec fn stream(&self) -> Option<TcpStream> {
        match self {
            ListenerSlotCtx::Accepted(s) => Some(*s),
            ListenerSlotCtx::Reading(s) => Some(*s),
            ListenerSlotCtx::Writing(s) => Some(*s),
            ListenerSlotCtx::ReadingAndWriting(s) => Some(*s),
            _ => None,
        }
    }

    /// Whether a slot holding a stream is writing and reading.
    pub open spec fn wishes(&self) -> Option<(bool, bool)> {
        match self {
            ListenerSlotCtx::Accepted(_) => Some((false, false)),
            ListenerSlotCtx::Reading(_) => Some((false, true)),
            ListenerSlotCtx::Writing(_) => Some((true, false)),
            ListenerSlotCtx::ReadingAndWriting(_) => Some((true, true)),
            _ => None,
        }
    }

    /// The slot with its stream, if it holds one, replaced by `s`.
    pub open spec fn with_stream_set(self, s: TcpStream) -> ListenerSlotCtx {
        match self {
            ListenerSlotCtx::Accepted(_) => ListenerSlotCtx::Accepted(s),
            ListenerSlotCtx::Reading(_) => ListenerSlotCtx::Reading(s),
            ListenerSlotCtx::Writing(_) => ListenerSlotCtx::Writing(s),
            ListenerSlotCtx::ReadingAndWriting(_) => ListenerSlotCtx::ReadingAndWriting(s),
            _ => self,
        }
    }

    /// The slot for an accepted stream, by whether it writes and reads.
    pub open spec fn slot_for(s: TcpStream, wants_write: bool, wants_read: bool) -> ListenerSlotCtx {
        match (wants_write, wants_read) {
            (false, false) => ListenerSlotCtx::Accepted(s),
            (false, true) => ListenerSlotCtx::Reading(s),
            (true, false) => ListenerSlotCtx::Writing(s),
            (true, true) => ListenerSlotCtx::ReadingAndWriting(s),
        }
    }

    /// Borrow the stream the slot holds, if any, as mutable.
    pub fn tcp_stream_mut(&mut self) -> (r: Option<&mut TcpStream>)
        ensures
            r is Some == old(self).stream() is Some,
            r matches Some(s) ==> *s == old(self).stream()->0,
            r matches Some(s) ==> final(self).stream() == Some(*final(s)),
            r matches Some(s) ==> *final(self) == old(self).with_stream_set(*final(s)),
            r is None ==> *final(self) == *old(self),
            final(self).wishes() == old(self).wishes(),
    {
        match self {
            Self::Accepted(s) => Some(s),
            Self::Reading(s) => Some(s),
            Self::Writing(s) => Some(s),
            Self::ReadingAndWriting(s) => Some(s),
            _ => None,
        }
    }

    /// The slot for an accepted stream, by whether its Left side wants to
    /// write and to read.
    pub fn with_stream(tcp_stream: TcpStream, wants_write: bool, wants_read: bool) -> (r: Self)
        ensures
            r == ListenerSlotCtx::slot_for(tcp_stream, wants_write, wants_read),
            r.stream() == Some(tcp_stream),
            r.wishes() == Some((wants_write, wants_read)),
    {
        match (wants_write, wants_read) {
            (false, false) => ListenerSlotCtx::Accepted(tcp_stream),
            (false, true) => ListenerSlotCtx::Reading(tcp_stream),
            (true, false) => ListenerSlotCtx::Writing(tcp_stream),
            (true, true) => ListenerSlotCtx::ReadingAndWriting(tcp_stream),
        }
    }
}

/// How the listening filehandle is registered and Accepts queued.
#[derive(Clone, Copy, Debug, PartialEq, Eq)]
pub enum Registration {
    /// Registered as an acceptor; accepted filehandles are regular. Carries
    /// the number of single-shot Accepts to keep queued.
    Regular(u32),
    /// Registered in a fixed filehandle map of the given size; accepted
    /// filehandles are fixed. Carries the number of single-shot Accepts to
    /// keep queued and the map's size.
    Fixed(u32, u32),
    /// Registered as an acceptor; accepted filehandles are regular. One
    /// multi-shot Accept is queued and nothing is replenished.
    MultiRegular,
    /// Registered in a fixed filehandle map of the given size; accepted
    /// filehandles are fixed. One multi-shot Accept is queued and nothing is
    /// replenished.
    MultiFixed(u32),
}

/// The registration a strategy asks for.
pub open spec fn registration_of(strategy: StrategyListener) -> Registration {
    match strategy {
        StrategyListener::Replenish(c, StrategyRegister::Regular, _) => Registration::Regular(c),
        StrategyListener::Replenish(c, StrategyRegister::Fixed(n), _) => Registration::Fixed(c, n),
        StrategyListener::Multi(StrategyRegister::Regular, _) => Registration::MultiRegular,
        StrategyListener::Multi(StrategyRegister::Fixed(n), _) => Registration::MultiFixed(n),
    }
}

/// The registration a strategy asks for.
pub fn registration(strategy: &StrategyListener) -> (r: Registration)
    ensures
        r == registration_of(*strategy),
{
    match strategy {
        StrategyListener::Replenish(repl_cc, StrategyRegister::Regular, _) => Registration::Regular(
            *repl_cc,
        ),
        StrategyListener::Replenish(repl_cc, StrategyRegister::Fixed(fixed_count), _) => {
            Registration::Fixed(*repl_cc, *fixed_count)
        },
        StrategyListener::Multi(StrategyRegister::Regular, _) => Registration::MultiRegular,
        StrategyListener::Multi(StrategyRegister::Fixed(fixed_count), _) => Registration::MultiFixed(
            *fixed_count,
        ),
    }
}

/// The Accepts a registration queues when listening starts.
#[derive(Clone, Copy, Debug, PartialEq, Eq)]
pub struct AcceptPlan {
    /// Whether the listening filehandle goes into a fixed filehandle map.
    pub fixed_fds: bool,
    /// The size of that map; zero when there is none.
    pub fixed_count: u32,
    /// Single-shot Accepts queued, each replenished as it completes.
    pub single_shot: u32,
    /// Multi-shot Accepts queued; never replenished.
    pub multi_shot: u32,
}

/// The Accepts a registration queues: a replenishing one keeps its count of
/// single-shot Accepts queued, a multi-shot one queues exactly one
/// multi-shot Accept and no single-shot ones.
pub open spec fn plan_of(reg: Registration) -> AcceptPlan {
    match reg {
        Registration::Regular(c) => AcceptPlan { fixed_fds: false, fixed_count: 0, single_shot: c, multi_shot: 0 },
        Registration::Fixed(c, n) => AcceptPlan { fixed_fds: true, fixed_count: n, single_shot: c, multi_shot: 0 },
        Registration::MultiRegular => AcceptPlan { fixed_fds: false, fixed_count: 0, single_shot: 0, multi_shot: 1 },
        Registration::MultiFixed(n) => AcceptPlan { fixed_fds: true, fixed_count: n, single_shot: 0, multi_shot: 1 },
    }
}

/// The Accepts a registration queues when listening starts.
pub fn accept_plan(reg: Registration) -> (p: AcceptPlan)
    ensures
        p == plan_of(reg),
{
    match reg {
        Registration::Regular(c) => AcceptPlan { fixed_fds: false, fixed_count: 0, single_shot: c, multi_shot: 0 },
        Registration::Fixed(c, n) => AcceptPlan { fixed_fds: true, fixed_count: n, single_shot: c, multi_shot: 0 },
        Registration::MultiRegular => AcceptPlan { fixed_fds: false, fixed_count: 0, single_shot: 0, multi_shot: 1 },
        Registration::MultiFixed(n) => AcceptPlan { fixed_fds: true, fixed_count: n, single_shot: 0, multi_shot: 1 },
    }
}

/// Listening with a multi-shot strategy queues exactly one multi-shot
/// Accept and replenishes nothing; a replenishing strategy queues its count
/// of single-shot Accepts and no multi-shot one. Either way the fixed map is
/// the one the strategy registers.
pub proof fn law_multi_queues_one_accept(strategy: StrategyListener)
    ensures
        ({
            let p = plan_of(registration_of(strategy));
            &&& strategy is Multi ==> p.multi_shot == 1 && p.single_shot == 0
            &&& strategy matches StrategyListener::Replenish(c, _, _) ==> p.multi_shot == 0
                && p.single_shot == c
            &&& p.fixed_fds == (strategy.register() is Fixed)
            &&& p.fixed_count == strategy.register().fixed_capacity()
        }),
{
}

/// The fixed filehandle map a listener registers: the listening filehandle
/// in the first slot, the remaining `listen_count - 1` slots free.
pub fn fixed_register_map(listener_fd: i32, listen_count: u32) -> (m: Vec<i32>)
    requires
        listen_count > 0,
    ensures
        m@.len() == listen_count,
        m@[0] == listener_fd,
        forall|i: int| 1 <= i < listen_count ==> #[trigger] m@[i] == -1i32,
{
    let mut reg_map: Vec<i32> = Vec::new();
    let mut i: u32 = 0;
    while i < listen_count
        invariant
            i <= listen_count,
            reg_map@.len() == i,
            forall|k: int| 0 <= k < i ==> #[trigger] reg_map@[k] == -1i32,
        decreases listen_count - i,
    {
        reg_map.push(-1);
        i = i + 1;
    }
    reg_map.set(0, listener_fd);
    reg_map
}

/// The slot an Accept result names: results in `0..i32::MAX` are accepted
/// fixed filehandles, the rest errors.
pub fn accepted_slot(result: i32) -> (r: Option<u32>)
    ensures
        r == (if 0 <= result < i32::MAX {
            Some(result as u32)
        } else {
            None
        }),
{
    if 0 <= result && result < i32::MAX {
        Some(result as u32)
    } else {
        None
    }
}

/// The connection an Accept gave: the fixed slot, with the peer address when known.
pub fn accepted_connection(slot_u32: u32, s_addr: Option<PeerAddr>) -> (r: EntConnected)
    ensures
        r.fixed() == Some(slot_u32),
        r.peer() == s_addr,
        r.raw() is None,
{
    match s_addr {
        Some(s_addr) => EntConnected::from_fixed(slot_u32).and_peer_addr(s_addr),
        None => EntConnected::from_fixed(slot_u32),
    }
}

/// What an Accept completion gives: the accepted fixed slot and the
/// connection over it, or nothing when the Accept failed.
pub fn on_accepted(accepted: &MapAccepted) -> (r: Option<(u32, EntConnected)>)
    ensures
        r is Some == (0 <= accepted.result < i32::MAX),
        r matches Some(p) ==> p.0 == accepted.result as u32 && p.1.fixed() == Some(p.0)
            && p.1.peer() == accepted.s_addr && p.1.raw() is None,
{
    match accepted_slot(accepted.result) {
        Some(slot_u32) => Some((slot_u32, accepted_connection(slot_u32, accepted.s_addr))),
        None => None,
    }
}

/// What a listener does after queueing the sends of a received round.
#[derive(Clone, Copy, Debug, PartialEq, Eq)]
pub enum RecvRound {
    /// Sends were queued: submit them and run the callback again.
    SubmitAndRepeat,
    /// Nothing was queued: the round is over; hand the read buffers back.
    FreeBuffers,
}

/// After a listener's callback ran over received input and `sent` sends were
/// queued: while something was queued it is submitted and the callback runs
/// again; otherwise the read buffers are handed back.
pub fn recv_round(sent: usize) -> (r: RecvRound)
    ensures
        r == (if sent != 0 {
            RecvRound::SubmitAndRepeat
        } else {
            RecvRound::FreeBuffers
        }),
{
    if sent != 0 {
        RecvRound::SubmitAndRepeat
    } else {
        RecvRound::FreeBuffers
    }
}

/// After an accepted stream queued `recv_queued` receives and `send_queued`
/// sends: the bearer is submitted exactly when something was queued.
pub fn submit_after_accept(recv_queued: usize, send_queued: usize) -> (r: bool)
    ensures
        r == (recv_queued != 0 || send_queued != 0),
{
    recv_queued != 0 || send_queued != 0
}

/// The accepted slots, keyed by fixed filehandle: a `hashbrown::HashMap`
/// with the identity hasher of `nohash_hasher`. It is held opaquely because
/// Verus cannot declare the map type: its allocator parameter's trait cannot
/// be named here.
#[verifier::external_body]
pub struct ListenerSlotMap {
    map: HashMap<u32, ListenerSlotCtx, BuildNoHashHasher<u32>>,
}

/// The slots a listener slot map holds, by key.
pub uninterp spec fn listener_slots(m: ListenerSlotMap) -> Map<u32, ListenerSlotCtx>;

/// `hashbrown::HashMap::with_capacity_and_hasher`, with the default
/// `nohash_hasher::BuildNoHashHasher`: an empty map.
#[verifier::external_body]
fn listener_slot_map_new(capacity: usize) -> (r: ListenerSlotMap)
    ensures
        listener_slots(r).dom() == Set::<u32>::empty(),
{
    ListenerSlotMap { map: HashMap::with_capacity_and_hasher(capacity, BuildNoHashHasher::default()) }
}

/// `hashbrown::HashMap::get_mut`: the slot held for `k`, if any, borrowed
/// mutably; what is written through it is what the map then holds for `k`.
#[verifier::external_body]
fn listener_slot_get_mut(m: &mut ListenerSlotMap, k: u32) -> (r: Option<&mut ListenerSlotCtx>)
    ensures
        r is Some == listener_slots(*old(m)).contains_key(k),
        r matches Some(v) ==> *v == listener_slots(*old(m))[k],
        r matches Some(v) ==> listener_slots(*final(m)) == listener_slots(*old(m)).insert(k, *final(v)),
        r is None ==> listener_slots(*final(m)) == listener_slots(*old(m)),
{
    m.map.get_mut(&k)
}

/// `hashbrown::HashMap::insert`: the map then holds `v` for `k`; the slot
/// it held for `k` before, if any, comes back.
#[verifier::external_body]
fn listener_slot_insert(m: &mut ListenerSlotMap, k: u32, v: ListenerSlotCtx) -> (r: Option<ListenerSlotCtx>)
    ensures
        listener_slots(*final(m)) == listener_slots(*old(m)).insert(k, v),
        r == (if listener_slots(*old(m)).contains_key(k) {
            Some(listener_slots(*old(m))[k])
        } else {
            None
        }),
{
    m.map.insert(k, v)
}

/// A listener's accepted slots.
pub struct ListenerPool {
    slots: ListenerSlotMap,
}

impl ListenerPool {
    /// The slots, by fixed filehandle.
    pub closed spec fn slots(&self) -> Map<u32, ListenerSlotCtx> {
        listener_slots(self.slots)
    }

    /// A pool with room for `pool_cap` slots, none of them made yet.
    pub fn with_capacity(pool_cap: usize) -> (r: Self)
        ensures
            r.slots() == Map::<u32, ListenerSlotCtx>::empty(),
    {
        ListenerPool { slots: listener_slot_map_new(pool_cap) }
    }

    /// Slot `fixed_fd` holds the accepted stream `s`, by whether it writes and reads.
    pub fn store_stream(&mut self, fixed_fd: u32, s: TcpStream, wants_write: bool, wants_read: bool)
        ensures
            final(self).slots() == old(self).slots().insert(
                fixed_fd,
                ListenerSlotCtx::slot_for(s, wants_write, wants_read),
            ),
    {
        let slot = ListenerSlotCtx::with_stream(s, wants_write, wants_read);
        listener_slot_insert(&mut self.slots, fixed_fd, slot);
    }

    /// Borrow the stream slot `fixed_fd` holds, if the slot was made and
    /// holds one, as mutable.
    pub fn slot_stream_mut(&mut self, fixed_fd: u32) -> (r: Option<&mut TcpStream>)
        ensures
            r is Some == (old(self).slots().contains_key(fixed_fd)
                && old(self).slots()[fixed_fd].stream() is Some),
            r matches Some(s) ==> *s == old(self).slots()[fixed_fd].stream()->0,
            r matches Some(s) ==> final(self).slots() == old(self).slots().insert(
                fixed_fd,
                old(self).slots()[fixed_fd].with_stream_set(*final(s)),
            ),
            r is None ==> final(self).slots() == old(self).slots(),
    {
        match listener_slot_get_mut(&mut self.slots, fixed_fd) {
            Some(p_entry) => p_entry.tcp_stream_mut(),
            None => None,
        }
    }
}

/// A stored stream reads back: once slot `k` is set for stream `s`, the
/// slot holds `s` with the wishes it was stored with, and every other slot
/// is as it was.
pub proof fn law_stored_listener_stream_reads_back(
    slots: Map<u32, ListenerSlotCtx>,
    k: u32,
    s: TcpStream,
    wants_write: bool,
    wants_read: bool,
)
    ensures
        ({
            let after = slots.insert(k, ListenerSlotCtx::slot_for(s, wants_write, wants_read));
            &&& after[k].stream() == Some(s)
            &&& after[k].wishes() == Some((wants_write, wants_read))
            &&& forall|j: u32| j != k ==> (after.contains_key(j) == slots.contains_key(j)
                && (slots.contains_key(j) ==> #[trigger] after[j] == slots[j]))
        }),
{
}

/// The number of slots a listener's pool is made with.
pub fn pool_slots(strategy: &StrategyListener) -> (r: usize)
    ensures
        r == strategy.pool_cap(),
{
    strategy.cap_pool() as usize
}

} // verus!
