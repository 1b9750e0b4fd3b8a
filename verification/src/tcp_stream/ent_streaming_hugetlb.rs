//! Yaoi TcpStream streaming HugeTlb entity.

use vstd::prelude::*;

use hugepage::HugePageBytes;
use io_uring_bearer::error::UringBearerError;
use io_uring_bearer::UringBearer;
use io_uring_bufring::RingBufUnregistered;
use io_uring_opcode_sets::Wrapper;

use crate::cmaps::{MapRecvMulti, MapSentZc};
use crate::error::YaoiError;
use crate::tcp_stream::cursor::{CursorLeft, CursorState, InWindow, SendPlan};
use crate::tcp_stream::ent_connected::EntConnected;

verus! {

/// The HugeTLB page sizes a mapping can have, in bytes: 64 KiB, 512 KiB,
/// 1, 2, 8, 16, 32, 256 and 512 MiB, 1, 2 and 16 GiB.
pub open spec fn huge_page_size(n: int) -> bool {
    ||| n == 65536
    ||| n == 524288
    ||| n == 1048576
    ||| n == 2097152
    ||| n == 8388608
    ||| n == 16777216
    ||| n == 33554432
    ||| n == 268435456
    ||| n == 536870912
    ||| n == 1073741824
    ||| n == 2147483648
    ||| n == 17179869184
}

/// `hugepage::HugePageBytes::capacity`: the size of the mapping in bytes,
/// which the source takes from the page size chosen when the mapping was
/// made: one of the twelve HugeTLB sizes it offers. Which one is not stated,
/// as the chosen size is not seen here.
#[verifier::external_body]
fn hugetlb_capacity(h: &HugePageBytes) -> (cap: usize)
    ensures
        huge_page_size(cap as int),
{
    h.capacity()
}

/// The multi-shot receives queued on a bearer, in the order they were
/// queued: the fixed filehandle and the buffer group of each.
pub uninterp spec fn bearer_recvs(b: UringBearer<Wrapper>) -> Seq<(u32, u16)>;

/// `io_uring_bearer::UringBearer::add_recv_multi`: queues a multi-shot receive
/// on `fixed_fd` that selects its buffers from group `bgid`, with no
/// submission flags. When it succeeds that receive was queued, after those
/// queued before. Whether it succeeds, and the key it returns, follow from
/// the bearer's own state, so they are not stated; nor is what a failure
/// leaves behind.
#[verifier::external_body]
fn bearer_add_recv_multi(bearer: &mut UringBearer<Wrapper>, fixed_fd: u32, bgid: u16) -> (r: Result<
    usize,
    UringBearerError,
>)
    ensures
        r is Ok ==> bearer_recvs(*final(bearer)) == bearer_recvs(*old(bearer)).push((fixed_fd, bgid)),
{
    bearer.add_recv_multi(fixed_fd, bgid, None)
}

/// The readiness and wishes of the Left side.
pub struct LeftFlags {
    /// Left is ready for the Right side.
    pub is_ready: bool,
    /// Left wants to read.
    pub want_read: bool,
    /// Left wants to write.
    pub want_write: bool,
    /// Left input is blocked.
    pub in_blocked: bool,
}

/// Yaoi HugeTlb TcpStream: a connection streaming through an input ring and
/// an output ring of fixed-size buffers in two HugeTLB mappings.
#[derive(Debug)]
pub struct EntHugeTlb {
    connection: EntConnected,
    hugetbl_out: HugePageBytes,
    hugetbl_in: HugePageBytes,
    cap_in: usize,
    ring_in: RingBufUnregistered,
    cursor: CursorLeft,
    is_ready: bool,
    want_read: bool,
    want_write: bool,
    in_blocked: bool,
}

impl EntHugeTlb {
    /// The connection streamed over.
    pub closed spec fn conn(&self) -> EntConnected {
        self.connection
    }

    /// The cursor positions.
    pub closed spec fn cursor_view(&self) -> CursorState {
        self.cursor@
    }

    /// The Left flags.
    pub closed spec fn flags(&self) -> LeftFlags {
        LeftFlags {
            is_ready: self.is_ready,
            want_read: self.want_read,
            want_write: self.want_write,
            in_blocked: self.in_blocked,
        }
    }

    /// The input mapping.
    pub closed spec fn huge_in(&self) -> HugePageBytes {
        self.hugetbl_in
    }

    /// The output mapping.
    pub closed spec fn huge_out(&self) -> HugePageBytes {
        self.hugetbl_out
    }

    /// The capacity of the input mapping, which bounds both Left lengths.
    pub closed spec fn cap_in(&self) -> usize {
        self.cap_in
    }

    /// The input ring.
    pub closed spec fn ring(&self) -> RingBufUnregistered {
        self.ring_in
    }

    /// The connection, mappings and ring are those of `other`.
    pub closed spec fn same_resources(&self, other: &Self) -> bool {
        &&& self.connection == other.connection
        &&& self.hugetbl_out == other.hugetbl_out
        &&& self.hugetbl_in == other.hugetbl_in
        &&& self.cap_in == other.cap_in
        &&& self.ring_in == other.ring_in
    }

    /// Everything but the cursor is that of `other`.
    pub open spec fn same_but_cursor(&self, other: &Self) -> bool {
        &&& self.same_resources(other)
        &&& self.flags() == other.flags()
    }

    /// Everything but the flags is that of `other`.
    pub open spec fn same_but_flags(&self, other: &Self) -> bool {
        &&& self.same_resources(other)
        &&& self.cursor_view() == other.cursor_view()
    }

    /// Stream over `connection` with the input mapping `hugetbl_in`, whose
    /// buffers `ring_in` hands to the kernel, and the output mapping
    /// `hugetbl_out`; all positions start at zero and all flags are off.
    pub fn with_ring(
        connection: EntConnected,
        hugetbl_in: HugePageBytes,
        hugetbl_out: HugePageBytes,
        ring_in: RingBufUnregistered,
    ) -> (r: Self)
        ensures
            r.conn() == connection,
            r.huge_in() == hugetbl_in,
            huge_page_size(r.cap_in() as int),
            r.huge_out() == hugetbl_out,
            r.ring() == ring_in,
            r.cursor_view() == (CursorState {
                in_start: 0,
                in_end: 0,
                in_reused: 0,
                out_start: 0,
                out_end: 0,
                out_cur: 0,
            }),
            r.flags() == (LeftFlags {
                is_ready: false,
                want_read: false,
                want_write: false,
                in_blocked: false,
            }),
    {
        let cap_in = hugetlb_capacity(&hugetbl_in);
        Self {
            connection,
            hugetbl_in,
            cap_in,
            ring_in,
            hugetbl_out,
            cursor: CursorLeft::new(),
            is_ready: false,
            want_write: false,
            want_read: false,
            in_blocked: false,
        }
    }

    /// Borrow the underlying connection.
    pub fn connection(&self) -> (r: &EntConnected)
        ensures
            *r == self.conn(),
    {
        &self.connection
    }

    /// The fixed filehandle, if any.
    pub fn fixed_fd(&self) -> (r: Option<u32>)
        ensures
            r == self.conn().fixed(),
    {
        self.connection.fixed_fd()
    }

    /// Whether the Left side wants to read.
    pub fn left_wants_read(&self) -> (r: bool)
        ensures
            r == self.flags().want_read,
    {
        self.want_read
    }

    /// Whether the Left side wants to write.
    pub fn left_wants_write(&self) -> (r: bool)
        ensures
            r == self.flags().want_write,
    {
        self.want_write
    }

    /// The input mapping.
    pub fn hugetlb_in(&self) -> (r: &HugePageBytes)
        ensures
            *r == self.huge_in(),
    {
        &self.hugetbl_in
    }

    /// The output mapping.
    pub fn hugetlb_out(&self) -> (r: &HugePageBytes)
        ensures
            *r == self.huge_out(),
    {
        &self.hugetbl_out
    }

    /// The ring handing the input buffers to the kernel.
    pub fn ring_in_mut(&mut self) -> (r: &mut RingBufUnregistered)
        ensures
            *r == old(self).ring(),
            final(self).conn() == old(self).conn(),
            final(self).cursor_view() == old(self).cursor_view(),
            final(self).flags() == old(self).flags(),
            final(self).ring() == *final(r),
            final(self).huge_in() == old(self).huge_in(),
            final(self).huge_out() == old(self).huge_out(),
    {
        &mut self.ring_in
    }

    /// The cursor positions.
    pub fn cursor(&self) -> (r: &CursorLeft)
        ensures
            r@ == self.cursor_view(),
    {
        &self.cursor
    }

    /// Whether the Left input is blocked.
    pub fn left_in_blocked(&self) -> (r: bool)
        ensures
            r == self.flags().in_blocked,
    {
        self.in_blocked
    }

    /// Set whether the Left input is blocked.
    pub fn set_left_in_blocked(&mut self, nb: bool)
        ensures
            final(self).flags() == (LeftFlags { in_blocked: nb, ..old(self).flags() }),
            final(self).same_but_flags(old(self)),
    {
        self.in_blocked = nb;
    }

    /// Lengths of the unread input and the unsent output.
    pub fn left_lens(&self) -> (r: (usize, usize))
        requires
            self.cursor_view().out_ordered(),
        ensures
            r.0 == self.cursor_view().len_in(),
            r.1 == self.cursor_view().len_out(),
    {
        self.cursor.left_lens()
    }

    /// The capacity of the input mapping, which bounds both Left lengths.
    pub fn in_capacity(&self) -> (r: usize)
        ensures
            r == self.cap_in(),
    {
        self.cap_in
    }

    /// An entity's cursor is always valid: callers learn it here, so that
    /// the cursor laws apply to it.
    pub fn assert_cursor_valid(&self)
        ensures
            self.cursor_view().valid(),
    {
        self.cursor.assert_valid();
    }

    /// Set the lengths of the unread input and the unsent output; both must
    /// fit within the input mapping's capacity from their starts.
    pub fn left_set_lens(&mut self, new_len_in: usize, new_len_out: usize)
        requires
            old(self).cursor_view().out_ordered(),
            new_len_in + old(self).cursor_view().in_start <= old(self).cap_in(),
            new_len_out + old(self).cursor_view().out_start <= old(self).cap_in(),
        ensures
            final(self).same_but_cursor(old(self)),
            final(self).cursor_view() == old(self).cursor_view().with_lens(new_len_in, new_len_out),
    {
        self.cursor.left_set_lens(self.cap_in, new_len_in, new_len_out);
    }

    /// Bring the input positions back into the ring where both lie past its
    /// end, and give where the unread input lies.
    pub fn left_in_window(&mut self) -> (w: InWindow)
        ensures
            final(self).same_but_cursor(old(self)),
            final(self).cursor_view() == old(self).cursor_view().revolved(),
            w == final(self).cursor_view().in_window(),
    {
        self.cursor.in_window()
    }

    /// Byte offset in the output mapping that new output is written from.
    pub fn left_out_start(&self) -> (r: usize)
        ensures
            r == self.cursor_view().out_cur * 8192,
    {
        self.cursor.out_window_start()
    }

    /// Set the readiness for the Right side; gives the readiness set.
    pub fn set_ready(&mut self, r: bool) -> (res: bool)
        ensures
            res == r,
            final(self).flags() == (LeftFlags { is_ready: r, ..old(self).flags() }),
            final(self).same_but_flags(old(self)),
    {
        self.is_ready = r;
        self.is_ready
    }

    /// Whether the Left side is ready for the Right side.
    pub fn is_ready(&self) -> (r: bool)
        ensures
            r == self.flags().is_ready,
    {
        self.is_ready
    }

    /// Whether the Left side wants to read.
    pub fn left_want_read(&self) -> (r: bool)
        ensures
            r == self.flags().want_read,
    {
        self.want_read
    }

    /// Set whether the Left side wants to read.
    pub fn set_left_want_read(&mut self, w: bool)
        ensures
            final(self).flags() == (LeftFlags { want_read: w, ..old(self).flags() }),
            final(self).same_but_flags(old(self)),
    {
        self.want_read = w;
    }

    /// Whether the Left side wants to write.
    pub fn left_want_write(&self) -> (r: bool)
        ensures
            r == self.flags().want_write,
    {
        self.want_write
    }

    /// Set whether the Left side wants to write.
    pub fn set_left_want_write(&mut self, w: bool)
        ensures
            final(self).flags() == (LeftFlags { want_write: w, ..old(self).flags() }),
            final(self).same_but_flags(old(self)),
    {
        self.want_write = w;
    }

    /// Queue a multi-shot receive on `fixed_fd` selecting buffers from group
    /// `bgid`; a bearer error comes back as `YaoiError::Bearer`.
    pub fn recv_multi(&mut self, fixed_fd: u32, bgid: u16, bearer: &mut UringBearer<Wrapper>) -> (r:
        Result<usize, YaoiError>)
        ensures
            *final(self) == *old(self),
            r matches Err(e) ==> e is Bearer,
            r is Ok ==> bearer_recvs(*final(bearer)) == bearer_recvs(*old(bearer)).push((fixed_fd, bgid)),
    {
        match bearer_add_recv_multi(bearer, fixed_fd, bgid) {
            Ok(key) => Ok(key),
            Err(e) => Err(YaoiError::Bearer(e)),
        }
    }

    /// The sends that hand all pending output to the kernel.
    pub fn send_plan(&self) -> (p: SendPlan)
        requires
            self.cursor_view().out_ordered(),
        ensures
            p.chunks@.len() == self.cursor_view().send_count(),
            forall|j: int|
                0 <= j < p.chunks@.len() ==> #[trigger] p.chunks@[j] == self.cursor_view().send_chunk(
                    j,
                ),
            p.reported == self.cursor_view().out_chunks(),
    {
        self.cursor.send_plan()
    }

    /// Record that the first `sent` sends of the plan succeeded.
    pub fn commit_sent(&mut self, sent: usize)
        requires
            old(self).cursor_view().out_ordered(),
            sent <= old(self).cursor_view().send_count(),
        ensures
            final(self).same_but_cursor(old(self)),
            final(self).cursor_view() == old(self).cursor_view().after_sent(sent as int),
    {
        self.cursor.commit_sent(sent)
    }

    /// Take the ids of the input buffers that can go back to the ring.
    pub fn reclaim_buffers(&mut self) -> (bids: Vec<u16>)
        requires
            !old(self).cursor_view().free_inconsistent(),
        ensures
            bids@ == old(self).cursor_view().freed_bids(),
            final(self).same_but_cursor(old(self)),
            final(self).cursor_view() == old(self).cursor_view().after_free(),
    {
        self.cursor.free_buffers()
    }

    /// A zero-copy send completed; the output was marked sent when it was
    /// queued, so nothing changes.
    pub fn sent_zc(&mut self, fixed_fd: u32, sent_zc: &mut MapSentZc) -> (r: Result<(), YaoiError>)
        ensures
            r is Ok,
            *final(self) == *old(self),
            *final(sent_zc) == *old(sent_zc),
    {
        Ok(())
    }

    /// A multi-shot receive delivered `recv_multi.buf_len` bytes: the unread
    /// input grows by them.
    pub fn cb_recv_multi(&mut self, fixed_fd: u32, recv_multi: &mut MapRecvMulti) -> (r: Result<
        (),
        YaoiError,
    >)
        requires
            old(recv_multi).buf_len > 0,
            old(self).cursor_view().in_end + old(recv_multi).buf_len <= usize::MAX,
        ensures
            r is Ok,
            final(self).same_but_cursor(old(self)),
            final(self).cursor_view() == (CursorState {
                in_end: (old(self).cursor_view().in_end + old(recv_multi).buf_len) as usize,
                ..old(self).cursor_view()
            }),
            *final(recv_multi) == *old(recv_multi),
    {
        self.cursor.recv_extend(recv_multi.buf_len);
        Ok(())
    }
}


/// The orbit a blueprint run advances next.
#[derive(Clone, Copy, Debug, PartialEq, Eq)]
pub enum RunLevel {
    /// The intermediate layer of this index: the first has the stream as
    /// its Left side, each later one the buffers the layer before it fills.
    Layer(usize),
    /// The terminating App, behind the last layer.
    App,
}

/// What a blueprint run does after advancing an orbit.
#[derive(Clone, Copy, Debug, PartialEq, Eq)]
pub enum RunStep {
    /// The run is over for now.
    Finish,
    /// Advance the given orbit next.
    Advance(RunLevel),
}

/// The orbit a run starts at: the first layer, or the App itself when
/// there are no layers.
pub fn run_starts_at(layers: usize) -> (l: RunLevel)
    ensures
        l == (if layers == 0 {
            RunLevel::App
        } else {
            RunLevel::Layer(0)
        }),
{
    if layers == 0 {
        RunLevel::App
    } else {
        RunLevel::Layer(0)
    }
}

/// The orbit to the right of layer `level` of `layers`: the next layer,
/// or the App after the last one.
pub open spec fn right_of(level: usize, layers: usize) -> RunLevel {
    if level + 1 < layers {
        RunLevel::Layer((level + 1) as usize)
    } else {
        RunLevel::App
    }
}

/// After layer `level` of `layers` advanced: output on its Left side goes
/// left first, out of the stream behind the first layer, into the layer
/// before otherwise; a layer that is not ready, not blocked and consumed
/// input goes again; one that is not ready otherwise waits; a ready one
/// hands over to the orbit on its right.
pub fn after_layer_advance(
    level: usize,
    layers: usize,
    pre_len_in: usize,
    len_in: usize,
    len_out: usize,
    ready: bool,
    blocked: bool,
) -> (s: RunStep)
    requires
        level < layers,
    ensures
        s == (if len_out != 0 {
            if level == 0 {
                RunStep::Finish
            } else {
                RunStep::Advance(RunLevel::Layer((level - 1) as usize))
            }
        } else if !ready && !blocked && pre_len_in != len_in {
            RunStep::Advance(RunLevel::Layer(level))
        } else if !ready {
            RunStep::Finish
        } else {
            RunStep::Advance(right_of(level, layers))
        }),
{
    if len_out != 0 {
        if level == 0 {
            return RunStep::Finish;
        }
        return RunStep::Advance(RunLevel::Layer(level - 1));
    }
    if !ready && !blocked && pre_len_in != len_in {
        return RunStep::Advance(RunLevel::Layer(level));
    }
    if !ready {
        return RunStep::Finish;
    }
    if level + 1 < layers {
        RunStep::Advance(RunLevel::Layer(level + 1))
    } else {
        RunStep::Advance(RunLevel::App)
    }
}

/// After the App advanced behind `layers` layers: with nothing in either
/// direction the run is over, otherwise the last layer goes again.
pub fn after_app_advance(layers: usize, len_in: usize, len_out: usize) -> (s: RunStep)
    requires
        layers > 0,
    ensures
        s == (if len_in == 0 && len_out == 0 {
            RunStep::Finish
        } else {
            RunStep::Advance(RunLevel::Layer((layers - 1) as usize))
        }),
{
    if len_in == 0 && len_out == 0 {
        RunStep::Finish
    } else {
        RunStep::Advance(RunLevel::Layer(layers - 1))
    }
}

/// A run goes through every layer in order: a ready layer with nothing to
/// send back hands over to the next layer, and only the last one hands
/// over to the App; the App's output goes back to the last layer.
pub proof fn law_run_visits_layers_in_order(level: usize, layers: usize)
    requires
        level < layers,
    ensures
        level + 1 < layers ==> right_of(level, layers) == RunLevel::Layer((level + 1) as usize),
        level + 1 == layers ==> right_of(level, layers) == RunLevel::App,
        right_of(level, layers) is Layer ==> right_of(level, layers)->0 < layers,
{
}

} // verus!
