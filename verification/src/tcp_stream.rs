//! Yaoi TcpStream

pub mod cursor;
pub mod ent_connected;
pub mod ent_streaming_hugetlb;
pub mod intermed;

pub use ent_connected::{EntConnected, PeerAddr};
pub use ent_streaming_hugetlb::EntHugeTlb;

use vstd::prelude::*;

use io_uring_bearer::UringBearer;
use io_uring_bufring::RingBufUnregistered;
use io_uring_opcode_sets::Wrapper;

use crate::cmaps::{MapRecvMulti, MapSentZc};
use crate::error::YaoiError;
use crate::tcp_stream::cursor::SendPlan;
use crate::tcp_stream::ent_streaming_hugetlb::bearer_recvs;

verus! {

/// A TCP stream: connected only, or streaming through HugeTLB rings.
#[derive(Debug)]
pub enum TcpStream {
    /// Connected, without buffers.
    Connected(EntConnected),
    /// Connected and streaming through HugeTLB buffers.
    StreamingHugeTlb(EntHugeTlb),
}

/// Whether `fd` can name a buffer group: it lies in `0..u16::MAX`.
pub open spec fn fits_group_id(fd: u32) -> bool {
    fd < 65535
}

/// The buffer group id of a streaming HugeTlb stream, taken from its fixed
/// filehandle; this works as long as the filehandle lies below `u16::MAX`.
pub fn _slot_u16_from_fixed_fd(try_fixed_fd: Option<u32>) -> (r: Result<u16, YaoiError>)
    ensures
        r == (match try_fixed_fd {
            None => Err(YaoiError::HugeTlbReqFixedId),
            Some(fd) => if fits_group_id(fd) {
                Ok(fd as u16)
            } else {
                Err(YaoiError::LimitHugeTlbU16)
            },
        }),
{
    match try_fixed_fd {
        None => Err(YaoiError::HugeTlbReqFixedId),
        Some(out_range) if !(out_range < 65535) => Err(YaoiError::LimitHugeTlbU16),
        Some(in_range) => Ok(in_range as u16),
    }
}

/// The fixed filehandle, which streaming HugeTlb requires.
pub fn _require_fixed_fd(try_some: Option<u32>) -> (r: Result<u32, YaoiError>)
    ensures
        r == (match try_some {
            None => Err(YaoiError::HugeTlbReqFixedId),
            Some(fd) => Ok(fd),
        }),
{
    match try_some {
        Some(fixed_fd) => Ok(fixed_fd),
        None => Err(YaoiError::HugeTlbReqFixedId),
    }
}

impl TcpStream {
    /// The fixed filehandle, if any.
    pub open spec fn fixed(&self) -> Option<u32> {
        match self {
            TcpStream::Connected(e) => e.fixed(),
            TcpStream::StreamingHugeTlb(e) => e.conn().fixed(),
        }
    }

    /// The cursor positions of a stream with buffers.
    pub open spec fn cursor_of(&self) -> cursor::CursorState {
        match self {
            TcpStream::StreamingHugeTlb(e) => e.cursor_view(),
            TcpStream::Connected(_) => arbitrary(),
        }
    }

    /// The input ring of a stream with buffers.
    pub open spec fn ring_of(&self) -> RingBufUnregistered {
        match self {
            TcpStream::StreamingHugeTlb(e) => e.ring(),
            TcpStream::Connected(_) => arbitrary(),
        }
    }

    /// `self` is `before` with only its cursor moved to `c`; a stream
    /// without buffers stays as it was.
    pub open spec fn cursor_moved(&self, before: TcpStream, c: cursor::CursorState) -> bool {
        match (before, *self) {
            (TcpStream::StreamingHugeTlb(e), TcpStream::StreamingHugeTlb(f)) => f.same_but_cursor(&e)
                && f.cursor_view() == c,
            (TcpStream::Connected(a), TcpStream::Connected(b)) => a == b,
            _ => false,
        }
    }

    /// Where a multi-shot receive goes: the fixed filehandle and the buffer
    /// group; only streams with buffers receive.
    pub open spec fn recv_target(&self) -> Result<(u32, u16), YaoiError> {
        match self {
            TcpStream::Connected(_) => Err(YaoiError::BpNeedBuffers),
            TcpStream::StreamingHugeTlb(_) => match self.fixed() {
                None => Err(YaoiError::HugeTlbReqFixedId),
                Some(fd) => if fits_group_id(fd) {
                    Ok((fd, fd as u16))
                } else {
                    Err(YaoiError::LimitHugeTlbU16)
                },
            },
        }
    }

    /// The outcome a stream operation that needs buffers and a fixed
    /// filehandle has before it does its work.
    pub open spec fn buffered_fd(&self) -> Result<u32, YaoiError> {
        match self {
            TcpStream::Connected(_) => Err(YaoiError::BpNeedBuffers),
            TcpStream::StreamingHugeTlb(_) => match self.fixed() {
                None => Err(YaoiError::HugeTlbReqFixedId),
                Some(fd) => Ok(fd),
            },
        }
    }

    /// The fixed filehandle, if any.
    pub fn fixed_fd(&self) -> (r: Option<u32>)
        ensures
            r == self.fixed(),
    {
        match self {
            Self::Connected(e) => e.fixed_fd(),
            Self::StreamingHugeTlb(e) => e.fixed_fd(),
        }
    }

    /// Whether the Left side wants to read; never without buffers.
    pub fn left_wants_read(&self) -> (r: bool)
        ensures
            r == (match self {
                TcpStream::Connected(_) => false,
                TcpStream::StreamingHugeTlb(e) => e.flags().want_read,
            }),
    {
        match self {
            Self::Connected(_) => false,
            Self::StreamingHugeTlb(huge_tlb) => huge_tlb.left_wants_read(),
        }
    }

    /// Whether the Left side wants to write; never without buffers.
    pub fn left_wants_write(&self) -> (r: bool)
        ensures
            r == (match self {
                TcpStream::Connected(_) => false,
                TcpStream::StreamingHugeTlb(e) => e.flags().want_write,
            }),
    {
        match self {
            Self::Connected(_) => false,
            Self::StreamingHugeTlb(huge_tlb) => huge_tlb.left_wants_write(),
        }
    }

    /// The fixed filehandle and buffer group a multi-shot receive goes to.
    pub fn recv_multi_target(&self) -> (r: Result<(u32, u16), YaoiError>)
        ensures
            r == self.recv_target(),
            r is Ok ==> *self is StreamingHugeTlb && self.fixed() == Some(r->Ok_0.0),
            r is Ok ==> r->Ok_0.1 as int == r->Ok_0.0,
            (*self is StreamingHugeTlb && self.fixed() is Some && fits_group_id(self.fixed()->0))
                ==> r is Ok,
    {
        let maybe_fixed_fd = self.fixed_fd();
        match self {
            Self::Connected(_) => Err(YaoiError::BpNeedBuffers),
            Self::StreamingHugeTlb(_) => {
                let fixed_fd = _require_fixed_fd(maybe_fixed_fd)?;
                let slot_u16 = _slot_u16_from_fixed_fd(maybe_fixed_fd)?;
                Ok((fixed_fd, slot_u16))
            },
        }
    }

    /// Issue a multi-shot receive to start receiving data. Where the stream
    /// cannot receive the result is the reason; otherwise it is what the
    /// bearer gave.
    pub fn recv_multi(&mut self, bearer: &mut UringBearer<Wrapper>) -> (r: Result<usize, YaoiError>)
        ensures
            *final(self) == *old(self),
            old(self).recv_target() is Err ==> r == Err::<usize, YaoiError>(
                old(self).recv_target()->Err_0,
            ),
            old(self).recv_target() is Err ==> *final(bearer) == *old(bearer),
            old(self).recv_target() is Ok ==> (r matches Err(e) ==> e is Bearer),
            old(self).recv_target() is Ok && r is Ok ==> bearer_recvs(*final(bearer)) == bearer_recvs(
                *old(bearer),
            ).push(old(self).recv_target()->Ok_0),
            old(self).recv_target() is Ok && r is Ok ==> bearer_recvs(*final(bearer)) == bearer_recvs(
                *old(bearer),
            ).push((old(self).fixed()->0, old(self).fixed()->0 as u16)),
    {
        let target = self.recv_multi_target();
        match target {
            Err(e) => Err(e),
            Ok((fixed_fd, slot_u16)) => match self {
                Self::Connected(_) => Err(YaoiError::BpNeedBuffers),
                Self::StreamingHugeTlb(huge_tlb) => huge_tlb.recv_multi(fixed_fd, slot_u16, bearer),
            },
        }
    }

    /// The output of a stream is ordered, so its sends can be planned.
    pub open spec fn out_ordered(&self) -> bool {
        match self {
            TcpStream::Connected(_) => true,
            TcpStream::StreamingHugeTlb(e) => e.cursor_view().out_ordered(),
        }
    }

    /// The fixed filehandle and the sends that hand all pending output to
    /// the kernel.
    pub fn send_plan(&self) -> (r: Result<(u32, SendPlan), YaoiError>)
        requires
            self.buffered_fd() is Ok ==> self.out_ordered(),
        ensures
            self.buffered_fd() is Err ==> r is Err && r->Err_0 == self.buffered_fd()->Err_0,
            self.buffered_fd() is Ok ==> r is Ok && r->Ok_0.0 == self.buffered_fd()->Ok_0,
            r is Ok ==> *self is StreamingHugeTlb && self.fixed() == Some(r->Ok_0.0),
            (*self is StreamingHugeTlb && self.fixed() is Some) ==> r is Ok,
            r matches Ok((_, p)) ==> {
                &&& p.chunks@.len() == self.cursor_of().send_count()
                &&& forall|j: int|
                    0 <= j < p.chunks@.len() ==> #[trigger] p.chunks@[j]
                        == self.cursor_of().send_chunk(j)
                &&& p.reported == self.cursor_of().out_chunks()
            },
    {
        let maybe_fixed_fd = self.fixed_fd();
        match self {
            Self::Connected(_) => Err(YaoiError::BpNeedBuffers),
            Self::StreamingHugeTlb(huge_tlb) => {
                let fixed_fd = _require_fixed_fd(maybe_fixed_fd)?;
                Ok((fixed_fd, huge_tlb.send_plan()))
            },
        }
    }

    /// Record that the first `sent` planned sends succeeded.
    pub fn commit_sent(&mut self, sent: usize)
        requires
            old(self).out_ordered(),
            *old(self) is StreamingHugeTlb ==> sent <= old(self).cursor_of().send_count(),
        ensures
            final(self).cursor_moved(*old(self), old(self).cursor_of().after_sent(sent as int)),
    {
        match self {
            Self::Connected(_) => {},
            Self::StreamingHugeTlb(huge_tlb) => huge_tlb.commit_sent(sent),
        }
    }

    /// Buffers can be handed back without finding the reuse mark past the
    /// read position.
    pub open spec fn free_consistent(&self) -> bool {
        match self {
            TcpStream::Connected(_) => true,
            TcpStream::StreamingHugeTlb(e) => !e.cursor_view().free_inconsistent(),
        }
    }

    /// Take the ids of the input buffers that can go back to the ring; only
    /// streams with buffers have any.
    pub fn reclaim_buffers(&mut self) -> (r: Result<Vec<u16>, YaoiError>)
        requires
            old(self).free_consistent(),
        ensures
            final(self).cursor_moved(*old(self), old(self).cursor_of().after_free()),
            *old(self) is Connected ==> r == Err::<Vec<u16>, YaoiError>(YaoiError::BpNeedBuffers),
            *old(self) is StreamingHugeTlb ==> r is Ok && r->Ok_0@ == old(self).cursor_of().freed_bids(),
    {
        match self {
            Self::Connected(_) => Err(YaoiError::BpNeedBuffers),
            Self::StreamingHugeTlb(huge_tlb) => Ok(huge_tlb.reclaim_buffers()),
        }
    }

    /// The ring handing the input buffers to the kernel, where there is one.
    pub fn ring_in_mut(&mut self) -> (r: Option<&mut RingBufUnregistered>)
        ensures
            *old(self) is Connected ==> r is None && *final(self) == *old(self),
            *old(self) is StreamingHugeTlb ==> r is Some && *final(self) is StreamingHugeTlb
                && final(self).fixed() == old(self).fixed()
                && final(self).cursor_of() == old(self).cursor_of(),
            r matches Some(ring) ==> *ring == old(self).ring_of() && final(self).ring_of() == *final(ring),
    {
        match self {
            Self::Connected(_) => None,
            Self::StreamingHugeTlb(huge_tlb) => Some(huge_tlb.ring_in_mut()),
        }
    }

    /// A zero-copy send completed.
    pub fn sent_zc(&mut self, sent_zc: &mut MapSentZc) -> (r: Result<(), YaoiError>)
        ensures
            *final(self) == *old(self),
            *final(sent_zc) == *old(sent_zc),
            old(self).buffered_fd() is Err ==> r == Err::<(), YaoiError>(
                old(self).buffered_fd()->Err_0,
            ),
            old(self).buffered_fd() is Ok ==> r is Ok,
    {
        let maybe_fixed_fd = self.fixed_fd();
        match self {
            Self::Connected(_) => Err(YaoiError::BpNeedBuffers),
            Self::StreamingHugeTlb(huge_tlb) => {
                let fixed_fd = _require_fixed_fd(maybe_fixed_fd)?;
                huge_tlb.sent_zc(fixed_fd, sent_zc)
            },
        }
    }

    /// A multi-shot receive delivered `recv_multi.buf_len` bytes.
    pub fn cb_recv_multi(&mut self, recv_multi: &mut MapRecvMulti) -> (r: Result<(), YaoiError>)
        requires
            old(self).buffered_fd() is Ok ==> old(recv_multi).buf_len > 0
                && old(self).cursor_of().in_end + old(recv_multi).buf_len <= usize::MAX,
        ensures
            *final(recv_multi) == *old(recv_multi),
            old(self).buffered_fd() is Err ==> *final(self) == *old(self)
                && r == Err::<(), YaoiError>(old(self).buffered_fd()->Err_0),
            old(self).buffered_fd() is Ok ==> r is Ok && final(self).cursor_moved(
                *old(self),
                cursor::CursorState {
                    in_end: (old(self).cursor_of().in_end + old(recv_multi).buf_len) as usize,
                    ..old(self).cursor_of()
                },
            ),
    {
        let maybe_fixed_fd = self.fixed_fd();
        match self {
            Self::Connected(_) => Err(YaoiError::BpNeedBuffers),
            Self::StreamingHugeTlb(huge_tlb) => {
                let fixed_fd = _require_fixed_fd(maybe_fixed_fd)?;
                huge_tlb.cb_recv_multi(fixed_fd, recv_multi)
            },
        }
    }
}

/// A stream's output goes out on its own connection: when its pending
/// output can be sent, the sends go to the stream's own fixed filehandle,
/// and they can be sent exactly when the stream has buffers and a fixed
/// filehandle.
pub proof fn law_sends_go_out_on_own_fd(s: TcpStream)
    ensures
        s.buffered_fd() is Ok <==> (s is StreamingHugeTlb && s.fixed() is Some),
        s.buffered_fd() is Ok ==> s.fixed() == Some(s.buffered_fd()->Ok_0),
{
}

/// A stream receives on its own connection into its own input ring: the
/// receive goes to the stream's fixed filehandle and selects buffers from
/// the group numbered by that same filehandle, the group its input ring is
/// registered under; it receives exactly when it has buffers and a fixed
/// filehandle that can number a group. A receive goes to the filehandle its
/// sends go to.
pub proof fn law_receives_fill_own_group(s: TcpStream)
    ensures
        s.recv_target() is Ok <==> (s is StreamingHugeTlb && s.fixed() is Some && s.fixed()->0 < 65535),
        s.recv_target() is Ok ==> s.fixed() == Some(s.recv_target()->Ok_0.0),
        s.recv_target() is Ok ==> s.recv_target()->Ok_0.1 as int == s.fixed()->0,
        s.recv_target() is Ok ==> s.buffered_fd() == Ok::<u32, YaoiError>(s.recv_target()->Ok_0.0),
{
}

} // verus!
