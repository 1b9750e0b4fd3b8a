//! Completion maps: what a completion carries from the bearer back to the
//! pools and listeners, as plain values.

use vstd::prelude::*;

use crate::tcp_stream::PeerAddr;

verus! {

/// A completion seen by a client pool.
#[derive(Clone, Copy, Debug, Default)]
pub enum ClientMapMixed {
    /// Nothing.
    #[default]
    Nothing,
    /// A Connect completed.
    Connected(MapConnected),
    /// A multi-shot receive delivered a buffer.
    RecvMulti(MapRecvMulti),
    /// A zero-copy send completed.
    SentZc(MapSentZc),
}

/// A completion seen by a listener.
#[derive(Clone, Copy, Debug, Default)]
pub enum ServerMapMixed {
    /// Nothing.
    #[default]
    Nothing,
    /// An Accept completed.
    Accepted(MapAccepted),
    /// A multi-shot receive delivered a buffer.
    RecvMulti(MapRecvMulti),
    /// A zero-copy send completed.
    SentZc(MapSentZc),
}

/// A completed zero-copy send.
#[derive(Clone, Copy, Debug, Default)]
pub struct MapSentZc {
    /// Fixed filehandle the send went to.
    pub fixed_fd: u32,
    /// Bytes sent.
    pub sent_out: usize,
    /// Reference the send carried.
    pub buf_ref: usize,
}

/// A buffer delivered by a multi-shot receive.
#[derive(Clone, Copy, Debug, Default)]
pub struct MapRecvMulti {
    /// Fixed filehandle received on.
    pub fixed_fd: u32,
    /// Id of the buffer the kernel selected.
    pub buf_id: u16,
    /// Bytes received.
    pub buf_len: usize,
    /// Buffer group the buffer belongs to.
    pub buf_grp: u16,
}

/// A completed Connect; a client pool creates its TcpStream from it.
#[derive(Clone, Copy, Debug, Default)]
pub struct MapConnected {
    /// Fixed filehandle connected.
    pub fixed_fd: u32,
    /// Result of the Connect: zero on success, a negated errno otherwise.
    pub result: i32,
}

/// A completed Accept; a listener creates its TcpStream from it.
#[derive(Clone, Copy, Debug, Default)]
pub struct MapAccepted {
    /// Result of the Accept: the accepted filehandle, or a negated errno.
    pub result: i32,
    /// The peer address, when known.
    pub s_addr: Option<PeerAddr>,
}


/// `io_uring::cqueue::more`: whether more completions follow for the same
/// submission; the source tests bit `IORING_CQE_F_MORE`, which is 2.
#[verifier::external_body]
fn cqe_more(flags: u32) -> (r: bool)
    ensures
        r == (flags & 2 != 0),
{
    io_uring::cqueue::more(flags)
}

/// `io_uring::cqueue::buffer_select`: the id of the buffer the kernel
/// selected; the source gives it when bit `IORING_CQE_F_BUFFER` (1) is set,
/// as the flags shifted right by `IORING_CQE_BUFFER_SHIFT` (16).
#[verifier::external_body]
fn cqe_buffer_select(flags: u32) -> (r: Option<u16>)
    ensures
        r == (if flags & 1 != 0 {
            Some((flags >> 16) as u16)
        } else {
            None
        }),
{
    io_uring::cqueue::buffer_select(flags)
}

/// The record a completion arrived for.
#[derive(Clone, Copy, Debug, PartialEq, Eq)]
pub enum CompletionKind {
    /// An Accept.
    Accept,
    /// A Socket.
    Socket,
    /// A Connect.
    Connect,
    /// A multi-shot receive.
    RecvMulti,
    /// A zero-copy send.
    SendZc,
    /// Anything else.
    Other,
}

/// What becomes of the submission record once its completion is handled.
#[derive(Clone, Copy, Debug, PartialEq, Eq)]
pub enum RecordStatus {
    /// Keep the record: more completions follow for it.
    Retain,
    /// The record can be reused.
    Forget,
}

/// A completion as plain values: the record it arrived for and what the
/// kernel and the record say.
#[derive(Clone, Copy, Debug)]
pub struct CompletionSeen {
    /// The record the completion arrived for.
    pub kind: CompletionKind,
    /// The completion's result.
    pub result: i32,
    /// The completion's flags.
    pub flags: u32,
    /// The fixed filehandle the record names (Connect, RecvMulti, SendZc).
    pub fixed_fd: u32,
    /// The buffer group a multi-shot receive selects from.
    pub buf_grp: u16,
    /// The reference a zero-copy send carried.
    pub buf_ref: Option<usize>,
    /// The peer address an Accept gave.
    pub s_addr: Option<PeerAddr>,
}

/// A client pool handles this completion without a bug or an error to
/// panic on: it arrived for a Socket, Connect, receive or send; a receive
/// succeeded and names its buffer; a successful send carries its reference.
pub open spec fn client_handles(c: CompletionSeen) -> bool {
    match c.kind {
        CompletionKind::Socket | CompletionKind::Connect => true,
        CompletionKind::RecvMulti => c.result >= 0 && c.flags & 1 != 0,
        CompletionKind::SendZc => c.result >= 0 ==> c.buf_ref is Some,
        _ => false,
    }
}

/// What a client pool records for a completion, and what becomes of its record.
pub open spec fn client_outcome(c: CompletionSeen) -> (Option<ClientMapMixed>, RecordStatus) {
    match c.kind {
        CompletionKind::Connect => (
            Some(ClientMapMixed::Connected(MapConnected { fixed_fd: c.fixed_fd, result: c.result })),
            RecordStatus::Forget,
        ),
        CompletionKind::RecvMulti => (
            Some(
                ClientMapMixed::RecvMulti(
                    MapRecvMulti {
                        fixed_fd: c.fixed_fd,
                        buf_id: (c.flags >> 16) as u16,
                        buf_len: c.result as usize,
                        buf_grp: c.buf_grp,
                    },
                ),
            ),
            RecordStatus::Retain,
        ),
        CompletionKind::SendZc => if c.result < 0 {
            (None, RecordStatus::Forget)
        } else {
            (
                Some(
                    ClientMapMixed::SentZc(
                        MapSentZc {
                            fixed_fd: c.fixed_fd,
                            sent_out: c.result as usize,
                            buf_ref: c.buf_ref->0,
                        },
                    ),
                ),
                RecordStatus::Forget,
            )
        },
        _ => (None, RecordStatus::Forget),
    }
}

/// A listener handles this completion without a bug or an error to panic
/// on: it arrived for an Accept, receive or send; a receive succeeded and,
/// when more follow, names its buffer; a successful send carries its reference.
pub open spec fn server_handles(c: CompletionSeen) -> bool {
    match c.kind {
        CompletionKind::Accept => true,
        CompletionKind::RecvMulti => c.result >= 0 && (c.flags & 2 != 0 ==> c.flags & 1 != 0),
        CompletionKind::SendZc => c.result >= 0 ==> c.buf_ref is Some,
        _ => false,
    }
}

/// What a listener records for a completion, and what becomes of its record.
pub open spec fn server_outcome(c: CompletionSeen) -> (Option<ServerMapMixed>, RecordStatus) {
    let more = c.flags & 2 != 0;
    match c.kind {
        CompletionKind::Accept => (
            Some(ServerMapMixed::Accepted(MapAccepted { s_addr: c.s_addr, result: c.result })),
            RecordStatus::Forget,
        ),
        CompletionKind::SendZc => (
            if c.result < 0 {
                None
            } else {
                Some(
                    ServerMapMixed::SentZc(
                        MapSentZc {
                            fixed_fd: c.fixed_fd,
                            sent_out: c.result as usize,
                            buf_ref: c.buf_ref->0,
                        },
                    ),
                )
            },
            if more {
                RecordStatus::Retain
            } else {
                RecordStatus::Forget
            },
        ),
        CompletionKind::RecvMulti => if !more {
            (None, RecordStatus::Forget)
        } else {
            (
                Some(
                    ServerMapMixed::RecvMulti(
                        MapRecvMulti {
                            fixed_fd: c.fixed_fd,
                            buf_id: (c.flags >> 16) as u16,
                            buf_len: c.result as usize,
                            buf_grp: c.buf_grp,
                        },
                    ),
                ),
                RecordStatus::Retain,
            )
        },
        _ => (None, RecordStatus::Forget),
    }
}

/// Whether a client pool handles this completion without a bug or an error to panic on.
pub fn client_handles_now(c: &CompletionSeen) -> (r: bool)
    ensures
        r == client_handles(*c),
{
    match c.kind {
        CompletionKind::Socket | CompletionKind::Connect => true,
        CompletionKind::RecvMulti => c.result >= 0 && c.flags & 1 != 0,
        CompletionKind::SendZc => c.result < 0 || c.buf_ref.is_some(),
        _ => false,
    }
}

/// Whether a listener handles this completion without a bug or an error to panic on.
pub fn server_handles_now(c: &CompletionSeen) -> (r: bool)
    ensures
        r == server_handles(*c),
{
    match c.kind {
        CompletionKind::Accept => true,
        CompletionKind::RecvMulti => c.result >= 0 && (c.flags & 2 == 0 || c.flags & 1 != 0),
        CompletionKind::SendZc => c.result < 0 || c.buf_ref.is_some(),
        _ => false,
    }
}

/// A listener keeps the record of a send or a receive exactly while the
/// kernel says more completions follow for it and drops an Accept's; a
/// client pool keeps only its receives' records; every Connect and Accept
/// completion is recorded.
pub proof fn law_records_kept_while_more_follow(c: CompletionSeen)
    ensures
        (c.kind == CompletionKind::SendZc || c.kind == CompletionKind::RecvMulti) ==> (server_outcome(
            c,
        ).1 == RecordStatus::Retain <==> c.flags & 2 != 0),
        c.kind == CompletionKind::Accept ==> server_outcome(c).1 == RecordStatus::Forget,
        c.kind == CompletionKind::Accept ==> server_outcome(c).0 is Some,
        client_outcome(c).1 == RecordStatus::Retain <==> c.kind == CompletionKind::RecvMulti,
        c.kind == CompletionKind::Connect ==> client_outcome(c).0 is Some,
{
}

/// The count of Connect completions a client pool's check reports, after
/// `c` was seen with `count` seen before: a Connect adds one.
pub fn connects_counted(count: u32, c: &CompletionSeen) -> (r: u32)
    requires
        c.kind == CompletionKind::Connect ==> count < u32::MAX,
    ensures
        r == (if c.kind == CompletionKind::Connect {
            count + 1
        } else {
            count as int
        }),
{
    match c.kind {
        CompletionKind::Connect => count + 1,
        _ => count,
    }
}

/// The map a client pool records for a completion, and what becomes of its record.
pub fn client_completion(c: &CompletionSeen) -> (r: (Option<ClientMapMixed>, RecordStatus))
    requires
        client_handles(*c),
    ensures
        r == client_outcome(*c),
        c.kind == CompletionKind::Connect ==> r.0 == Some(
            ClientMapMixed::Connected(MapConnected { fixed_fd: c.fixed_fd, result: c.result }),
        ),
        c.kind == CompletionKind::RecvMulti ==> r.0 == Some(
            ClientMapMixed::RecvMulti(
                MapRecvMulti {
                    fixed_fd: c.fixed_fd,
                    buf_id: (c.flags >> 16) as u16,
                    buf_len: c.result as usize,
                    buf_grp: c.buf_grp,
                },
            ),
        ),
        c.kind == CompletionKind::SendZc && c.result >= 0 ==> r.0 == Some(
            ClientMapMixed::SentZc(
                MapSentZc { fixed_fd: c.fixed_fd, sent_out: c.result as usize, buf_ref: c.buf_ref->0 },
            ),
        ),
{
    match c.kind {
        CompletionKind::Connect => (
            Some(ClientMapMixed::Connected(MapConnected { fixed_fd: c.fixed_fd, result: c.result })),
            RecordStatus::Forget,
        ),
        CompletionKind::RecvMulti => {
            let buf_len = c.result as usize;
            let buf_id = match cqe_buffer_select(c.flags) {
                Some(id) => id,
                None => {
                    return (None, RecordStatus::Retain);
                },
            };
            (
                Some(
                    ClientMapMixed::RecvMulti(
                        MapRecvMulti { fixed_fd: c.fixed_fd, buf_id, buf_len, buf_grp: c.buf_grp },
                    ),
                ),
                RecordStatus::Retain,
            )
        },
        CompletionKind::SendZc => {
            if c.result < 0 {
                (None, RecordStatus::Forget)
            } else {
                let buf_ref = match c.buf_ref {
                    Some(buf_ref) => buf_ref,
                    None => {
                        return (None, RecordStatus::Forget);
                    },
                };
                (
                    Some(
                        ClientMapMixed::SentZc(
                            MapSentZc { fixed_fd: c.fixed_fd, sent_out: c.result as usize, buf_ref },
                        ),
                    ),
                    RecordStatus::Forget,
                )
            }
        },
        _ => (None, RecordStatus::Forget),
    }
}

/// The map a listener records for a completion, and what becomes of its record.
pub fn server_completion(c: &CompletionSeen) -> (r: (Option<ServerMapMixed>, RecordStatus))
    requires
        server_handles(*c),
    ensures
        r == server_outcome(*c),
        c.kind == CompletionKind::Accept ==> r.0 == Some(
            ServerMapMixed::Accepted(MapAccepted { s_addr: c.s_addr, result: c.result }),
        ),
        c.kind == CompletionKind::SendZc && c.result >= 0 ==> r.0 == Some(
            ServerMapMixed::SentZc(
                MapSentZc { fixed_fd: c.fixed_fd, sent_out: c.result as usize, buf_ref: c.buf_ref->0 },
            ),
        ),
        c.kind == CompletionKind::RecvMulti && c.flags & 2 != 0 ==> r.0 == Some(
            ServerMapMixed::RecvMulti(
                MapRecvMulti {
                    fixed_fd: c.fixed_fd,
                    buf_id: (c.flags >> 16) as u16,
                    buf_len: c.result as usize,
                    buf_grp: c.buf_grp,
                },
            ),
        ),
{
    match c.kind {
        CompletionKind::Accept => (
            Some(ServerMapMixed::Accepted(MapAccepted { s_addr: c.s_addr, result: c.result })),
            RecordStatus::Forget,
        ),
        CompletionKind::SendZc => {
            let mapped = if c.result < 0 {
                None
            } else {
                match c.buf_ref {
                    Some(buf_ref) => Some(
                        ServerMapMixed::SentZc(
                            MapSentZc { fixed_fd: c.fixed_fd, sent_out: c.result as usize, buf_ref },
                        ),
                    ),
                    None => None,
                }
            };
            let status = if cqe_more(c.flags) {
                RecordStatus::Retain
            } else {
                RecordStatus::Forget
            };
            (mapped, status)
        },
        CompletionKind::RecvMulti => {
            if !cqe_more(c.flags) {
                (None, RecordStatus::Forget)
            } else {
                let buf_len = c.result as usize;
                let buf_id = match cqe_buffer_select(c.flags) {
                    Some(id) => id,
                    None => {
                        return (None, RecordStatus::Retain);
                    },
                };
                (
                    Some(
                        ServerMapMixed::RecvMulti(
                            MapRecvMulti { fixed_fd: c.fixed_fd, buf_id, buf_len, buf_grp: c.buf_grp },
                        ),
                    ),
                    RecordStatus::Retain,
                )
            }
        },
        _ => (None, RecordStatus::Forget),
    }
}

/// The filehandle a completion's record names: the one the completion
/// arrived for, whatever else it carries.
pub open spec fn client_record_fd(m: ClientMapMixed) -> Option<u32> {
    match m {
        ClientMapMixed::Connected(x) => Some(x.fixed_fd),
        ClientMapMixed::RecvMulti(x) => Some(x.fixed_fd),
        ClientMapMixed::SentZc(x) => Some(x.fixed_fd),
        ClientMapMixed::Nothing => None,
    }
}

/// The filehandle a listener's record names, where it names one.
pub open spec fn server_record_fd(m: ServerMapMixed) -> Option<u32> {
    match m {
        ServerMapMixed::RecvMulti(x) => Some(x.fixed_fd),
        ServerMapMixed::SentZc(x) => Some(x.fixed_fd),
        ServerMapMixed::Accepted(_) | ServerMapMixed::Nothing => None,
    }
}

/// A client pool records each completion for the connection it arrived
/// for, with what it carries: a Connect for its filehandle with its result;
/// a receive for its filehandle with the buffer the kernel selected, the
/// bytes received and the group; a successful send for its filehandle with
/// the bytes sent and the reference it carried. A failed send and a
/// Socket completion record nothing.
pub proof fn law_client_records_carry_their_completion(c: CompletionSeen)
    ensures
        c.kind == CompletionKind::Connect ==> client_outcome(c).0 == Some(
            ClientMapMixed::Connected(MapConnected { fixed_fd: c.fixed_fd, result: c.result }),
        ),
        c.kind == CompletionKind::RecvMulti ==> client_outcome(c).0 == Some(
            ClientMapMixed::RecvMulti(
                MapRecvMulti {
                    fixed_fd: c.fixed_fd,
                    buf_id: (c.flags >> 16) as u16,
                    buf_len: c.result as usize,
                    buf_grp: c.buf_grp,
                },
            ),
        ),
        c.kind == CompletionKind::SendZc && c.result >= 0 ==> client_outcome(c).0 == Some(
            ClientMapMixed::SentZc(
                MapSentZc { fixed_fd: c.fixed_fd, sent_out: c.result as usize, buf_ref: c.buf_ref->0 },
            ),
        ),
        c.kind == CompletionKind::SendZc && c.result < 0 ==> client_outcome(c).0 is None,
        c.kind == CompletionKind::Socket ==> client_outcome(c).0 is None,
        client_outcome(c).0 matches Some(m) ==> client_record_fd(m) == Some(c.fixed_fd),
{
}

/// A listener records each completion with what it carries: an Accept with
/// its result and peer address; a successful send for its filehandle with
/// the bytes sent and the reference it carried; a receive with more to
/// come for its filehandle with the selected buffer, the bytes received and
/// the group. A failed send and a final receive record nothing. Every
/// record that names a filehandle names the completion's own.
pub proof fn law_server_records_carry_their_completion(c: CompletionSeen)
    ensures
        c.kind == CompletionKind::Accept ==> server_outcome(c).0 == Some(
            ServerMapMixed::Accepted(MapAccepted { s_addr: c.s_addr, result: c.result }),
        ),
        c.kind == CompletionKind::SendZc && c.result >= 0 ==> server_outcome(c).0 == Some(
            ServerMapMixed::SentZc(
                MapSentZc { fixed_fd: c.fixed_fd, sent_out: c.result as usize, buf_ref: c.buf_ref->0 },
            ),
        ),
        c.kind == CompletionKind::SendZc && c.result < 0 ==> server_outcome(c).0 is None,
        c.kind == CompletionKind::RecvMulti && c.flags & 2 != 0 ==> server_outcome(c).0 == Some(
            ServerMapMixed::RecvMulti(
                MapRecvMulti {
                    fixed_fd: c.fixed_fd,
                    buf_id: (c.flags >> 16) as u16,
                    buf_len: c.result as usize,
                    buf_grp: c.buf_grp,
                },
            ),
        ),
        c.kind == CompletionKind::RecvMulti && c.flags & 2 == 0 ==> server_outcome(c).0 is None,
        server_outcome(c).0 matches Some(m) ==> (server_record_fd(m) is Some ==> server_record_fd(m)
            == Some(c.fixed_fd)),
{
}

} // verus!
