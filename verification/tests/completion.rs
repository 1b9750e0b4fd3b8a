use yaoi::cmaps::{
    client_completion, connects_counted, server_completion, ClientMapMixed, CompletionKind, CompletionSeen,
    RecordStatus, ServerMapMixed,
};
use yaoi::PeerAddr;

fn seen(kind: CompletionKind, result: i32, flags: u32) -> CompletionSeen {
    CompletionSeen {
        kind,
        result,
        flags,
        fixed_fd: 3,
        buf_grp: 3,
        buf_ref: Some(16384),
        s_addr: None,
    }
}

#[test]
fn client_connect_is_recorded_and_forgotten() {
    let (m, st) = client_completion(&seen(CompletionKind::Connect, -111, 0));
    assert_eq!(st, RecordStatus::Forget);
    match m {
        Some(ClientMapMixed::Connected(c)) => assert_eq!((c.fixed_fd, c.result), (3, -111)),
        _ => panic!("expected Connected"),
    }
}

#[test]
fn client_socket_is_forgotten_unrecorded() {
    let (m, st) = client_completion(&seen(CompletionKind::Socket, 0, 0));
    assert!(m.is_none());
    assert_eq!(st, RecordStatus::Forget);
}

#[test]
fn client_recv_multi_takes_selected_buffer() {
    let (m, st) = client_completion(&seen(CompletionKind::RecvMulti, 500, (7 << 16) | 1));
    assert_eq!(st, RecordStatus::Retain);
    match m {
        Some(ClientMapMixed::RecvMulti(r)) => {
            assert_eq!((r.fixed_fd, r.buf_id, r.buf_len, r.buf_grp), (3, 7, 500, 3))
        }
        _ => panic!("expected RecvMulti"),
    }
}

#[test]
fn client_send_zc_failed_is_unrecorded() {
    let (m, st) = client_completion(&seen(CompletionKind::SendZc, -32, 0));
    assert!(m.is_none());
    assert_eq!(st, RecordStatus::Forget);
}

#[test]
fn client_send_zc_is_recorded() {
    let (m, st) = client_completion(&seen(CompletionKind::SendZc, 4096, 2));
    assert_eq!(st, RecordStatus::Forget);
    match m {
        Some(ClientMapMixed::SentZc(s)) => assert_eq!((s.fixed_fd, s.sent_out, s.buf_ref), (3, 4096, 16384)),
        _ => panic!("expected SentZc"),
    }
}

#[test]
fn server_accept_carries_peer_address() {
    let mut c = seen(CompletionKind::Accept, 5, 0);
    c.s_addr = Some(PeerAddr::V4 { ip: [127, 0, 0, 1], port: 8181 });
    let (m, st) = server_completion(&c);
    assert_eq!(st, RecordStatus::Forget);
    match m {
        Some(ServerMapMixed::Accepted(a)) => {
            assert_eq!(a.result, 5);
            assert_eq!(a.s_addr, Some(PeerAddr::V4 { ip: [127, 0, 0, 1], port: 8181 }));
        }
        _ => panic!("expected Accepted"),
    }
}

#[test]
fn server_recv_multi_without_more_is_forgotten() {
    let (m, st) = server_completion(&seen(CompletionKind::RecvMulti, 10, (2 << 16) | 1));
    assert!(m.is_none());
    assert_eq!(st, RecordStatus::Forget);
}

#[test]
fn server_recv_multi_with_more_is_retained() {
    let (m, st) = server_completion(&seen(CompletionKind::RecvMulti, 10, (2 << 16) | 1 | 2));
    assert_eq!(st, RecordStatus::Retain);
    match m {
        Some(ServerMapMixed::RecvMulti(r)) => assert_eq!((r.buf_id, r.buf_len), (2, 10)),
        _ => panic!("expected RecvMulti"),
    }
}

#[test]
fn server_send_zc_retained_while_more_follow() {
    let (m, st) = server_completion(&seen(CompletionKind::SendZc, 100, 2));
    assert_eq!(st, RecordStatus::Retain);
    assert!(matches!(m, Some(ServerMapMixed::SentZc(_))));
    let (m2, st2) = server_completion(&seen(CompletionKind::SendZc, -1, 0));
    assert!(m2.is_none());
    assert_eq!(st2, RecordStatus::Forget);
}

#[test]
fn client_check_counts_connect_completions() {
    assert_eq!(connects_counted(0, &seen(CompletionKind::Connect, 0, 0)), 1);
    assert_eq!(connects_counted(4, &seen(CompletionKind::Connect, -111, 0)), 5);
    assert_eq!(connects_counted(4, &seen(CompletionKind::Socket, 0, 0)), 4);
    assert_eq!(connects_counted(4, &seen(CompletionKind::RecvMulti, 10, 1)), 4);
}
