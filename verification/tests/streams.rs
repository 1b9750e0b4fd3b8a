use hugepage::HugePageChoice;
use yaoi::capacity::tcp_listener::TcpListenerCapacity;
use yaoi::capacity::tcp_pool::TcpPoolCapacity;
use yaoi::capacity::CapacityKind;
use yaoi::cmaps::{MapRecvMulti, MapSentZc};
use yaoi::hugetlb::HugeTlbConfig;
use yaoi::tcp_stream::ent_streaming_hugetlb::{
    after_app_advance, after_layer_advance, run_starts_at, RunLevel, RunStep,
};
use yaoi::tcp_stream::intermed::{IntermedBuf, INTERMED_SIZE};
use yaoi::tcp_stream::{_require_fixed_fd, _slot_u16_from_fixed_fd};
use yaoi::{EntConnected, PeerAddr, TcpStream, YaoiError};

#[test]
fn slot_u16_requires_fixed_fd_below_u16_max() {
    assert!(matches!(_slot_u16_from_fixed_fd(None), Err(YaoiError::HugeTlbReqFixedId)));
    assert!(matches!(_slot_u16_from_fixed_fd(Some(65535)), Err(YaoiError::LimitHugeTlbU16)));
    assert!(matches!(_slot_u16_from_fixed_fd(Some(70000)), Err(YaoiError::LimitHugeTlbU16)));
    assert!(matches!(_slot_u16_from_fixed_fd(Some(65534)), Ok(65534)));
    assert!(matches!(_slot_u16_from_fixed_fd(Some(0)), Ok(0)));
}

#[test]
fn require_fixed_fd_gives_it_back() {
    assert!(matches!(_require_fixed_fd(None), Err(YaoiError::HugeTlbReqFixedId)));
    assert!(matches!(_require_fixed_fd(Some(9)), Ok(9)));
}

#[test]
fn connected_stream_has_no_buffers() {
    let conn = EntConnected::from_fixed(4).and_peer_addr(PeerAddr::V6 {
        ip: [0; 16],
        port: 443,
        flowinfo: 0,
        scope_id: 0,
    });
    let mut s = TcpStream::Connected(conn);
    assert_eq!(s.fixed_fd(), Some(4));
    assert!(!s.left_wants_read());
    assert!(!s.left_wants_write());
    assert!(matches!(s.recv_multi_target(), Err(YaoiError::BpNeedBuffers)));
    assert!(matches!(s.send_plan(), Err(YaoiError::BpNeedBuffers)));
    assert!(matches!(s.reclaim_buffers(), Err(YaoiError::BpNeedBuffers)));
    assert!(s.ring_in_mut().is_none());
    let mut sz = MapSentZc { fixed_fd: 4, sent_out: 10, buf_ref: 0 };
    assert!(matches!(s.sent_zc(&mut sz), Err(YaoiError::BpNeedBuffers)));
    let mut rm = MapRecvMulti { fixed_fd: 4, buf_id: 0, buf_len: 10, buf_grp: 4 };
    assert!(matches!(s.cb_recv_multi(&mut rm), Err(YaoiError::BpNeedBuffers)));
    s.commit_sent(0);
    assert_eq!(s.fixed_fd(), Some(4));
}

#[test]
fn pool_capacity_triples_queues_per_stream() {
    let cap = TcpPoolCapacity::provide(16);
    assert_eq!(cap.pool_count(), 16);
    assert_eq!(cap.setting(&CapacityKind::CoreQueue), 48);
    assert_eq!(cap.setting(&CapacityKind::RegisteredFd), 16);
    assert_eq!(cap.setting(&CapacityKind::PendingCompletions), 48);
    assert_eq!(cap.setting(&CapacityKind::Buffers), 48);
    assert_eq!(cap.setting(&CapacityKind::Futexes), 0);
}

#[test]
fn listener_capacity_follows_queue() {
    let cap = TcpListenerCapacity::provide(16);
    assert_eq!(cap.setting(&CapacityKind::CoreQueue), 16);
    assert_eq!(cap.setting(&CapacityKind::RegisteredFd), 1);
    assert_eq!(cap.setting(&CapacityKind::PendingCompletions), 16);
    assert_eq!(cap.setting(&CapacityKind::Buffers), 0);
    assert_eq!(cap.setting(&CapacityKind::Futexes), 0);
}

#[test]
fn hugetlb_can_be_set_once() {
    let mut cfg = HugeTlbConfig::new();
    assert!(cfg.get().is_none());
    assert!(cfg.set_hugetlb(HugePageChoice::HUGE_2MB).is_ok());
    assert!(matches!(cfg.get(), Some(HugePageChoice::HUGE_2MB)));
    assert!(matches!(cfg.set_hugetlb(HugePageChoice::HUGE_1GB), Err(YaoiError::HugeTlbAlreadySet)));
    assert!(matches!(cfg.get(), Some(HugePageChoice::HUGE_2MB)));
}

#[test]
fn run_starts_at_app_without_layers() {
    assert_eq!(run_starts_at(0), RunLevel::App);
    assert_eq!(run_starts_at(1), RunLevel::Layer(0));
    assert_eq!(run_starts_at(3), RunLevel::Layer(0));
}

#[test]
fn layer_output_is_sent_first() {
    assert_eq!(after_layer_advance(0, 1, 0, 0, 5, true, false), RunStep::Finish);
    // Behind the first layer, output goes back to the layer before.
    assert_eq!(after_layer_advance(2, 3, 0, 0, 5, true, false), RunStep::Advance(RunLevel::Layer(1)));
}

#[test]
fn layer_that_consumed_input_goes_again() {
    assert_eq!(after_layer_advance(0, 1, 10, 4, 0, false, false), RunStep::Advance(RunLevel::Layer(0)));
    assert_eq!(after_layer_advance(0, 1, 10, 10, 0, false, false), RunStep::Finish);
    assert_eq!(after_layer_advance(0, 1, 10, 4, 0, false, true), RunStep::Finish);
    assert_eq!(after_layer_advance(0, 1, 10, 4, 0, true, false), RunStep::Advance(RunLevel::App));
    assert_eq!(after_layer_advance(1, 3, 10, 4, 0, false, false), RunStep::Advance(RunLevel::Layer(1)));
}

#[test]
fn ready_layers_hand_over_in_order() {
    assert_eq!(after_layer_advance(0, 2, 0, 0, 0, true, false), RunStep::Advance(RunLevel::Layer(1)));
    assert_eq!(after_layer_advance(1, 2, 0, 0, 0, true, false), RunStep::Advance(RunLevel::App));
    assert_eq!(after_layer_advance(1, 3, 0, 0, 0, true, false), RunStep::Advance(RunLevel::Layer(2)));
}

#[test]
fn app_without_traffic_finishes() {
    assert_eq!(after_app_advance(1, 0, 0), RunStep::Finish);
    assert_eq!(after_app_advance(1, 0, 3), RunStep::Advance(RunLevel::Layer(0)));
    assert_eq!(after_app_advance(1, 2, 0), RunStep::Advance(RunLevel::Layer(0)));
    assert_eq!(after_app_advance(3, 2, 0), RunStep::Advance(RunLevel::Layer(2)));
}

#[test]
fn intermed_appends_and_clears() {
    let mut ib = IntermedBuf::new();
    assert_eq!(ib.buf_right_out.len(), INTERMED_SIZE);
    ib.add_right_out(b"hello");
    ib.add_right_out(b" world");
    assert_eq!(ib.buf_right_out_len, 11);
    assert_eq!(&ib.buf_right_out[0..11], b"hello world");
    ib.add_right_in(b"abc");
    assert_eq!(&ib.buf_right_in[0..ib.buf_right_in_len], b"abc");
    ib.all_sent_right_out();
    assert_eq!(ib.buf_right_out_len, 0);
    assert!(ib.buf_right_out.iter().all(|b| *b == 0));
    ib.left_set_lens(2, 7);
    assert_eq!((ib.buf_right_in_len, ib.buf_right_out_len), (2, 7));
    assert!(ib.set_ready(true));
    assert!(ib.left_ready);
}

#[test]
fn intermed_default_is_empty() {
    let ib = IntermedBuf::default();
    assert_eq!((ib.buf_right_in_len, ib.buf_right_out_len), (0, 0));
    assert!(!ib.left_ready && !ib.left_want_read && !ib.left_want_write);
    assert!(!ib.left_blocked && !ib.right_wants_next_in);
}
