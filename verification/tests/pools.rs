use yaoi::strategy::StrategyListener;
use yaoi::cmaps::MapAccepted;
use yaoi::tcp_listener::{
    accept_plan, accepted_connection, accepted_slot, fixed_register_map, on_accepted, recv_round,
    submit_after_accept, RecvRound, pool_slots, registration,
    AcceptPlan, ListenerPool, ListenerSlotCtx, Registration,
};
use yaoi::tcp_pool::tcp_client_pool::{
    unregistered_fd_map, ClientPool, ClientPoolStates, ClientSlotCtx, ConnectStep,
};
use yaoi::{EntConnected, PeerAddr, TcpStream};

#[test]
fn pool_counts_follow_connects() {
    let mut s = ClientPoolStates::with_capacity(4);
    assert_eq!(s.pool_count(), 4);
    s.connect_submitted();
    s.connect_submitted();
    s.connect_submitted();
    assert_eq!(s.connecting(), 3);
    s.connect_failed();
    s.connect_succeeded();
    assert_eq!((s.connecting(), s.errored(), s.connected(), s.shut_down()), (1, 1, 1, 0));
    assert_eq!(s.connecting() + s.errored() + s.connected(), 3);
}

#[test]
fn client_slot_by_wishes() {
    let mk = || TcpStream::Connected(EntConnected::from_fixed(1));
    assert!(matches!(ClientSlotCtx::with_stream(mk(), false, false), ClientSlotCtx::Connected(_)));
    assert!(matches!(ClientSlotCtx::with_stream(mk(), false, true), ClientSlotCtx::Reading(_)));
    assert!(matches!(ClientSlotCtx::with_stream(mk(), true, false), ClientSlotCtx::Writing(_)));
    assert!(matches!(ClientSlotCtx::with_stream(mk(), true, true), ClientSlotCtx::ReadingAndWriting(_)));
    let mut slot = ClientSlotCtx::with_stream(mk(), true, true);
    assert_eq!(slot.tcp_stream_mut().map(|s| s.fixed_fd()), Some(Some(1)));
    let mut connecting = ClientSlotCtx::Connecting(9);
    assert!(connecting.tcp_stream_mut().is_none());
    let mut created = ClientSlotCtx::default();
    assert!(matches!(created, ClientSlotCtx::Created));
    assert!(created.tcp_stream_mut().is_none());
}

#[test]
fn client_register_map_is_all_free() {
    assert_eq!(unregistered_fd_map(3), vec![-1, -1, -1]);
    assert!(unregistered_fd_map(0).is_empty());
}

#[test]
fn listener_slot_by_wishes() {
    let mk = || TcpStream::Connected(EntConnected::from_fixed(2));
    assert!(matches!(ListenerSlotCtx::with_stream(mk(), false, false), ListenerSlotCtx::Accepted(_)));
    assert!(matches!(ListenerSlotCtx::with_stream(mk(), false, true), ListenerSlotCtx::Reading(_)));
    assert!(matches!(ListenerSlotCtx::with_stream(mk(), true, false), ListenerSlotCtx::Writing(_)));
    assert!(matches!(ListenerSlotCtx::with_stream(mk(), true, true), ListenerSlotCtx::ReadingAndWriting(_)));
    let mut shut = ListenerSlotCtx::ShutdownOk;
    assert!(shut.tcp_stream_mut().is_none());
}

#[test]
fn accepted_results_name_slots() {
    assert_eq!(accepted_slot(0), Some(0));
    assert_eq!(accepted_slot(17), Some(17));
    assert_eq!(accepted_slot(-11), None);
    assert_eq!(accepted_slot(i32::MAX), None);
    assert_eq!(accepted_slot(i32::MAX - 1), Some((i32::MAX - 1) as u32));
}

#[test]
fn accepted_connection_keeps_slot_and_peer() {
    let c = accepted_connection(5, Some(PeerAddr::V4 { ip: [10, 0, 0, 1], port: 80 }));
    assert_eq!(c.fixed_fd(), Some(5));
    let d = accepted_connection(6, None);
    assert_eq!(d.fixed_fd(), Some(6));
}

#[test]
fn registration_follows_strategy() {
    let fixed = StrategyListener::replenishing(16).fixed_fds(30);
    assert_eq!(registration(&fixed), Registration::Fixed(16, 30));
    assert_eq!(pool_slots(&fixed), 30);
    let regular = StrategyListener::replenishing(4).regular_fds().pool_capacity(8);
    assert_eq!(registration(&regular), Registration::Regular(4));
    assert_eq!(pool_slots(&regular), 8);
    let multi_fixed = StrategyListener::multi().fixed_fds(12);
    assert_eq!(registration(&multi_fixed), Registration::MultiFixed(12));
    assert_eq!(pool_slots(&multi_fixed), 12);
    let multi_regular = StrategyListener::multi().regular_fds().pool_capacity(5);
    assert_eq!(registration(&multi_regular), Registration::MultiRegular);
    assert_eq!(pool_slots(&multi_regular), 5);
}

#[test]
fn multi_shot_queues_one_accept_and_replenishes_none() {
    let multi = registration(&StrategyListener::multi().fixed_fds(12));
    assert_eq!(
        accept_plan(multi),
        AcceptPlan { fixed_fds: true, fixed_count: 12, single_shot: 0, multi_shot: 1 }
    );
    let multi = registration(&StrategyListener::multi().regular_fds().pool_capacity(5));
    assert_eq!(
        accept_plan(multi),
        AcceptPlan { fixed_fds: false, fixed_count: 0, single_shot: 0, multi_shot: 1 }
    );
    let repl = registration(&StrategyListener::replenishing(16).fixed_fds(30));
    assert_eq!(
        accept_plan(repl),
        AcceptPlan { fixed_fds: true, fixed_count: 30, single_shot: 16, multi_shot: 0 }
    );
    let repl = registration(&StrategyListener::replenishing(4).regular_fds().pool_capacity(8));
    assert_eq!(
        accept_plan(repl),
        AcceptPlan { fixed_fds: false, fixed_count: 0, single_shot: 4, multi_shot: 0 }
    );
}

#[test]
fn fixed_register_map_puts_listener_first() {
    assert_eq!(fixed_register_map(42, 4), vec![42, -1, -1, -1]);
    assert_eq!(fixed_register_map(7, 1), vec![7]);
}

#[test]
fn client_pool_slot_lifecycle() {
    let mut pool = ClientPool::with_capacity(2);
    assert!(!pool.has_slot(0));
    assert!(pool.slot_stream_mut(0).is_none());
    pool.mark_connecting(0, 10);
    pool.mark_connecting(1, 11);
    assert!(pool.has_slot(0) && pool.has_slot(1));
    assert_eq!(pool.states().connecting(), 2);
    // A connecting slot holds no stream yet.
    assert!(pool.slot_stream_mut(1).is_none());

    // Slot 1 fails: the slot records the error, the counts move.
    assert!(matches!(pool.on_connect_result(1, -111), ConnectStep::Failed));
    assert_eq!((pool.states().connecting(), pool.states().errored()), (1, 1));
    assert!(pool.slot_stream_mut(1).is_none());

    // Slot 0 succeeds: the connection is over slot 0; counts move once made.
    let c = match pool.on_connect_result(0, 0) {
        ConnectStep::Established(c) => c,
        ConnectStep::Failed => panic!("connect 0 succeeded"),
    };
    assert_eq!(c.fixed_fd(), Some(0));
    assert_eq!(pool.states().connecting(), 1);
    pool.connect_established();
    assert_eq!((pool.states().connecting(), pool.states().connected()), (0, 1));
    pool.store_stream(0, TcpStream::Connected(c), false, true);
    let s = pool.slot_stream_mut(0).expect("slot 0 holds its stream");
    assert_eq!(s.fixed_fd(), Some(0));
    assert_eq!(
        pool.states().connecting() + pool.states().errored() + pool.states().connected(),
        2
    );
}

#[test]
fn client_pool_store_replaces_slot() {
    let mut pool = ClientPool::with_capacity(1);
    pool.mark_connecting(3, 1);
    pool.store_stream(3, TcpStream::Connected(EntConnected::from_fixed(7)), true, true);
    assert_eq!(pool.slot_stream_mut(3).map(|s| s.fixed_fd()), Some(Some(7)));
    pool.store_stream(3, TcpStream::Connected(EntConnected::from_fixed(8)), false, false);
    assert_eq!(pool.slot_stream_mut(3).map(|s| s.fixed_fd()), Some(Some(8)));
    assert_eq!(pool.states().connecting(), 1);
}

#[test]
fn accepted_completion_gives_slot_and_connection() {
    let peer = PeerAddr::V4 { ip: [127, 0, 0, 1], port: 4000 };
    let (slot, c) = on_accepted(&MapAccepted { result: 5, s_addr: Some(peer) }).expect("accepted");
    assert_eq!(slot, 5);
    assert_eq!(c.fixed_fd(), Some(5));
    assert!(on_accepted(&MapAccepted { result: -11, s_addr: None }).is_none());
}

#[test]
fn listener_pool_stores_and_reads_back() {
    let mut pool = ListenerPool::with_capacity(4);
    assert!(pool.slot_stream_mut(2).is_none());
    pool.store_stream(2, TcpStream::Connected(EntConnected::from_fixed(2)), true, false);
    pool.store_stream(3, TcpStream::Connected(EntConnected::from_fixed(3)), false, false);
    assert_eq!(pool.slot_stream_mut(2).map(|s| s.fixed_fd()), Some(Some(2)));
    assert_eq!(pool.slot_stream_mut(3).map(|s| s.fixed_fd()), Some(Some(3)));
    assert!(pool.slot_stream_mut(4).is_none());
}

#[test]
fn receive_rounds_repeat_while_sends_are_queued() {
    assert_eq!(recv_round(3), RecvRound::SubmitAndRepeat);
    assert_eq!(recv_round(0), RecvRound::FreeBuffers);
    assert!(submit_after_accept(1, 0));
    assert!(submit_after_accept(0, 2));
    assert!(!submit_after_accept(0, 0));
}
