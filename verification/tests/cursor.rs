use yaoi::tcp_stream::cursor::{CursorLeft, InWindow, BUF_SIZE, RING_BYTES};

const CAP: usize = 2097152;

fn positions(c: &CursorLeft) -> (usize, usize, u16, usize, usize, u16) {
    (c.in_start(), c.in_end(), c.in_reused(), c.out_start(), c.out_end(), c.out_cur())
}

#[test]
fn new_cursor_is_empty() {
    let c = CursorLeft::new();
    assert_eq!(positions(&c), (0, 0, 0, 0, 0, 0));
    assert_eq!(c.left_lens(), (0, 0));
    assert!(c.out_ordered());
    assert!(c.free_consistent());
}

#[test]
fn set_lens_grows_input_at_end_and_lays_out_output_from_current_buffer() {
    let mut c = CursorLeft::new();
    c.left_set_lens(CAP, 100, 9000);
    assert_eq!(positions(&c), (0, 100, 0, 0, 9000, 0));
    assert_eq!(c.left_lens(), (100, 9000));
    c.left_set_lens(CAP, 40, 9000);
    assert_eq!(positions(&c), (60, 100, 0, 0, 9000, 0));
    assert_eq!(c.left_lens(), (40, 9000));
}

#[test]
fn recv_extends_unread_input() {
    let mut c = CursorLeft::new();
    c.recv_extend(10);
    c.recv_extend(5);
    assert_eq!(c.left_lens(), (15, 0));
    assert_eq!(positions(&c), (0, 15, 0, 0, 0, 0));
}

#[test]
fn send_plan_sends_each_pending_byte_once() {
    let mut c = CursorLeft::new();
    c.left_set_lens(CAP, 0, 9000);
    let plan = c.send_plan();
    assert_eq!(plan.reported, 2);
    assert_eq!(plan.chunks.len(), 2);
    assert_eq!((plan.chunks[0].offset, plan.chunks[0].len, plan.chunks[0].buf_ref), (0, 8192, 0));
    assert_eq!((plan.chunks[1].offset, plan.chunks[1].len, plan.chunks[1].buf_ref), (8192, 808, 8192));
    let total: u32 = plan.chunks.iter().map(|c| c.len).sum();
    assert_eq!(total, 9000);
}

#[test]
fn send_plan_of_nothing_is_empty() {
    let c = CursorLeft::new();
    let plan = c.send_plan();
    assert_eq!(plan.reported, 0);
    assert!(plan.chunks.is_empty());
}

#[test]
fn all_sent_moves_output_to_next_buffer() {
    let mut c = CursorLeft::new();
    c.left_set_lens(CAP, 0, 9000);
    c.commit_sent(2);
    assert_eq!(positions(&c), (0, 0, 0, 16384, 16384, 2));
    assert_eq!(c.left_lens(), (0, 0));
    assert_eq!(c.out_window_start(), 16384);
}

#[test]
fn partly_sent_moves_start_but_not_current_buffer() {
    let mut c = CursorLeft::new();
    c.left_set_lens(CAP, 0, 9000);
    c.commit_sent(1);
    assert_eq!(positions(&c), (0, 0, 0, 8192, 9000, 0));
    assert_eq!(c.left_lens(), (0, 808));
    c.commit_sent(0);
    assert_eq!(positions(&c), (0, 0, 0, 8192, 9000, 0));
}

#[test]
fn sending_the_last_buffer_wraps_output() {
    let mut c = CursorLeft::new();
    c.left_set_lens(CAP, 0, 255 * BUF_SIZE);
    let plan = c.send_plan();
    assert_eq!(plan.chunks.len(), 255);
    c.commit_sent(255);
    assert_eq!(positions(&c), (0, 0, 0, 255 * 8192, 255 * 8192, 255));
    c.left_set_lens(CAP, 0, 100);
    let plan = c.send_plan();
    assert_eq!(plan.reported, 1);
    assert_eq!(plan.chunks.len(), 1);
    assert_eq!((plan.chunks[0].offset, plan.chunks[0].len, plan.chunks[0].buf_ref), (2088960, 100, 2088960));
    c.commit_sent(1);
    assert_eq!(positions(&c), (0, 0, 0, 0, 0, 0));
}

#[test]
fn plan_stops_at_ring_end_but_reports_all_chunks() {
    let mut c = CursorLeft::new();
    c.left_set_lens(CAP, 0, 8192);
    c.commit_sent(1);
    assert_eq!(c.out_cur(), 1);
    c.left_set_lens(CAP, 0, 255 * BUF_SIZE);
    let plan = c.send_plan();
    assert_eq!(plan.reported, 255);
    assert_eq!(plan.chunks.len(), 255);
    assert_eq!(plan.chunks[254].offset, 255 * BUF_SIZE);
    assert!(plan.chunks.iter().all(|c| c.len == 8192));
}

#[test]
fn free_hands_back_buffers_before_read_position_once() {
    let mut c = CursorLeft::new();
    c.recv_extend(20000);
    c.left_set_lens(CAP, 1000, 0);
    assert_eq!(c.in_start(), 19000);
    assert!(c.free_consistent());
    let bids = c.free_buffers();
    assert_eq!(bids, vec![0u16, 1u16]);
    assert_eq!(c.in_reused(), 2);
    let again = c.free_buffers();
    assert!(again.is_empty());
    assert_eq!(c.in_reused(), 2);
}

#[test]
fn free_at_ring_start_with_nothing_read() {
    let mut c = CursorLeft::new();
    let bids = c.free_buffers();
    assert!(bids.is_empty());
    assert_eq!(c.in_reused(), 0);
}

#[test]
fn window_single_within_ring() {
    let mut c = CursorLeft::new();
    c.recv_extend(500);
    c.left_set_lens(CAP, 200, 0);
    assert!(matches!(c.in_window(), InWindow::Single(300, 500)));
}

#[test]
fn window_double_across_ring_end() {
    let mut c = CursorLeft::new();
    c.recv_extend(2097252);
    c.left_set_lens(usize::MAX, 200, 0);
    assert!(matches!(c.in_window(), InWindow::Double(2097052, 100, 100)));
    assert_eq!(c.left_lens(), (200, 0));
}

#[test]
fn window_revolves_positions_past_ring_end() {
    let mut c = CursorLeft::new();
    c.recv_extend(3000000);
    c.left_set_lens(usize::MAX, 100, 0);
    assert_eq!((c.in_start(), c.in_end()), (2999900, 3000000));
    assert!(matches!(c.in_window(), InWindow::Single(902748, 902848)));
    assert_eq!((c.in_start(), c.in_end()), (2999900 - RING_BYTES, 3000000 - RING_BYTES));
}

#[test]
fn unsynced_output_length_can_turn_disordered() {
    let mut c = CursorLeft::new();
    c.left_set_lens(CAP, 0, 9000);
    c.commit_sent(1);
    c.left_set_lens(CAP, 0, 5);
    assert_eq!(c.out_start(), 8192);
    assert_eq!(c.out_end(), 5);
    assert!(!c.out_ordered());
}
