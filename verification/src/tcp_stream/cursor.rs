//! The Left-side cursor of a streaming HugeTLB stream: where the unread input
//! and the unsent output lie within the two rings of fixed-size buffers.

use vstd::prelude::*;

verus! {

/// Size in bytes of one buffer of a streaming ring.
pub const BUF_SIZE: usize = 8192;

/// Number of buffers in one streaming ring.
pub const BUF_COUNT: usize = 256;

/// Bytes covered by one streaming ring (`BUF_SIZE * BUF_COUNT`).
pub const RING_BYTES: usize = 2097152;

/// Positions within the input and output rings.
#[derive(Debug)]
pub struct CursorLeft {
    pos_in_start: usize,
    pos_in_end: usize,
    idx_in_reused: u16,
    pos_out_start: usize,
    pos_out_end: usize,
    idx_out_cur: u16,
}

/// The positions of a cursor, as plain values.
pub struct CursorState {
    /// Start of the unread input.
    pub in_start: usize,
    /// End of the unread input.
    pub in_end: usize,
    /// First input buffer not yet handed back to the ring.
    pub in_reused: u16,
    /// Start of the unsent output.
    pub out_start: usize,
    /// End of the unsent output.
    pub out_end: usize,
    /// The output buffer that new output is written from.
    pub out_cur: u16,
}

/// The part of the input ring that holds the unread input.
pub enum InWindow {
    /// One contiguous range `start..end`.
    Single(usize, usize),
    /// Two ranges: `start..start + first_len` at the ring's end, then
    /// `0..second_len` at its start.
    Double(usize, usize, usize),
}

/// One zero-copy send of output bytes.
pub struct SendChunk {
    /// Byte offset of the chunk within the output ring.
    pub offset: usize,
    /// Length handed to the send.
    pub len: u32,
    /// Reference carried to the send completion.
    pub buf_ref: usize,
}

/// What sending all pending output consists of.
pub struct SendPlan {
    /// The sends, in order.
    pub chunks: Vec<SendChunk>,
    /// The chunk count reported once every send was queued.
    pub reported: usize,
}

pub open spec fn max_int(a: int, b: int) -> int {
    if a < b {
        b
    } else {
        a
    }
}

impl CursorState {
    /// What every cursor keeps: the input window is ordered, output positions
    /// are buffer-aligned within the ring, and the current output buffer never
    /// lies past the output start.
    pub open spec fn valid(self) -> bool {
        &&& self.in_start <= self.in_end
        &&& self.out_cur <= 255
        &&& self.out_start % 8192 == 0
        &&& self.out_start <= 255 * 8192
        &&& self.out_cur * 8192 <= self.out_start
    }

    /// The unsent output range is ordered (its length is defined).
    pub open spec fn out_ordered(self) -> bool {
        self.out_start <= self.out_end
    }

    /// The output start lies at the current output buffer.
    pub open spec fn out_synced(self) -> bool {
        self.out_cur * 8192 == self.out_start
    }

    /// Length of the unread input.
    pub open spec fn len_in(self) -> int {
        self.in_end - self.in_start
    }

    /// Length of the unsent output.
    pub open spec fn len_out(self) -> int {
        self.out_end - self.out_start
    }

    /// The cursor after setting the lengths: input shrinks from its start and
    /// grows at its end; a changed output length is laid out from the current
    /// output buffer.
    pub open spec fn with_lens(self, new_in: usize, new_out: usize) -> CursorState {
        let in_start = if new_in < self.len_in() {
            (self.in_end - new_in) as usize
        } else {
            self.in_start
        };
        let in_end = if new_in > self.len_in() {
            (self.in_start + new_in) as usize
        } else {
            self.in_end
        };
        let out_end = if new_out != self.len_out() {
            (self.out_cur * 8192 + new_out) as usize
        } else {
            self.out_end
        };
        CursorState { in_start, in_end, out_end, ..self }
    }

    /// The cursor after the input positions are brought back into the ring
    /// when both lie past its end.
    pub open spec fn revolved(self) -> CursorState {
        if self.in_start > 2097152 && self.in_end > 2097152 {
            CursorState {
                in_start: (self.in_start - 2097152) as usize,
                in_end: (self.in_end - 2097152) as usize,
                ..self
            }
        } else {
            self
        }
    }

    /// Where the unread input lies.
    pub open spec fn in_window(self) -> InWindow {
        if self.in_start <= 2097152 && self.in_end > 2097152 {
            InWindow::Double(
                self.in_start,
                (2097152 - self.in_start) as usize,
                (self.in_end - 2097152) as usize,
            )
        } else {
            InWindow::Single(self.in_start, self.in_end)
        }
    }

    /// Number of whole or partial buffers the unsent output spans.
    pub open spec fn out_chunks(self) -> int {
        let total = self.len_out();
        total / 8192 + if total % 8192 == 0 {
            0int
        } else {
            1int
        }
    }

    /// The output buffer sending starts from.
    pub open spec fn first_out_buf(self) -> int {
        (self.out_start / 8192) as int
    }

    /// Number of sends: the chunks, but never past the ring's last buffer.
    pub open spec fn send_count(self) -> int {
        if self.out_chunks() < 256 - self.first_out_buf() {
            self.out_chunks()
        } else {
            256 - self.first_out_buf()
        }
    }

    /// The `j`-th send: the `j`-th buffer of the pending output, a full buffer
    /// or what remains of the output, whichever is shorter.
    pub open spec fn send_chunk(self, j: int) -> SendChunk {
        let buf = self.first_out_buf() + j;
        let rest = self.len_out() - j * 8192;
        SendChunk {
            offset: (buf * 8192) as usize,
            len: (if rest < 8192 {
                rest
            } else {
                8192
            }) as u32,
            buf_ref: (buf * 8192) as usize,
        }
    }

    /// The cursor after the first `n` sends succeeded. Each success moves the
    /// output start to the next buffer; sending the ring's last buffer wraps
    /// the output to the ring's start; only when all sends succeeded does the
    /// current output buffer move.
    pub open spec fn after_sent(self, n: int) -> CursorState {
        let k = self.first_out_buf() + n;
        if n == 0 {
            self
        } else if k == 256 {
            CursorState { out_start: 0, out_end: 0, out_cur: 0, ..self }
        } else {
            CursorState {
                out_start: (k * 8192) as usize,
                out_end: max_int(self.out_end as int, k * 8192) as usize,
                out_cur: if n == self.send_count() {
                    k as u16
                } else {
                    self.out_cur
                },
                ..self
            }
        }
    }

    /// The input buffer the read position lies in.
    pub open spec fn in_read_buf(self) -> int {
        (self.in_start / 8192) as int
    }

    /// Handing buffers back would find the reuse mark past the read position.
    pub open spec fn free_inconsistent(self) -> bool {
        let cur = self.in_read_buf();
        &&& !(cur == 0 && (self.in_reused == 255 || self.in_reused == 256))
        &&& self.in_reused > cur
    }

    /// The end (exclusive, as a buffer id) of the buffers handed back.
    pub open spec fn free_upto(self) -> int {
        self.in_read_buf() % 65536
    }

    /// The buffer ids handed back to the input ring, in order.
    pub open spec fn freed_bids(self) -> Seq<u16> {
        let cur = self.in_read_buf();
        if cur == 0 && self.in_reused == 255 {
            seq![256u16]
        } else if cur == 0 && self.in_reused == 256 {
            Seq::empty()
        } else if cur > 0 && self.in_reused < cur && self.in_reused < self.free_upto() {
            Seq::new(
                (self.free_upto() - self.in_reused) as nat,
                |k: int| (self.in_reused + k) as u16,
            )
        } else {
            Seq::empty()
        }
    }

    /// The cursor after buffers were handed back.
    pub open spec fn after_free(self) -> CursorState {
        let cur = self.in_read_buf();
        if cur == 0 && (self.in_reused == 255 || self.in_reused == 256) {
            CursorState { in_reused: 0, ..self }
        } else if cur > 0 && self.in_reused < cur && self.in_reused < self.free_upto() {
            CursorState { in_reused: self.free_upto() as u16, ..self }
        } else {
            self
        }
    }
}

/// Setting the lengths of a cursor whose output start lies at its current
/// output buffer makes the lengths exactly the ones asked for.
pub proof fn law_set_lens_then_lens(c: CursorState, capacity: usize, new_in: usize, new_out: usize)
    requires
        c.valid(),
        c.out_ordered(),
        c.out_synced(),
        new_in + c.in_start <= capacity,
        new_out + c.out_start <= capacity,
    ensures
        c.with_lens(new_in, new_out).len_in() == new_in,
        c.with_lens(new_in, new_out).len_out() == new_out,
        c.with_lens(new_in, new_out).out_ordered(),
        c.with_lens(new_in, new_out).valid(),
{
}

/// Once every send of the plan succeeded no output is pending; when there
/// was output, the output start then lies at the current output buffer; and
/// when the pending output fits before the ring's end, the sends span all of it.
pub proof fn law_all_sent_clears_output(c: CursorState)
    requires
        c.valid(),
        c.out_ordered(),
    ensures
        c.after_sent(c.send_count()).len_out() == 0,
        c.after_sent(c.send_count()).valid(),
        c.len_out() > 0 ==> c.after_sent(c.send_count()).out_synced(),
        c.out_chunks() < 256 - c.first_out_buf() ==> c.send_count() * 8192 >= c.len_out(),
{
    let total = c.len_out();
    let b0 = c.first_out_buf();
    let chunks = c.out_chunks();
    assert(c.out_start == b0 * 8192) by (nonlinear_arith)
        requires
            c.out_start % 8192 == 0,
            b0 == c.out_start / 8192,
    ;
    assert(chunks * 8192 >= total) by (nonlinear_arith)
        requires
            total >= 0,
            chunks == total / 8192 + if total % 8192 == 0 {
                0int
            } else {
                1int
            },
    ;
    assert(b0 <= 255);
    assert(c.out_cur * 8192 <= c.out_start);
    if total > 0 {
        assert(chunks >= 1) by (nonlinear_arith)
            requires
                total > 0,
                chunks == total / 8192 + if total % 8192 == 0 {
                    0int
                } else {
                    1int
                },
        ;
    }
}

/// The sends hand each pending output byte over once, in order: send `j`
/// starts `j` buffers past the output start and carries a full buffer or
/// what remains; when the output fits before the ring's end, the last send
/// ends exactly at the output's end.
pub proof fn law_send_plan_covers_output(c: CursorState)
    requires
        c.valid(),
        c.out_ordered(),
    ensures
        forall|j: int|
            0 <= j < c.send_count() ==> {
                &&& #[trigger] c.send_chunk(j).offset == c.out_start + j * 8192
                &&& c.send_chunk(j).buf_ref == c.send_chunk(j).offset
                &&& c.send_chunk(j).len == (if c.len_out() - j * 8192 < 8192 {
                    c.len_out() - j * 8192
                } else {
                    8192
                })
                &&& 0 < c.send_chunk(j).len <= 8192
            },
        c.out_chunks() < 256 - c.first_out_buf() && c.len_out() > 0 ==> {
            &&& (c.send_count() - 1) * 8192 < c.len_out()
            &&& c.len_out() <= c.send_count() * 8192
        },
{
    let total = c.len_out();
    let b0 = c.first_out_buf();
    let chunks = c.out_chunks();
    assert(c.out_start == b0 * 8192) by (nonlinear_arith)
        requires
            c.out_start % 8192 == 0,
            b0 == c.out_start / 8192,
    ;
    assert forall|j: int| 0 <= j < c.send_count() implies {
        &&& #[trigger] c.send_chunk(j).offset == c.out_start + j * 8192
        &&& c.send_chunk(j).buf_ref == c.send_chunk(j).offset
        &&& c.send_chunk(j).len == (if c.len_out() - j * 8192 < 8192 {
            c.len_out() - j * 8192
        } else {
            8192
        })
        &&& 0 < c.send_chunk(j).len <= 8192
    } by {
        assert(j * 8192 < total) by (nonlinear_arith)
            requires
                j < chunks,
                chunks == total / 8192 + if total % 8192 == 0 {
                    0int
                } else {
                    1int
                },
                total >= 0,
        ;
        assert((b0 + j) * 8192 == b0 * 8192 + j * 8192) by (nonlinear_arith);
        assert(b0 + j <= 255);
    }
    if chunks < 256 - b0 && total > 0 {
        assert((chunks - 1) * 8192 < total && total <= chunks * 8192) by (nonlinear_arith)
            requires
                total > 0,
                chunks == total / 8192 + if total % 8192 == 0 {
                    0int
                } else {
                    1int
                },
        ;
    }
}

/// While no send fails part-way, the output start stays at the current
/// output buffer, the output stays ordered and its end within the capacity:
/// setting lengths within the capacity, completing every send of the plan,
/// and the input-side steps all keep this; completing a plan that ends with
/// the ring's last buffer brings the output back to the ring's start.
pub proof fn law_synced_output_kept(c: CursorState, cap: usize, new_in: usize, new_out: usize, got: usize)
    requires
        c.valid(),
        c.out_synced(),
        c.out_ordered(),
        c.out_end <= cap,
        cap % 8192 == 0,
        new_in + c.in_start <= cap,
        new_out + c.out_start <= cap,
        c.in_end + got <= usize::MAX,
    ensures
        ({
            let d = c.with_lens(new_in, new_out);
            d.valid() && d.out_synced() && d.out_ordered() && d.out_end <= cap
        }),
        ({
            let d = c.after_sent(c.send_count());
            d.valid() && d.out_synced() && d.out_ordered() && d.out_end <= cap
        }),
        c.first_out_buf() + c.send_count() == 256 ==> c.after_sent(c.send_count()).out_start == 0
            && c.after_sent(c.send_count()).out_end == 0 && c.after_sent(c.send_count()).out_cur == 0,
        c.revolved().out_synced() && c.revolved().out_ordered() && c.revolved().out_end <= cap,
        c.after_free().out_synced() && c.after_free().out_ordered() && c.after_free().out_end <= cap,
        ({
            let d = CursorState { in_end: (c.in_end + got) as usize, ..c };
            d.out_synced() && d.out_ordered() && d.out_end <= cap
        }),
{
    let total = c.len_out();
    let b0 = c.first_out_buf();
    let chunks = c.out_chunks();
    let room = cap - c.out_start;
    assert(c.out_start == b0 * 8192) by (nonlinear_arith)
        requires
            c.out_start % 8192 == 0,
            b0 == c.out_start / 8192,
    ;
    assert(room % 8192 == 0) by (nonlinear_arith)
        requires
            room == cap - c.out_start,
            cap % 8192 == 0,
            c.out_start % 8192 == 0,
            c.out_start <= cap,
    ;
    assert(chunks * 8192 <= room && chunks * 8192 >= total) by (nonlinear_arith)
        requires
            0 <= total <= room,
            room % 8192 == 0,
            chunks == total / 8192 + if total % 8192 == 0 {
                0int
            } else {
                1int
            },
    ;
    assert((b0 + chunks) * 8192 == b0 * 8192 + chunks * 8192) by (nonlinear_arith);
    law_all_sent_clears_output(c);
}

/// The window handed out holds exactly the unread input, and bringing the
/// positions back into the ring keeps the unread length.
pub proof fn law_window_holds_unread_input(c: CursorState)
    requires
        c.valid(),
    ensures
        c.revolved().valid(),
        c.revolved().len_in() == c.len_in(),
        match c.revolved().in_window() {
            InWindow::Single(start, end) => start <= end && end - start == c.len_in(),
            InWindow::Double(start, first_len, second_len) => {
                &&& start + first_len == 2097152
                &&& first_len + second_len == c.len_in()
            },
        },
{
}

/// Handing buffers back reaches the buffer of the read position: the ids
/// handed back are consecutive from the reuse mark up to it, which becomes
/// the new reuse mark.
pub proof fn law_free_reaches_read_buffer(c: CursorState)
    requires
        c.valid(),
        !c.free_inconsistent(),
        0 < c.in_read_buf() < 65536,
    ensures
        c.after_free().in_reused == c.in_read_buf(),
        c.freed_bids().len() == c.in_read_buf() - c.in_reused,
        forall|k: int| 0 <= k < c.freed_bids().len() ==> #[trigger] c.freed_bids()[k] == c.in_reused + k,
{
}

/// Handing buffers back twice hands nothing back the second time.
pub proof fn law_free_twice_frees_nothing(c: CursorState)
    requires
        c.valid(),
        !c.free_inconsistent(),
    ensures
        !c.after_free().free_inconsistent(),
        c.after_free().after_free() == c.after_free(),
        c.after_free().freed_bids().len() == 0,
{
}

impl View for CursorLeft {
    type V = CursorState;

    closed spec fn view(&self) -> CursorState {
        CursorState {
            in_start: self.pos_in_start,
            in_end: self.pos_in_end,
            in_reused: self.idx_in_reused,
            out_start: self.pos_out_start,
            out_end: self.pos_out_end,
            out_cur: self.idx_out_cur,
        }
    }
}

impl CursorLeft {
    /// Every cursor is valid.
    #[verifier::type_invariant]
    spec fn inv(self) -> bool {
        self@.valid()
    }

    /// A cursor's positions are always valid: callers learn it here.
    pub fn assert_valid(&self)
        ensures
            self@.valid(),
    {
        proof {
            use_type_invariant(self);
        }
    }

    /// A cursor with every position at zero.
    pub fn new() -> (c: CursorLeft)
        ensures
            c@ == (CursorState {
                in_start: 0,
                in_end: 0,
                in_reused: 0,
                out_start: 0,
                out_end: 0,
                out_cur: 0,
            }),
            c@.valid(),
    {
        CursorLeft {
            pos_in_start: 0,
            pos_in_end: 0,
            idx_in_reused: 0,
            pos_out_start: 0,
            pos_out_end: 0,
            idx_out_cur: 0,
        }
    }

    /// Start of the unread input.
    pub fn in_start(&self) -> (r: usize)
        ensures
            r == self@.in_start,
    {
        self.pos_in_start
    }

    /// End of the unread input.
    pub fn in_end(&self) -> (r: usize)
        ensures
            r == self@.in_end,
    {
        self.pos_in_end
    }

    /// First input buffer not yet handed back to the ring.
    pub fn in_reused(&self) -> (r: u16)
        ensures
            r == self@.in_reused,
    {
        self.idx_in_reused
    }

    /// Start of the unsent output.
    pub fn out_start(&self) -> (r: usize)
        ensures
            r == self@.out_start,
    {
        self.pos_out_start
    }

    /// End of the unsent output.
    pub fn out_end(&self) -> (r: usize)
        ensures
            r == self@.out_end,
    {
        self.pos_out_end
    }

    /// The output buffer new output is written from.
    pub fn out_cur(&self) -> (r: u16)
        ensures
            r == self@.out_cur,
    {
        self.idx_out_cur
    }

    /// Whether the unsent output range is ordered.
    pub fn out_ordered(&self) -> (r: bool)
        ensures
            r == self@.out_ordered(),
    {
        self.pos_out_start <= self.pos_out_end
    }

    /// Whether buffers can be handed back without finding the reuse mark
    /// past the read position.
    pub fn free_consistent(&self) -> (r: bool)
        ensures
            r == !self@.free_inconsistent(),
    {
        let cur = self.pos_in_start / BUF_SIZE;
        (cur == 0 && (self.idx_in_reused == 255 || self.idx_in_reused == 256))
            || self.idx_in_reused as usize <= cur
    }

    /// Lengths of the unread input and the unsent output.
    pub fn left_lens(&self) -> (r: (usize, usize))
        requires
            self@.out_ordered(),
        ensures
            r.0 == self@.len_in(),
            r.1 == self@.len_out(),
    {
        proof {
            use_type_invariant(self);
        }
        let len_in = self.pos_in_end - self.pos_in_start;
        let len_out = self.pos_out_end - self.pos_out_start;
        (len_in, len_out)
    }

    /// Set the lengths of the unread input and unsent output, where both fit
    /// within `capacity` from their starts.
    pub fn left_set_lens(&mut self, capacity: usize, new_len_in: usize, new_len_out: usize)
        requires
            old(self)@.out_ordered(),
            new_len_in + old(self)@.in_start <= capacity,
            new_len_out + old(self)@.out_start <= capacity,
        ensures
            final(self)@ == old(self)@.with_lens(new_len_in, new_len_out),
            final(self)@.valid(),
    {
        proof {
            use_type_invariant(&*self);
        }
        let (cur_len_in, cur_len_out) = self.left_lens();
        if new_len_in < cur_len_in {
            self.pos_in_start = self.pos_in_end - new_len_in;
        }
        if new_len_in > cur_len_in {
            self.pos_in_end = self.pos_in_start + new_len_in;
        }
        if new_len_out != cur_len_out {
            let buf_out_start = self.idx_out_cur as usize * 8192;
            self.pos_out_end = buf_out_start + new_len_out;
        }
    }

    /// Extend the unread input by `buf_len` received bytes.
    pub fn recv_extend(&mut self, buf_len: usize)
        requires
            buf_len > 0,
            old(self)@.in_end + buf_len <= usize::MAX,
        ensures
            final(self)@ == (CursorState {
                in_end: (old(self)@.in_end + buf_len) as usize,
                ..old(self)@
            }),
            final(self)@.valid(),
    {
        proof {
            use_type_invariant(&*self);
        }
        let maybe_new_end_pos = buf_len + self.pos_in_end;
        self.pos_in_end = maybe_new_end_pos;
    }

    /// Bring the input positions back into the ring when both lie past its
    /// end, and give where the unread input lies.
    pub fn in_window(&mut self) -> (w: InWindow)
        ensures
            final(self)@ == old(self)@.revolved(),
            w == final(self)@.in_window(),
            final(self)@.valid(),
    {
        proof {
            use_type_invariant(&*self);
        }
        if self.pos_in_start > RING_BYTES && self.pos_in_end > RING_BYTES {
            self.pos_in_start = self.pos_in_start - RING_BYTES;
            self.pos_in_end = self.pos_in_end - RING_BYTES;
        }
        if self.pos_in_start <= RING_BYTES && self.pos_in_end > RING_BYTES {
            let buf_in1_len = RING_BYTES - self.pos_in_start;
            let buf_in2_len = self.pos_in_end - RING_BYTES;
            InWindow::Double(self.pos_in_start, buf_in1_len, buf_in2_len)
        } else {
            InWindow::Single(self.pos_in_start, self.pos_in_end)
        }
    }

    /// Byte offset in the output ring that new output is written from.
    pub fn out_window_start(&self) -> (r: usize)
        ensures
            r == self@.out_cur * 8192,
    {
        proof {
            use_type_invariant(self);
        }
        self.idx_out_cur as usize * BUF_SIZE
    }

    /// The sends that hand all pending output to the kernel, one per buffer,
    /// stopping at the ring's last buffer.
    pub fn send_plan(&self) -> (p: SendPlan)
        requires
            self@.out_ordered(),
        ensures
            p.chunks@.len() == self@.send_count(),
            forall|j: int| 0 <= j < p.chunks@.len() ==> #[trigger] p.chunks@[j] == self@.send_chunk(j),
            p.reported == self@.out_chunks(),
    {
        proof {
            use_type_invariant(self);
        }
        let total_out_len = self.pos_out_end - self.pos_out_start;
        let mut chunks: Vec<SendChunk> = Vec::new();
        let b0: usize = self.pos_out_start / BUF_SIZE;
        let n_chunks: usize = total_out_len / BUF_SIZE + if total_out_len % BUF_SIZE == 0 {
            0
        } else {
            1
        };
        let count: usize = if n_chunks < BUF_COUNT - b0 {
            n_chunks
        } else {
            BUF_COUNT - b0
        };
        let mut j: usize = 0;
        while j < count
            invariant
                self@.valid(),
                self@.out_ordered(),
                total_out_len == self@.len_out(),
                b0 == self@.first_out_buf(),
                n_chunks == self@.out_chunks(),
                count == self@.send_count(),
                count <= 256 - b0,
                count <= n_chunks,
                b0 <= 255,
                j <= count,
                chunks@.len() == j,
                forall|i: int| 0 <= i < j ==> #[trigger] chunks@[i] == self@.send_chunk(i),
            decreases count - j,
        {
            let buf_id: usize = b0 + j;
            assert(j * 8192 < total_out_len) by (nonlinear_arith)
                requires
                    j < n_chunks,
                    n_chunks == total_out_len / 8192 + if total_out_len % 8192 == 0 {
                        0int
                    } else {
                        1int
                    },
                    total_out_len >= 0,
            ;
            let rest: usize = total_out_len - j * BUF_SIZE;
            let len: u32 = if rest < BUF_SIZE {
                rest as u32
            } else {
                8192
            };
            let buf_ref: usize = buf_id * BUF_SIZE;
            chunks.push(SendChunk { offset: buf_id * BUF_SIZE, len, buf_ref });
            j = j + 1;
        }
        SendPlan { chunks, reported: n_chunks }
    }

    /// Record that the first `sent` sends of the plan succeeded.
    pub fn commit_sent(&mut self, sent: usize)
        requires
            old(self)@.out_ordered(),
            sent <= old(self)@.send_count(),
        ensures
            final(self)@ == old(self)@.after_sent(sent as int),
            final(self)@.valid(),
            final(self)@.out_ordered(),
    {
        proof {
            use_type_invariant(&*self);
        }
        if sent == 0 {
            return;
        }
        let total_out_len = self.pos_out_end - self.pos_out_start;
        let b0: usize = self.pos_out_start / BUF_SIZE;
        let n_chunks: usize = total_out_len / BUF_SIZE + if total_out_len % BUF_SIZE == 0 {
            0
        } else {
            1
        };
        let count: usize = if n_chunks < BUF_COUNT - b0 {
            n_chunks
        } else {
            BUF_COUNT - b0
        };
        let k: usize = b0 + sent;
        if k == BUF_COUNT {
            self.idx_out_cur = 0;
            self.pos_out_start = 0;
            self.pos_out_end = 0;
            return;
        }
        self.pos_out_start = k * BUF_SIZE;
        if self.pos_out_end < self.pos_out_start {
            self.pos_out_end = self.pos_out_start;
        }
        if sent == count {
            self.idx_out_cur = k as u16;
        }
    }

    /// Hand the input buffers before the read position back to the ring:
    /// gives the buffer ids to hand back, in order, and records them.
    pub fn free_buffers(&mut self) -> (bids: Vec<u16>)
        requires
            !old(self)@.free_inconsistent(),
        ensures
            bids@ == old(self)@.freed_bids(),
            final(self)@ == old(self)@.after_free(),
            final(self)@.valid(),
    {
        proof {
            use_type_invariant(&*self);
        }
        let mut bids: Vec<u16> = Vec::new();
        let cur_buf_id = self.pos_in_start / BUF_SIZE;
        if cur_buf_id == 0 && self.idx_in_reused == 255 {
            bids.push(256);
            self.idx_in_reused = 0;
            assert(bids@ =~= seq![256u16]);
            return bids;
        }
        if cur_buf_id == 0 && self.idx_in_reused == 256 {
            self.idx_in_reused = 0;
            assert(bids@ =~= Seq::<u16>::empty());
            return bids;
        }
        let gap = cur_buf_id - self.idx_in_reused as usize;
        if cur_buf_id > 0 && gap > 0 {
            let upto: u16 = (cur_buf_id % 65536) as u16;
            let start: u16 = self.idx_in_reused;
            let mut do_free: u16 = start;
            if start < upto {
                while do_free < upto
                    invariant
                        start <= do_free <= upto,
                        self@.valid(),
                        self.idx_in_reused == do_free,
                        self.pos_in_start == old(self).pos_in_start,
                        self.pos_in_end == old(self).pos_in_end,
                        self.pos_out_start == old(self).pos_out_start,
                        self.pos_out_end == old(self).pos_out_end,
                        self.idx_out_cur == old(self).idx_out_cur,
                        start == old(self).idx_in_reused,
                        bids@.len() == do_free - start,
                        forall|k: int| 0 <= k < bids@.len() ==> #[trigger] bids@[k] == (start + k) as u16,
                    decreases upto - do_free,
                {
                    bids.push(do_free);
                    self.idx_in_reused = do_free + 1;
                    do_free = do_free + 1;
                }
            }
            assert(bids@ =~= old(self)@.freed_bids());
        } else {
            assert(bids@ =~= Seq::<u16>::empty());
        }
        bids
    }
}

} // verus!
