//! Intermediate buffer between two orbits of a blueprint run: the Right side
//! of one orbit and the Left side of the next.

use vstd::prelude::*;

verus! {

/// Size in bytes of each intermediate buffer.
pub const INTERMED_SIZE: usize = 8192;

/// Intermediate buffers with their lengths and the flags of both sides.
#[derive(Debug)]
pub struct IntermedBuf {
    /// Bytes flowing in from the Right side.
    pub buf_right_in: Vec<u8>,
    /// Length of the input in use.
    pub buf_right_in_len: usize,
    /// Bytes flowing out from the Right side.
    pub buf_right_out: Vec<u8>,
    /// Length of the output in use.
    pub buf_right_out_len: usize,
    /// Left side is ready.
    pub left_ready: bool,
    /// Left side wants to read.
    pub left_want_read: bool,
    /// Left side wants to write.
    pub left_want_write: bool,
    /// Left input is blocked.
    pub left_blocked: bool,
    /// Right side wants the next input block.
    pub right_wants_next_in: bool,
}

/// `n` zero bytes.
pub open spec fn zeros(n: nat) -> Seq<u8> {
    Seq::new(n, |i: int| 0u8)
}

/// `n` zero bytes.
fn zeroed(n: usize) -> (v: Vec<u8>)
    ensures
        v@ == zeros(n as nat),
{
    let mut v: Vec<u8> = Vec::new();
    let mut i: usize = 0;
    while i < n
        invariant
            i <= n,
            v@ == zeros(i as nat),
        decreases n - i,
    {
        v.push(0u8);
        i = i + 1;
        assert(v@ =~= zeros(i as nat));
    }
    v
}

/// `buf` with `bs` written from `start`.
pub open spec fn written(buf: Seq<u8>, start: int, bs: Seq<u8>) -> Seq<u8> {
    buf.subrange(0, start) + bs + buf.subrange(start + bs.len(), buf.len() as int)
}

impl IntermedBuf {
    /// Both buffers have their full size.
    pub open spec fn wf(&self) -> bool {
        &&& self.buf_right_in@.len() == INTERMED_SIZE
        &&& self.buf_right_out@.len() == INTERMED_SIZE
    }

    /// Everything but the flags is that of `other`.
    pub open spec fn same_bufs(&self, other: &Self) -> bool {
        &&& self.buf_right_in@ == other.buf_right_in@
        &&& self.buf_right_in_len == other.buf_right_in_len
        &&& self.buf_right_out@ == other.buf_right_out@
        &&& self.buf_right_out_len == other.buf_right_out_len
    }

    /// The flags are those of `other`.
    pub open spec fn same_flags(&self, other: &Self) -> bool {
        &&& self.left_ready == other.left_ready
        &&& self.left_want_read == other.left_want_read
        &&& self.left_want_write == other.left_want_write
        &&& self.left_blocked == other.left_blocked
        &&& self.right_wants_next_in == other.right_wants_next_in
    }

    /// Empty zeroed buffers, all flags off.
    pub fn new() -> (r: Self)
        ensures
            r.wf(),
            r.buf_right_in@ == zeros(INTERMED_SIZE as nat),
            r.buf_right_out@ == zeros(INTERMED_SIZE as nat),
            r.buf_right_in_len == 0,
            r.buf_right_out_len == 0,
            !r.left_ready,
            !r.left_want_read,
            !r.left_want_write,
            !r.left_blocked,
            !r.right_wants_next_in,
    {
        Self {
            buf_right_in: zeroed(INTERMED_SIZE),
            buf_right_in_len: 0,
            buf_right_out: zeroed(INTERMED_SIZE),
            buf_right_out_len: 0,
            left_ready: false,
            left_want_read: false,
            left_want_write: false,
            left_blocked: false,
            right_wants_next_in: false,
        }
    }

    /// Set the Left lengths: the input and output lengths in use.
    pub fn left_set_lens(&mut self, len_in: usize, len_out: usize)
        ensures
            final(self).buf_right_in_len == len_in,
            final(self).buf_right_out_len == len_out,
            final(self).buf_right_in@ == old(self).buf_right_in@,
            final(self).buf_right_out@ == old(self).buf_right_out@,
            final(self).same_flags(old(self)),
    {
        self.buf_right_in_len = len_in;
        self.buf_right_out_len = len_out;
    }

    /// Set the Left readiness; gives the readiness set.
    pub fn set_ready(&mut self, r: bool) -> (res: bool)
        ensures
            res == r,
            final(self).left_ready == r,
            final(self).same_bufs(old(self)),
    {
        self.left_ready = r;
        self.left_ready
    }

    /// All output was consumed: the output is emptied and zeroed.
    pub fn all_sent_right_out(&mut self)
        requires
            old(self).wf(),
        ensures
            final(self).wf(),
            final(self).buf_right_out_len == 0,
            final(self).buf_right_out@ == zeros(INTERMED_SIZE as nat),
            final(self).buf_right_in@ == old(self).buf_right_in@,
            final(self).buf_right_in_len == old(self).buf_right_in_len,
            final(self).same_flags(old(self)),
    {
        self.buf_right_out_len = 0;
        let mut i: usize = 0;
        while i < INTERMED_SIZE
            invariant
                i <= INTERMED_SIZE,
                self.buf_right_out@.len() == INTERMED_SIZE,
                forall|k: int| 0 <= k < i ==> #[trigger] self.buf_right_out@[k] == 0u8,
                self.buf_right_out_len == 0,
                self.buf_right_in@ == old(self).buf_right_in@,
                self.buf_right_in_len == old(self).buf_right_in_len,
                self.same_flags(old(self)),
            decreases INTERMED_SIZE - i,
        {
            self.buf_right_out.set(i, 0u8);
            i = i + 1;
        }
        assert(self.buf_right_out@ =~= zeros(INTERMED_SIZE as nat));
    }

    /// Append `bs` to the output.
    pub fn add_right_out(&mut self, bs: &[u8])
        requires
            old(self).wf(),
            old(self).buf_right_out_len + bs@.len() <= INTERMED_SIZE,
        ensures
            final(self).wf(),
            final(self).buf_right_out@ == written(
                old(self).buf_right_out@,
                old(self).buf_right_out_len as int,
                bs@,
            ),
            final(self).buf_right_out_len == old(self).buf_right_out_len + bs@.len(),
            final(self).buf_right_in@ == old(self).buf_right_in@,
            final(self).buf_right_in_len == old(self).buf_right_in_len,
            final(self).same_flags(old(self)),
    {
        let start_pos = self.buf_right_out_len;
        let mut i: usize = 0;
        while i < bs.len()
            invariant
                i <= bs@.len(),
                start_pos == old(self).buf_right_out_len,
                start_pos + bs@.len() <= INTERMED_SIZE,
                self.buf_right_out@ == written(
                    old(self).buf_right_out@,
                    start_pos as int,
                    bs@.subrange(0, i as int),
                ),
                old(self).buf_right_out@.len() == INTERMED_SIZE,
                self.buf_right_out_len == old(self).buf_right_out_len,
                self.buf_right_in@ == old(self).buf_right_in@,
                self.buf_right_in_len == old(self).buf_right_in_len,
                self.same_flags(old(self)),
            decreases bs@.len() - i,
        {
            self.buf_right_out.set(start_pos + i, bs[i]);
            i = i + 1;
            assert(self.buf_right_out@ =~= written(
                old(self).buf_right_out@,
                start_pos as int,
                bs@.subrange(0, i as int),
            ));
        }
        assert(bs@.subrange(0, bs@.len() as int) =~= bs@);
        self.buf_right_out_len = self.buf_right_out_len + bs.len();
    }

    /// Append `bs` to the input.
    pub fn add_right_in(&mut self, bs: &[u8])
        requires
            old(self).wf(),
            old(self).buf_right_in_len + bs@.len() <= INTERMED_SIZE,
        ensures
            final(self).wf(),
            final(self).buf_right_in@ == written(
                old(self).buf_right_in@,
                old(self).buf_right_in_len as int,
                bs@,
            ),
            final(self).buf_right_in_len == old(self).buf_right_in_len + bs@.len(),
            final(self).buf_right_out@ == old(self).buf_right_out@,
            final(self).buf_right_out_len == old(self).buf_right_out_len,
            final(self).same_flags(old(self)),
    {
        let start_pos = self.buf_right_in_len;
        let mut i: usize = 0;
        while i < bs.len()
            invariant
                i <= bs@.len(),
                start_pos == old(self).buf_right_in_len,
                start_pos + bs@.len() <= INTERMED_SIZE,
                self.buf_right_in@ == written(
                    old(self).buf_right_in@,
                    start_pos as int,
                    bs@.subrange(0, i as int),
                ),
                old(self).buf_right_in@.len() == INTERMED_SIZE,
                self.buf_right_in_len == old(self).buf_right_in_len,
                self.buf_right_out@ == old(self).buf_right_out@,
                self.buf_right_out_len == old(self).buf_right_out_len,
                self.same_flags(old(self)),
            decreases bs@.len() - i,
        {
            self.buf_right_in.set(start_pos + i, bs[i]);
            i = i + 1;
            assert(self.buf_right_in@ =~= written(
                old(self).buf_right_in@,
                start_pos as int,
                bs@.subrange(0, i as int),
            ));
        }
        assert(bs@.subrange(0, bs@.len() as int) =~= bs@);
        self.buf_right_in_len = self.buf_right_in_len + bs.len();
    }
}

impl Default for IntermedBuf {
    fn default() -> (r: Self)
        ensures
            r.wf(),
            r.buf_right_in_len == 0,
            r.buf_right_out_len == 0,
            !r.left_ready,
            !r.left_want_read,
            !r.left_want_write,
            !r.left_blocked,
            !r.right_wants_next_in,
    {
        Self::new()
    }
}

/// Appending to the output and then reading back the output in use gives
/// what was there before followed by the appended bytes.
pub proof fn law_added_out_reads_back(before: Seq<u8>, len: int, bs: Seq<u8>)
    requires
        before.len() == INTERMED_SIZE,
        0 <= len,
        len + bs.len() <= INTERMED_SIZE,
    ensures
        written(before, len, bs).len() == INTERMED_SIZE,
        written(before, len, bs).subrange(0, len + bs.len()) == before.subrange(0, len) + bs,
{
    assert(written(before, len, bs).subrange(0, len + bs.len()) =~= before.subrange(0, len) + bs);
}

} // verus!
