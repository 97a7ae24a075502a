//! A byte buffer that serves the sealing engine both as a sink and as a
//! source: writes append to the store, reads advance a cursor over it, and
//! chunked reads go through a scratch window of fixed size.

use vstd::prelude::*;
use vstd::slice::slice_subrange;
use vstd::slice::slice_to_vec;
use crate::error::SealError;

verus! {

/// The number of bytes that one chunked read can deliver.
pub const WINDOW_SIZE: usize = 1024;

/// The longest store, in bytes: what one allocation can hold.
pub open spec fn store_limit() -> int {
    isize::MAX as int
}

/// What a buffer is, as plain values.
pub struct BufView {
    /// Every byte written so far, in order.
    pub store: Seq<u8>,
    /// How many bytes of the store have been read.
    pub cursor: nat,
    /// The scratch window, with whatever earlier chunked reads left in it.
    pub window: Seq<u8>,
}

impl BufView {
    /// The cursor lies within the store and the window has its fixed size.
    pub open spec fn wf(self) -> bool {
        &&& self.cursor <= self.store.len()
        &&& self.window.len() == WINDOW_SIZE
    }

    /// The number of bytes that have not been read yet.
    pub open spec fn remaining(self) -> nat {
        if self.cursor <= self.store.len() {
            (self.store.len() - self.cursor) as nat
        } else {
            0
        }
    }

    /// Where the next read starts: at the cursor, which never lies past the
    /// end of a well-formed buffer.
    pub open spec fn start(self) -> int {
        self.store.len() - self.remaining()
    }

    /// The bytes that have not been read yet.
    pub open spec fn rest(self) -> Seq<u8> {
        self.store.subrange(self.start(), self.store.len() as int)
    }

    /// Whether the store can take `bytes` as well.
    pub open spec fn can_write(self, bytes: Seq<u8>) -> bool {
        self.store.len() + bytes.len() <= store_limit()
    }

    /// The buffer after `bytes` were appended. The cursor stays.
    pub open spec fn after_write(self, bytes: Seq<u8>) -> BufView {
        BufView { store: self.store + bytes, ..self }
    }

    /// What a single-byte read returns: the byte under the cursor, or
    /// `EndOfStream` where the cursor is at the end.
    pub open spec fn next_byte(self) -> Result<u8, SealError> {
        if self.cursor < self.store.len() {
            Ok(self.store[self.cursor as int])
        } else {
            Err(SealError::EndOfStream)
        }
    }

    /// The buffer after a single-byte read: the cursor moves by one unless
    /// it is at the end.
    pub open spec fn after_read_byte(self) -> BufView {
        if self.cursor < self.store.len() {
            BufView { cursor: self.cursor + 1, ..self }
        } else {
            self
        }
    }

    /// How many bytes a chunked read of `n` delivers: `n`, but no more than
    /// the window holds and no more than remain.
    pub open spec fn chunk_len(self, n: nat) -> nat {
        let bound = if n < WINDOW_SIZE { n } else { WINDOW_SIZE as nat };
        if self.remaining() < bound { self.remaining() } else { bound }
    }

    /// The bytes that a chunked read of `n` delivers.
    pub open spec fn chunk(self, n: nat) -> Seq<u8> {
        self.store.subrange(self.start(), self.start() + self.chunk_len(n))
    }

    /// The buffer after a chunked read of `n`: the cursor moves past the
    /// chunk, and the chunk lies at the start of the window.
    pub open spec fn after_read_bytes(self, n: nat) -> BufView {
        BufView {
            store: self.store,
            cursor: self.cursor + self.chunk_len(n),
            window: self.chunk(n) + self.window.subrange(
                self.chunk_len(n) as int,
                self.window.len() as int,
            ),
        }
    }

    /// The buffer with its cursor back at the start.
    pub open spec fn rewound(self) -> BufView {
        BufView { cursor: 0, ..self }
    }

    /// The buffer with its cursor at the end.
    pub open spec fn drained(self) -> BufView {
        BufView { cursor: self.store.len(), ..self }
    }
}

/// A fresh buffer over `store`: cursor at the start, window zeroed.
pub open spec fn fresh(store: Seq<u8>) -> BufView {
    BufView { store, cursor: 0, window: Seq::new(WINDOW_SIZE as nat, |i: int| 0u8) }
}

/// The byte store, its read cursor and its scratch window.
pub struct Buf {
    data: Vec<u8>,
    pos: usize,
    window: [u8; 1024],
}

impl View for Buf {
    type V = BufView;

    closed spec fn view(&self) -> BufView {
        BufView { store: self.data@, cursor: self.pos as nat, window: self.window@ }
    }
}

impl Buf {
    /// A buffer over `v`, to be read from the start or appended to.
    pub fn new(v: Vec<u8>) -> (buf: Buf)
        ensures
            buf@ == fresh(v@),
            buf@.wf(),
    {
        let buf = Buf { data: v, pos: 0, window: [0u8;1024] };
        assert(buf@.window =~= fresh(v@).window);
        buf
    }

    /// Appends `bytes` to the store. The read cursor does not move. A write
    /// that would take the store past `store_limit()` is refused and changes
    /// nothing.
    pub fn write(&mut self, bytes: &[u8]) -> (r: Result<(), SealError>)
        ensures
            old(self)@.wf() ==> final(self)@.wf(),
            old(self)@.can_write(bytes@) ==> r == Ok::<(), SealError>(()) && final(self)@ == old(
                self,
            )@.after_write(bytes@),
            !old(self)@.can_write(bytes@) ==> r == Err::<(), SealError>(
                SealError::UpstreamWritableError,
            ) && final(self)@ == old(self)@,
    {
        let limit: usize = isize::MAX as usize;
        let len: usize = self.data.len();
        if len > limit || bytes.len() > limit - len {
            return Err(SealError::UpstreamWritableError);
        }
        self.data.extend_from_slice(bytes);
        assert(self.data@ =~= old(self).data@ + bytes@);
        Ok(())
    }

    /// Reads the byte under the cursor and moves the cursor past it; fails
    /// with `EndOfStream`, and changes nothing, where none is left.
    pub fn read_byte(&mut self) -> (r: Result<u8, SealError>)
        ensures
            old(self)@.wf() ==> final(self)@.wf(),
            r == old(self)@.next_byte(),
            final(self)@ == old(self)@.after_read_byte(),
    {
        if self.pos < self.data.len() {
            let b: u8 = self.data[self.pos];
            self.pos = self.pos + 1;
            Ok(b)
        } else {
            Err(SealError::EndOfStream)
        }
    }

    /// Reads up to `n` bytes through the window and moves the cursor past
    /// them. Fewer than `n` come back where the window is smaller or the
    /// store ends; that is no failure, and neither is an empty chunk. The
    /// store is in memory, so the read itself cannot fail: the result is
    /// always `Ok`. The chunk lies in the window, which the next chunked
    /// read overwrites.
    pub fn read_bytes(&mut self, n: usize) -> (r: Result<&[u8], SealError>)
        ensures
            old(self)@.wf() ==> final(self)@.wf(),
            r is Ok,
            r->Ok_0@ == old(self)@.chunk(n as nat),
            final(self)@ == old(self)@.after_read_bytes(n as nat),
    {
        let len: usize = self.data.len();
        let left: usize = if self.pos < len { len - self.pos } else { 0 };
        let mut k: usize = if n < WINDOW_SIZE { n } else { WINDOW_SIZE };
        if left < k {
            k = left;
        }
        let mut i: usize = 0;
        while i < k
            invariant
                i <= k <= 1024,
                k == 0 || self.pos + k <= self.data.len(),
                self.data@ == old(self).data@,
                self.pos == old(self).pos,
                forall|j: int| 0 <= j < i ==> self.window@[j] == self.data@[self.pos + j],
                forall|j: int| i <= j < 1024 ==> self.window@[j] == old(self).window@[j],
            decreases k - i,
        {
            self.window[i] = self.data[self.pos + i];
            i = i + 1;
        }
        self.pos = self.pos + k;
        assert(self.window@ =~= old(self)@.after_read_bytes(n as nat).window);
        let out = slice_subrange(self.window.as_slice(), 0, k);
        assert(out@ =~= old(self)@.chunk(n as nat));
        Ok(out)
    }

    /// Puts the cursor back at the start of the store.
    pub fn rewind(&mut self)
        ensures
            old(self)@.wf() ==> final(self)@.wf(),
            final(self)@ == old(self)@.rewound(),
    {
        self.pos = 0;
    }

    /// Returns everything from the cursor to the end of the store and leaves
    /// the cursor at the end.
    pub fn drain(&mut self) -> (rest: Vec<u8>)
        ensures
            old(self)@.wf() ==> final(self)@.wf(),
            rest@ == old(self)@.rest(),
            final(self)@ == old(self)@.drained(),
    {
        let end: usize = self.data.len();
        let start: usize = if self.pos < end { self.pos } else { end };
        let rest = slice_to_vec(slice_subrange(self.data.as_slice(), start, end));
        self.pos = end;
        rest
    }

    /// Everything that was written, from the first byte on: the cursor is
    /// put back at the start and the store is read to its end.
    pub fn contents(&mut self) -> (all: Vec<u8>)
        ensures
            old(self)@.wf() ==> final(self)@.wf(),
            all@ == old(self)@.store,
            final(self)@ == old(self)@.drained(),
    {
        self.rewind();
        let all = self.drain();
        assert(all@ =~= old(self)@.store);
        all
    }

    /// The number of bytes in the store.
    pub fn len(&self) -> (n: usize)
        ensures
            n == self@.store.len(),
    {
        self.data.len()
    }

    /// The number of bytes that have been read.
    pub fn position(&self) -> (p: usize)
        ensures
            p == self@.cursor,
    {
        self.pos
    }
}

/// Reading never changes the store, and every operation keeps a well-formed
/// buffer well-formed.
pub proof fn lemma_reads_keep_store(v: BufView, n: nat)
    requires
        v.wf(),
    ensures
        v.after_read_byte().store == v.store,
        v.after_read_bytes(n).store == v.store,
        v.after_read_byte().wf(),
        v.after_read_bytes(n).wf(),
        v.rewound().wf(),
        v.drained().wf(),
{
}

/// A chunked read delivers the first bytes of what remains: as many as were
/// asked for, capped by the window's size and by what remains.
pub proof fn lemma_chunk_is_prefix_of_rest(v: BufView, n: nat)
    requires
        v.wf(),
    ensures
        v.chunk(n).len() == v.chunk_len(n),
        v.chunk_len(n) <= n,
        v.chunk_len(n) <= WINDOW_SIZE,
        v.chunk_len(n) <= v.remaining(),
        v.chunk(n) == v.rest().take(v.chunk_len(n) as int),
        v.after_read_bytes(n).remaining() == v.remaining() - v.chunk_len(n),
{
    assert(v.chunk(n) =~= v.rest().take(v.chunk_len(n) as int));
}

/// A chunked read that asks for at least what remains, where what remains
/// fits the window, delivers exactly the remaining bytes. After it a
/// single-byte read reports `EndOfStream`, and a chunked read of any size
/// delivers nothing and changes nothing.
pub proof fn lemma_short_read(v: BufView, n: nat, m: nat)
    requires
        v.wf(),
        v.remaining() <= n,
        v.remaining() <= WINDOW_SIZE,
    ensures
        v.chunk(n) == v.rest(),
        v.chunk(n).len() == v.remaining(),
        v.after_read_bytes(n).remaining() == 0,
        v.after_read_bytes(n).next_byte() == Err::<u8, SealError>(SealError::EndOfStream),
        v.after_read_bytes(n).after_read_byte() == v.after_read_bytes(n),
        v.after_read_bytes(n).chunk(m) == Seq::<u8>::empty(),
        v.after_read_bytes(n).after_read_bytes(m) == v.after_read_bytes(n),
{
    let w = v.after_read_bytes(n);
    assert(w.chunk(m) =~= Seq::<u8>::empty());
    assert(w.after_read_bytes(m).window =~= w.window);
}

/// What a chunked read delivers, and where it leaves the cursor, depends on
/// the store and the cursor alone: nothing that an earlier read left in the
/// window shows in it.
pub proof fn lemma_chunk_ignores_window(a: BufView, b: BufView, n: nat)
    requires
        a.store == b.store,
        a.cursor == b.cursor,
    ensures
        a.chunk(n) == b.chunk(n),
        a.after_read_bytes(n).cursor == b.after_read_bytes(n).cursor,
{
}

/// Two chunked reads in a row deliver adjacent pieces of the store: the
/// second starts at the byte after the first one's last, and holds nothing
/// but bytes of the store from there on.
pub proof fn lemma_sequential_chunks(v: BufView, n1: nat, n2: nat)
    requires
        v.wf(),
    ensures
        ({
            let w = v.after_read_bytes(n1);
            let k1 = v.chunk_len(n1);
            let k2 = w.chunk_len(n2);
            &&& w.wf()
            &&& w.cursor == v.cursor + k1
            &&& w.chunk(n2).len() == k2
            &&& k2 <= w.remaining()
            &&& forall|i: int| 0 <= i < k2 ==> w.chunk(n2)[i] == v.store[v.cursor + k1 + i]
            &&& v.chunk(n1) + w.chunk(n2) == v.store.subrange(
                v.cursor as int,
                (v.cursor + k1 + k2) as int,
            )
        }),
{
    let w = v.after_read_bytes(n1);
    let k1 = v.chunk_len(n1);
    let k2 = w.chunk_len(n2);
    assert(v.chunk(n1) + w.chunk(n2) =~= v.store.subrange(
        v.cursor as int,
        (v.cursor + k1 + k2) as int,
    ));
}

/// After a chunked read the window starts with the chunk, and the rest of
/// it is as it was.
pub proof fn lemma_window_after_chunk(v: BufView, n: nat)
    requires
        v.wf(),
    ensures
        v.after_read_bytes(n).window.len() == WINDOW_SIZE,
        v.after_read_bytes(n).window.take(v.chunk_len(n) as int) == v.chunk(n),
        forall|i: int|
            v.chunk_len(n) <= i < WINDOW_SIZE ==> v.after_read_bytes(n).window[i] == v.window[i],
{
    assert(v.after_read_bytes(n).window.take(v.chunk_len(n) as int) =~= v.chunk(n));
}

/// What is written to a fresh, empty buffer and then read from the start to
/// the end comes back unchanged, in the order of the writes.
pub proof fn lemma_written_bytes_come_back(first: Seq<u8>, second: Seq<u8>)
    ensures
        fresh(Seq::<u8>::empty()).after_write(first).rewound().rest() == first,
        fresh(Seq::<u8>::empty()).after_write(first).after_write(second).rewound().rest() == first
            + second,
{
    let e = fresh(Seq::<u8>::empty());
    assert(e.after_write(first).rewound().rest() =~= first);
    assert(e.after_write(first).after_write(second).rewound().rest() =~= first + second);
}

/// A chunked read that asks for at least one byte delivers an empty chunk
/// exactly when nothing is left: an empty chunk marks the end of the store.
pub proof fn lemma_empty_chunk_means_end(v: BufView, n: nat)
    requires
        v.wf(),
        n > 0,
    ensures
        v.chunk(n).len() == 0 <==> v.remaining() == 0,
{
}

} // verus!
