//! The retained-output buffer of one session: a bounded FIFO byte store.
//!
//! Each session keeps the most recent output it produced, up to a fixed
//! capacity, so that a window can detach and later reattach without losing
//! the visible scrollback.  When an append would exceed the capacity, the
//! oldest bytes are evicted first, keeping the most recent data contiguous.

use vstd::prelude::*;

verus! {

/// Capacity ceiling of one session's retained output, in bytes.
pub const MAX_BUFFER_SIZE: usize = 100 * 1024;

/// The bytes a buffer retains out of the whole byte `history` appended to it:
/// the history itself while it fits, else its most recent `MAX_BUFFER_SIZE`
/// bytes.
pub open spec fn retained(history: Seq<u8>) -> Seq<u8> {
    if history.len() <= MAX_BUFFER_SIZE {
        history
    } else {
        history.skip(history.len() - MAX_BUFFER_SIZE)
    }
}

/// Retention only looks at the most recent `MAX_BUFFER_SIZE` bytes: evicting
/// early and appending more reaches the same state as appending to the whole
/// history at once.  This is what lets a buffer be trimmed chunk by chunk.
pub proof fn lemma_retained_compose(history: Seq<u8>, chunk: Seq<u8>)
    ensures
        retained(retained(history) + chunk) == retained(history + chunk),
{
    if history.len() <= MAX_BUFFER_SIZE {
        assert(retained(history) + chunk == history + chunk);
    } else {
        let dropped = history.len() - MAX_BUFFER_SIZE;
        assert(retained(history) + chunk =~= (history + chunk).skip(dropped));
        let shorter = retained(history) + chunk;
        if shorter.len() <= MAX_BUFFER_SIZE {
            assert(retained(shorter) =~= retained(history + chunk));
        } else {
            assert(retained(shorter) =~= retained(history + chunk));
        }
    }
}

/// One session's bounded retained-output store.  Created empty when the
/// session is created and destroyed with it; its length never exceeds
/// `MAX_BUFFER_SIZE`.
pub struct OutputBuffer {
    data: Vec<u8>,
}

impl OutputBuffer {
    /// The bytes currently retained, oldest first.
    pub closed spec fn view(&self) -> Seq<u8> {
        self.data@
    }

    /// The capacity ceiling, which every operation preserves.
    pub open spec fn wf(&self) -> bool {
        self@.len() <= MAX_BUFFER_SIZE
    }

    /// A new, empty buffer.
    pub fn new() -> (r: OutputBuffer)
        ensures
            r@ == Seq::<u8>::empty(),
            r.wf(),
    {
        OutputBuffer { data: Vec::new() }
    }

    /// How many bytes are retained.
    pub fn len(&self) -> (n: usize)
        ensures
            n == self@.len(),
    {
        self.data.len()
    }

    /// Appends a chunk, evicting the oldest bytes first when the capacity
    /// would be exceeded, so that exactly the most recent bytes remain.
    pub fn append(&mut self, chunk: &[u8])
        requires
            old(self).wf(),
        ensures
            final(self)@ == retained(old(self)@ + chunk@),
            final(self).wf(),
    {
        if chunk.len() >= MAX_BUFFER_SIZE {
            // The chunk alone fills the buffer: everything older is evicted.
            let start = chunk.len() - MAX_BUFFER_SIZE;
            self.data.clear();
            let mut i = start;
            while i < chunk.len()
                invariant
                    start <= i <= chunk.len(),
                    chunk@.len() >= MAX_BUFFER_SIZE,
                    start == chunk@.len() - MAX_BUFFER_SIZE,
                    self.data@ == chunk@.subrange(start as int, i as int),
                decreases chunk.len() - i,
            {
                let b = chunk[i];
                self.data.push(b);
                i = i + 1;
            }
            assert(self.data@ =~= retained(old(self)@ + chunk@));
        } else {
            let room = MAX_BUFFER_SIZE - chunk.len();
            if self.data.len() > room {
                let excess = self.data.len() - room;
                let kept = self.data.split_off(excess);
                self.data = kept;
            }
            self.data.extend_from_slice(chunk);
            assert(self.data@ =~= retained(old(self)@ + chunk@));
        }
    }

    /// A snapshot copy of the retained bytes, for reattaching a view.
    pub fn snapshot(&self) -> (r: Vec<u8>)
        ensures
            r@ == self@,
    {
        let mut out: Vec<u8> = Vec::new();
        let mut i: usize = 0;
        while i < self.data.len()
            invariant
                i <= self.data@.len(),
                out@ == self.data@.subrange(0, i as int),
            decreases self.data@.len() - i,
        {
            let b = self.data[i];
            out.push(b);
            i = i + 1;
        }
        assert(out@ =~= self@);
        out
    }

    /// The whole byte history appended through a sequence of `append` calls,
    /// in order.
    pub open spec fn appended_history(chunks: Seq<Seq<u8>>) -> Seq<u8>
        decreases chunks.len(),
    {
        if chunks.len() == 0 {
            Seq::empty()
        } else {
            Self::appended_history(chunks.drop_last()) + chunks.last()
        }
    }

    /// The buffer state reached by appending `chunks`, one call at a time,
    /// to an empty buffer, going by `append`'s contract.
    pub open spec fn state_after(chunks: Seq<Seq<u8>>) -> Seq<u8>
        decreases chunks.len(),
    {
        if chunks.len() == 0 {
            Seq::empty()
        } else {
            retained(Self::state_after(chunks.drop_last()) + chunks.last())
        }
    }

    /// However output arrives, the buffer never exceeds its capacity, and what
    /// it retains is exactly the most recent `MAX_BUFFER_SIZE` bytes of
    /// everything appended since the buffer was created, byte for byte.
    pub proof fn lemma_retains_most_recent(chunks: Seq<Seq<u8>>)
        ensures
            Self::state_after(chunks).len() <= MAX_BUFFER_SIZE,
            Self::state_after(chunks) == retained(Self::appended_history(chunks)),
        decreases chunks.len(),
    {
        if chunks.len() == 0 {
            assert(Self::state_after(chunks) =~= retained(Self::appended_history(chunks)));
        } else {
            let rest = chunks.drop_last();
            Self::lemma_retains_most_recent(rest);
            lemma_retained_compose(Self::appended_history(rest), chunks.last());
        }
    }
}

} // verus!
