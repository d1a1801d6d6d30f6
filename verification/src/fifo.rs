use vstd::prelude::*;
use vstd::slice::slice_subrange;

verus! {

/// A bounded FIFO of bytes: the buffer each connection half owns between
/// the engine driver and the handle.
pub struct ByteFifo {
    buf: Vec<u8>,
    cap: usize,
}

impl ByteFifo {
    /// The bytes waiting in the buffer, oldest first.
    pub closed spec fn contents(self) -> Seq<u8> {
        self.buf@
    }

    /// The most bytes the buffer may hold.
    pub closed spec fn capacity(self) -> int {
        self.cap as int
    }

    pub open spec fn wf(self) -> bool {
        &&& self.contents().len() <= self.capacity()
        &&& self.capacity() >= 1
    }

    pub open spec fn spec_is_empty(self) -> bool {
        self.contents().len() == 0
    }

    pub open spec fn spec_is_full(self) -> bool {
        self.contents().len() == self.capacity()
    }

    /// An empty buffer of the given capacity.
    pub fn new(cap: usize) -> (r: ByteFifo)
        requires
            cap >= 1,
        ensures
            r.wf(),
            r.capacity() == cap,
            r.contents().len() == 0,
    {
        ByteFifo { buf: Vec::new(), cap }
    }

    pub fn len(&self) -> (r: usize)
        ensures
            r == self.contents().len(),
    {
        self.buf.len()
    }

    pub fn is_empty(&self) -> (r: bool)
        ensures
            r == self.spec_is_empty(),
    {
        self.buf.len() == 0
    }

    pub fn is_full(&self) -> (r: bool)
        ensures
            r == self.spec_is_full(),
    {
        self.buf.len() == self.cap
    }

    /// How many more bytes fit.
    pub fn free_space(&self) -> (r: usize)
        requires
            self.wf(),
        ensures
            r == self.capacity() - self.contents().len(),
    {
        self.cap - self.buf.len()
    }

    /// Appends as much of `data` as fits; returns how many bytes entered.
    /// What enters is always the first `n` bytes, so per-flow byte order is
    /// kept.
    pub fn enqueue_slice(&mut self, data: &[u8]) -> (n: usize)
        requires
            old(self).wf(),
        ensures
            final(self).wf(),
            final(self).capacity() == old(self).capacity(),
            n == vstd::math::min(data@.len() as int, old(self).capacity() - old(
                self,
            ).contents().len()),
            final(self).contents() == old(self).contents() + data@.take(n as int),
    {
        let free: usize = self.cap - self.buf.len();
        let n: usize = if data.len() < free {
            data.len()
        } else {
            free
        };
        self.buf.extend_from_slice(slice_subrange(data, 0, n));
        n
    }

    /// Removes and returns the oldest `min(max, len)` bytes.
    pub fn dequeue(&mut self, max: usize) -> (out: Vec<u8>)
        requires
            old(self).wf(),
        ensures
            final(self).wf(),
            final(self).capacity() == old(self).capacity(),
            out@ == old(self).contents().take(
                vstd::math::min(max as int, old(self).contents().len() as int),
            ),
            final(self).contents() == old(self).contents().skip(
                vstd::math::min(max as int, old(self).contents().len() as int),
            ),
    {
        let m: usize = if max < self.buf.len() {
            max
        } else {
            self.buf.len()
        };
        let mut tail = self.buf.split_off(m);
        core::mem::swap(&mut self.buf, &mut tail);
        proof {
            assert(self.buf@ =~= old(self).contents().skip(m as int));
            assert(tail@ =~= old(self).contents().take(m as int));
        }
        tail
    }
}

} // verus!
