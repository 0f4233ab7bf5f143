//! A bounded byte queue between the endpoints and the command layer.
use vstd::prelude::*;

verus! {

/// Bytes written and not yet read, at most `capacity` of them.
pub struct Buffer {
    data: Vec<u8>,
    capacity: usize,
}

impl Buffer {
    /// The bytes waiting to be read, oldest first.
    pub closed spec fn pending(&self) -> Seq<u8> {
        self.data@
    }

    pub closed spec fn spec_capacity(&self) -> nat {
        self.capacity as nat
    }

    pub open spec fn wf(&self) -> bool {
        self.pending().len() <= self.spec_capacity()
    }

    /// An empty buffer that holds up to `capacity` bytes.
    pub fn new(capacity: usize) -> (r: Self)
        ensures
            r.wf(),
            r.pending() == Seq::<u8>::empty(),
            r.spec_capacity() == capacity,
    {
        Buffer { data: Vec::new(), capacity }
    }

    pub fn capacity(&self) -> (r: usize)
        ensures
            r == self.spec_capacity(),
    {
        self.capacity
    }

    /// Number of bytes waiting to be read.
    pub fn available_read(&self) -> (r: usize)
        ensures
            r == self.pending().len(),
    {
        self.data.len()
    }

    /// Room left for writing.
    pub fn available_write(&self) -> (r: usize)
        requires
            self.wf(),
        ensures
            r == self.spec_capacity() - self.pending().len(),
    {
        self.capacity - self.data.len()
    }

    /// Drops every pending byte.
    pub fn clean(&mut self)
        ensures
            final(self).pending() == Seq::<u8>::empty(),
            final(self).spec_capacity() == old(self).spec_capacity(),
    {
        self.data = Vec::new();
    }

    /// Appends as much of `src` as fits; returns how many bytes were taken.
    pub fn write(&mut self, src: &[u8]) -> (r: usize)
        requires
            old(self).wf(),
        ensures
            final(self).wf(),
            final(self).spec_capacity() == old(self).spec_capacity(),
            r == if src@.len() <= old(self).spec_capacity() - old(self).pending().len() {
                src@.len() as int
            } else {
                old(self).spec_capacity() - old(self).pending().len()
            },
            final(self).pending() == old(self).pending() + src@.subrange(0, r as int),
    {
        let room = self.capacity - self.data.len();
        let n = if src.len() <= room { src.len() } else { room };
        let mut i: usize = 0;
        while i < n
            invariant
                n <= src@.len(),
                self.capacity == old(self).capacity,
                old(self).data@.len() + n <= self.capacity,
                i <= n,
                self.data@ == old(self).data@ + src@.subrange(0, i as int),
            decreases n - i,
        {
            self.data.push(src[i]);
            i += 1;
            assert(src@.subrange(0, i as int) =~= src@.subrange(0, i - 1).push(src@[i - 1]));
            assert(self.data@ =~= old(self).data@ + src@.subrange(0, i as int));
        }
        n
    }

    /// Takes up to `max` bytes from the front.
    pub fn read(&mut self, max: usize) -> (r: Vec<u8>)
        requires
            old(self).wf(),
        ensures
            final(self).wf(),
            final(self).spec_capacity() == old(self).spec_capacity(),
            r@.len() == if max <= old(self).pending().len() {
                max as int
            } else {
                old(self).pending().len() as int
            },
            r@ == old(self).pending().subrange(0, r@.len() as int),
            final(self).pending() == old(self).pending().subrange(
                r@.len() as int,
                old(self).pending().len() as int,
            ),
    {
        let len = self.data.len();
        let n = if max <= len { max } else { len };
        let mut out: Vec<u8> = Vec::new();
        let mut rest: Vec<u8> = Vec::new();
        let mut i: usize = 0;
        while i < len
            invariant
                len == self.data@.len(),
                n <= len,
                i <= len,
                self.data@ == old(self).data@,
                out@ == self.data@.subrange(0, if i <= n { i as int } else { n as int }),
                rest@ == if i <= n { Seq::<u8>::empty() } else { self.data@.subrange(n as int, i as int) },
            decreases len - i,
        {
            if i < n {
                out.push(self.data[i]);
                assert(self.data@.subrange(0, i + 1) =~= self.data@.subrange(0, i as int).push(self.data@[i as int]));
            } else {
                rest.push(self.data[i]);
                assert(self.data@.subrange(n as int, i + 1) =~= self.data@.subrange(n as int, i as int).push(self.data@[i as int]));
            }
            i += 1;
        }
        assert(n == len ==> rest@ =~= self.data@.subrange(n as int, len as int));
        self.data = rest;
        out
    }
}

} // verus!
