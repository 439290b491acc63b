//! Byte accounting for duplex streams.
//!
//! A tracked stream wraps a raw duplex byte stream and counts the bytes
//! passing in each direction.  The wrapping is transparent: the bytes seen
//! by either side are exactly those of the underlying stream; only the
//! counters change.  Counters are monotonically non-decreasing and are
//! never reset during a stream's lifetime.

use vstd::prelude::*;

verus! {

/// A snapshot of the read/write byte counters of one tracked stream.
#[derive(Clone, Copy, Debug, PartialEq, Eq, Structural)]
pub struct BytesRWTrackerHandle {
    /// Total bytes read through the tracked stream so far.
    pub read: u64,
    /// Total bytes written through the tracked stream so far.
    pub written: u64,
}

impl BytesRWTrackerHandle {
    /// A fresh handle with both counters at zero.
    pub fn zero() -> (h: BytesRWTrackerHandle)
        ensures
            h == (BytesRWTrackerHandle { read: 0, written: 0 }),
    {
        BytesRWTrackerHandle { read: 0, written: 0 }
    }
}

/// A model of a raw duplex byte stream: a sequence of incoming bytes, of
/// which a prefix has already been consumed, and the bytes written out so
/// far.
#[derive(Clone, Debug)]
pub struct ByteStream {
    /// The bytes the peer sends, in order.
    pub incoming: Vec<u8>,
    /// How many incoming bytes have been consumed already.
    pub read_pos: usize,
    /// The bytes written to the peer so far, in order.
    pub outgoing: Vec<u8>,
}

impl ByteStream {
    /// When the consumed prefix lies within the incoming bytes.
    pub open spec fn wf(&self) -> bool {
        self.read_pos <= self.incoming@.len()
    }

    /// A fresh stream over the given incoming bytes, nothing consumed and
    /// nothing written yet.
    pub fn new(incoming: Vec<u8>) -> (s: ByteStream)
        ensures
            s.wf(),
            s.incoming@ == incoming@,
            s.read_pos == 0,
            s.outgoing@ == Seq::<u8>::empty(),
    {
        let s = ByteStream { incoming, read_pos: 0, outgoing: Vec::new() };
        proof {
            assert(s.outgoing@ =~= Seq::<u8>::empty());
        }
        s
    }

    /// Read up to `n` bytes; fewer arrive only at end of stream, and an
    /// empty result at `n > 0` signals end of stream.
    pub fn read(&mut self, n: usize) -> (data: Vec<u8>)
        requires
            old(self).wf(),
        ensures
            final(self).wf(),
            data@.len() == min_spec(n as int, old(self).incoming@.len() - old(self).read_pos),
            data@ == old(self).incoming@.subrange(
                old(self).read_pos as int,
                old(self).read_pos + data@.len(),
            ),
            final(self).read_pos == old(self).read_pos + data@.len(),
            final(self).incoming@ == old(self).incoming@,
            final(self).outgoing@ == old(self).outgoing@,
    {
        let remaining = self.incoming.len() - self.read_pos;
        let k = if n < remaining {
            n
        } else {
            remaining
        };
        let mut data: Vec<u8> = Vec::new();
        let mut j: usize = 0;
        while j < k
            invariant
                old(self).wf(),
                *self == *old(self),
                self.incoming@.len() <= usize::MAX,
                j <= k,
                k == min_spec(n as int, self.incoming@.len() - self.read_pos),
                data@ == self.incoming@.subrange(self.read_pos as int, self.read_pos + j),
            decreases k - j,
        {
            data.push(self.incoming[self.read_pos + j]);
            j += 1;
            proof {
                assert(data@ =~= self.incoming@.subrange(self.read_pos as int, self.read_pos + j));
            }
        }
        self.read_pos = self.read_pos + k;
        data
    }

    /// Write all of `data`; the number of bytes written is returned.
    pub fn write(&mut self, data: &Vec<u8>) -> (n: usize)
        ensures
            n == data@.len(),
            final(self).outgoing@ == old(self).outgoing@ + data@,
            final(self).incoming@ == old(self).incoming@,
            final(self).read_pos == old(self).read_pos,
    {
        let mut j: usize = 0;
        while j < data.len()
            invariant
                j <= data@.len(),
                self.outgoing@ == old(self).outgoing@ + data@.subrange(0, j as int),
                self.incoming@ == old(self).incoming@,
                self.read_pos == old(self).read_pos,
            decreases data@.len() - j,
        {
            self.outgoing.push(data[j]);
            j += 1;
            proof {
                assert(self.outgoing@ =~= old(self).outgoing@ + data@.subrange(0, j as int));
            }
        }
        proof {
            assert(data@.subrange(0, data@.len() as int) =~= data@);
        }
        data.len()
    }
}

/// The smaller of two values.
pub open spec fn min_spec(a: int, b: int) -> int {
    if a < b {
        a
    } else {
        b
    }
}

/// A duplex stream wrapped with byte accounting: every read and write is
/// attributed to the same pair of counters for the stream's lifetime.
/// The wrapping is transparent — the bytes observed on either side are
/// exactly those of the underlying stream.
#[derive(Clone, Debug)]
pub struct TrackedStream {
    /// The wrapped stream.
    pub inner: ByteStream,
    /// The counters of bytes read and written through this wrapper.
    pub handle: BytesRWTrackerHandle,
}

impl TrackedStream {
    /// When the wrapped stream is well formed.
    pub open spec fn wf(&self) -> bool {
        self.inner.wf()
    }

    /// Wrap a stream, with both counters starting at zero.
    pub fn new(inner: ByteStream) -> (t: TrackedStream)
        ensures
            t.inner == inner,
            t.handle == (BytesRWTrackerHandle { read: 0, written: 0 }),
    {
        TrackedStream { inner, handle: BytesRWTrackerHandle::zero() }
    }

    /// The current counter values.
    pub fn handle(&self) -> (h: BytesRWTrackerHandle)
        ensures
            h == self.handle,
    {
        self.handle
    }

    /// Read up to `n` bytes: the same bytes the underlying stream yields,
    /// with the read counter advanced by exactly the bytes transferred.
    /// Counters never decrease.
    pub fn read(&mut self, n: usize) -> (data: Vec<u8>)
        requires
            old(self).wf(),
            old(self).handle.read + n <= u64::MAX,
        ensures
            final(self).wf(),
            data@.len() == min_spec(
                n as int,
                old(self).inner.incoming@.len() - old(self).inner.read_pos,
            ),
            data@ == old(self).inner.incoming@.subrange(
                old(self).inner.read_pos as int,
                old(self).inner.read_pos + data@.len(),
            ),
            final(self).inner.read_pos == old(self).inner.read_pos + data@.len(),
            final(self).inner.incoming@ == old(self).inner.incoming@,
            final(self).inner.outgoing@ == old(self).inner.outgoing@,
            final(self).handle.read == old(self).handle.read + data@.len(),
            final(self).handle.written == old(self).handle.written,
            final(self).handle.read >= old(self).handle.read,
    {
        let data = self.inner.read(n);
        self.handle.read = self.handle.read + (data.len() as u64);
        data
    }

    /// Write all of `data`: the underlying stream receives exactly these
    /// bytes, with the write counter advanced by exactly the bytes
    /// transferred.  Counters never decrease.
    pub fn write(&mut self, data: &Vec<u8>) -> (n: usize)
        requires
            old(self).handle.written + data@.len() <= u64::MAX,
        ensures
            n == data@.len(),
            final(self).inner.outgoing@ == old(self).inner.outgoing@ + data@,
            final(self).inner.incoming@ == old(self).inner.incoming@,
            final(self).inner.read_pos == old(self).inner.read_pos,
            final(self).handle.written == old(self).handle.written + data@.len(),
            final(self).handle.read == old(self).handle.read,
            final(self).handle.written >= old(self).handle.written,
    {
        let n = self.inner.write(data);
        self.handle.written = self.handle.written + (n as u64);
        n
    }
}

/// The layer that equips a connection's stream with byte accounting and
/// publishes the counter handle into the per-call context, so downstream
/// logic can report transfer statistics.
#[derive(Clone, Copy, Debug)]
pub struct BytesTrackerLayer;

impl BytesTrackerLayer {
    /// A byte-tracking layer.
    pub fn new() -> (l: BytesTrackerLayer)
        ensures
            l == BytesTrackerLayer,
    {
        BytesTrackerLayer
    }

    /// Wrap `stream` for accounting and publish the (fresh) handle into
    /// `ctx`.
    pub fn wrap<State>(
        &self,
        stream: ByteStream,
        ctx: &mut crate::context::Context<State>,
    ) -> (t: TrackedStream)
        ensures
            t.inner == stream,
            t.handle == (BytesRWTrackerHandle { read: 0, written: 0 }),
            *final(ctx) == (crate::context::Context { tracker: Some(t.handle), ..*old(ctx) }),
    {
        let t = TrackedStream::new(stream);
        ctx.insert_tracker(t.handle());
        t
    }
}

} // verus!
