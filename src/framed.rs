//! The duplex wrapper: one I/O object, one codec, a read engine and a write engine.
use vstd::prelude::*;

use crate::buf::buf_bytes;
use crate::decoder::{drops_prefix, Decoder};
use crate::encoder::Encoder;
use crate::framed_read::{outcome_of, reads_then_decodes, step_of, FramedRead2, ReadStep};
use crate::framed_write::{Drain, DrainMode, FramedWrite2};
use crate::fuse::Fuse;
use bytes::BytesMut;

verus! {

/// A stream and a sink of items over one I/O object, decoded and encoded by
/// one codec. Reads are driven as for `FramedRead`, writes as for `FramedWrite`.
pub struct Framed<T, U> {
    inner: FramedRead2<FramedWrite2<Fuse<T, U>>>,
}

impl<T, U> Framed<T, U> {
    /// The I/O object.
    pub closed spec fn io(&self) -> T {
        self.inner.inner.inner.t
    }

    /// The codec.
    pub closed spec fn codec_spec(&self) -> U {
        self.inner.inner.inner.u
    }

    /// The bytes read but not yet taken by the decoder.
    pub closed spec fn read_buffered(&self) -> Seq<u8> {
        self.inner.state.buffered()
    }

    /// Every byte handed to the read side, in order.
    pub closed spec fn received(&self) -> Seq<u8> {
        self.inner.state.received()
    }

    /// Every byte the decoder has taken, in order.
    pub closed spec fn consumed(&self) -> Seq<u8> {
        self.inner.state.consumed()
    }

    /// The high-water mark of the write side, in bytes.
    pub closed spec fn hwm(&self) -> usize {
        self.inner.inner.state.hwm()
    }

    /// The bytes encoded but not yet written.
    pub closed spec fn write_buffered(&self) -> Seq<u8> {
        self.inner.inner.state.buffered()
    }

    /// Every byte the encoder produced, in order.
    pub closed spec fn encoded(&self) -> Seq<u8> {
        self.inner.inner.state.encoded()
    }

    /// Every byte handed to the I/O object's write, in order.
    pub closed spec fn written(&self) -> Seq<u8> {
        self.inner.inner.state.written()
    }

    /// Both buffers account for every byte that passed through them.
    pub open spec fn wf(&self) -> bool {
        &&& self.received() == self.consumed() + self.read_buffered()
        &&& self.encoded() == self.written() + self.write_buffered()
    }

    /// Whether the operation `mode` has to write before it can succeed.
    pub open spec fn must_write(&self, mode: DrainMode) -> bool {
        match mode {
            DrainMode::Ready => self.write_buffered().len() > 0 && self.write_buffered().len()
                >= self.hwm(),
            DrainMode::Flush => self.write_buffered().len() > 0,
        }
    }

    /// Creates a duplex wrapper over `inner` with the given codec and two empty buffers.
    pub fn new(inner: T, codec: U) -> (r: Self)
        ensures
            r.wf(),
            r.io() == inner,
            r.codec_spec() == codec,
            r.read_buffered().len() == 0,
            r.received().len() == 0,
            r.write_buffered().len() == 0,
            r.encoded().len() == 0,
    {
        Framed { inner: FramedRead2::new(FramedWrite2::new(Fuse::new(inner, codec))) }
    }

    /// Releases the I/O object and the codec; buffered bytes are dropped.
    pub fn release(self) -> (r: (T, U))
        ensures
            r.0 == self.io(),
            r.1 == self.codec_spec(),
    {
        let fuse = self.inner.release().release();
        (fuse.t, fuse.u)
    }

    /// Consumes the wrapper, returning the I/O object.
    pub fn into_inner(self) -> (r: T)
        ensures
            r == self.io(),
    {
        self.release().0
    }

    pub fn codec(&self) -> (r: &U)
        ensures
            *r == self.codec_spec(),
    {
        &self.inner.inner.inner.u
    }

    pub fn codec_mut(&mut self) -> (r: &mut U)
        ensures
            *r == old(self).codec_spec(),
            final(self).codec_spec() == *final(r),
            final(self).io() == old(self).io(),
            final(self).read_buffered() == old(self).read_buffered(),
            final(self).received() == old(self).received(),
            final(self).consumed() == old(self).consumed(),
            final(self).hwm() == old(self).hwm(),
            final(self).write_buffered() == old(self).write_buffered(),
            final(self).encoded() == old(self).encoded(),
            final(self).written() == old(self).written(),
    {
        &mut self.inner.inner.inner.u
    }

    pub fn get_ref(&self) -> (r: &T)
        ensures
            *r == self.io(),
    {
        &self.inner.inner.inner.t
    }

    pub fn get_mut(&mut self) -> (r: &mut T)
        ensures
            *r == old(self).io(),
            final(self).io() == *final(r),
            final(self).codec_spec() == old(self).codec_spec(),
            final(self).read_buffered() == old(self).read_buffered(),
            final(self).received() == old(self).received(),
            final(self).consumed() == old(self).consumed(),
            final(self).hwm() == old(self).hwm(),
            final(self).write_buffered() == old(self).write_buffered(),
            final(self).encoded() == old(self).encoded(),
            final(self).written() == old(self).written(),
    {
        &mut self.inner.inner.inner.t
    }

    pub fn read_buffer(&self) -> (r: &BytesMut)
        ensures
            buf_bytes(*r) == self.read_buffered(),
    {
        self.inner.buffer()
    }

    /// The I/O object together with the bytes waiting to be written, so that a
    /// driver can write the latter to the former.
    pub fn io_and_pending(&mut self) -> (r: (&mut T, &[u8]))
        ensures
            *r.0 == old(self).io(),
            r.1@ == old(self).write_buffered(),
            final(self).io() == *final(r.0),
            final(self).codec_spec() == old(self).codec_spec(),
            final(self).read_buffered() == old(self).read_buffered(),
            final(self).received() == old(self).received(),
            final(self).consumed() == old(self).consumed(),
            final(self).hwm() == old(self).hwm(),
            final(self).write_buffered() == old(self).write_buffered(),
            final(self).encoded() == old(self).encoded(),
            final(self).written() == old(self).written(),
    {
        let inner = &mut self.inner.inner;
        (&mut inner.inner.t, inner.state.pending())
    }

    /// The bytes waiting to be written, front first.
    pub fn pending(&self) -> (r: &[u8])
        ensures
            r@ == self.write_buffered(),
    {
        self.inner.inner.state.pending()
    }

    /// Whether the operation `mode` must write (`Write`) or can succeed (`Done`).
    pub fn drain_step(&self, mode: DrainMode) -> (r: Drain)
        ensures
            r is Write <==> self.must_write(mode),
            r is Done <==> !self.must_write(mode),
    {
        self.inner.inner.state.drain_step(mode)
    }

    /// The I/O object's write accepted the first `n` pending bytes.
    pub fn wrote(&mut self, n: usize, mode: DrainMode) -> (r: Drain)
        requires
            old(self).wf(),
            n <= old(self).write_buffered().len(),
        ensures
            final(self).wf(),
            final(self).io() == old(self).io(),
            final(self).codec_spec() == old(self).codec_spec(),
            final(self).read_buffered() == old(self).read_buffered(),
            final(self).received() == old(self).received(),
            final(self).hwm() == old(self).hwm(),
            final(self).encoded() == old(self).encoded(),
            n == 0 && old(self).write_buffered().len() > 0 ==> {
                &&& r is UnexpectedEof
                &&& final(self).write_buffered() == old(self).write_buffered()
                &&& final(self).written() == old(self).written()
            },
            n > 0 || old(self).write_buffered().len() == 0 ==> {
                &&& final(self).write_buffered() == old(self).write_buffered().subrange(
                    n as int,
                    old(self).write_buffered().len() as int,
                )
                &&& final(self).written() == old(self).written()
                    + old(self).write_buffered().subrange(0, n as int)
                &&& (r is Write <==> final(self).must_write(mode))
                &&& (r is Done <==> !final(self).must_write(mode))
            },
    {
        self.inner.inner.state.wrote(n, mode)
    }
}

impl<T, U: Decoder> Framed<T, U> {
    /// First part of a read step: decode from what is already buffered.
    pub fn poll_buffered(&mut self) -> (r: ReadStep<U::Item, U::Error>)
        requires
            old(self).wf(),
        ensures
            final(self).wf(),
            final(self).io() == old(self).io(),
            final(self).received() == old(self).received(),
            drops_prefix(old(self).read_buffered(), final(self).read_buffered()),
            U::decodes(old(self).read_buffered(), final(self).read_buffered(), outcome_of(r)),
            r == step_of(outcome_of(r), false, final(self).read_buffered().len() == 0),
            final(self).write_buffered() == old(self).write_buffered(),
            final(self).encoded() == old(self).encoded(),
            final(self).written() == old(self).written(),
            final(self).hwm() == old(self).hwm(),
            r is Item || r is Failed || r is NeedBytes,
    {
        self.inner.state.poll_buffered(&mut self.inner.inner.inner.u)
    }

    /// Second part of a read step: `data` was read from the I/O object (empty
    /// at the end of input).
    pub fn on_read(&mut self, data: &[u8]) -> (r: ReadStep<U::Item, U::Error>)
        requires
            old(self).wf(),
            old(self).read_buffered().len() + data@.len() <= isize::MAX,
        ensures
            final(self).wf(),
            final(self).io() == old(self).io(),
            final(self).received() == old(self).received() + data@,
            final(self).write_buffered() == old(self).write_buffered(),
            final(self).encoded() == old(self).encoded(),
            final(self).written() == old(self).written(),
            final(self).hwm() == old(self).hwm(),
            reads_then_decodes::<U>(
                old(self).read_buffered() + data@,
                data@.len() == 0,
                final(self).read_buffered(),
                r,
            ),
            r is NeedBytes ==> data@.len() > 0,
            data@.len() > 0 ==> !(r is End) && !(r is UnexpectedEof),
            data@.len() == 0 && !(r is Item) && !(r is Failed) ==> {
                &&& (r is End <==> final(self).read_buffered().len() == 0)
                &&& (r is UnexpectedEof <==> final(self).read_buffered().len() > 0)
            },
    {
        self.inner.state.on_read(&mut self.inner.inner.inner.u, data)
    }
}

impl<T, U: Encoder> Framed<T, U> {
    /// Encodes one item at the back of the write buffer; the I/O object is not touched.
    pub fn start_send(&mut self, item: U::Item) -> (r: Result<(), U::Error>)
        requires
            old(self).wf(),
        ensures
            final(self).wf(),
            final(self).io() == old(self).io(),
            final(self).read_buffered() == old(self).read_buffered(),
            final(self).received() == old(self).received(),
            final(self).hwm() == old(self).hwm(),
            final(self).written() == old(self).written(),
            old(self).write_buffered().is_prefix_of(final(self).write_buffered()),
            U::encodes(item, old(self).write_buffered(), final(self).write_buffered(), r),
            final(self).encoded() == old(self).encoded() + final(self).write_buffered().subrange(
                old(self).write_buffered().len() as int,
                final(self).write_buffered().len() as int,
            ),
    {
        self.inner.inner.state.start_send(&mut self.inner.inner.inner.u, item)
    }
}

} // verus!
