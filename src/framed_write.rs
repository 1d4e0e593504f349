//! The write engine: items in, bytes out, with high-water-mark backpressure.
use vstd::prelude::*;

use crate::buf::{buf_advance, buf_bytes, buf_slice, buf_with_capacity};
use crate::decoder::{drops_prefix, Decoder};
use crate::encoder::Encoder;
use crate::fuse::Fuse;
use bytes::BytesMut;

verus! {

/// 2^17 bytes, slightly over 60% of a common default TCP send buffer.
pub const DEFAULT_SEND_HIGH_WATER_MARK: usize = 131072;

/// Initial capacity of the write buffer.
pub const WRITE_CAPACITY: usize = 1028 * 8;

/// Which operation drains the write buffer.
#[derive(Clone, Copy, Debug, PartialEq, Eq, Structural)]
pub enum DrainMode {
    /// Getting ready to accept an item: write while the buffer is at or above
    /// the high-water mark.
    Ready,
    /// Flushing (or closing): write until the buffer is empty.
    Flush,
}

/// What the write engine decided at one step of draining.
#[derive(Clone, Copy, Debug, PartialEq, Eq, Structural)]
pub enum Drain {
    /// Nothing more to write: the operation succeeds (for a flush, after the
    /// I/O object itself is flushed; for a close, after it is closed).
    Done,
    /// Write `pending()` to the I/O object and report the count with `wrote`.
    Write,
    /// The I/O object accepted no byte although bytes were pending.
    UnexpectedEof,
}

/// The write buffer of an engine, its high-water mark, and the record of
/// what passed through it.
pub struct WriteState {
    high_water_mark: usize,
    buffer: BytesMut,
    encoded: Ghost<Seq<u8>>,
    written: Ghost<Seq<u8>>,
}

impl WriteState {
    /// The high-water mark, in bytes.
    pub closed spec fn hwm(&self) -> usize {
        self.high_water_mark
    }

    /// The bytes encoded but not yet written.
    pub closed spec fn buffered(&self) -> Seq<u8> {
        buf_bytes(self.buffer)
    }

    /// Every byte the encoder produced, in order.
    pub closed spec fn encoded(&self) -> Seq<u8> {
        self.encoded@
    }

    /// Every byte handed to the I/O object's write, in order.
    pub closed spec fn written(&self) -> Seq<u8> {
        self.written@
    }

    /// Each byte encoded was either written once, in order, or is still buffered.
    pub open spec fn wf(&self) -> bool {
        self.encoded() == self.written() + self.buffered()
    }

    /// Whether the operation `mode` has to write before it can succeed.
    pub open spec fn must_write(&self, mode: DrainMode) -> bool {
        match mode {
            DrainMode::Ready => self.buffered().len() > 0 && self.buffered().len() >= self.hwm(),
            DrainMode::Flush => self.buffered().len() > 0,
        }
    }

    pub fn new() -> (r: WriteState)
        ensures
            r.wf(),
            r.hwm() == DEFAULT_SEND_HIGH_WATER_MARK,
            r.buffered().len() == 0,
            r.encoded().len() == 0,
    {
        let r = WriteState {
            high_water_mark: DEFAULT_SEND_HIGH_WATER_MARK,
            buffer: buf_with_capacity(WRITE_CAPACITY),
            encoded: Ghost(Seq::empty()),
            written: Ghost(Seq::empty()),
        };
        assert(r.encoded() == r.written() + r.buffered());
        r
    }

    pub fn high_water_mark(&self) -> (r: usize)
        ensures
            r == self.hwm(),
    {
        self.high_water_mark
    }

    pub fn set_high_water_mark(&mut self, hwm: usize)
        ensures
            final(self).hwm() == hwm,
            final(self).buffered() == old(self).buffered(),
            final(self).encoded() == old(self).encoded(),
            final(self).written() == old(self).written(),
    {
        self.high_water_mark = hwm;
    }

    /// The bytes waiting to be written, front first.
    pub fn pending(&self) -> (r: &[u8])
        ensures
            r@ == self.buffered(),
    {
        buf_slice(&self.buffer)
    }

    /// Whether the operation `mode` must write (`Write`) or can succeed (`Done`).
    pub fn drain_step(&self, mode: DrainMode) -> (r: Drain)
        ensures
            r is Write <==> self.must_write(mode),
            r is Done <==> !self.must_write(mode),
    {
        let len = buf_slice(&self.buffer).len();
        match mode {
            DrainMode::Ready => {
                if len > 0 && len >= self.high_water_mark {
                    Drain::Write
                } else {
                    Drain::Done
                }
            },
            DrainMode::Flush => {
                if len > 0 {
                    Drain::Write
                } else {
                    Drain::Done
                }
            },
        }
    }

    /// The I/O object's write accepted the first `n` pending bytes. A write of
    /// no byte while bytes are pending is an unexpected end; otherwise those
    /// bytes leave the buffer and the next step of `mode` is decided.
    pub fn wrote(&mut self, n: usize, mode: DrainMode) -> (r: Drain)
        requires
            old(self).wf(),
            n <= old(self).buffered().len(),
        ensures
            final(self).wf(),
            final(self).hwm() == old(self).hwm(),
            final(self).encoded() == old(self).encoded(),
            n == 0 && old(self).buffered().len() > 0 ==> {
                &&& r is UnexpectedEof
                &&& final(self).buffered() == old(self).buffered()
                &&& final(self).written() == old(self).written()
            },
            n > 0 || old(self).buffered().len() == 0 ==> {
                &&& final(self).buffered() == old(self).buffered().subrange(
                    n as int,
                    old(self).buffered().len() as int,
                )
                &&& final(self).written() == old(self).written() + old(self).buffered().subrange(
                    0,
                    n as int,
                )
                &&& (r is Write <==> final(self).must_write(mode))
                &&& (r is Done <==> !final(self).must_write(mode))
            },
    {
        let len = buf_slice(&self.buffer).len();
        if n == 0 && len > 0 {
            return Drain::UnexpectedEof;
        }
        let ghost before = buf_bytes(self.buffer);
        buf_advance(&mut self.buffer, n);
        proof {
            assert(before =~= before.subrange(0, n as int) + buf_bytes(self.buffer));
            assert(self.encoded@ =~= (self.written@ + before.subrange(0, n as int)) + buf_bytes(
                self.buffer,
            ));
        }
        self.written = Ghost(self.written@ + before.subrange(0, n as int));
        self.drain_step(mode)
    }

    /// Encodes one item at the back of the buffer; the I/O object is not touched.
    pub fn start_send<E: Encoder>(&mut self, encoder: &mut E, item: E::Item) -> (r: Result<
        (),
        E::Error,
    >)
        requires
            old(self).wf(),
        ensures
            final(self).wf(),
            final(self).hwm() == old(self).hwm(),
            final(self).written() == old(self).written(),
            old(self).buffered().is_prefix_of(final(self).buffered()),
            E::encodes(item, old(self).buffered(), final(self).buffered(), r),
            final(self).encoded() == old(self).encoded() + final(self).buffered().subrange(
                old(self).buffered().len() as int,
                final(self).buffered().len() as int,
            ),
    {
        let ghost before = buf_bytes(self.buffer);
        let r = encoder.encode(item, &mut self.buffer);
        let ghost after = buf_bytes(self.buffer);
        proof {
            assert(after == before + after.subrange(before.len() as int, after.len() as int));
            assert(self.encoded@ + after.subrange(before.len() as int, after.len() as int)
                == self.written@ + after);
        }
        self.encoded = Ghost(self.encoded@ + after.subrange(before.len() as int, after.len() as int));
        r
    }
}

/// A write buffer over an inner value.
pub struct FramedWrite2<T> {
    pub inner: T,
    pub state: WriteState,
}

impl<T> FramedWrite2<T> {
    /// The inner value.
    pub open spec fn inner_spec(&self) -> T {
        self.inner
    }

    /// The write buffer and its record.
    pub open spec fn state_spec(&self) -> WriteState {
        self.state
    }

    pub fn new(inner: T) -> (r: FramedWrite2<T>)
        ensures
            r.inner_spec() == inner,
            r.state_spec().wf(),
            r.state_spec().hwm() == DEFAULT_SEND_HIGH_WATER_MARK,
            r.state_spec().buffered().len() == 0,
            r.state_spec().encoded().len() == 0,
    {
        FramedWrite2 { inner, state: WriteState::new() }
    }

    pub fn release(self) -> (r: T)
        ensures
            r == self.inner_spec(),
    {
        self.inner
    }
}

impl<T: Decoder> Decoder for FramedWrite2<T> {
    type Item = T::Item;
    type Error = T::Error;

    open spec fn decodes(before: Seq<u8>, after: Seq<u8>, res: Result<Option<Self::Item>, Self::Error>) -> bool {
        T::decodes(before, after, res)
    }

    fn decode(&mut self, src: &mut BytesMut) -> (r: Result<Option<Self::Item>, Self::Error>) {
        self.inner.decode(src)
    }

    fn decode_eof(&mut self, src: &mut BytesMut) -> (r: Result<Option<Self::Item>, Self::Error>) {
        self.inner.decode_eof(src)
    }
}

/// A sink of items encoded into the bytes of an I/O object.
///
/// A driver gets ready with `drain_step(DrainMode::Ready)`, hands an item to
/// `start_send`, and flushes with `drain_step(DrainMode::Flush)`; on `Write` it
/// writes `pending()` to `get_mut()` and reports the count with `wrote`.
pub struct FramedWrite<T, E> {
    inner: FramedWrite2<Fuse<T, E>>,
}

impl<T, E> FramedWrite<T, E> {
    /// The I/O object.
    pub closed spec fn io(&self) -> T {
        self.inner.inner.t
    }

    /// The encoder.
    pub closed spec fn encoder_spec(&self) -> E {
        self.inner.inner.u
    }

    /// The high-water mark, in bytes.
    pub closed spec fn hwm(&self) -> usize {
        self.inner.state.hwm()
    }

    /// The bytes encoded but not yet written.
    pub closed spec fn buffered(&self) -> Seq<u8> {
        self.inner.state.buffered()
    }

    /// Every byte the encoder produced, in order.
    pub closed spec fn encoded(&self) -> Seq<u8> {
        self.inner.state.encoded()
    }

    /// Every byte handed to the I/O object's write, in order.
    pub closed spec fn written(&self) -> Seq<u8> {
        self.inner.state.written()
    }

    /// Each byte encoded was either written once, in order, or is still buffered.
    pub open spec fn wf(&self) -> bool {
        self.encoded() == self.written() + self.buffered()
    }

    /// Whether the operation `mode` has to write before it can succeed.
    pub open spec fn must_write(&self, mode: DrainMode) -> bool {
        match mode {
            DrainMode::Ready => self.buffered().len() > 0 && self.buffered().len() >= self.hwm(),
            DrainMode::Flush => self.buffered().len() > 0,
        }
    }

    /// Creates a write engine over `inner` with the given encoder, an empty
    /// buffer and the default high-water mark.
    pub fn new(inner: T, encoder: E) -> (r: Self)
        ensures
            r.wf(),
            r.io() == inner,
            r.encoder_spec() == encoder,
            r.hwm() == DEFAULT_SEND_HIGH_WATER_MARK,
            r.buffered().len() == 0,
            r.encoded().len() == 0,
    {
        FramedWrite { inner: FramedWrite2::new(Fuse::new(inner, encoder)) }
    }

    /// The high-water mark, in bytes.
    pub fn send_high_water_mark(&self) -> (r: usize)
        ensures
            r == self.hwm(),
    {
        self.inner.state.high_water_mark()
    }

    /// Sets the high-water mark, in bytes.
    pub fn set_send_high_water_mark(&mut self, hwm: usize)
        ensures
            final(self).hwm() == hwm,
            final(self).io() == old(self).io(),
            final(self).encoder_spec() == old(self).encoder_spec(),
            final(self).buffered() == old(self).buffered(),
            final(self).encoded() == old(self).encoded(),
            final(self).written() == old(self).written(),
    {
        self.inner.state.set_high_water_mark(hwm)
    }

    /// Releases the I/O object and the encoder; unwritten bytes are dropped.
    pub fn release(self) -> (r: (T, E))
        ensures
            r.0 == self.io(),
            r.1 == self.encoder_spec(),
    {
        let fuse = self.inner.release();
        (fuse.t, fuse.u)
    }

    /// Consumes the engine, returning the I/O object.
    pub fn into_inner(self) -> (r: T)
        ensures
            r == self.io(),
    {
        self.release().0
    }

    pub fn encoder(&self) -> (r: &E)
        ensures
            *r == self.encoder_spec(),
    {
        &self.inner.inner.u
    }

    pub fn encoder_mut(&mut self) -> (r: &mut E)
        ensures
            *r == old(self).encoder_spec(),
            final(self).encoder_spec() == *final(r),
            final(self).io() == old(self).io(),
            final(self).hwm() == old(self).hwm(),
            final(self).buffered() == old(self).buffered(),
            final(self).encoded() == old(self).encoded(),
            final(self).written() == old(self).written(),
    {
        &mut self.inner.inner.u
    }

    pub fn get_ref(&self) -> (r: &T)
        ensures
            *r == self.io(),
    {
        &self.inner.inner.t
    }

    pub fn get_mut(&mut self) -> (r: &mut T)
        ensures
            *r == old(self).io(),
            final(self).io() == *final(r),
            final(self).encoder_spec() == old(self).encoder_spec(),
            final(self).hwm() == old(self).hwm(),
            final(self).buffered() == old(self).buffered(),
            final(self).encoded() == old(self).encoded(),
            final(self).written() == old(self).written(),
    {
        &mut self.inner.inner.t
    }

    /// The I/O object together with the bytes waiting to be written, so that a
    /// driver can write the latter to the former.
    pub fn io_and_pending(&mut self) -> (r: (&mut T, &[u8]))
        ensures
            *r.0 == old(self).io(),
            r.1@ == old(self).buffered(),
            final(self).io() == *final(r.0),
            final(self).encoder_spec() == old(self).encoder_spec(),
            final(self).hwm() == old(self).hwm(),
            final(self).buffered() == old(self).buffered(),
            final(self).encoded() == old(self).encoded(),
            final(self).written() == old(self).written(),
    {
        let inner = &mut self.inner;
        (&mut inner.inner.t, inner.state.pending())
    }

    /// The bytes waiting to be written, front first.
    pub fn pending(&self) -> (r: &[u8])
        ensures
            r@ == self.buffered(),
    {
        self.inner.state.pending()
    }

    /// Whether the operation `mode` must write (`Write`) or can succeed (`Done`).
    pub fn drain_step(&self, mode: DrainMode) -> (r: Drain)
        ensures
            r is Write <==> self.must_write(mode),
            r is Done <==> !self.must_write(mode),
    {
        self.inner.state.drain_step(mode)
    }

    /// The I/O object's write accepted the first `n` pending bytes.
    pub fn wrote(&mut self, n: usize, mode: DrainMode) -> (r: Drain)
        requires
            old(self).wf(),
            n <= old(self).buffered().len(),
        ensures
            final(self).wf(),
            final(self).io() == old(self).io(),
            final(self).encoder_spec() == old(self).encoder_spec(),
            final(self).hwm() == old(self).hwm(),
            final(self).encoded() == old(self).encoded(),
            n == 0 && old(self).buffered().len() > 0 ==> {
                &&& r is UnexpectedEof
                &&& final(self).buffered() == old(self).buffered()
                &&& final(self).written() == old(self).written()
            },
            n > 0 || old(self).buffered().len() == 0 ==> {
                &&& final(self).buffered() == old(self).buffered().subrange(
                    n as int,
                    old(self).buffered().len() as int,
                )
                &&& final(self).written() == old(self).written() + old(self).buffered().subrange(
                    0,
                    n as int,
                )
                &&& (r is Write <==> final(self).must_write(mode))
                &&& (r is Done <==> !final(self).must_write(mode))
            },
    {
        self.inner.state.wrote(n, mode)
    }
}

impl<T, E: Encoder> FramedWrite<T, E> {
    /// Encodes one item at the back of the buffer; the I/O object is not touched.
    pub fn start_send(&mut self, item: E::Item) -> (r: Result<(), E::Error>)
        requires
            old(self).wf(),
        ensures
            final(self).wf(),
            final(self).io() == old(self).io(),
            final(self).hwm() == old(self).hwm(),
            final(self).written() == old(self).written(),
            old(self).buffered().is_prefix_of(final(self).buffered()),
            E::encodes(item, old(self).buffered(), final(self).buffered(), r),
            final(self).encoded() == old(self).encoded() + final(self).buffered().subrange(
                old(self).buffered().len() as int,
                final(self).buffered().len() as int,
            ),
    {
        self.inner.state.start_send(&mut self.inner.inner.u, item)
    }
}

} // verus!

verus! {

/// A flush reports `Done` exactly when the write buffer is empty, so a flush
/// that succeeds leaves nothing unwritten.
pub proof fn flush_done_means_empty<T, E>(w: FramedWrite<T, E>)
    ensures
        !w.must_write(DrainMode::Flush) <==> w.buffered().len() == 0,
{
}

/// With a high-water mark of zero, getting ready succeeds only once the write
/// buffer is empty.
pub proof fn zero_mark_ready_means_empty<T, E>(w: FramedWrite<T, E>)
    requires
        w.hwm() == 0,
    ensures
        !w.must_write(DrainMode::Ready) ==> w.buffered().len() == 0,
{
}

/// Below the high-water mark the engine is ready without writing; at or above
/// it, getting ready writes first.
pub proof fn ready_follows_mark<T, E>(w: FramedWrite<T, E>)
    requires
        w.hwm() > 0,
    ensures
        w.must_write(DrainMode::Ready) <==> w.buffered().len() >= w.hwm(),
{
}

} // verus!
