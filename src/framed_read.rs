//! The read engine: bytes in, decoded items out.
use vstd::prelude::*;

use crate::buf::{buf_bytes, buf_extend, buf_slice, buf_with_capacity};
use crate::decoder::{drops_prefix, Decoder};
use crate::fuse::Fuse;
use bytes::BytesMut;

verus! {

/// Initial capacity of the read buffer, and the size of the scratch array that
/// a driver reads into at each step.
pub const INITIAL_CAPACITY: usize = 8 * 1024;

/// What the read engine decided at one step.
#[derive(Debug)]
pub enum ReadStep<I, E> {
    /// An item was decoded: hand it to the caller.
    Item(I),
    /// The decoder failed: hand the error to the caller.
    Failed(E),
    /// No item yet: read from the I/O object and report the bytes with `on_read`.
    NeedBytes,
    /// The byte source has ended and every byte was used: the sequence is over.
    End,
    /// The byte source has ended in the middle of a frame.
    UnexpectedEof,
}

/// The read buffer of an engine, with the record of what passed through it.
pub struct ReadState {
    buffer: BytesMut,
    received: Ghost<Seq<u8>>,
    consumed: Ghost<Seq<u8>>,
}

proof fn lemma_take_prefix(received: Seq<u8>, consumed: Seq<u8>, before: Seq<u8>, after: Seq<u8>)
    requires
        received == consumed + before,
        drops_prefix(before, after),
    ensures
        received == (consumed + before.subrange(0, before.len() - after.len())) + after,
{
    let k = before.len() - after.len();
    assert(before == before.subrange(0, k) + after);
    assert(received == (consumed + before.subrange(0, k)) + after);
}

impl ReadState {
    /// The bytes read but not yet taken by the decoder.
    pub closed spec fn buffered(&self) -> Seq<u8> {
        buf_bytes(self.buffer)
    }

    /// Every byte handed to the engine, in order.
    pub closed spec fn received(&self) -> Seq<u8> {
        self.received@
    }

    /// Every byte the decoder has taken, in order.
    pub closed spec fn consumed(&self) -> Seq<u8> {
        self.consumed@
    }

    /// Each byte received was either taken by the decoder or is still buffered, in order.
    pub open spec fn wf(&self) -> bool {
        self.received() == self.consumed() + self.buffered()
    }

    pub fn new() -> (r: ReadState)
        ensures
            r.wf(),
            r.buffered().len() == 0,
            r.received().len() == 0,
    {
        let r = ReadState {
            buffer: buf_with_capacity(INITIAL_CAPACITY),
            received: Ghost(Seq::empty()),
            consumed: Ghost(Seq::empty()),
        };
        assert(r.received() == r.consumed() + r.buffered());
        r
    }

    pub fn buffer(&self) -> (r: &BytesMut)
        ensures
            buf_bytes(*r) == self.buffered(),
    {
        &self.buffer
    }

    /// One call of the decoder (or of its end-of-input variant) on the buffer.
    fn decode_once<D: Decoder>(&mut self, decoder: &mut D, at_eof: bool) -> (r: Result<
        Option<D::Item>,
        D::Error,
    >)
        requires
            old(self).wf(),
        ensures
            final(self).wf(),
            final(self).received() == old(self).received(),
            drops_prefix(old(self).buffered(), final(self).buffered()),
            D::decodes(old(self).buffered(), final(self).buffered(), r),
    {
        let ghost before = buf_bytes(self.buffer);
        let r = if at_eof {
            decoder.decode_eof(&mut self.buffer)
        } else {
            decoder.decode(&mut self.buffer)
        };
        let ghost after = buf_bytes(self.buffer);
        proof {
            lemma_take_prefix(self.received@, self.consumed@, before, after);
        }
        self.consumed = Ghost(self.consumed@ + before.subrange(0, before.len() - after.len()));
        r
    }

    /// First part of a step: decode from what is already buffered, without reading.
    pub fn poll_buffered<D: Decoder>(&mut self, decoder: &mut D) -> (r: ReadStep<D::Item, D::Error>)
        requires
            old(self).wf(),
        ensures
            final(self).wf(),
            final(self).received() == old(self).received(),
            drops_prefix(old(self).buffered(), final(self).buffered()),
            D::decodes(old(self).buffered(), final(self).buffered(), outcome_of(r)),
            r == step_of(outcome_of(r), false, final(self).buffered().len() == 0),
    {
        let res = self.decode_once(decoder, false);
        let empty = buf_slice(&self.buffer).len() == 0;
        read_step(res, false, empty)
    }

    /// Second part of a step: `data` was read from the I/O object (empty at the
    /// end of input). The decoder is asked about the buffer followed by `data`;
    /// at the end of input, when it gives nothing and bytes remain, its
    /// end-of-input variant is asked once more.
    pub fn on_read<D: Decoder>(&mut self, decoder: &mut D, data: &[u8]) -> (r: ReadStep<
        D::Item,
        D::Error,
    >)
        requires
            old(self).wf(),
            old(self).buffered().len() + data@.len() <= isize::MAX,
        ensures
            final(self).wf(),
            final(self).received() == old(self).received() + data@,
            reads_then_decodes::<D>(old(self).buffered() + data@, data@.len() == 0, final(self).buffered(), r),
            r is NeedBytes ==> data@.len() > 0,
            data@.len() > 0 ==> !(r is End) && !(r is UnexpectedEof),
            data@.len() == 0 && !(r is Item) && !(r is Failed) ==> {
                &&& (r is End <==> final(self).buffered().len() == 0)
                &&& (r is UnexpectedEof <==> final(self).buffered().len() > 0)
            },
    {
        buf_extend(&mut self.buffer, data);
        proof {
            assert(self.received@ + data@ == self.consumed@ + buf_bytes(self.buffer));
        }
        self.received = Ghost(self.received@ + data@);
        let ghost s = buf_bytes(self.buffer);
        let ended = data.len() == 0;
        let res = self.decode_once(decoder, false);
        let ghost mid = buf_bytes(self.buffer);
        let empty = buf_slice(&self.buffer).len() == 0;
        let step = read_step(res, ended, empty);
        match step {
            ReadStep::UnexpectedEof => {
                proof {
                    assert(D::decodes(s, mid, Ok::<Option<D::Item>, D::Error>(None)));
                }
                let res2 = self.decode_once(decoder, true);
                let empty2 = buf_slice(&self.buffer).len() == 0;
                let r = read_step(res2, true, empty2);
                proof {
                    let fin = buf_bytes(self.buffer);
                    assert(mid.len() > 0 && D::decodes(s, mid, Ok::<Option<D::Item>, D::Error>(None))
                        && D::decodes(mid, fin, outcome_of(r)) && r == step_of(
                        outcome_of(r),
                        true,
                        fin.len() == 0,
                    ));
                }
                r
            },
            other => other,
        }
    }
}

/// The step that one answer `res` of the decoder decides: an item or an error
/// is handed on; no item asks for more bytes, or, at the end of input
/// (`ended`), ends the sequence on an empty buffer and is an unexpected end
/// otherwise.
pub open spec fn step_of<I, E>(res: Result<Option<I>, E>, ended: bool, empty: bool) -> ReadStep<I, E> {
    match res {
        Ok(Some(x)) => ReadStep::Item(x),
        Err(e) => ReadStep::Failed(e),
        Ok(None) => if !ended {
            ReadStep::NeedBytes
        } else if empty {
            ReadStep::End
        } else {
            ReadStep::UnexpectedEof
        },
    }
}

/// The decoder answer that a step reports: its item, its error, or no item.
pub open spec fn outcome_of<I, E>(r: ReadStep<I, E>) -> Result<Option<I>, E> {
    match r {
        ReadStep::Item(x) => Ok(Some(x)),
        ReadStep::Failed(e) => Err(e),
        _ => Ok(None),
    }
}

/// What `on_read` does with the bytes `s` (buffer followed by the bytes read):
/// one call of the decoder decides the step. Only at the end of input, when it
/// gives nothing and leaves bytes `mid`, a second call on `mid` decides it.
pub open spec fn reads_then_decodes<D: Decoder>(s: Seq<u8>, ended: bool, fin: Seq<u8>, r: ReadStep<D::Item, D::Error>) -> bool {
    ||| (D::decodes(s, fin, outcome_of(r)) && r == step_of(outcome_of(r), ended, fin.len() == 0)
        && !(r is UnexpectedEof))
    ||| (ended && exists|mid: Seq<u8>|
        #![trigger D::decodes(s, mid, Ok::<Option<D::Item>, D::Error>(None))]
        mid.len() > 0 && D::decodes(s, mid, Ok::<Option<D::Item>, D::Error>(None)) && D::decodes(
            mid,
            fin,
            outcome_of(r),
        ) && r == step_of(outcome_of(r), true, fin.len() == 0))
}

/// Decides the read step from one answer of the decoder.
pub fn read_step<I, E>(res: Result<Option<I>, E>, ended: bool, empty: bool) -> (r: ReadStep<I, E>)
    ensures
        r == step_of(res, ended, empty),
        outcome_of(r) == res,
{
    match res {
        Ok(Some(x)) => ReadStep::Item(x),
        Err(e) => ReadStep::Failed(e),
        Ok(None) => {
            if !ended {
                ReadStep::NeedBytes
            } else if empty {
                ReadStep::End
            } else {
                ReadStep::UnexpectedEof
            }
        },
    }
}

/// A read buffer over an inner value.
pub struct FramedRead2<T> {
    pub inner: T,
    pub state: ReadState,
}

impl<T> FramedRead2<T> {
    /// The inner value.
    pub open spec fn inner_spec(&self) -> T {
        self.inner
    }

    /// The read buffer and its record.
    pub open spec fn state_spec(&self) -> ReadState {
        self.state
    }

    pub fn new(inner: T) -> (r: FramedRead2<T>)
        ensures
            r.inner_spec() == inner,
            r.state_spec().wf(),
            r.state_spec().buffered().len() == 0,
            r.state_spec().received().len() == 0,
    {
        FramedRead2 { inner, state: ReadState::new() }
    }

    pub fn release(self) -> (r: T)
        ensures
            r == self.inner_spec(),
    {
        self.inner
    }

    pub fn buffer(&self) -> (r: &BytesMut)
        ensures
            buf_bytes(*r) == self.state_spec().buffered(),
    {
        self.state.buffer()
    }
}

/// A stream of items decoded from the bytes of an I/O object.
///
/// A driver runs each step: `poll_buffered`, then, while the answer is
/// `NeedBytes`, a read from `get_mut()` into a scratch array of
/// `INITIAL_CAPACITY` bytes followed by `on_read` with the bytes read.
pub struct FramedRead<T, D> {
    inner: FramedRead2<Fuse<T, D>>,
}

impl<T, D> FramedRead<T, D> {
    /// The I/O object.
    pub closed spec fn io(&self) -> T {
        self.inner.inner.t
    }

    /// The decoder.
    pub closed spec fn decoder_spec(&self) -> D {
        self.inner.inner.u
    }

    /// The bytes read but not yet taken by the decoder.
    pub closed spec fn buffered(&self) -> Seq<u8> {
        self.inner.state.buffered()
    }

    /// Every byte handed to the engine, in order.
    pub closed spec fn received(&self) -> Seq<u8> {
        self.inner.state.received()
    }

    /// Every byte the decoder has taken, in order.
    pub closed spec fn consumed(&self) -> Seq<u8> {
        self.inner.state.consumed()
    }

    /// Each byte received was either taken by the decoder or is still buffered, in order.
    pub open spec fn wf(&self) -> bool {
        self.received() == self.consumed() + self.buffered()
    }

    /// Creates a read engine over `inner` with the given decoder and an empty buffer.
    pub fn new(inner: T, decoder: D) -> (r: Self)
        ensures
            r.wf(),
            r.io() == inner,
            r.decoder_spec() == decoder,
            r.buffered().len() == 0,
            r.received().len() == 0,
    {
        FramedRead { inner: FramedRead2::new(Fuse::new(inner, decoder)) }
    }

    /// Releases the I/O object and the decoder; buffered bytes are dropped.
    pub fn release(self) -> (r: (T, D))
        ensures
            r.0 == self.io(),
            r.1 == self.decoder_spec(),
    {
        let fuse = self.inner.release();
        (fuse.t, fuse.u)
    }

    /// Consumes the engine, returning the I/O object.
    pub fn into_inner(self) -> (r: T)
        ensures
            r == self.io(),
    {
        self.release().0
    }

    pub fn decoder(&self) -> (r: &D)
        ensures
            *r == self.decoder_spec(),
    {
        &self.inner.inner.u
    }

    pub fn decoder_mut(&mut self) -> (r: &mut D)
        ensures
            *r == old(self).decoder_spec(),
            final(self).decoder_spec() == *final(r),
            final(self).io() == old(self).io(),
            final(self).buffered() == old(self).buffered(),
            final(self).received() == old(self).received(),
            final(self).consumed() == old(self).consumed(),
    {
        &mut self.inner.inner.u
    }

    pub fn get_ref(&self) -> (r: &T)
        ensures
            *r == self.io(),
    {
        &self.inner.inner.t
    }

    pub fn get_mut(&mut self) -> (r: &mut T)
        ensures
            *r == old(self).io(),
            final(self).io() == *final(r),
            final(self).decoder_spec() == old(self).decoder_spec(),
            final(self).buffered() == old(self).buffered(),
            final(self).received() == old(self).received(),
            final(self).consumed() == old(self).consumed(),
    {
        &mut self.inner.inner.t
    }

    pub fn read_buffer(&self) -> (r: &BytesMut)
        ensures
            buf_bytes(*r) == self.buffered(),
    {
        self.inner.buffer()
    }
}

impl<T, D: Decoder> FramedRead<T, D> {
    /// First part of a step: decode from what is already buffered.
    pub fn poll_buffered(&mut self) -> (r: ReadStep<D::Item, D::Error>)
        requires
            old(self).wf(),
        ensures
            final(self).wf(),
            final(self).received() == old(self).received(),
            final(self).io() == old(self).io(),
            drops_prefix(old(self).buffered(), final(self).buffered()),
            D::decodes(old(self).buffered(), final(self).buffered(), outcome_of(r)),
            r == step_of(outcome_of(r), false, final(self).buffered().len() == 0),
            r is Item || r is Failed || r is NeedBytes,
    {
        self.inner.state.poll_buffered(&mut self.inner.inner.u)
    }

    /// Second part of a step: `data` was read from the I/O object (empty at the
    /// end of input).
    pub fn on_read(&mut self, data: &[u8]) -> (r: ReadStep<D::Item, D::Error>)
        requires
            old(self).wf(),
            old(self).buffered().len() + data@.len() <= isize::MAX,
        ensures
            final(self).wf(),
            final(self).io() == old(self).io(),
            final(self).received() == old(self).received() + data@,
            reads_then_decodes::<D>(
                old(self).buffered() + data@,
                data@.len() == 0,
                final(self).buffered(),
                r,
            ),
            r is NeedBytes ==> data@.len() > 0,
            data@.len() > 0 ==> !(r is End) && !(r is UnexpectedEof),
            data@.len() == 0 && !(r is Item) && !(r is Failed) ==> {
                &&& (r is End <==> final(self).buffered().len() == 0)
                &&& (r is UnexpectedEof <==> final(self).buffered().len() > 0)
            },
    {
        self.inner.state.on_read(&mut self.inner.inner.u, data)
    }
}

} // verus!
