use bytes::{Bytes, BytesMut};
use futures_codec::transport::Transport;
use futures_codec::{
    BytesCodec, Decoder, Drain, DrainMode, Encoder, Framed, FramedRead, FramedWrite, IterSink,
    IterSinkExt, LengthCodec, LinesCodec, ReadStep, SerdeCodec, INITIAL_CAPACITY,
};
use futures_codec::framed_read::read_step;
use std::io::{self, Cursor, Read, Write};

fn eof_error() -> io::Error {
    io::Error::new(io::ErrorKind::UnexpectedEof, "bytes remaining in stream")
}

/// Runs the read steps of a `FramedRead` over a blocking reader.
fn read_next<T: Read, D: Decoder>(framed: &mut FramedRead<T, D>) -> Option<Result<D::Item, D::Error>> {
    let mut scratch = vec![0u8; INITIAL_CAPACITY];
    let mut step = framed.poll_buffered();
    loop {
        match step {
            ReadStep::Item(item) => return Some(Ok(item)),
            ReadStep::Failed(e) => return Some(Err(e)),
            ReadStep::End => return None,
            ReadStep::UnexpectedEof => return Some(Err(eof_error().into())),
            ReadStep::NeedBytes => {
                let n = match framed.get_mut().read(&mut scratch) {
                    Ok(n) => n,
                    Err(e) => return Some(Err(e.into())),
                };
                step = framed.on_read(&scratch[..n]);
            }
        }
    }
}

/// Runs the read steps of a `Framed` over a blocking reader.
fn framed_next<T: Read, U: Decoder>(framed: &mut Framed<T, U>) -> Option<Result<U::Item, U::Error>> {
    let mut scratch = vec![0u8; INITIAL_CAPACITY];
    let mut step = framed.poll_buffered();
    loop {
        match step {
            ReadStep::Item(item) => return Some(Ok(item)),
            ReadStep::Failed(e) => return Some(Err(e)),
            ReadStep::End => return None,
            ReadStep::UnexpectedEof => return Some(Err(eof_error().into())),
            ReadStep::NeedBytes => {
                let n = match framed.get_mut().read(&mut scratch) {
                    Ok(n) => n,
                    Err(e) => return Some(Err(e.into())),
                };
                step = framed.on_read(&scratch[..n]);
            }
        }
    }
}

/// Drains a `FramedWrite` into a blocking writer.
fn write_drain<T: Write, E: Encoder>(framed: &mut FramedWrite<T, E>, mode: DrainMode) -> Result<(), E::Error> {
    let mut step = framed.drain_step(mode);
    loop {
        match step {
            Drain::Done => {
                if mode == DrainMode::Flush {
                    framed.get_mut().flush()?;
                }
                return Ok(());
            }
            Drain::Write => {
                let chunk = framed.pending().to_vec();
                let n = framed.get_mut().write(&chunk)?;
                step = framed.wrote(n, mode);
            }
            Drain::UnexpectedEof => {
                return Err(io::Error::new(io::ErrorKind::UnexpectedEof, "End of file").into())
            }
        }
    }
}

fn write_send<T: Write, E: Encoder>(framed: &mut FramedWrite<T, E>, item: E::Item) -> Result<(), E::Error> {
    write_drain(framed, DrainMode::Ready)?;
    framed.start_send(item)?;
    write_drain(framed, DrainMode::Flush)
}

/// A blocking sink over a `Framed` and its writer.
struct BlockingSink<'a, T, U>(&'a mut Framed<T, U>);

impl<'a, T: Write, U: Encoder> BlockingSink<'a, T, U> {
    fn drain(&mut self, mode: DrainMode) -> Result<(), U::Error> {
        let mut step = self.0.drain_step(mode);
        loop {
            match step {
                Drain::Done => {
                    if mode == DrainMode::Flush {
                        self.0.get_mut().flush()?;
                    }
                    return Ok(());
                }
                Drain::Write => {
                    let chunk = self.0.pending().to_vec();
                    let n = self.0.get_mut().write(&chunk)?;
                    step = self.0.wrote(n, mode);
                }
                Drain::UnexpectedEof => {
                    return Err(io::Error::new(io::ErrorKind::UnexpectedEof, "End of file").into())
                }
            }
        }
    }
}

impl<'a, T: Write, U: Encoder> IterSink<U::Item> for BlockingSink<'a, T, U> {
    type Error = U::Error;

    fn ready(&mut self) -> Result<(), U::Error> {
        self.drain(DrainMode::Ready)
    }

    fn start_send(&mut self, item: U::Item) -> Result<(), U::Error> {
        self.0.start_send(item)
    }

    fn flush(&mut self) -> Result<(), U::Error> {
        self.drain(DrainMode::Flush)
    }
}

/// The serde codec seen through the codec traits.
struct Records<T>(SerdeCodec<T>);

impl<T: serde::de::DeserializeOwned> Decoder for Records<T> {
    type Item = T;
    type Error = io::Error;

    fn decode(&mut self, src: &mut BytesMut) -> Result<Option<T>, io::Error> {
        self.0.decode(src)
    }
}

impl<T: serde::Serialize> Encoder for Records<T> {
    type Item = T;
    type Error = io::Error;

    fn encode(&mut self, item: T, dst: &mut BytesMut) -> Result<(), io::Error> {
        self.0.encode(item, dst)
    }
}

// Sends two lines at once, then nothing else forever
struct MockBurstySender {
    sent: bool,
}

impl Read for MockBurstySender {
    fn read(&mut self, buf: &mut [u8]) -> io::Result<usize> {
        const MESSAGES: &[u8] = b"one\ntwo\n";
        if !self.sent && buf.len() >= MESSAGES.len() {
            self.sent = true;
            buf[0..MESSAGES.len()].clone_from_slice(MESSAGES);
            Ok(MESSAGES.len())
        } else {
            Ok(0)
        }
    }
}

struct OneByteAtATime<'a> {
    input: &'a [u8],
}

impl Read for OneByteAtATime<'_> {
    fn read(&mut self, buf: &mut [u8]) -> io::Result<usize> {
        if self.input.is_empty() {
            Ok(0)
        } else {
            buf[0] = self.input[0];
            self.input = &self.input[1..];
            Ok(1)
        }
    }
}

/// A decoder that only returns `a` characters from the input.
struct AllTheAs;

impl Decoder for AllTheAs {
    type Item = char;
    type Error = io::Error;

    fn decode(&mut self, src: &mut BytesMut) -> Result<Option<Self::Item>, Self::Error> {
        while !src.is_empty() {
            let buf = src.split_to(1);
            let c = char::from(buf[0]);
            if c == 'a' {
                return Ok(Some(c));
            }
        }
        Ok(None)
    }
}

/// A writer that accepts one byte per call.
struct Trickle {
    out: Vec<u8>,
    calls: usize,
}

impl Write for Trickle {
    fn write(&mut self, buf: &[u8]) -> io::Result<usize> {
        self.calls += 1;
        if buf.is_empty() {
            return Ok(0);
        }
        self.out.push(buf[0]);
        Ok(1)
    }

    fn flush(&mut self) -> io::Result<()> {
        Ok(())
    }
}

/// A writer that never accepts a byte.
struct Stuck;

impl Write for Stuck {
    fn write(&mut self, _buf: &[u8]) -> io::Result<usize> {
        Ok(0)
    }

    fn flush(&mut self) -> io::Result<()> {
        Ok(())
    }
}

#[test]
fn transport_it_works() {
    let io = Cursor::new(vec![0; 3]);
    let tp = Transport::framed(io, LinesCodec {});
    tp.next();
    tp.send();
}

#[test]
fn decodes() {
    let mut buf = [0u8; 32];
    let expected = buf.clone();
    let cur = Cursor::new(&mut buf[..]);
    let mut framed = Framed::new(cur, BytesCodec {});

    let read = framed_next(&mut framed).unwrap().unwrap();
    assert_eq!(&read[..], &expected[..]);

    assert!(framed_next(&mut framed).is_none());
}

#[test]
fn blocking_decode_bytes() {
    let mut buf = [0u8; 32];
    let expected = buf;
    let cur = Cursor::new(&mut buf[..]);
    let mut framed = FramedRead::new(cur, BytesCodec {});

    let read = read_next(&mut framed).unwrap().unwrap();
    assert_eq!(&read[..], &expected[..]);

    assert!(read_next(&mut framed).is_none());
}

#[test]
fn line_read_multi() {
    let io = MockBurstySender { sent: false };
    let mut framed = FramedRead::new(io, LinesCodec {});
    let one = read_next(&mut framed).unwrap().unwrap();
    assert_eq!(one, "one\n");
    let two = read_next(&mut framed).unwrap().unwrap();
    assert_eq!(two, "two\n");
}

#[test]
fn blocking_line_read_multi() {
    let io = MockBurstySender { sent: false };
    let mut framed = FramedRead::new(io, LinesCodec {});
    let one = read_next(&mut framed).unwrap().unwrap();
    assert_eq!(one, "one\n");
    let two = read_next(&mut framed).unwrap().unwrap();
    assert_eq!(two, "two\n");
}

#[test]
fn bursty_source_is_read_once() {
    let mut framed = FramedRead::new((), LinesCodec {});
    assert!(matches!(framed.poll_buffered(), ReadStep::NeedBytes));
    match framed.on_read(b"one\ntwo\n") {
        ReadStep::Item(line) => assert_eq!(line, "one\n"),
        _ => panic!("expected the first line"),
    }
    match framed.poll_buffered() {
        ReadStep::Item(line) => assert_eq!(line, "two\n"),
        _ => panic!("expected the second line without a read"),
    }
    assert!(matches!(framed.poll_buffered(), ReadStep::NeedBytes));
}

#[test]
fn read_few_messages() {
    let string: &[u8] = b"aabbbabbbabbbabb";
    let input = OneByteAtATime { input: string };
    let mut framed = FramedRead::new(input, AllTheAs);
    for _ in 0..5 {
        let item = read_next(&mut framed).unwrap().unwrap();
        assert_eq!(item, 'a');
    }
}

#[test]
fn blocking_read_few_messages() {
    let string: &[u8] = b"aabbbabbbabbbabb";
    let input = OneByteAtATime { input: string };
    let mut framed = FramedRead::new(input, AllTheAs);
    for _ in 0..5 {
        let item = read_next(&mut framed).unwrap().unwrap();
        assert_eq!(item, 'a');
    }
}

#[test]
fn lines_it_works() {
    let buf = "Hello\nWorld\nError".to_owned();
    let cur = Cursor::new(buf);

    let mut framed = FramedRead::new(cur, LinesCodec {});
    let next = read_next(&mut framed).unwrap().unwrap();
    assert_eq!(next, "Hello\n");
    let next = read_next(&mut framed).unwrap().unwrap();
    assert_eq!(next, "World\n");

    assert!(read_next(&mut framed).unwrap().is_err());
}

#[test]
fn blocking_decode_lines() {
    let buf = "Hello\nWorld\nError\n".to_owned();
    let cur = Cursor::new(buf[..buf.len() - 1].to_owned());

    let mut framed = FramedRead::new(cur, LinesCodec {});

    let next = read_next(&mut framed).unwrap().unwrap();
    assert_eq!(next, "Hello\n");

    let next = read_next(&mut framed).unwrap().unwrap();
    assert_eq!(next, "World\n");

    // Bytes left at the end of input are an unexpected end, in both modes.
    let next = read_next(&mut framed);
    assert!(next.unwrap().is_err());

    let cur = Cursor::new(buf);

    let mut framed = FramedRead::new(cur, LinesCodec {});

    let next = read_next(&mut framed).unwrap().unwrap();
    assert_eq!(next, "Hello\n");

    let next = read_next(&mut framed).unwrap().unwrap();
    assert_eq!(next, "World\n");

    let next = read_next(&mut framed).unwrap().unwrap();
    assert_eq!(next, "Error\n");
}

#[test]
fn lines_end_on_frame_boundary() {
    let mut framed = FramedRead::new(Cursor::new(b"Hello\nWorld\n".to_vec()), LinesCodec {});
    assert_eq!(read_next(&mut framed).unwrap().unwrap(), "Hello\n");
    assert_eq!(read_next(&mut framed).unwrap().unwrap(), "World\n");
    assert!(read_next(&mut framed).is_none());
}

#[test]
fn empty_source_ends_at_once() {
    let mut framed = FramedRead::new(Cursor::new(Vec::new()), LengthCodec);
    assert!(read_next(&mut framed).is_none());
    let mut framed = FramedRead::new((), LinesCodec {});
    assert!(matches!(framed.poll_buffered(), ReadStep::NeedBytes));
    assert!(matches!(framed.on_read(&[]), ReadStep::End));
}

#[test]
fn source_ending_mid_frame_is_unexpected() {
    let mut framed = FramedRead::new((), LengthCodec);
    assert!(matches!(framed.on_read(&[0, 0, 0, 0, 0, 0, 0, 9, 1]), ReadStep::NeedBytes));
    assert!(matches!(framed.on_read(&[]), ReadStep::UnexpectedEof));
    assert_eq!(framed.read_buffer().len(), 9);
}

#[test]
fn raw_bytes_at_end_are_delivered() {
    let mut framed = FramedRead::new((), BytesCodec {});
    match framed.on_read(b"tail") {
        ReadStep::Item(b) => assert_eq!(&b[..], b"tail"),
        _ => panic!("expected the bytes"),
    }
    assert!(matches!(framed.on_read(&[]), ReadStep::End));
}

#[test]
fn line_write() {
    let curs = Cursor::new(vec![0u8; 16]);
    let mut framer = FramedWrite::new(curs, LinesCodec {});
    write_send(&mut framer, "Hello\n".to_owned()).unwrap();
    write_send(&mut framer, "World\n".to_owned()).unwrap();
    let (curs, _) = framer.release();
    assert_eq!(&curs.get_ref()[0..12], b"Hello\nWorld\n");
    assert_eq!(curs.position(), 12);
}

#[test]
fn line_write_to_eof() {
    let mut mem = [0u8; 16];
    let curs = Cursor::new(&mut mem[..]);
    let mut framer = FramedWrite::new(curs, LinesCodec {});
    let _err = write_send(&mut framer, "This will fill up the buffer\n".to_owned()).unwrap_err();
    let (curs, _) = framer.release();
    assert_eq!(curs.position(), 16);
    assert_eq!(&curs.get_ref()[0..16], b"This will fill u");
}

#[test]
fn zero_write_is_unexpected_eof() {
    let mut framer = FramedWrite::new(Stuck, BytesCodec {});
    framer.start_send(Bytes::from_static(b"abc")).unwrap();
    let err = write_drain(&mut framer, DrainMode::Flush).unwrap_err();
    assert_eq!(err.kind(), io::ErrorKind::UnexpectedEof);
    assert_eq!(framer.pending(), b"abc");
    assert_eq!(framer.wrote(0, DrainMode::Flush), Drain::UnexpectedEof);
}

#[test]
fn flush_empties_the_buffer() {
    let mut framer = FramedWrite::new(Vec::new(), LengthCodec);
    framer.start_send(Bytes::from_static(b"abc")).unwrap();
    assert_eq!(framer.pending().len(), 11);
    write_drain(&mut framer, DrainMode::Flush).unwrap();
    assert!(framer.pending().is_empty());
    assert_eq!(framer.drain_step(DrainMode::Flush), Drain::Done);
    let out = framer.into_inner();
    assert_eq!(out, vec![0, 0, 0, 0, 0, 0, 0, 3, b'a', b'b', b'c']);
}

#[test]
fn zero_mark_drains_before_ready() {
    let mut framer = FramedWrite::new(Trickle { out: Vec::new(), calls: 0 }, BytesCodec {});
    framer.set_send_high_water_mark(0);
    assert_eq!(framer.send_high_water_mark(), 0);
    assert_eq!(framer.drain_step(DrainMode::Ready), Drain::Done);
    framer.start_send(Bytes::from_static(b"xyz")).unwrap();
    assert_eq!(framer.drain_step(DrainMode::Ready), Drain::Write);
    write_drain(&mut framer, DrainMode::Ready).unwrap();
    assert!(framer.pending().is_empty());
    assert_eq!(framer.get_ref().out, b"xyz".to_vec());
}

#[test]
fn high_water_mark_backpressure() {
    let mut framer = FramedWrite::new(Trickle { out: Vec::new(), calls: 0 }, BytesCodec {});
    assert_eq!(framer.send_high_water_mark(), 131072);
    framer.set_send_high_water_mark(8);
    assert_eq!(framer.drain_step(DrainMode::Ready), Drain::Done);
    framer.start_send(Bytes::from(vec![5u8; 32])).unwrap();
    let mut writes = 0;
    let mut step = framer.drain_step(DrainMode::Ready);
    while step == Drain::Write {
        assert!(framer.pending().len() >= 8);
        let chunk = framer.pending().to_vec();
        let n = framer.get_mut().write(&chunk).unwrap();
        assert_eq!(n, 1);
        writes += 1;
        step = framer.wrote(n, DrainMode::Ready);
    }
    assert_eq!(step, Drain::Done);
    assert_eq!(writes, 25);
    assert_eq!(framer.pending().len(), 7);
    assert_eq!(framer.get_ref().out.len(), 25);
}

#[test]
fn same_msgs_are_received_as_were_sent() {
    let cur = Cursor::new(vec![0; 256]);
    let mut framed = Framed::new(cur, LengthCodec {});
    {
        let mut sink = BlockingSink(&mut framed);
        sink.send(Bytes::from("msg1")).unwrap();
        sink.send(Bytes::from("msg2")).unwrap();
        sink.send(Bytes::from("msg3")).unwrap();
    }

    let (mut cur, _) = framed.release();
    cur.set_position(0);
    let mut framed = Framed::new(cur, LengthCodec {});

    let mut msgs = Vec::new();
    for _ in 0..3 {
        let buf = framed_next(&mut framed).unwrap().unwrap();
        msgs.push(String::from_utf8(buf.to_vec()).unwrap());
    }

    assert!(msgs == vec!["msg1", "msg2", "msg3"]);
}

#[test]
fn blocking_same_msgs_are_received_as_were_sent() {
    let cur = Cursor::new(vec![0; 256]);
    let mut framed = Framed::new(cur, LengthCodec {});

    let send_msgs = vec![Bytes::from("msg1"), Bytes::from("msg2"), Bytes::from("msg3")];

    IterSinkExt::send_all(&mut BlockingSink(&mut framed), send_msgs).unwrap();

    let (mut cur, _) = framed.release();
    cur.set_position(0);
    let mut framed = Framed::new(cur, LengthCodec {});

    let mut msgs = Vec::new();
    for _ in 0..3 {
        let buf = framed_next(&mut framed).unwrap().unwrap();
        msgs.push(String::from_utf8(buf.to_vec()).unwrap());
    }

    assert!(msgs == vec!["msg1", "msg2", "msg3"]);
}

#[test]
fn length_frames_then_end() {
    let mut framer = FramedWrite::new(Cursor::new(Vec::new()), LengthCodec);
    for m in ["msg1", "msg2", "msg3"] {
        write_send(&mut framer, Bytes::from(m)).unwrap();
    }
    let mut cur = framer.into_inner();
    assert_eq!(cur.get_ref().len(), 36);
    cur.set_position(0);
    let mut framed = FramedRead::new(cur, LengthCodec);
    for m in ["msg1", "msg2", "msg3"] {
        assert_eq!(&read_next(&mut framed).unwrap().unwrap()[..], m.as_bytes());
    }
    assert!(read_next(&mut framed).is_none());
}

#[test]
fn duplex_lines_round_trip() {
    let mut writer = Framed::new(Cursor::new(Vec::new()), LinesCodec {});
    {
        let mut sink = BlockingSink(&mut writer);
        sink.send("A line\n".to_string()).unwrap();
        sink.send("A second line\n".to_string()).unwrap();
        sink.send("A third line\n".to_string()).unwrap();
    }
    let mut cur = writer.into_inner();
    cur.set_position(0);
    let mut reader = Framed::new(cur, LinesCodec {});
    assert_eq!(framed_next(&mut reader).unwrap().unwrap(), "A line\n");
    assert_eq!(framed_next(&mut reader).unwrap().unwrap(), "A second line\n");
    assert_eq!(framed_next(&mut reader).unwrap().unwrap(), "A third line\n");
    assert!(framed_next(&mut reader).is_none());
}

#[test]
fn serializes_serde_enabled_structures() {
    let cur = Cursor::new(vec![0; 4096]);
    let mut framed = Framed::new(cur, Records(SerdeCodec::default()));
    {
        let mut sink = BlockingSink(&mut framed);
        sink.send(("John".to_string(), 11u8)).unwrap();
        sink.send(("Paul".to_string(), 12u8)).unwrap();
        sink.send(("Mike".to_string(), 13u8)).unwrap();
    }

    let (mut cur, _) = framed.release();
    cur.set_position(0);
    let mut framed = Framed::new(cur, Records::<(String, u8)>(SerdeCodec::default()));

    let mut items = Vec::new();
    for _ in 0..3 {
        items.push(framed_next(&mut framed).unwrap().unwrap());
    }

    assert!(items == vec![
        ("John".to_string(), 11u8),
        ("Paul".to_string(), 12u8),
        ("Mike".to_string(), 13u8),
    ])
}

#[test]
fn framed_accessors() {
    let mut framed = Framed::new(Cursor::new(b"x\n".to_vec()), LinesCodec {});
    assert!(framed.read_buffer().is_empty());
    let _codec: &LinesCodec = framed.codec();
    let _codec: &mut LinesCodec = framed.codec_mut();
    assert_eq!(framed.get_ref().position(), 0);
    let mut reader = FramedRead::new(Cursor::new(b"x\ny".to_vec()), LinesCodec {});
    assert_eq!(read_next(&mut reader).unwrap().unwrap(), "x\n");
    assert_eq!(&reader.read_buffer()[..], b"y");
    let _d: &LinesCodec = reader.decoder();
    let _d: &mut LinesCodec = reader.decoder_mut();
    let (cur, _) = reader.release();
    assert_eq!(cur.position(), 3);
    let mut writer = FramedWrite::new(Vec::new(), LinesCodec {});
    let _e: &LinesCodec = writer.encoder();
    let _e: &mut LinesCodec = writer.encoder_mut();
    writer.get_mut().push(1);
    assert_eq!(writer.into_inner(), vec![1]);
}

#[test]
fn engine_one_byte_at_a_time_matches_all_at_once() {
    let mut wire = BytesMut::new();
    let mut codec = LengthCodec;
    for m in [&b"first"[..], &b""[..], &b"third frame"[..]] {
        codec.encode(Bytes::copy_from_slice(m), &mut wire).unwrap();
    }
    let wire = wire.to_vec();

    let mut whole = FramedRead::new(Cursor::new(wire.clone()), LengthCodec);
    let mut at_once = Vec::new();
    while let Some(item) = read_next(&mut whole) {
        at_once.push(item.unwrap().to_vec());
    }

    let mut trickle = FramedRead::new(OneByteAtATime { input: &wire }, LengthCodec);
    let mut one_by_one = Vec::new();
    while let Some(item) = read_next(&mut trickle) {
        one_by_one.push(item.unwrap().to_vec());
    }

    assert_eq!(at_once, vec![b"first".to_vec(), Vec::new(), b"third frame".to_vec()]);
    assert_eq!(one_by_one, at_once);

    let text = b"alpha\nbeta\n\ngamma\n";
    let mut whole = FramedRead::new(Cursor::new(text.to_vec()), LinesCodec {});
    let mut trickle = FramedRead::new(OneByteAtATime { input: text }, LinesCodec {});
    for expected in ["alpha\n", "beta\n", "\n", "gamma\n"] {
        assert_eq!(read_next(&mut whole).unwrap().unwrap(), expected);
        assert_eq!(read_next(&mut trickle).unwrap().unwrap(), expected);
    }
    assert!(read_next(&mut whole).is_none());
    assert!(read_next(&mut trickle).is_none());
}

#[test]
fn read_step_maps_each_answer() {
    assert!(matches!(read_step::<u8, ()>(Ok(Some(3)), false, true), ReadStep::Item(3)));
    assert!(matches!(read_step::<u8, u8>(Err(4), true, false), ReadStep::Failed(4)));
    assert!(matches!(read_step::<u8, ()>(Ok(None), false, false), ReadStep::NeedBytes));
    assert!(matches!(read_step::<u8, ()>(Ok(None), true, true), ReadStep::End));
    assert!(matches!(read_step::<u8, ()>(Ok(None), true, false), ReadStep::UnexpectedEof));
}

#[test]
fn io_and_pending_write_without_copy() {
    let mut framer = FramedWrite::new(Vec::new(), LinesCodec {});
    framer.start_send("hi\n".to_owned()).unwrap();
    let (io, chunk) = framer.io_and_pending();
    let n = io.write(chunk).unwrap();
    assert_eq!(n, 3);
    assert_eq!(framer.wrote(n, DrainMode::Flush), Drain::Done);
    assert_eq!(framer.into_inner(), b"hi\n".to_vec());

    let mut framed = Framed::new(Cursor::new(Vec::new()), LinesCodec {});
    framed.start_send("x\n".to_owned()).unwrap();
    let (io, chunk) = framed.io_and_pending();
    assert_eq!(chunk, b"x\n");
    let n = io.write(chunk).unwrap();
    assert_eq!(framed.wrote(n, DrainMode::Flush), Drain::Done);
}
