//! Reading a client's first line byte by byte.
//!
//! A relay must not read past the line that classifies a client, because what
//! follows belongs to whoever serves the client next. So the line is gathered one
//! byte at a time, from whatever each read of the stream brought.

use vstd::prelude::*;
use vstd::utf8::*;

use crate::text::text_from_utf8;

verus! {

/// The longest line, in bytes, that is still plausible.
pub const CONTROL_LINE_LIMIT: usize = 8192;

/// What one read of a single byte brought.
#[derive(Debug, Clone, Copy, PartialEq, Eq, Structural)]
pub enum ReadEvent {
    Byte(u8),
    /// The peer closed the stream.
    Closed,
    /// The read failed or timed out.
    Failed,
}

/// Where the reading of a line stands.
#[derive(Debug)]
pub enum LineProgress {
    /// The line is not complete: read on.
    More,
    /// Reading is over, with the line or without one.
    Done(Option<String>),
}

/// The text that bytes encode, where they are UTF-8.
pub open spec fn decoded(bytes: Seq<u8>) -> Option<Seq<char>> {
    if valid_utf8(bytes) {
        Some(decode_utf8(bytes))
    } else {
        None
    }
}

/// Whether an executable line is the given text.
pub open spec fn same_line(line: Option<String>, text: Option<Seq<char>>) -> bool {
    match line {
        Some(line) => text == Some(line@),
        None => text is None,
    }
}

/// A line in the course of being read.
pub struct ControlLine {
    buf: Vec<u8>,
}

impl View for ControlLine {
    type V = Seq<u8>;

    closed spec fn view(&self) -> Seq<u8> {
        self.buf@
    }
}

impl ControlLine {
    /// What has been read is no longer than a plausible line and holds no line feed.
    pub open spec fn well_formed(&self) -> bool {
        self@.len() <= CONTROL_LINE_LIMIT && !self@.contains(10u8)
    }

    /// A line of which nothing has been read.
    pub fn new() -> (res: ControlLine)
        ensures
            res.well_formed(),
            res@ == Seq::<u8>::empty(),
    {
        ControlLine { buf: Vec::new() }
    }

    /// Takes in what one read brought. The line is complete at its line feed, which
    /// is not part of it; it is given up where the stream ends, where a read fails,
    /// where it grows implausibly long and where it is not UTF-8.
    pub fn step(&mut self, event: ReadEvent) -> (res: LineProgress)
        requires
            old(self).well_formed(),
        ensures
            final(self)@ == (match event {
                ReadEvent::Byte(b) if b != 10 => old(self)@.push(b),
                _ => old(self)@,
            }),
            match event {
                ReadEvent::Byte(b) if b != 10 => if old(self)@.len() < CONTROL_LINE_LIMIT {
                    res is More && final(self).well_formed()
                } else {
                    res == LineProgress::Done(None)
                },
                ReadEvent::Byte(_) => res matches LineProgress::Done(line) && same_line(
                    line,
                    decoded(old(self)@),
                ),
                _ => res == LineProgress::Done(None),
            },
    {
        match event {
            ReadEvent::Byte(b) => {
                if b == 10 {
                    return LineProgress::Done(text_from_utf8(self.buf.clone()));
                }
                self.buf.push(b);
                if self.buf.len() > CONTROL_LINE_LIMIT {
                    return LineProgress::Done(None);
                }
                assert forall|i: int| 0 <= i < self@.len() implies self@[i] != 10u8 by {
                    assert(i < old(self)@.len() ==> old(self)@.contains(old(self)@[i]));
                }
                LineProgress::More
            },
            ReadEvent::Closed => LineProgress::Done(None),
            ReadEvent::Failed => LineProgress::Done(None),
        }
    }
}

/// The line that is read from a stream that delivers `input` and then ends, and
/// the number of bytes that are taken from the stream for it.
pub open spec fn control_line(input: Seq<u8>) -> (Option<Seq<char>>, int) {
    match input.index_of_first(10u8) {
        Some(end) if end <= CONTROL_LINE_LIMIT => (decoded(input.take(end)), end + 1),
        _ => (
            None,
            if input.len() > CONTROL_LINE_LIMIT {
                CONTROL_LINE_LIMIT + 1
            } else {
                input.len() as int
            },
        ),
    }
}

/// Reads the line of a stream that delivers `input` and then ends. Besides the
/// line, gives the number of bytes taken: never one past the line's line feed.
pub fn read_control_line(input: &[u8]) -> (res: (Option<String>, usize))
    ensures
        same_line(res.0, control_line(input@).0),
        res.1 == control_line(input@).1,
{
    let mut line = ControlLine::new();
    let mut taken: usize = 0;
    proof {
        input@.index_of_first_ensures(10u8);
    }
    while taken < input.len()
        invariant
            taken <= input@.len(),
            line.well_formed(),
            line@ == input@.take(taken as int),
            match input@.index_of_first(10u8) {
                Some(end) => {
                    &&& taken <= end < input@.len()
                    &&& input@[end] == 10
                    &&& forall|j: int| 0 <= j < end ==> input@[j] != 10
                },
                None => !input@.contains(10u8),
            },
        decreases input@.len() - taken,
    {
        let byte = input[taken];
        taken = taken + 1;
        assert(input@.take(taken as int) == input@.take(taken - 1).push(byte));
        assert(input@.contains(byte));
        match line.step(ReadEvent::Byte(byte)) {
            LineProgress::Done(text) => {
                return (text, taken);
            },
            LineProgress::More => {},
        }
    }
    match line.step(ReadEvent::Closed) {
        LineProgress::Done(text) => (text, taken),
        LineProgress::More => (None, taken),
    }
}

/// A single character other than a line feed has no line feed in its encoding.
proof fn lemma_no_newline_in_scalar(c: char)
    requires
        c != '\n',
    ensures
        !encode_scalar(c as u32).contains(10u8),
{
    let v = c as u32;
    char_is_scalar(c);
    assert(v <= 0x7f && v != 10 ==> (v & 0x7f) as u8 != 10) by (bit_vector);
    assert(0xC0u8 | ((v >> 6) & 0x1F) as u8 != 10) by (bit_vector);
    assert(0xE0u8 | ((v >> 12) & 0x0F) as u8 != 10) by (bit_vector);
    assert(0xF0u8 | ((v >> 18) & 0x7) as u8 != 10) by (bit_vector);
    assert(0x80u8 | (v & 0x3F) as u8 != 10) by (bit_vector);
    assert(0x80u8 | ((v >> 6) & 0x3F) as u8 != 10) by (bit_vector);
    assert(0x80u8 | ((v >> 12) & 0x3F) as u8 != 10) by (bit_vector);
}

/// A text without a line feed has no line feed in its encoding.
proof fn lemma_no_newline_in_encoding(text: Seq<char>)
    requires
        !text.contains('\n'),
    ensures
        !encode_utf8(text).contains(10u8),
    decreases text.len(),
{
    if text.len() > 0 {
        assert(text.contains(text[0]));
        lemma_no_newline_in_scalar(text[0]);
        assert forall|i: int| 0 <= i < text.drop_first().len() implies text.drop_first()[i]
            != '\n' by {
            assert(text.contains(text[i + 1]));
        }
        lemma_no_newline_in_encoding(text.drop_first());
        let head = encode_scalar(text[0] as u32);
        let tail = encode_utf8(text.drop_first());
        assert forall|i: int| 0 <= i < encode_utf8(text).len() implies encode_utf8(text)[i]
            != 10u8 by {
            if i < head.len() {
                assert(head.contains(head[i]));
            } else {
                assert(tail.contains(tail[i - head.len()]));
            }
        }
    }
}

/// Law: a line that is sent with a line feed behind it arrives as it was sent,
/// and what follows it stays in the stream, provided that it holds no line feed of
/// its own and is not implausibly long.
pub proof fn law_sent_line_arrives(line: Seq<char>, rest: Seq<u8>)
    requires
        !line.contains('\n'),
        encode_utf8(line).len() <= CONTROL_LINE_LIMIT,
    ensures
        control_line(encode_utf8(line) + seq![10u8] + rest) == (
            Some(line),
            (encode_utf8(line).len() + 1) as int,
        ),
{
    let bytes = encode_utf8(line);
    let input = bytes + seq![10u8] + rest;
    lemma_no_newline_in_encoding(line);
    input.index_of_first_ensures(10u8);
    assert(input[bytes.len() as int] == 10u8);
    assert(input.contains(10u8));
    let end = input.index_of_first(10u8)->0;
    assert(end == bytes.len()) by {
        if end < bytes.len() {
            assert(bytes[end] == 10u8);
            assert(bytes.contains(10u8));
        }
    }
    assert(input.take(end) == bytes);
    encode_utf8_valid_utf8(line);
    encode_utf8_decode_utf8(line);
}

/// Law: what one read does to a line. Any byte but a line feed is added to it, and it is
/// given up with the first byte past the 8192nd. A line feed ends it: the line is the text
/// that its bytes encode, where they are UTF-8. A closed stream or a failed read ends it
/// without a line.
pub proof fn law_step(line: &mut ControlLine, event: ReadEvent, res: LineProgress)
    requires
        call_ensures(ControlLine::step, (line, event), res),
    ensures
        event matches ReadEvent::Byte(b) ==> b != 10 ==> {
            &&& final(line)@ == old(line)@.push(b)
            &&& res is More <==> old(line)@.len() < 8192
            &&& res is More || res == LineProgress::Done(None)
        },
        event == ReadEvent::Byte(10) ==> match res {
            LineProgress::Done(Some(text)) => valid_utf8(old(line)@) && text@ == decode_utf8(
                old(line)@,
            ),
            LineProgress::Done(None) => !valid_utf8(old(line)@),
            LineProgress::More => false,
        },
        event is Closed || event is Failed ==> res == LineProgress::Done(None),
{
}

/// Law: what is read of a stream with a line feed at `end` and none before it: the bytes
/// up to there, as text, where they are at most 8192 and UTF-8. No byte behind the line
/// feed is taken, nor any behind the 8193rd.
pub proof fn law_read_control_line(input: &[u8], res: (Option<String>, usize), end: int)
    requires
        call_ensures(read_control_line, (input,), res),
        0 <= end < input@.len(),
        input@[end] == 10,
        forall|j: int| 0 <= j < end ==> input@[j] != 10,
    ensures
        end <= 8192 ==> res.1 == end + 1,
        end <= 8192 ==> match res.0 {
            Some(text) => valid_utf8(input@.take(end)) && text@ == decode_utf8(input@.take(end)),
            None => !valid_utf8(input@.take(end)),
        },
        end > 8192 ==> res.0 is None && res.1 == 8193,
{
    input@.index_of_first_ensures(10u8);
    assert(input@.contains(10u8));
    let first = input@.index_of_first(10u8)->0;
    assert(first == end) by {
        if first < end {
            assert(input@[first] != 10);
        }
    }
}

/// Law: a stream without a line feed gives no line; it is read to its end, or to the
/// 8193rd byte.
pub proof fn law_no_control_line(input: &[u8], res: (Option<String>, usize))
    requires
        call_ensures(read_control_line, (input,), res),
        forall|j: int| 0 <= j < input@.len() ==> input@[j] != 10,
    ensures
        res.0 is None,
        input@.len() <= 8192 ==> res.1 == input@.len(),
        input@.len() > 8192 ==> res.1 == 8193,
{
    input@.index_of_first_ensures(10u8);
}

/// Law: a line starts out empty.
pub proof fn law_new(line: ControlLine)
    requires
        call_ensures(ControlLine::new, (), line),
    ensures
        line@.len() == 0,
{
}

} // verus!
