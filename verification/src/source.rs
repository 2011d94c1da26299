//! The relay's telemetry source: a stream of lines, read with a timeout.
//!
//! A read that times out may have brought the first part of a line. That part is
//! kept, so that a line is handed on whole, however many reads it took.

use vstd::prelude::*;

use crate::io::IoFailure;
use crate::text::{ends_with_newline, is_blank, text_from_utf8};

verus! {

/// What one read up to the next line feed brought.
#[derive(Debug)]
pub enum SourceRead {
    /// The read came to an end with these bytes: none where the source has ended.
    Read(Vec<u8>),
    /// The read failed, after it had brought these bytes.
    Failed { bytes: Vec<u8>, failure: IoFailure },
}

/// The mathematical counterpart of [`SourceRead`].
pub enum SourceReadView {
    Read(Seq<u8>),
    Failed { bytes: Seq<u8>, failure: IoFailure },
}

impl View for SourceRead {
    type V = SourceReadView;

    open spec fn view(&self) -> SourceReadView {
        match *self {
            SourceRead::Read(bytes) => SourceReadView::Read(bytes@),
            SourceRead::Failed { bytes, failure } => SourceReadView::Failed {
                bytes: bytes@,
                failure,
            },
        }
    }
}

/// Why the relay gives a source up.
#[derive(Debug, Clone, Copy, PartialEq, Eq, Structural)]
pub enum SourceStop {
    /// It has ended.
    Ended,
    /// It sent bytes that are not UTF-8.
    NotText,
    /// A read failed.
    Failed(IoFailure),
}

/// What the relay does next with the telemetry source.
#[derive(Debug)]
pub enum SourceStep {
    /// Hand the line to the clients, and read on.
    Forward(String),
    /// Drop what was read, and read on.
    Skip,
    /// Nothing has arrived for a while: read on.
    Retry,
    /// The source is gone: reconnect.
    Stop(SourceStop),
}

/// The mathematical counterpart of [`SourceStep`].
pub enum SourceStepView {
    Forward(Seq<char>),
    Skip,
    Retry,
    Stop(SourceStop),
}

impl View for SourceStep {
    type V = SourceStepView;

    open spec fn view(&self) -> SourceStepView {
        match *self {
            SourceStep::Forward(line) => SourceStepView::Forward(line@),
            SourceStep::Skip => SourceStepView::Skip,
            SourceStep::Retry => SourceStepView::Retry,
            SourceStep::Stop(stop) => SourceStepView::Stop(stop),
        }
    }
}

/// Whether a line from the telemetry source is for the clients: it is complete and
/// not blank.
pub open spec fn telemetry_line(line: Seq<char>) -> bool {
    crate::text::newline_terminated(line) && !crate::text::blank(line)
}

/// Whether a failed read only means that nothing has arrived for a while.
pub open spec fn is_pause(failure: IoFailure) -> bool {
    failure is WouldBlock || failure is TimedOut
}

/// What follows a read, where `gathered` is what earlier reads brought of the line, and
/// what has then been gathered of the next line.
pub open spec fn decided(gathered: Seq<u8>, read: SourceReadView) -> (SourceStepView, Seq<u8>) {
    match read {
        SourceReadView::Read(bytes) => if bytes.len() == 0 {
            (SourceStepView::Stop(SourceStop::Ended), Seq::empty())
        } else {
            match crate::control_line::decoded(gathered + bytes) {
                Some(line) => if telemetry_line(line) {
                    (SourceStepView::Forward(line), Seq::empty())
                } else {
                    (SourceStepView::Skip, Seq::empty())
                },
                None => (SourceStepView::Stop(SourceStop::NotText), Seq::empty()),
            }
        },
        SourceReadView::Failed { bytes, failure } => if is_pause(failure) {
            (SourceStepView::Retry, gathered + bytes)
        } else {
            (SourceStepView::Stop(SourceStop::Failed(failure)), Seq::empty())
        },
    }
}

/// A telemetry source, with what has been read of its current line.
pub struct TelemetrySource {
    gathered: Vec<u8>,
}

impl View for TelemetrySource {
    type V = Seq<u8>;

    closed spec fn view(&self) -> Seq<u8> {
        self.gathered@
    }
}

impl TelemetrySource {
    /// A source of which nothing has been read.
    pub fn new() -> (res: TelemetrySource)
        ensures
            res@ == Seq::<u8>::empty(),
    {
        TelemetrySource { gathered: Vec::new() }
    }

    /// What has been gathered, which is then no longer kept.
    fn take(&mut self) -> (res: Vec<u8>)
        ensures
            res@ == old(self)@,
            final(self)@ == Seq::<u8>::empty(),
    {
        let mut taken: Vec<u8> = Vec::new();
        taken.append(&mut self.gathered);
        taken
    }

    /// Decides what follows a read, and keeps what a read that timed out has brought.
    pub fn step(&mut self, read: &SourceRead) -> (res: SourceStep)
        ensures
            (res@, final(self)@) == decided(old(self)@, read@),
    {
        match read {
            SourceRead::Read(bytes) => {
                if bytes.len() == 0 {
                    self.gathered.clear();
                    return SourceStep::Stop(SourceStop::Ended);
                }
                self.gathered.extend_from_slice(bytes.as_slice());
                assert(self@ == old(self)@ + bytes@);
                match text_from_utf8(self.take()) {
                    Some(line) => if ends_with_newline(line.as_str()) && !is_blank(line.as_str()) {
                        SourceStep::Forward(line)
                    } else {
                        SourceStep::Skip
                    },
                    None => SourceStep::Stop(SourceStop::NotText),
                }
            },
            SourceRead::Failed { bytes, failure } => {
                match failure {
                    IoFailure::WouldBlock | IoFailure::TimedOut => {
                        self.gathered.extend_from_slice(bytes.as_slice());
                        assert(self@ == old(self)@ + bytes@);
                        SourceStep::Retry
                    },
                    _ => {
                        self.gathered.clear();
                        SourceStep::Stop(SourceStop::Failed(*failure))
                    },
                }
            },
        }
    }
}

/// The lines that are handed to the clients over some reads, and why the source was
/// given up, where it was.
pub open spec fn relayed(gathered: Seq<u8>, reads: Seq<SourceReadView>) -> (
    Seq<Seq<char>>,
    Option<SourceStop>,
)
    decreases reads.len(),
{
    if reads.len() == 0 {
        (Seq::empty(), None)
    } else {
        let (step, kept) = decided(gathered, reads[0]);
        let (lines, stop) = relayed(kept, reads.skip(1));
        match step {
            SourceStepView::Stop(stop) => (Seq::empty(), Some(stop)),
            SourceStepView::Forward(line) => (seq![line] + lines, stop),
            _ => (lines, stop),
        }
    }
}

/// The mathematical counterpart of a list of lines.
pub open spec fn line_views(lines: Seq<String>) -> Seq<Seq<char>> {
    lines.map_values(|line: String| line@)
}

/// The mathematical counterpart of a list of reads.
pub open spec fn read_views(reads: Seq<SourceRead>) -> Seq<SourceReadView> {
    reads.map_values(|read: SourceRead| read@)
}

/// The lines that are handed to the clients over the given reads of a fresh source, and
/// why it was given up, where it was.
pub fn relay_lines(reads: &[SourceRead]) -> (res: (Vec<String>, Option<SourceStop>))
    ensures
        (line_views(res.0@), res.1) == relayed(Seq::empty(), read_views(reads@)),
{
    let mut source = TelemetrySource::new();
    let mut lines: Vec<String> = Vec::new();
    let mut next: usize = 0;
    let ghost all = relayed(Seq::empty(), read_views(reads@));
    assert(read_views(reads@).skip(0) == read_views(reads@));
    assert(line_views(lines@) + all.0 == all.0);
    while next < reads.len()
        invariant
            next <= reads@.len(),
            all == relayed(Seq::empty(), read_views(reads@)),
            ({
                let rest = relayed(source@, read_views(reads@).skip(next as int));
                (line_views(lines@) + rest.0, rest.1) == all
            }),
        decreases reads@.len() - next,
    {
        let ghost left = read_views(reads@).skip(next as int);
        let ghost before = lines@;
        assert(left[0] == reads@[next as int]@);
        assert(left.skip(1) == read_views(reads@).skip(next + 1));
        match source.step(&reads[next]) {
            SourceStep::Forward(line) => {
                lines.push(line);
                assert(line_views(lines@) == line_views(before).push(line@));
                let ghost rest = relayed(source@, left.skip(1));
                assert(line_views(before).push(line@) + rest.0 == line_views(before) + (
                seq![line@] + rest.0));
            },
            SourceStep::Skip => {},
            SourceStep::Retry => {},
            SourceStep::Stop(stop) => {
                assert(line_views(lines@) + Seq::<Seq<char>>::empty() == line_views(lines@));
                return (lines, Some(stop));
            },
        }
        next = next + 1;
    }
    assert(line_views(lines@) + Seq::<Seq<char>>::empty() == line_views(lines@));
    (lines, None)
}

/// Reads that timed out, whatever they had brought.
pub open spec fn all_pauses(reads: Seq<SourceReadView>) -> bool {
    forall|i: int|
        0 <= i < reads.len() ==> (#[trigger] reads[i] matches SourceReadView::Failed {
            failure,
            ..
        } && is_pause(failure))
}

/// The bytes that some reads brought, one after the other.
pub open spec fn brought(reads: Seq<SourceReadView>) -> Seq<u8>
    decreases reads.len(),
{
    if reads.len() == 0 {
        Seq::empty()
    } else {
        (match reads[0] {
            SourceReadView::Read(bytes) => bytes,
            SourceReadView::Failed { bytes, .. } => bytes,
        }) + brought(reads.skip(1))
    }
}

/// Law: a line that is read in pieces, with a timeout behind every piece but the last,
/// is dealt with as if it had been read at once; what follows it is, too.
pub proof fn law_pauses_make_no_difference(
    gathered: Seq<u8>,
    pauses: Seq<SourceReadView>,
    last: Seq<u8>,
    later: Seq<SourceReadView>,
)
    requires
        all_pauses(pauses),
        last.len() > 0,
    ensures
        relayed(gathered, pauses + seq![SourceReadView::Read(last)] + later) == relayed(
            gathered,
            seq![SourceReadView::Read(brought(pauses) + last)] + later,
        ),
    decreases pauses.len(),
{
    let whole = pauses + seq![SourceReadView::Read(last)] + later;
    let at_once = seq![SourceReadView::Read(brought(pauses) + last)] + later;
    assert(at_once.skip(1) == later);
    if pauses.len() == 0 {
        assert(brought(pauses) + last == last);
        assert(whole == at_once);
    } else {
        assert(whole[0] == pauses[0]);
        assert(whole.skip(1) == pauses.skip(1) + seq![SourceReadView::Read(last)] + later);
        let piece = pauses[0]->bytes;
        assert(all_pauses(pauses.skip(1)));
        law_pauses_make_no_difference(gathered + piece, pauses.skip(1), last, later);
        let rest = brought(pauses.skip(1)) + last;
        assert(gathered + piece + rest == gathered + (brought(pauses) + last));
        assert((seq![SourceReadView::Read(rest)] + later).skip(1) == later);
    }
}

/// Law: a complete line that is not blank is handed to the clients exactly once and
/// whole, however many timeouts fall into it, and what follows it is read afresh.
pub proof fn law_line_is_forwarded_whole(
    line: Seq<char>,
    pauses: Seq<SourceReadView>,
    last: Seq<u8>,
    later: Seq<SourceReadView>,
)
    requires
        line.len() > 0,
        line[line.len() - 1] == '\n',
        exists|i: int| 0 <= i < line.len() && !crate::text::is_white_space(#[trigger] line[i]),
        all_pauses(pauses),
        last.len() > 0,
        brought(pauses) + last == vstd::utf8::encode_utf8(line),
    ensures
        ({
            let after = relayed(Seq::empty(), later);
            relayed(Seq::empty(), pauses + seq![SourceReadView::Read(last)] + later) == (
                seq![line] + after.0,
                after.1,
            )
        }),
{
    law_pauses_make_no_difference(Seq::empty(), pauses, last, later);
    let bytes = vstd::utf8::encode_utf8(line);
    vstd::utf8::encode_utf8_valid_utf8(line);
    vstd::utf8::encode_utf8_decode_utf8(line);
    assert(Seq::<u8>::empty() + bytes == bytes);
    assert((seq![SourceReadView::Read(bytes)] + later).skip(1) == later);
}

/// Law: what one read of a source leads to. With the bytes that the read ended with behind
/// those gathered before, a complete line, one that ends with a line feed and holds some
/// character that is not white space, is forwarded as it is, of whatever length; any other
/// text is skipped. Nothing of it is kept.
pub proof fn law_step_forwards(
    source: &mut TelemetrySource,
    read: &SourceRead,
    bytes: Vec<u8>,
    line: Seq<char>,
    res: SourceStep,
)
    requires
        call_ensures(TelemetrySource::step, (source, read), res),
        *read == SourceRead::Read(bytes),
        bytes@.len() > 0,
        old(source)@ + bytes@ == vstd::utf8::encode_utf8(line),
    ensures
        final(source)@.len() == 0,
        line.len() > 0 && line[line.len() - 1] == '\n' && (exists|i: int|
            0 <= i < line.len() && !crate::text::is_white_space(#[trigger] line[i])) ==> (
        res matches SourceStep::Forward(forwarded) && forwarded@ == line),
        !(line.len() > 0 && line[line.len() - 1] == '\n' && exists|i: int|
            0 <= i < line.len() && !crate::text::is_white_space(#[trigger] line[i])) ==> res
            is Skip,
{
    vstd::utf8::encode_utf8_valid_utf8(line);
    vstd::utf8::encode_utf8_decode_utf8(line);
}

/// Law: only a text that was read is forwarded: the bytes gathered and read, decoded, which
/// end with a line feed and are not all white space.
pub proof fn law_step_forwards_only_lines(
    source: &mut TelemetrySource,
    read: &SourceRead,
    line: String,
)
    requires
        call_ensures(TelemetrySource::step, (source, read), SourceStep::Forward(line)),
    ensures
        *read matches SourceRead::Read(bytes) && bytes@.len() > 0 && vstd::utf8::valid_utf8(
            old(source)@ + bytes@,
        ) && line@ == vstd::utf8::decode_utf8(old(source)@ + bytes@),
        line@.len() > 0 && line@[line@.len() - 1] == '\n',
        exists|i: int| 0 <= i < line@.len() && !crate::text::is_white_space(#[trigger] line@[i]),
{
}

/// Law: what the other reads of a source lead to. One that brings nothing has ended it;
/// bytes that are not UTF-8 give it up; a timeout keeps what it brought behind what was
/// gathered, and is waited out; any other failure gives the source up, with that failure.
pub proof fn law_step_otherwise(
    source: &mut TelemetrySource,
    read: &SourceRead,
    res: SourceStep,
)
    requires
        call_ensures(TelemetrySource::step, (source, read), res),
    ensures
        *read matches SourceRead::Read(bytes) ==> bytes@.len() == 0 ==> res == SourceStep::Stop(
            SourceStop::Ended,
        ),
        *read matches SourceRead::Read(bytes) ==> bytes@.len() > 0 ==> !vstd::utf8::valid_utf8(
            old(source)@ + bytes@,
        ) ==> res == SourceStep::Stop(SourceStop::NotText),
        *read matches SourceRead::Failed { bytes, failure } ==> if failure == IoFailure::WouldBlock
            || failure == IoFailure::TimedOut {
            res is Retry && final(source)@ == old(source)@ + bytes@
        } else {
            res == SourceStep::Stop(SourceStop::Failed(failure))
        },
{
}

/// Law: over some reads of a fresh source, a complete line that is not blank and that the
/// first read brings whole is handed on first, and after it what the reads behind it
/// give, with their reason for giving the source up.
pub proof fn law_relay_lines(
    reads: &[SourceRead],
    res: (Vec<String>, Option<SourceStop>),
    later: &[SourceRead],
    later_res: (Vec<String>, Option<SourceStop>),
    bytes: Vec<u8>,
    line: Seq<char>,
)
    requires
        call_ensures(relay_lines, (reads,), res),
        call_ensures(relay_lines, (later,), later_res),
        reads@ == seq![SourceRead::Read(bytes)] + later@,
        bytes@ == vstd::utf8::encode_utf8(line),
        bytes@.len() > 0,
    ensures
        res.1 == later_res.1,
        line.len() > 0 && line[line.len() - 1] == '\n' && (exists|i: int|
            0 <= i < line.len() && !crate::text::is_white_space(#[trigger] line[i])) ==> {
            &&& res.0@.len() == later_res.0@.len() + 1
            &&& res.0@[0]@ == line
            &&& forall|i: int|
                0 <= i < later_res.0@.len() ==> res.0@[i + 1]@ == (#[trigger] later_res.0@[i])@
        },
        !(line.len() > 0 && line[line.len() - 1] == '\n' && exists|i: int|
            0 <= i < line.len() && !crate::text::is_white_space(#[trigger] line[i])) ==> {
            &&& res.0@.len() == later_res.0@.len()
            &&& forall|i: int|
                0 <= i < later_res.0@.len() ==> res.0@[i]@ == (#[trigger] later_res.0@[i])@
        },
{
    let views = read_views(reads@);
    assert(views[0] == SourceReadView::Read(bytes@));
    assert(views.skip(1) == read_views(later@));
    assert(Seq::<u8>::empty() + bytes@ == bytes@);
    vstd::utf8::encode_utf8_valid_utf8(line);
    vstd::utf8::encode_utf8_decode_utf8(line);
    assert(line_views(res.0@).len() == res.0@.len());
    assert(line_views(later_res.0@).len() == later_res.0@.len());
    assert forall|i: int| 0 <= i < res.0@.len() implies line_views(res.0@)[i] == #[trigger] res.0@[
        i
    ]@ by {}
    assert forall|i: int| 0 <= i < later_res.0@.len() implies line_views(later_res.0@)[i]
        == #[trigger] later_res.0@[i]@ by {}
    let forwarded = telemetry_line(line);
    if forwarded {
        let all = seq![line] + line_views(later_res.0@);
        assert(line_views(res.0@) == all);
        assert(all[0] == line);
        assert forall|i: int| 0 <= i < later_res.0@.len() implies res.0@[i + 1]@ == (
        #[trigger] later_res.0@[i])@ by {
            assert(all[i + 1] == line_views(later_res.0@)[i]);
            assert(line_views(res.0@)[i + 1] == res.0@[i + 1]@);
        }
        assert(line_views(res.0@)[0] == res.0@[0]@);
    } else {
        assert(line_views(res.0@) == line_views(later_res.0@));
        assert forall|i: int| 0 <= i < later_res.0@.len() implies res.0@[i]@ == (
        #[trigger] later_res.0@[i])@ by {
            assert(line_views(res.0@)[i] == line_views(later_res.0@)[i]);
        }
    }
}

/// Law: over some reads of a fresh source, a timeout in front of the read that ends a line
/// makes no difference: the lines are those of one read that brings both parts.
pub proof fn law_relay_lines_over_a_pause(
    reads: &[SourceRead],
    res: (Vec<String>, Option<SourceStop>),
    at_once: &[SourceRead],
    at_once_res: (Vec<String>, Option<SourceStop>),
    later: Seq<SourceRead>,
    piece: Vec<u8>,
    failure: IoFailure,
    last: Vec<u8>,
    whole: Vec<u8>,
)
    requires
        call_ensures(relay_lines, (reads,), res),
        call_ensures(relay_lines, (at_once,), at_once_res),
        failure == IoFailure::WouldBlock || failure == IoFailure::TimedOut,
        last@.len() > 0,
        whole@ == piece@ + last@,
        reads@ == seq![
            SourceRead::Failed { bytes: piece, failure },
            SourceRead::Read(last),
        ] + later,
        at_once@ == seq![SourceRead::Read(whole)] + later,
    ensures
        res.1 == at_once_res.1,
        res.0@.len() == at_once_res.0@.len(),
        forall|i: int| 0 <= i < res.0@.len() ==> (#[trigger] res.0@[i])@ == at_once_res.0@[i]@,
{
    let pauses = seq![SourceReadView::Failed { bytes: piece@, failure }];
    let rest = read_views(later);
    law_pauses_make_no_difference(Seq::empty(), pauses, last@, rest);
    reveal_with_fuel(brought, 2);
    assert(pauses.skip(1) == Seq::<SourceReadView>::empty());
    assert(brought(pauses) == piece@);
    assert(read_views(reads@) == pauses + seq![SourceReadView::Read(last@)] + rest);
    assert(read_views(at_once@) == seq![SourceReadView::Read(whole@)] + rest);
    assert(line_views(res.0@) == line_views(at_once_res.0@));
    assert(line_views(res.0@).len() == res.0@.len());
    assert(line_views(at_once_res.0@).len() == at_once_res.0@.len());
    assert forall|i: int| 0 <= i < res.0@.len() implies (#[trigger] res.0@[i])@
        == at_once_res.0@[i]@ by {
        assert(line_views(res.0@)[i] == line_views(at_once_res.0@)[i]);
    }
}

/// Law: over some reads of a fresh source, one that brings nothing, or that fails otherwise
/// than by a timeout, ends the relaying without a line; no reads give no line and no reason.
pub proof fn law_relay_lines_end(reads: &[SourceRead], res: (Vec<String>, Option<SourceStop>))
    requires
        call_ensures(relay_lines, (reads,), res),
    ensures
        reads@.len() == 0 ==> res.0@.len() == 0 && res.1 is None,
        reads@.len() > 0 && (reads@[0] matches SourceRead::Read(bytes) && bytes@.len() == 0)
            ==> res.0@.len() == 0 && res.1 == Some(SourceStop::Ended),
        reads@.len() > 0 ==> (reads@[0] matches SourceRead::Failed { failure, .. } ==> failure
            != IoFailure::WouldBlock && failure != IoFailure::TimedOut ==> res.0@.len() == 0
            && res.1 == Some(SourceStop::Failed(failure))),
{
    assert(line_views(res.0@).len() == res.0@.len());
    if reads@.len() > 0 {
        assert(read_views(reads@)[0] == reads@[0]@);
    }
}

/// Law: of a source, nothing has been gathered at first.
pub proof fn law_new(source: TelemetrySource)
    requires
        call_ensures(TelemetrySource::new, (), source),
    ensures
        source@.len() == 0,
{
}

} // verus!
