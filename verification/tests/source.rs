use sigma_racer::io::IoFailure;
use sigma_racer::source::{relay_lines, SourceRead, SourceStep, SourceStop, TelemetrySource};

fn read(line: &str) -> SourceRead {
    SourceRead::Read(line.as_bytes().to_vec())
}

fn failed(bytes: &[u8], failure: IoFailure) -> SourceRead {
    SourceRead::Failed { bytes: bytes.to_vec(), failure }
}

fn step(read: SourceRead) -> SourceStep {
    TelemetrySource::new().step(&read)
}

#[test]
fn forwards_complete_lines_only() {
    assert!(matches!(step(read("{}x\n")), SourceStep::Forward(l) if l == "{}x\n"));
    assert!(matches!(step(read("{}x")), SourceStep::Skip));
    assert!(matches!(step(read(" \t\n")), SourceStep::Skip));
    assert!(matches!(step(read("\u{a0}\u{3000}\n")), SourceStep::Skip));
    assert!(matches!(step(read("\u{200b}\n")), SourceStep::Forward(_)));
    assert!(matches!(step(read("")), SourceStep::Stop(SourceStop::Ended)));
}

#[test]
fn waits_out_an_idle_source() {
    assert!(matches!(step(failed(b"", IoFailure::WouldBlock)), SourceStep::Retry));
    assert!(matches!(step(failed(b"", IoFailure::TimedOut)), SourceStep::Retry));
    assert!(matches!(
        step(failed(b"x", IoFailure::Other)),
        SourceStep::Stop(SourceStop::Failed(IoFailure::Other))
    ));
    assert!(matches!(
        step(failed(b"", IoFailure::UnexpectedEof)),
        SourceStep::Stop(SourceStop::Failed(IoFailure::UnexpectedEof))
    ));
}

#[test]
fn a_line_read_in_pieces_is_forwarded_whole() {
    let reads = [
        failed(b"{\"a\":", IoFailure::WouldBlock),
        read("1}\n"),
        read(""),
    ];
    let (lines, stop) = relay_lines(&reads);
    assert_eq!(lines, ["{\"a\":1}\n"]);
    assert_eq!(stop, Some(SourceStop::Ended));
}

#[test]
fn a_timeout_may_fall_into_a_character() {
    let bytes = "\u{20ac}\n".as_bytes();
    let reads = [
        failed(&bytes[..1], IoFailure::TimedOut),
        failed(&bytes[1..2], IoFailure::WouldBlock),
        SourceRead::Read(bytes[2..].to_vec()),
        read("next\n"),
    ];
    let (lines, stop) = relay_lines(&reads);
    assert_eq!(lines, ["\u{20ac}\n", "next\n"]);
    assert_eq!(stop, None);
}

#[test]
fn a_skipped_line_leaves_nothing_behind() {
    let reads = [
        failed(b" ", IoFailure::TimedOut),
        read("\n"),
        read("{}\n"),
        failed(b"", IoFailure::Other),
        read("late\n"),
    ];
    let (lines, stop) = relay_lines(&reads);
    assert_eq!(lines, ["{}\n"]);
    assert_eq!(stop, Some(SourceStop::Failed(IoFailure::Other)));
}

#[test]
fn a_source_that_sends_no_text_is_given_up() {
    let reads = [SourceRead::Read(vec![0xff, b'\n']), read("{}\n")];
    let (lines, stop) = relay_lines(&reads);
    assert!(lines.is_empty());
    assert_eq!(stop, Some(SourceStop::NotText));
}
