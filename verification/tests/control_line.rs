use sigma_racer::control_line::{
    read_control_line, ControlLine, LineProgress, ReadEvent, CONTROL_LINE_LIMIT,
};

fn line(text: &str) -> Option<String> {
    Some(text.to_string())
}

#[test]
fn takes_one_line_and_nothing_more() {
    assert_eq!(read_control_line(b"hello\nworld\n"), (line("hello"), 6));
    assert_eq!(read_control_line(b"\nx"), (line(""), 1));
    assert_eq!(read_control_line("\u{fc}ber\n".as_bytes()), (line("\u{fc}ber"), 6));
    assert_eq!(read_control_line(b"a\r\nb"), (line("a\r"), 3));
}

#[test]
fn gives_up_on_an_unfinished_line() {
    assert_eq!(read_control_line(b"hello"), (None, 5));
    assert_eq!(read_control_line(b""), (None, 0));
}

#[test]
fn gives_up_on_bytes_that_are_no_text() {
    assert_eq!(read_control_line(&[0xff, b'a', b'\n', b'b']), (None, 3));
}

#[test]
fn gives_up_on_an_implausibly_long_line() {
    let mut longest = vec![b'x'; CONTROL_LINE_LIMIT];
    longest.push(b'\n');
    assert_eq!(read_control_line(&longest), (line(&"x".repeat(8192)), 8193));
    let mut too_long = vec![b'x'; CONTROL_LINE_LIMIT + 1];
    too_long.push(b'\n');
    assert_eq!(read_control_line(&too_long), (None, 8193));
}

#[test]
fn gathers_a_line_byte_by_byte() {
    let mut gathered = ControlLine::new();
    for byte in "Subscribe".bytes() {
        assert!(matches!(gathered.step(ReadEvent::Byte(byte)), LineProgress::More));
    }
    match gathered.step(ReadEvent::Byte(b'\n')) {
        LineProgress::Done(text) => assert_eq!(text, line("Subscribe")),
        LineProgress::More => panic!("line not complete"),
    }
}

#[test]
fn a_silent_or_broken_client_has_no_line() {
    for event in [ReadEvent::Closed, ReadEvent::Failed] {
        let mut gathered = ControlLine::new();
        assert!(matches!(gathered.step(ReadEvent::Byte(b'a')), LineProgress::More));
        assert!(matches!(gathered.step(event), LineProgress::Done(None)));
    }
}
