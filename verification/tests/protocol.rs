use sigma_racer::json::JsonField;
use sigma_racer::protocol::{Message, MessageError};

fn message(msg: &str, id: Option<u64>) -> Message {
    Message { msg: msg.to_string(), id }
}

#[test]
fn lines_are_compact_json() {
    assert_eq!(Message::database_query(1).to_line(), "{\"id\":1,\"msg\":\"DatabaseQuery\"}");
    assert_eq!(Message::subscribe().to_line(), "{\"msg\":\"Subscribe\"}");
    assert_eq!(message("a\n\"b\"", None).to_line(), "{\"msg\":\"a\\n\\\"b\\\"\"}");
}

#[test]
fn messages_survive_the_wire() {
    for m in [
        Message::database_query(0),
        Message::database_query(u64::MAX),
        Message::subscribe(),
        message("", Some(7)),
        message("line\nfeed \"quoted\" \u{e9}\u{1f6f5}\u{0}", None),
    ] {
        let line = m.to_line();
        assert!(!line.contains('\n'));
        assert_eq!(Message::parse_line(&line), Ok(m.clone()));
        assert_eq!(Message::parse_line(&format!("{line}\n")), Ok(m));
    }
}

#[test]
fn other_fields_are_ignored() {
    assert_eq!(
        Message::parse_line("{\"x\":[1],\"msg\":\"Subscribe\",\"y\":{\"msg\":1}}"),
        Ok(message("Subscribe", None))
    );
    assert_eq!(
        Message::parse_line(" {\"msg\":\"A\",\"msg\":\"B\",\"id\":3} "),
        Ok(message("B", Some(3)))
    );
}

#[test]
fn each_malformed_line_has_its_error() {
    assert_eq!(Message::parse_line("not json"), Err(MessageError::NotAnObject));
    assert_eq!(Message::parse_line("[\"msg\"]"), Err(MessageError::NotAnObject));
    assert_eq!(Message::parse_line(""), Err(MessageError::NotAnObject));
    assert_eq!(Message::parse_line("{\"id\":1}"), Err(MessageError::NoKind));
    assert_eq!(Message::parse_line("{\"msg\":5}"), Err(MessageError::NoKind));
    assert_eq!(Message::parse_line("{\"msg\":\"A\",\"id\":-1}"), Err(MessageError::BadId));
    assert_eq!(Message::parse_line("{\"msg\":\"A\",\"id\":\"1\"}"), Err(MessageError::BadId));
    assert_eq!(Message::parse_line("{\"msg\":\"A\",\"id\":null}"), Err(MessageError::BadId));
}

#[test]
fn validation_wants_a_kind() {
    assert_eq!(Message::parse_validated("{\"msg\":\"\"}"), Err(MessageError::NoKind));
    assert_eq!(Message::parse_validated("{\"msg\":\"A\"}"), Ok(message("A", None)));
    assert_eq!(Message::parse_validated("nope"), Err(MessageError::NotAnObject));
}

#[test]
fn errors_are_described() {
    assert_eq!(MessageError::NotAnObject.describe(), "not a JSON object");
    assert_eq!(MessageError::NoKind.describe(), "missing message kind");
    assert_eq!(MessageError::BadId.describe(), "id is not an unsigned integer");
}

#[test]
fn messages_are_picked_out_of_fields() {
    let fields = vec![
        ("id".to_string(), JsonField::Number(Some(2))),
        ("msg".to_string(), JsonField::Text("old".to_string())),
        ("flag".to_string(), JsonField::Bool(true)),
        ("msg".to_string(), JsonField::Text("new".to_string())),
    ];
    assert_eq!(Message::from_fields(&fields), Ok(message("new", Some(2))));
    assert_eq!(Message::from_fields(&vec![]), Err(MessageError::NoKind));
}

#[test]
fn the_length_of_a_line_is_bounded_by_its_kind() {
    for kind in ["", "x", "\u{1}\u{1f}\n\t", "\"\\", "\u{10ffff}\u{20ac}"] {
        let message = Message { msg: kind.to_string(), id: Some(u64::MAX) };
        let line = message.to_line();
        assert!(line.chars().count() <= 62 + 6 * kind.chars().count(), "{line}");
        assert_eq!(Message::parse_line(&line), Ok(message));
    }
    let worst = Message { msg: "\u{1f}".repeat(100), id: None };
    assert_eq!(worst.to_line().len(), 610);
}
