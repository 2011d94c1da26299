//! The messages of the query protocol: one JSON object per line.

use vstd::prelude::*;

use crate::json::{find_field, parse_object, render_object, JsonField, JsonFieldView};
use crate::text::same_text;

verus! {

/// The kind of the request for a bike's whole database.
pub const DATABASE_QUERY: &'static str = "DatabaseQuery";

/// The kind of the hello that joins the telemetry stream.
pub const SUBSCRIBE: &'static str = "Subscribe";

/// A protocol message: its kind, and the number by which its sender knows it.
#[derive(Debug, Clone, PartialEq)]
pub struct Message {
    pub msg: String,
    pub id: Option<u64>,
}

/// The mathematical counterpart of [`Message`].
pub struct MessageView {
    pub msg: Seq<char>,
    pub id: Option<u64>,
}

impl View for Message {
    type V = MessageView;

    open spec fn view(&self) -> MessageView {
        MessageView { msg: self.msg@, id: self.id }
    }
}

/// Why a line is not a message.
#[derive(Debug, Clone, Copy, PartialEq, Eq, Structural)]
pub enum MessageError {
    /// The line is not a JSON object.
    NotAnObject,
    /// The object has no text in `msg`.
    NoKind,
    /// The object's `id` is not an unsigned integer.
    BadId,
}

impl MessageError {
    /// The error in words.
    pub open spec fn words(self) -> Seq<char> {
        match self {
            MessageError::NotAnObject => "not a JSON object"@,
            MessageError::NoKind => "missing message kind"@,
            MessageError::BadId => "id is not an unsigned integer"@,
        }
    }

    /// The error in words.
    pub fn describe(self) -> (res: &'static str)
        ensures
            res@ == self.words(),
    {
        match self {
            MessageError::NotAnObject => "not a JSON object",
            MessageError::NoKind => "missing message kind",
            MessageError::BadId => "id is not an unsigned integer",
        }
    }
}

/// The object that carries a message: its kind under `msg`, and its number, where
/// it has one, under `id`.
pub open spec fn message_object(message: MessageView) -> Map<Seq<char>, JsonFieldView> {
    let kind = Map::empty().insert("msg"@, JsonFieldView::Text(message.msg));
    match message.id {
        Some(id) => kind.insert("id"@, JsonFieldView::Number(Some(id))),
        None => kind,
    }
}

/// The message that an object carries. Fields other than `msg` and `id` are
/// ignored.
pub open spec fn message_in(object: Map<Seq<char>, JsonFieldView>) -> Result<
    MessageView,
    MessageError,
> {
    match crate::json::field_named(object, "msg"@) {
        Some(JsonFieldView::Text(msg)) => match crate::json::field_named(
            object,
            "id"@,
        ) {
            None => Ok(MessageView { msg, id: None }),
            Some(JsonFieldView::Number(Some(id))) => Ok(
                MessageView { msg, id: Some(id) },
            ),
            Some(_) => Err(MessageError::BadId),
        },
        _ => Err(MessageError::NoKind),
    }
}

/// The message that a line holds.
pub open spec fn message_on(line: Seq<char>) -> Result<MessageView, MessageError> {
    match crate::json::json_object(line) {
        Some(object) => message_in(object),
        None => Err(MessageError::NotAnObject),
    }
}

/// The message that a line holds, where it also names a kind.
pub open spec fn valid_message_on(line: Seq<char>) -> Result<MessageView, MessageError> {
    match message_on(line) {
        Ok(message) => if message.msg.len() == 0 {
            Err(MessageError::NoKind)
        } else {
            Ok(message)
        },
        Err(error) => Err(error),
    }
}

/// Whether an executable outcome is the given mathematical one.
pub open spec fn same_outcome(
    res: Result<Message, MessageError>,
    expected: Result<MessageView, MessageError>,
) -> bool {
    match res {
        Ok(message) => expected == Ok::<MessageView, MessageError>(message@),
        Err(error) => expected == Err::<MessageView, MessageError>(error),
    }
}

impl Message {
    /// The request for a bike's whole database.
    pub fn database_query(id: u64) -> (res: Message)
        ensures
            res@ == (MessageView { msg: DATABASE_QUERY@, id: Some(id) }),
    {
        Message { msg: DATABASE_QUERY.to_owned(), id: Some(id) }
    }

    /// The hello that joins the telemetry stream.
    pub fn subscribe() -> (res: Message)
        ensures
            res@ == (MessageView { msg: SUBSCRIBE@, id: None }),
    {
        Message { msg: SUBSCRIBE.to_owned(), id: None }
    }

    /// The message as a line, without a line feed. Law: the line is a single one that
    /// is not blank, and reading it gives the message back, with and without a line
    /// feed behind it. Its length is bounded by that of the message's kind.
    pub fn to_line(&self) -> (res: String)
        ensures
            res@ == crate::json::json_text(message_object(self@)),
            crate::json::json_object(res@) == Some(message_object(self@)),
            crate::json::json_object(res@.push('\n')) == Some(message_object(self@)),
            message_on(res@) == Ok::<MessageView, MessageError>(self@),
            message_on(res@.push('\n')) == Ok::<MessageView, MessageError>(self@),
            !res@.contains('\n'),
            !crate::text::blank(res@),
            res@.len() <= 62 + 6 * self@.msg.len(),
    {
        proof {
            reveal_strlit("msg");
            reveal_strlit("id");
            assert("msg"@.len() != "id"@.len());
        }
        let mut fields: Vec<(String, JsonField)> = Vec::new();
        fields.push(("msg".to_owned(), JsonField::Text(self.msg.clone())));
        reveal_with_fuel(crate::json::object_of, 3);
        reveal_with_fuel(crate::json::object_room, 3);
        assert(fields@.drop_last() == Seq::<(String, JsonField)>::empty());
        let ghost kind_only = fields@;
        if let Some(id) = self.id {
            fields.push(("id".to_owned(), JsonField::Number(Some(id))));
            assert(fields@.drop_last() == kind_only);
        }
        assert(crate::json::object_of(fields@) == message_object(self@));
        let line = render_object(fields);
        assert(!crate::text::is_white_space(line@[0]));
        line
    }

    /// Picks a message out of an object's fields.
    pub fn from_fields(fields: &Vec<(String, JsonField)>) -> (res: Result<Message, MessageError>)
        ensures
            same_outcome(res, message_in(crate::json::object_of(fields@))),
    {
        let msg: String = match find_field(fields, "msg") {
            Some(JsonField::Text(text)) => text.clone(),
            _ => return Err(MessageError::NoKind),
        };
        match find_field(fields, "id") {
            None => Ok(Message { msg, id: None }),
            Some(JsonField::Number(Some(id))) => Ok(Message { msg, id: Some(*id) }),
            Some(_) => Err(MessageError::BadId),
        }
    }

    /// Reads a line as a message.
    pub fn parse_line(line: &str) -> (res: Result<Message, MessageError>)
        ensures
            same_outcome(res, message_on(line@)),
    {
        match parse_object(line) {
            Some(fields) => Message::from_fields(&fields),
            None => Err(MessageError::NotAnObject),
        }
    }

    /// Reads a line as a message that names a kind.
    pub fn parse_validated(line: &str) -> (res: Result<Message, MessageError>)
        ensures
            same_outcome(res, valid_message_on(line@)),
    {
        let message = Message::parse_line(line)?;
        if message.msg.as_str().is_empty() {
            return Err(MessageError::NoKind);
        }
        Ok(message)
    }

    /// Whether the message is of the given kind.
    pub fn is_kind(&self, kind: &str) -> (res: bool)
        ensures
            res == (self@.msg == kind@),
    {
        same_text(self.msg.as_str(), kind)
    }
}

/// Law: the request for a database is of the kind `DatabaseQuery` and carries the number
/// that it was given; the hello is of the kind `Subscribe` and carries none.
pub proof fn law_requests(id: u64, query: Message, hello: Message)
    requires
        call_ensures(Message::database_query, (id,), query),
        call_ensures(Message::subscribe, (), hello),
    ensures
        query.msg@ == "DatabaseQuery"@,
        query.id == Some(id),
        hello.msg@ == "Subscribe"@,
        hello.id is None,
{
}

/// Law: a message's line is a JSON object that has the message's kind under `msg`, its
/// number under `id` exactly where it has one, and nothing else. It is a single line, and
/// a line feed behind it changes nothing.
pub proof fn law_to_line(message: &Message, line: String)
    requires
        call_ensures(Message::to_line, (message,), line),
    ensures
        !line@.contains('\n'),
        line@.len() > 0,
        crate::json::json_object(line@.push('\n')) == crate::json::json_object(line@),
        crate::json::json_object(line@) matches Some(object) && {
            &&& object.contains_key("msg"@)
            &&& object["msg"@] == JsonFieldView::Text(message.msg@)
            &&& object.contains_key("id"@) <==> message.id is Some
            &&& message.id matches Some(id) ==> object["id"@] == JsonFieldView::Number(Some(id))
            &&& forall|name: Seq<char>| #[trigger]
                object.contains_key(name) ==> name == "msg"@ || name == "id"@
        },
{
    reveal_strlit("msg");
    reveal_strlit("id");
    assert("msg"@.len() != "id"@.len());
}

/// Law: what is read from a line. Where it is no JSON object, that is the error; where the
/// object has no text under `msg`, that is; otherwise the kind is that text, and the
/// number is what stands under `id`, which must be an unsigned integer if it is there.
pub proof fn law_parse_line(line: &str, res: Result<Message, MessageError>)
    requires
        call_ensures(Message::parse_line, (line,), res),
    ensures
        match crate::json::json_object(line@) {
            None => res == Err::<Message, MessageError>(MessageError::NotAnObject),
            Some(object) => if !object.contains_key("msg"@) || !(object["msg"@] is Text) {
                res == Err::<Message, MessageError>(MessageError::NoKind)
            } else if !object.contains_key("id"@) {
                res matches Ok(message) && object["msg"@] == JsonFieldView::Text(message.msg@)
                    && message.id is None
            } else {
                match object["id"@] {
                    JsonFieldView::Number(Some(id)) => res matches Ok(message)
                        && object["msg"@] == JsonFieldView::Text(message.msg@) && message.id
                        == Some(id),
                    _ => res == Err::<Message, MessageError>(MessageError::BadId),
                }
            },
        },
{
}

/// Law: a line is read with validation as without, but that an empty kind is no kind.
pub proof fn law_parse_validated(
    line: &str,
    parsed: Result<Message, MessageError>,
    res: Result<Message, MessageError>,
)
    requires
        call_ensures(Message::parse_line, (line,), parsed),
        call_ensures(Message::parse_validated, (line,), res),
    ensures
        match parsed {
            Ok(message) => if message.msg@.len() == 0 {
                res == Err::<Message, MessageError>(MessageError::NoKind)
            } else {
                res matches Ok(valid) && valid.msg@ == message.msg@ && valid.id == message.id
            },
            Err(error) => res == Err::<Message, MessageError>(error),
        },
{
}

/// Law: a message is picked out of the fields of an object as it is read from the object's
/// line.
pub proof fn law_from_fields(
    fields: &Vec<(String, JsonField)>,
    picked: Result<Message, MessageError>,
    line: &str,
    parsed: Result<Message, MessageError>,
)
    requires
        call_ensures(Message::from_fields, (fields,), picked),
        call_ensures(Message::parse_line, (line,), parsed),
        crate::json::json_object(line@) == Some(crate::json::object_of(fields@)),
    ensures
        match parsed {
            Ok(message) => picked matches Ok(same) && same.msg@ == message.msg@ && same.id
                == message.id,
            Err(error) => picked == Err::<Message, MessageError>(error),
        },
{
}

/// Law: a message that is sent as a line is the one that is read from it, with and without
/// a line feed behind it.
pub proof fn law_message_survives_the_wire(
    message: &Message,
    line: String,
    received: &str,
    res: Result<Message, MessageError>,
)
    requires
        call_ensures(Message::to_line, (message,), line),
        received@ == line@ || received@ == line@.push('\n'),
        call_ensures(Message::parse_line, (received,), res),
    ensures
        res matches Ok(read) && read.msg@ == message.msg@ && read.id == message.id,
{
    law_to_line(message, line);
    law_parse_line(received, res);
    assert(received@ == line@ ==> crate::json::json_object(received@) is Some);
}

/// Law: a message is of a kind exactly where its kind is that text.
pub proof fn law_is_kind(message: &Message, kind: &str, res: bool)
    requires
        call_ensures(Message::is_kind, (message, kind), res),
    ensures
        res <==> message.msg@ == kind@,
{
}

/// Law: every error has words of its own.
pub proof fn law_describe(a: MessageError, a_words: &'static str, b: MessageError, b_words: &'static str)
    requires
        call_ensures(MessageError::describe, (a,), a_words),
        call_ensures(MessageError::describe, (b,), b_words),
    ensures
        a == b <==> a_words@ == b_words@,
        a is NotAnObject ==> a_words@ == "not a JSON object"@,
        a is NoKind ==> a_words@ == "missing message kind"@,
        a is BadId ==> a_words@ == "id is not an unsigned integer"@,
{
    reveal_strlit("not a JSON object");
    reveal_strlit("missing message kind");
    reveal_strlit("id is not an unsigned integer");
    assert("not a JSON object"@.len() == 17);
    assert("missing message kind"@.len() == 20);
    assert("id is not an unsigned integer"@.len() == 29);
}

} // verus!
