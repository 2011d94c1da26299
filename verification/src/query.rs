//! The bike's answer to a query.
//!
//! A client sends one line; the bike replies to a `DatabaseQuery` with the raw
//! bytes of a snapshot of its database and closes the connection.

use vstd::prelude::*;

use crate::protocol::{Message, MessageError, DATABASE_QUERY};
use crate::text::{is_blank, joined};

verus! {

/// What the bike does with a request line.
#[derive(Debug, Clone, PartialEq)]
pub enum QueryPlan {
    /// The client hung up without asking anything: close.
    HungUp,
    /// Reply with a snapshot of the database.
    Snapshot,
    /// Close without a reply, for the reason given in words.
    Refuse(String),
}

/// Whether an executable plan is the one for a request that was read as `request`.
pub open spec fn planned(
    plan: QueryPlan,
    request: Result<crate::protocol::MessageView, MessageError>,
) -> bool {
    match request {
        Ok(message) => if message.msg == DATABASE_QUERY@ {
            plan is Snapshot
        } else {
            plan matches QueryPlan::Refuse(words) && words@ == "unexpected query kind "@
                + message.msg
        },
        Err(error) => plan matches QueryPlan::Refuse(words) && words@ == "bad request: "@
            + error.words(),
    }
}

/// Decides on a request that was read from its line.
pub fn plan_request(request: Result<Message, MessageError>) -> (res: QueryPlan)
    ensures
        match request {
            Ok(message) => planned(res, Ok(message@)),
            Err(error) => planned(res, Err(error)),
        },
{
    match request {
        Ok(message) => if message.is_kind(DATABASE_QUERY) {
            QueryPlan::Snapshot
        } else {
            QueryPlan::Refuse(joined("unexpected query kind ", message.msg.as_str()))
        },
        Err(error) => QueryPlan::Refuse(joined("bad request: ", error.describe())),
    }
}

/// Decides on a request line.
pub fn plan_query(line: &str) -> (res: QueryPlan)
    ensures
        if crate::text::blank(line@) {
            res is HungUp
        } else {
            planned(res, crate::protocol::valid_message_on(line@))
        },
{
    if is_blank(line) {
        return QueryPlan::HungUp;
    }
    plan_request(Message::parse_validated(line))
}

/// The bytes that answer a query: the snapshot, or nothing where there is no
/// database or no snapshot could be taken, which the shop tool reads as an
/// unprovisioned bike.
pub open spec fn snapshot_sent(snapshot: Option<Result<Vec<u8>, String>>) -> Seq<u8> {
    match snapshot {
        Some(Ok(bytes)) => bytes@,
        _ => Seq::empty(),
    }
}

/// The bytes that answer a query.
pub fn reply_bytes(snapshot: Option<Result<Vec<u8>, String>>) -> (res: Vec<u8>)
    ensures
        res@ == snapshot_sent(snapshot),
{
    match snapshot {
        Some(Ok(bytes)) => bytes,
        _ => Vec::new(),
    }
}

/// Carries a plan out, given what taking a snapshot came to where the plan asks for
/// one: the bytes to send before the connection is closed, or why nothing is sent.
pub fn answer(plan: QueryPlan, snapshot: Option<Result<Vec<u8>, String>>) -> (res: Result<
    Vec<u8>,
    String,
>)
    ensures
        match plan {
            QueryPlan::HungUp => res matches Ok(bytes) && bytes@ == Seq::<u8>::empty(),
            QueryPlan::Snapshot => res matches Ok(bytes) && bytes@ == snapshot_sent(snapshot),
            QueryPlan::Refuse(words) => res matches Err(reason) && reason@ == words@,
        },
{
    match plan {
        QueryPlan::HungUp => Ok(Vec::new()),
        QueryPlan::Snapshot => Ok(reply_bytes(snapshot)),
        QueryPlan::Refuse(words) => Err(words),
    }
}

/// Whether a request line is answered with a snapshot: it is not blank, and the valid
/// message on it is a `DatabaseQuery`.
pub open spec fn asks_for_snapshot(line: Seq<char>) -> bool {
    &&& !crate::text::blank(line)
    &&& crate::protocol::valid_message_on(line) matches Ok(message)
    &&& message.msg == DATABASE_QUERY@
}

/// The bytes and the outcome of a request line, given what taking a snapshot comes to.
pub fn answer_query(line: &str, snapshot: Option<Result<Vec<u8>, String>>) -> (res: Result<
    Vec<u8>,
    String,
>)
    ensures
        if crate::text::blank(line@) {
            res matches Ok(bytes) && bytes@ == Seq::<u8>::empty()
        } else {
            match crate::protocol::valid_message_on(line@) {
                Ok(message) => if message.msg == DATABASE_QUERY@ {
                    res matches Ok(bytes) && bytes@ == snapshot_sent(snapshot)
                } else {
                    res matches Err(reason) && reason@ == "unexpected query kind "@ + message.msg
                },
                Err(error) => res matches Err(reason) && reason@ == "bad request: "@
                    + error.words(),
            }
        },
        res matches Ok(bytes) ==> bytes@.len() > 0 ==> asks_for_snapshot(line@)
            && (snapshot matches Some(Ok(taken)) && bytes@ == taken@),
{
    answer(plan_query(line), snapshot)
}

/// Law: what a request line leads to. Without any character but white space it is a
/// hang-up; a line that cannot be read as a valid message is refused with the error in
/// words; of the messages that can, a `DatabaseQuery` gets a snapshot, whatever its number,
/// and any other kind is refused by its name.
pub proof fn law_plan_query(
    line: &str,
    parsed: Result<Message, MessageError>,
    plan: QueryPlan,
    planned_request: QueryPlan,
    error: MessageError,
    words: &'static str,
)
    requires
        call_ensures(Message::parse_validated, (line,), parsed),
        call_ensures(plan_query, (line,), plan),
        call_ensures(plan_request, (parsed,), planned_request),
        call_ensures(MessageError::describe, (error,), words),
    ensures
        (forall|i: int| 0 <= i < line@.len() ==> crate::text::is_white_space(#[trigger] line@[i]))
            ==> plan is HungUp,
        !(forall|i: int| 0 <= i < line@.len() ==> crate::text::is_white_space(#[trigger] line@[i]))
            ==> match parsed {
            Ok(message) => if message.msg@ == "DatabaseQuery"@ {
                plan is Snapshot
            } else {
                plan matches QueryPlan::Refuse(why) && why@ == "unexpected query kind "@
                    + message.msg@
            },
            Err(found) => found == error ==> (plan matches QueryPlan::Refuse(why) && why@
                == "bad request: "@ + words@),
        },
        match parsed {
            Ok(message) => if message.msg@ == "DatabaseQuery"@ {
                planned_request is Snapshot
            } else {
                planned_request matches QueryPlan::Refuse(why) && why@ == "unexpected query kind "@
                    + message.msg@
            },
            Err(found) => found == error ==> (planned_request matches QueryPlan::Refuse(why)
                && why@ == "bad request: "@ + words@),
        },
{
}

/// Law: where a snapshot was taken, the reply is that snapshot, all of it and of whatever
/// length; where there is no database, or taking the snapshot failed, it is empty.
pub proof fn law_reply_bytes(snapshot: Option<Result<Vec<u8>, String>>, res: Vec<u8>)
    requires
        call_ensures(reply_bytes, (snapshot,), res),
    ensures
        snapshot matches Some(Ok(taken)) ==> res@ == taken@,
        snapshot is None ==> res@.len() == 0,
        snapshot matches Some(Err(_)) ==> res@.len() == 0,
{
}

/// Law: a plan for a snapshot is answered with the snapshot that was taken, of whatever
/// length, and with nothing where none was; a hang-up is answered with nothing, and a
/// refusal with its words, whatever snapshot there is.
pub proof fn law_answer(
    plan: QueryPlan,
    snapshot: Option<Result<Vec<u8>, String>>,
    res: Result<Vec<u8>, String>,
)
    requires
        call_ensures(answer, (plan, snapshot), res),
    ensures
        plan is Snapshot ==> (snapshot matches Some(Ok(taken)) ==> (res matches Ok(bytes) && bytes@
            == taken@)),
        plan is Snapshot && !(snapshot matches Some(Ok(_))) ==> (res matches Ok(bytes)
            && bytes@.len() == 0),
        plan is HungUp ==> (res matches Ok(bytes) && bytes@.len() == 0),
        plan matches QueryPlan::Refuse(why) ==> (res matches Err(words) && words@ == why@),
{
}

/// Law: a line that holds a valid `DatabaseQuery` and is not blank is answered with the
/// snapshot that was taken, of whatever length; bytes are sent for no other line.
pub proof fn law_answer_query(
    line: &str,
    parsed: Result<Message, MessageError>,
    snapshot: Option<Result<Vec<u8>, String>>,
    res: Result<Vec<u8>, String>,
)
    requires
        call_ensures(Message::parse_validated, (line,), parsed),
        call_ensures(answer_query, (line, snapshot), res),
        exists|i: int| 0 <= i < line@.len() && !crate::text::is_white_space(#[trigger] line@[i]),
    ensures
        (parsed matches Ok(message) && message.msg@ == "DatabaseQuery"@) ==> (
        snapshot matches Some(Ok(taken)) ==> (res matches Ok(bytes) && bytes@ == taken@)),
        (parsed matches Ok(message) && message.msg@ == "DatabaseQuery"@) && !(
        snapshot matches Some(Ok(_))) ==> (res matches Ok(bytes) && bytes@.len() == 0),
        !(parsed matches Ok(message) && message.msg@ == "DatabaseQuery"@) ==> res is Err,
{
}

/// Law: a line without any character but white space is answered with nothing, and not
/// refused, whatever snapshot there is.
pub proof fn law_blank_line_is_answered_with_nothing(
    line: &str,
    snapshot: Option<Result<Vec<u8>, String>>,
    res: Result<Vec<u8>, String>,
)
    requires
        call_ensures(answer_query, (line, snapshot), res),
        forall|i: int| 0 <= i < line@.len() ==> crate::text::is_white_space(#[trigger] line@[i]),
    ensures
        res matches Ok(bytes) && bytes@.len() == 0,
{
}

} // verus!
