//! The shop tool's side: a one-shot pull of a bike's database.
//!
//! A pull opens a connection of its own, sends a single `DatabaseQuery` line and
//! reads raw database bytes until the connection closes.

use vstd::prelude::*;
use vstd::slice::slice_subrange;

use crate::io::IoFailure;
use crate::protocol::{Message, MessageError, MessageView, DATABASE_QUERY};
use crate::text::joined;

verus! {

/// The most bytes that a pull takes in.
pub const MAX_DB_BYTES: u64 = 268435456;

/// The number that a pull gives its request.
pub const PULL_REQUEST_ID: u64 = 1;

/// Where a pull connects to, and what it sends there.
#[derive(Debug, Clone, PartialEq)]
pub struct PullPlan {
    pub host: String,
    pub port: u16,
    /// The request, line feed included.
    pub request: String,
}

/// How the reading of a response ended.
#[derive(Debug)]
pub enum PullEnd {
    /// The peer closed the connection, or the response reached its size limit.
    Complete,
    /// A read failed, for the reason given in words.
    Failed(IoFailure, String),
}

/// The message that a pull sends.
pub open spec fn pull_message() -> MessageView {
    MessageView {
        msg: DATABASE_QUERY@,
        id: Some(PULL_REQUEST_ID),
    }
}

impl PullPlan {
    /// A pull from the given place: its request is the line of [`pull_message`],
    /// which is a single line of plausible length that is not blank, with a line feed
    /// behind it. The message can be read from either.
    pub open spec fn pulls_from(&self, host: Seq<char>, port: u16) -> bool {
        let line = crate::json::json_text(crate::protocol::message_object(pull_message()));
        &&& self.host@ == host
        &&& self.port == port
        &&& self.request@ == line.push('\n')
        &&& !line.contains('\n')
        &&& !crate::text::blank(line)
        &&& vstd::utf8::encode_utf8(line).len() <= crate::control_line::CONTROL_LINE_LIMIT
        &&& crate::protocol::message_on(line) == Ok::<MessageView, MessageError>(pull_message())
        &&& crate::protocol::message_on(self.request@) == Ok::<MessageView, MessageError>(
            pull_message(),
        )
    }
}

/// Plans the pull of a bike's whole database through the relay at `host` and `port`.
pub fn pull_database(host: &str, port: u16) -> (res: PullPlan)
    ensures
        res.pulls_from(host@, port),
{
    let mut request = Message::database_query(PULL_REQUEST_ID).to_line();
    proof {
        reveal_strlit("DatabaseQuery");
        crate::text::lemma_encoding_room(request@);
    }
    request.push('\n');
    PullPlan { host: host.to_owned(), port, request }
}

/// Plans a pull on the default port.
pub fn pull_database_default(host: &str, default_port: u16) -> (res: PullPlan)
    ensures
        res.pulls_from(host@, default_port),
{
    pull_database(host, default_port)
}

/// What a pull keeps of the bytes that have arrived: those up to the size limit.
pub open spec fn kept(arrived: Seq<u8>) -> Seq<u8> {
    if arrived.len() <= MAX_DB_BYTES {
        arrived
    } else {
        arrived.take(MAX_DB_BYTES as int)
    }
}

/// A response in the course of being read.
pub struct PullResponse {
    bytes: Vec<u8>,
}

impl View for PullResponse {
    type V = Seq<u8>;

    closed spec fn view(&self) -> Seq<u8> {
        self.bytes@
    }
}

impl PullResponse {
    /// What has been kept is within the size limit.
    pub open spec fn well_formed(&self) -> bool {
        self@.len() <= MAX_DB_BYTES
    }

    /// A response of which nothing has been read.
    pub fn new() -> (res: PullResponse)
        ensures
            res.well_formed(),
            res@ == Seq::<u8>::empty(),
    {
        PullResponse { bytes: Vec::new() }
    }

    /// Takes in what one read brought, as far as the size limit allows, and tells whether
    /// reading is over: it is where the read brought nothing, since the peer has closed
    /// the connection, and where the limit is reached.
    pub fn take_in(&mut self, chunk: &[u8]) -> (over: bool)
        requires
            old(self).well_formed(),
        ensures
            final(self).well_formed(),
            final(self)@ == kept(old(self)@ + chunk@),
            over == (chunk@.len() == 0 || final(self)@.len() == MAX_DB_BYTES),
    {
        let limit = MAX_DB_BYTES as usize;
        let room = limit - self.bytes.len();
        if chunk.len() <= room {
            self.bytes.extend_from_slice(chunk);
        } else {
            self.bytes.extend_from_slice(slice_subrange(chunk, 0, room));
        }
        assert(self@ == kept(old(self)@ + chunk@));
        chunk.len() == 0 || self.bytes.len() == limit
    }
}

/// What a pull gives, from the response as far as it arrived and the way its reading
/// ended. A relay that closes without saying goodbye is no failure: the bytes that
/// arrived are the response.
pub fn finish_pull(response: PullResponse, end: PullEnd) -> (res: Result<Vec<u8>, String>)
    requires
        response.well_formed(),
    ensures
        match end {
            PullEnd::Complete => res matches Ok(bytes) && bytes@ == response@,
            PullEnd::Failed(IoFailure::UnexpectedEof, _) => res matches Ok(bytes) && bytes@
                == response@,
            PullEnd::Failed(_, reason) => res matches Err(words) && words@ == "read database: "@
                + reason@,
        },
        res matches Ok(bytes) ==> bytes@.len() <= MAX_DB_BYTES,
{
    match end {
        PullEnd::Complete => Ok(response.bytes),
        PullEnd::Failed(IoFailure::UnexpectedEof, _) => Ok(response.bytes),
        PullEnd::Failed(_, reason) => Err(joined("read database: ", reason.as_str())),
    }
}

/// What some reads brought, one after the other.
pub open spec fn delivered(chunks: Seq<Seq<u8>>) -> Seq<u8>
    decreases chunks.len(),
{
    if chunks.len() == 0 {
        Seq::empty()
    } else {
        delivered(chunks.drop_last()) + chunks.last()
    }
}

/// What a fresh response holds once each of some reads has been taken in.
pub open spec fn taken_in(chunks: Seq<Seq<u8>>) -> Seq<u8>
    decreases chunks.len(),
{
    if chunks.len() == 0 {
        Seq::empty()
    } else {
        kept(taken_in(chunks.drop_last()) + chunks.last())
    }
}

/// Law: however a response is cut into reads, what is kept of it is its start, up to the
/// size limit, and all of it where it is no longer than that. Once the limit is reached,
/// nothing that would still arrive changes it.
pub proof fn law_response_is_kept(chunks: Seq<Seq<u8>>, chunk: Seq<u8>)
    ensures
        taken_in(chunks) == kept(delivered(chunks)),
        taken_in(chunks).len() <= MAX_DB_BYTES,
        taken_in(chunks).is_prefix_of(delivered(chunks)),
        delivered(chunks).len() <= MAX_DB_BYTES ==> taken_in(chunks) == delivered(chunks),
        taken_in(chunks).len() == MAX_DB_BYTES ==> taken_in(chunks.push(chunk)) == taken_in(chunks),
    decreases chunks.len(),
{
    if chunks.len() > 0 {
        law_response_is_kept(chunks.drop_last(), chunks.last());
        let all = delivered(chunks.drop_last());
        assert(kept(kept(all) + chunks.last()) == kept(all + chunks.last()));
    }
    assert(chunks.push(chunk).drop_last() == chunks);
}

/// A socket path: the configured one, or else the built-in one.
pub open spec fn socket_choice(configured: Option<Seq<char>>, built_in: Seq<char>) -> Seq<char> {
    match configured {
        Some(path) => path,
        None => built_in,
    }
}

/// The mathematical counterpart of an optional setting.
pub open spec fn setting(configured: Option<String>) -> Option<Seq<char>> {
    match configured {
        Some(text) => Some(text@),
        None => None,
    }
}

/// The telemetry socket: the configured one, or else the built-in one.
pub fn default_socket(configured: Option<String>, built_in: &str) -> (res: String)
    ensures
        res@ == socket_choice(setting(configured), built_in@),
{
    match configured {
        Some(path) => path,
        None => built_in.to_owned(),
    }
}

/// Law: a pull connects to the very host and port that it is given, and sends there one
/// line, which holds a `DatabaseQuery` with the number 1, and a line feed behind it.
pub proof fn law_pull_database(host: &str, port: u16, plan: PullPlan)
    requires
        call_ensures(pull_database, (host, port), plan),
    ensures
        plan.host@ == host@,
        plan.port == port,
        plan.request@.len() > 1,
        plan.request@.last() == '\n',
        !plan.request@.drop_last().contains('\n'),
        crate::protocol::message_on(plan.request@) matches Ok(message) && message.msg
            == "DatabaseQuery"@ && message.id == Some(1u64),
{
    let line = plan.request@.drop_last();
    assert(line == crate::json::json_text(crate::protocol::message_object(pull_message())));
    assert(line.len() > 0) by {
        if line.len() == 0 {
            assert(crate::text::blank(line));
        }
    }
}

/// Law: a pull on the default port is a pull on that port.
pub proof fn law_pull_database_default(
    host: &str,
    port: u16,
    plan: PullPlan,
    explicit: PullPlan,
)
    requires
        call_ensures(pull_database_default, (host, port), plan),
        call_ensures(pull_database, (host, port), explicit),
    ensures
        plan.host@ == host@ && explicit.host@ == host@,
        plan.port == port && explicit.port == port,
        plan.request@ == explicit.request@,
{
}

/// Law: pulls from different places differ in the place, and only there: every pull sends
/// the same request.
pub proof fn law_pulls_differ_by_place(
    host: &str,
    port: u16,
    plan: PullPlan,
    other_host: &str,
    other_port: u16,
    other: PullPlan,
)
    requires
        call_ensures(pull_database, (host, port), plan),
        call_ensures(pull_database, (other_host, other_port), other),
    ensures
        plan.request@ == other.request@,
        plan.port == other.port <==> port == other_port,
        plan.host@ == other.host@ <==> host@ == other_host@,
{
}

/// Law: what a pull is stands in the plan alone: one plan cannot be a pull from two places.
pub proof fn law_plan_has_one_place(
    plan: PullPlan,
    host: Seq<char>,
    port: u16,
    other_host: Seq<char>,
    other_port: u16,
)
    requires
        plan.pulls_from(host, port),
        plan.pulls_from(other_host, other_port),
    ensures
        plan.host@ == host && plan.port == port,
        host == other_host,
        port == other_port,
{
}

/// Law: what one read adds to a response: every byte that it brought, in order, as long as
/// there are no more than 268435456 in all, and none behind those. Reading is over where
/// the read brought nothing and where that many bytes are held, and not before.
pub proof fn law_take_in(response: &mut PullResponse, chunk: &[u8], over: bool)
    requires
        call_ensures(PullResponse::take_in, (response, chunk), over),
        old(response)@.len() <= 268435456,
    ensures
        old(response)@.len() + chunk@.len() <= 268435456 ==> final(response)@ == old(response)@
            + chunk@,
        old(response)@.len() + chunk@.len() > 268435456 ==> final(response)@.len() == 268435456
            && final(response)@ == (old(response)@ + chunk@).take(268435456),
        over <==> chunk@.len() == 0 || final(response)@.len() == 268435456,
{
}

/// Law: a fresh response holds nothing, and its first read, where it is within the size
/// limit, is all that it then holds.
pub proof fn law_first_read(fresh: PullResponse, response: &mut PullResponse, chunk: &[u8], over: bool)
    requires
        call_ensures(PullResponse::new, (), fresh),
        *old(response) == fresh,
        call_ensures(PullResponse::take_in, (response, chunk), over),
        chunk@.len() <= 268435456,
    ensures
        fresh@.len() == 0,
        final(response)@ == chunk@,
{
    assert(fresh@ + chunk@ == chunk@);
}

/// Law: a pull gives all that arrived, byte for byte, where the response was complete or
/// the peer closed without saying so; any other failure fails the pull, with the reason
/// behind `read database: `.
pub proof fn law_finish_pull(response: PullResponse, end: PullEnd, res: Result<Vec<u8>, String>)
    requires
        call_ensures(finish_pull, (response, end), res),
    ensures
        end is Complete ==> (res matches Ok(bytes) && bytes@ == response@),
        end matches PullEnd::Failed(failure, reason) ==> if failure == IoFailure::UnexpectedEof {
            res matches Ok(bytes) && bytes@ == response@
        } else {
            res matches Err(words) && words@ == "read database: "@ + reason@
        },
{
}

/// Law: the telemetry socket is the configured one where there is one, whatever it is, and
/// the built-in one otherwise.
pub proof fn law_default_socket(configured: Option<String>, built_in: &str, res: String)
    requires
        call_ensures(default_socket, (configured, built_in), res),
    ensures
        configured matches Some(path) ==> res@ == path@,
        configured is None ==> res@ == built_in@,
{
}

} // verus!
