//! The relay's decisions: who a client is, what is forwarded and where to listen.

use vstd::prelude::*;
use vstd::string::*;

use crate::client::default_socket;
use crate::port::{parse_port, push_decimal};
use crate::protocol::{Message, MessageError, MessageView, DATABASE_QUERY, SUBSCRIBE};
use crate::query::QueryPlan;
use crate::text::{ends_with_newline, joined};

verus! {

/// Whether a line asks for the database.
pub open spec fn database_query_line(line: Seq<char>) -> bool {
    crate::protocol::message_on(line) matches Ok(message) && message.msg == DATABASE_QUERY@
}

/// Whether a line that was read as a message asks for the database.
pub fn asks_for_database(parsed: &Result<Message, MessageError>) -> (res: bool)
    ensures
        res == (parsed matches Ok(message) && message@.msg == DATABASE_QUERY@),
{
    match parsed {
        Ok(message) => message.is_kind(DATABASE_QUERY),
        Err(_) => false,
    }
}

/// True when a classification line parses as a `DatabaseQuery`.
pub fn is_database_query(line: Option<&str>) -> (res: bool)
    ensures
        res == (line matches Some(text) && database_query_line(text@)),
{
    match line {
        Some(text) => asks_for_database(&Message::parse_line(text)),
        None => false,
    }
}

/// How a client is served.
#[derive(Debug, Clone, PartialEq)]
pub enum Route {
    /// Its request line is forwarded to the bike, and the bike's answer to it.
    Proxy(String),
    /// It joins the telemetry stream.
    Subscribe,
}

/// Classifies a client by its first line, where it sent one in time: a query is
/// proxied; a hello, anything else and silence join the telemetry stream.
pub fn route_client(first: Option<String>) -> (res: Route)
    ensures
        match first {
            Some(line) if database_query_line(line@) => res matches Route::Proxy(request)
                && request@ == line@,
            _ => res is Subscribe,
        },
{
    match first {
        Some(line) => if is_database_query(Some(line.as_str())) {
            Route::Proxy(line)
        } else {
            Route::Subscribe
        },
        None => Route::Subscribe,
    }
}

/// A request line as it goes over the wire: with a line feed at its end, which is added
/// where it is missing.
pub open spec fn framed(line: Seq<char>) -> Seq<char> {
    if crate::text::newline_terminated(line) {
        line
    } else {
        line.push('\n')
    }
}

/// The request that is sent to the bike for a request line.
pub fn frame_request(request_line: &str) -> (res: String)
    ensures
        res@ == framed(request_line@),
{
    let mut request = request_line.to_owned();
    if !ends_with_newline(request_line) {
        request.push('\n');
    }
    request
}

/// The answer to a client whose query could not be forwarded, for the reason given
/// in words.
pub fn query_failure_line(reason: &str) -> (res: String)
    ensures
        res@ == "{\"error\":\"database query: "@ + reason@ + "\"}"@,
{
    let mut line = joined("{\"error\":\"database query: ", reason);
    line.append("\"}");
    line
}

/// The bike's query socket: the configured one, or else the built-in one.
pub fn default_query_socket_path(configured: Option<String>, built_in: &str) -> (res: String)
    ensures
        res@ == crate::client::socket_choice(crate::client::setting(configured), built_in@),
{
    default_socket(configured, built_in)
}

/// The relay's telemetry source: the same choice as [`default_socket`].
pub fn default_socket_path(configured: Option<String>, built_in: &str) -> (res: String)
    ensures
        res@ == crate::client::socket_choice(crate::client::setting(configured), built_in@),
{
    default_socket(configured, built_in)
}

/// The address to listen on: every interface, on the configured port where the
/// setting names one, or else on the default port.
pub open spec fn listen_addr(configured: Option<Seq<char>>, default_port: u16) -> Seq<char> {
    let port = match configured {
        Some(text) => match crate::port::port_named(text) {
            Some(port) => port,
            None => default_port,
        },
        None => default_port,
    };
    "0.0.0.0:"@ + crate::port::decimal(port as nat)
}

/// The address to listen on.
pub fn default_listen_addr(configured: Option<String>, default_port: u16) -> (res: String)
    ensures
        res@ == listen_addr(crate::client::setting(configured), default_port),
{
    let port: u16 = match configured {
        Some(text) => match parse_port(text.as_str()) {
            Some(port) => port,
            None => default_port,
        },
        None => default_port,
    };
    let mut addr = "0.0.0.0:".to_owned();
    push_decimal(&mut addr, port as u32);
    addr
}

/// Law: a port that is configured as a decimal numeral is the port that is
/// listened on.
pub proof fn law_configured_port_is_used(port: u16, default_port: u16)
    ensures
        listen_addr(Some(crate::port::decimal(port as nat)), default_port) == "0.0.0.0:"@
            + crate::port::decimal(port as nat),
{
    crate::port::law_port_round_trip(port);
}

/// Law: a line that holds a database query, of whatever number, is classified as a
/// query, and one that holds a subscriber's hello is not.
pub proof fn law_classifies_query_and_hello(
    query_line: Seq<char>,
    query_id: Option<u64>,
    hello_line: Seq<char>,
    hello_id: Option<u64>,
)
    requires
        crate::protocol::message_on(query_line) == Ok::<MessageView, MessageError>(
            MessageView { msg: DATABASE_QUERY@, id: query_id },
        ),
        crate::protocol::message_on(hello_line) == Ok::<MessageView, MessageError>(
            MessageView { msg: SUBSCRIBE@, id: hello_id },
        ),
    ensures
        database_query_line(query_line),
        !database_query_line(hello_line),
{
    reveal_strlit("DatabaseQuery");
    reveal_strlit("Subscribe");
    assert(DATABASE_QUERY@.len() != SUBSCRIBE@.len());
}

/// Law: framing is idempotent, and a framed request ends with a line feed.
pub proof fn law_framing(line: Seq<char>)
    ensures
        crate::text::newline_terminated(framed(line)),
        framed(framed(line)) == framed(line),
{
}

/// Law: a pull's request passes through the relay unchanged. The relay reads exactly
/// the request's line, takes nothing that follows it, recognises it as a query, and sends
/// the bike the very text that the shop tool sent, to which the bike replies with a
/// snapshot.
pub proof fn law_pull_reaches_bike(
    plan: crate::client::PullPlan,
    host: Seq<char>,
    port: u16,
    rest: Seq<u8>,
)
    requires
        plan.pulls_from(host, port),
    ensures
        ({
            let line = plan.request@.drop_last();
            let sent = vstd::utf8::encode_utf8(line) + seq![10u8];
            &&& crate::control_line::control_line(sent + rest) == (Some(line), sent.len() as int)
            &&& database_query_line(line)
            &&& framed(line) == plan.request@
            &&& !crate::text::blank(framed(line))
            &&& crate::query::planned(
                QueryPlan::Snapshot,
                crate::protocol::valid_message_on(framed(line)),
            )
        }),
{
    let line = plan.request@.drop_last();
    assert(line == crate::json::json_text(
        crate::protocol::message_object(crate::client::pull_message()),
    ));
    crate::control_line::law_sent_line_arrives(line, rest);
    assert(!crate::text::newline_terminated(line)) by {
        if line.len() > 0 {
            assert(line.contains(line.last()));
        }
    }
    assert(framed(line) == plan.request@);
    assert(!crate::text::blank(plan.request@)) by {
        let i = choose|i: int|
            0 <= i < line.len() && !crate::text::is_white_space(#[trigger] line[i]);
        assert(plan.request@[i] == line[i]);
    }
    reveal_strlit("DatabaseQuery");
}

/// Law: a line asks for the database exactly where it can be read as a message of the kind
/// `DatabaseQuery`, whatever its number; without a line nothing is asked for.
pub proof fn law_is_database_query(
    line: &str,
    parsed: Result<Message, MessageError>,
    asks: bool,
    res: bool,
    without: bool,
)
    requires
        call_ensures(Message::parse_line, (line,), parsed),
        call_ensures(asks_for_database, (&parsed,), asks),
        call_ensures(is_database_query, (Some(line),), res),
        call_ensures(is_database_query, (None::<&str>,), without),
    ensures
        res <==> (parsed matches Ok(message) && message.msg@ == "DatabaseQuery"@),
        asks <==> (parsed matches Ok(message) && message.msg@ == "DatabaseQuery"@),
        !without,
{
}

/// Law: a client is proxied exactly where its first line is a query, and then that line is
/// what is forwarded, unchanged; every other client joins the telemetry stream.
pub proof fn law_route_client(
    first: Option<String>,
    res: Route,
    line: &str,
    parsed: Result<Message, MessageError>,
)
    requires
        call_ensures(route_client, (first,), res),
        call_ensures(Message::parse_line, (line,), parsed),
        first matches Some(text) ==> text@ == line@,
    ensures
        first is None ==> res == Route::Subscribe,
        first is Some && (parsed matches Ok(message) && message.msg@ == "DatabaseQuery"@) ==> (
        res matches Route::Proxy(request) && request@ == line@),
        first is Some && !(parsed matches Ok(message) && message.msg@ == "DatabaseQuery"@)
            ==> res == Route::Subscribe,
{
}

/// Law: a request goes to the bike as it came, with exactly one line feed more where it did
/// not end with one.
pub proof fn law_frame_request(line: &str, res: String)
    requires
        call_ensures(frame_request, (line,), res),
    ensures
        line@.len() > 0 && line@[line@.len() - 1] == '\n' ==> res@ == line@,
        !(line@.len() > 0 && line@[line@.len() - 1] == '\n') ==> res@ == line@.push('\n'),
{
}

/// Law: a query that could not be forwarded is answered with the reason, between fixed
/// words.
pub proof fn law_query_failure_line(reason: &str, res: String)
    requires
        call_ensures(query_failure_line, (reason,), res),
    ensures
        res@ == "{\"error\":\"database query: "@ + reason@ + "\"}"@,
{
}

/// Law: either socket is the configured one where there is one, whatever it is, and the
/// built-in one otherwise.
pub proof fn law_socket_paths(
    configured: Option<String>,
    built_in: &str,
    query: String,
    telemetry: String,
)
    requires
        call_ensures(default_query_socket_path, (configured, built_in), query),
        call_ensures(default_socket_path, (configured, built_in), telemetry),
    ensures
        configured matches Some(path) ==> query@ == path@ && telemetry@ == path@,
        configured is None ==> query@ == built_in@ && telemetry@ == built_in@,
{
}

/// Law: the relay listens on every interface, on the port that the setting names where it
/// names one, and on the default port otherwise, written in decimal.
pub proof fn law_default_listen_addr(
    configured: Option<String>,
    default_port: u16,
    res: String,
    text: &str,
    parsed: Option<u16>,
    numeral: &mut String,
)
    requires
        call_ensures(default_listen_addr, (configured, default_port), res),
        call_ensures(parse_port, (text,), parsed),
        configured matches Some(setting) ==> setting@ == text@,
        configured is Some && parsed is Some ==> call_ensures(
            push_decimal,
            (numeral, parsed->0 as u32),
            (),
        ),
        configured is None || parsed is None ==> call_ensures(
            push_decimal,
            (numeral, default_port as u32),
            (),
        ),
        old(numeral)@ == "0.0.0.0:"@,
    ensures
        res@ == final(numeral)@,
{
}

} // verus!
