use sigma_racer::client::{default_socket, pull_database};
use sigma_racer::control_line::read_control_line;
use sigma_racer::io::{accept_stop, AcceptStop, IoFailure};
use sigma_racer::protocol::Message;
use sigma_racer::query::{plan_query, QueryPlan};
use sigma_racer::relay::{
    asks_for_database, default_listen_addr, default_query_socket_path, default_socket_path,
    frame_request, is_database_query, query_failure_line, route_client, Route,
};

#[test]
fn classifies_query_vs_subscribe() {
    let query = Message::database_query(1).to_line();
    assert!(is_database_query(Some(&query)));
    assert!(!is_database_query(Some(&Message::subscribe().to_line())));
    assert!(!is_database_query(Some("not json")));
    assert!(!is_database_query(None));
}

#[test]
fn queries_are_recognised_by_their_parsed_kind() {
    assert!(asks_for_database(&Ok(Message::database_query(9))));
    assert!(!asks_for_database(&Ok(Message::subscribe())));
    assert!(!asks_for_database(&Message::parse_line("[]")));
}

#[test]
fn routes_by_first_line() {
    let query = Message::database_query(4).to_line();
    assert_eq!(route_client(Some(query.clone())), Route::Proxy(query));
    assert_eq!(route_client(Some(Message::subscribe().to_line())), Route::Subscribe);
    assert_eq!(route_client(Some("{\"msg\":\"databasequery\"}".to_string())), Route::Subscribe);
    assert_eq!(route_client(Some(String::new())), Route::Subscribe);
    assert_eq!(route_client(None), Route::Subscribe);
}

#[test]
fn frames_requests_with_one_line_feed() {
    assert_eq!(frame_request("abc"), "abc\n");
    assert_eq!(frame_request("abc\n"), "abc\n");
    assert_eq!(frame_request(&frame_request("abc")), "abc\n");
    assert_eq!(frame_request(""), "\n");
}

#[test]
fn reports_a_failed_query_to_the_client() {
    assert_eq!(
        query_failure_line("connection refused"),
        "{\"error\":\"database query: connection refused\"}"
    );
}

#[test]
fn tells_an_empty_backlog_from_a_broken_listener() {
    assert_eq!(accept_stop(IoFailure::WouldBlock), AcceptStop::Drained);
    assert_eq!(accept_stop(IoFailure::TimedOut), AcceptStop::Broken);
    assert_eq!(accept_stop(IoFailure::Other), AcceptStop::Broken);
}

#[test]
fn settings_take_precedence_over_built_in_paths() {
    let set = Some("/tmp/a.sock".to_string());
    assert_eq!(default_query_socket_path(set.clone(), "/run/q.sock"), "/tmp/a.sock");
    assert_eq!(default_query_socket_path(None, "/run/q.sock"), "/run/q.sock");
    assert_eq!(default_socket_path(set.clone(), "/run/t.sock"), "/tmp/a.sock");
    assert_eq!(default_socket_path(None, "/run/t.sock"), "/run/t.sock");
    assert_eq!(default_socket(set, "/run/t.sock"), "/tmp/a.sock");
    assert_eq!(default_socket(Some(String::new()), "/run/t.sock"), "");
}

#[test]
fn listens_on_the_configured_port() {
    let addr = |text: &str| default_listen_addr(Some(text.to_string()), 9443);
    assert_eq!(addr("8080"), "0.0.0.0:8080");
    assert_eq!(addr("+80"), "0.0.0.0:80");
    assert_eq!(addr("65535"), "0.0.0.0:65535");
    assert_eq!(addr("65536"), "0.0.0.0:9443");
    assert_eq!(addr("http"), "0.0.0.0:9443");
    assert_eq!(default_listen_addr(None, 9443), "0.0.0.0:9443");
}

#[test]
fn a_pull_reaches_the_bike() {
    let plan = pull_database("bike.local", 9443);
    let mut stream = plan.request.clone().into_bytes();
    let sent = stream.len();
    stream.extend_from_slice(b"later");
    let (line, taken) = read_control_line(&stream);
    assert_eq!(taken, sent);
    let request = match route_client(line) {
        Route::Proxy(request) => frame_request(&request),
        Route::Subscribe => panic!("taken for a subscriber"),
    };
    assert_eq!(request, plan.request);
    assert_eq!(plan_query(&request), QueryPlan::Snapshot);
}
