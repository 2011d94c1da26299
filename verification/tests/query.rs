use sigma_racer::protocol::{Message, MessageError};
use sigma_racer::query::{answer, answer_query, plan_query, plan_request, reply_bytes, QueryPlan};

fn refusal(words: &str) -> QueryPlan {
    QueryPlan::Refuse(words.to_string())
}

#[test]
fn answers_a_database_query_with_a_snapshot() {
    assert_eq!(plan_query("{\"msg\":\"DatabaseQuery\",\"id\":1}\n"), QueryPlan::Snapshot);
    assert_eq!(plan_request(Ok(Message::database_query(3))), QueryPlan::Snapshot);
}

#[test]
fn a_blank_line_is_a_hang_up() {
    assert_eq!(plan_query(""), QueryPlan::HungUp);
    assert_eq!(plan_query(" \r\n"), QueryPlan::HungUp);
}

#[test]
fn refuses_what_it_cannot_read() {
    assert_eq!(plan_query("hello\n"), refusal("bad request: not a JSON object"));
    assert_eq!(plan_query("{}"), refusal("bad request: missing message kind"));
    assert_eq!(
        plan_request(Err(MessageError::BadId)),
        refusal("bad request: id is not an unsigned integer")
    );
}

#[test]
fn refuses_other_kinds() {
    assert_eq!(
        plan_query(&Message::subscribe().to_line()),
        refusal("unexpected query kind Subscribe")
    );
}

#[test]
fn replies_with_nothing_without_a_snapshot() {
    assert_eq!(reply_bytes(Some(Ok(vec![1, 2]))), vec![1, 2]);
    assert!(reply_bytes(Some(Err("disk full".to_string()))).is_empty());
    assert!(reply_bytes(None).is_empty());
}

#[test]
fn bytes_are_sent_for_a_query_and_a_snapshot_only() {
    let query = "{\"msg\":\"DatabaseQuery\",\"id\":1}\n";
    let taken = || Some(Ok(vec![1, 2]));
    assert_eq!(answer_query(query, taken()), Ok(vec![1, 2]));
    assert_eq!(answer_query(query, Some(Err("disk full".to_string()))), Ok(Vec::new()));
    assert_eq!(answer_query(query, None), Ok(Vec::new()));
    assert_eq!(answer_query(" \n", taken()), Ok(Vec::new()));
    assert_eq!(
        answer_query("hello\n", taken()),
        Err("bad request: not a JSON object".to_string())
    );
    assert_eq!(
        answer_query(&Message::subscribe().to_line(), taken()),
        Err("unexpected query kind Subscribe".to_string())
    );
}

#[test]
fn plans_are_carried_out() {
    assert_eq!(answer(QueryPlan::HungUp, Some(Ok(vec![1]))), Ok(Vec::new()));
    assert_eq!(answer(QueryPlan::Snapshot, Some(Ok(vec![1]))), Ok(vec![1]));
    assert_eq!(answer(refusal("no"), Some(Ok(vec![1]))), Err("no".to_string()));
}
