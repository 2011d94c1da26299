use sigma_racer::client::{
    finish_pull, pull_database, pull_database_default, PullEnd, PullResponse, MAX_DB_BYTES,
};
use sigma_racer::io::IoFailure;

#[test]
fn a_pull_sends_one_query_line() {
    let plan = pull_database("bike.local", 9443);
    assert_eq!(plan.host, "bike.local");
    assert_eq!(plan.port, 9443);
    assert_eq!(plan.request, "{\"id\":1,\"msg\":\"DatabaseQuery\"}\n");
    assert_eq!(pull_database_default("bike.local", 9443), plan);
    assert_eq!(MAX_DB_BYTES, 256 * 1024 * 1024);
}

fn response(chunks: &[&[u8]]) -> PullResponse {
    let mut response = PullResponse::new();
    for chunk in chunks {
        assert!(!response.take_in(chunk));
    }
    response
}

#[test]
fn the_response_ends_with_the_connection() {
    let mut arrived = response(&[&[1, 2], &[3]]);
    assert!(arrived.take_in(&[]));
    assert_eq!(finish_pull(arrived, PullEnd::Complete), Ok(vec![1, 2, 3]));
    let unclean = PullEnd::Failed(IoFailure::UnexpectedEof, "eof".to_string());
    assert_eq!(finish_pull(response(&[&[1, 2, 3]]), unclean), Ok(vec![1, 2, 3]));
    assert_eq!(finish_pull(PullResponse::new(), PullEnd::Complete), Ok(Vec::new()));
}

#[test]
fn a_failed_read_fails_the_pull() {
    let timeout = PullEnd::Failed(IoFailure::TimedOut, "timed out".to_string());
    assert_eq!(
        finish_pull(response(&[&[1]]), timeout),
        Err("read database: timed out".to_string())
    );
    let reset = PullEnd::Failed(IoFailure::Other, "reset".to_string());
    assert_eq!(
        finish_pull(PullResponse::new(), reset),
        Err("read database: reset".to_string())
    );
}

#[test]
fn a_response_is_cut_at_the_size_limit() {
    let limit = MAX_DB_BYTES as usize;
    let mut arrived = PullResponse::new();
    assert!(!arrived.take_in(&vec![7u8; limit - 2]));
    assert!(arrived.take_in(&[1, 2, 3, 4]));
    assert!(arrived.take_in(&[5]));
    let bytes = finish_pull(arrived, PullEnd::Complete).unwrap();
    assert_eq!(bytes.len(), limit);
    assert_eq!(bytes[limit - 3..], [7, 1, 2]);
}
