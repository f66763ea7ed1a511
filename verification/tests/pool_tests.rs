use nocopush::PoolState;
use nocopush::UploadOutcome;
use nocopush::run_pool;

fn ok() -> UploadOutcome {
    UploadOutcome::Accepted { ids: vec![1] }
}

fn fail(status: u16) -> UploadOutcome {
    UploadOutcome::Rejected { status, body: format!("status {}", status) }
}

#[test]
fn pool_all_success() {
    let outcomes = vec![ok(), ok(), ok(), ok()];
    let r = run_pool(&outcomes, 2);
    assert!(r.result.is_ok());
    assert_eq!(r.attempted, 4);
    assert_eq!(r.completed, 4);
    assert_eq!(r.rounds, 2);
}

#[test]
fn pool_fail_fast_stops_dispatch_after_failing_round() {
    let outcomes = vec![ok(), ok(), fail(500), ok(), ok(), ok()];
    let r = run_pool(&outcomes, 2);
    let e = r.result.unwrap_err();
    assert_eq!(e.chunk_index, 2);
    assert_eq!(e.status, 500);
    // the failing chunk's round (chunks 2 and 3) finishes; chunks 4 and 5
    // are never dispatched
    assert_eq!(r.attempted, 4);
    assert_eq!(r.completed, 3);
}

#[test]
fn pool_first_error_wins_over_later_failures() {
    let outcomes = vec![ok(), fail(502), fail(500), ok()];
    let r = run_pool(&outcomes, 4);
    let e = r.result.unwrap_err();
    assert_eq!(e.chunk_index, 1);
    assert_eq!(e.status, 502);
    assert_eq!(e.body, "status 502");
}

#[test]
fn pool_verdict_same_for_any_worker_count() {
    let outcomes = vec![ok(), ok(), fail(500), ok(), fail(404), ok(), ok()];
    let r1 = run_pool(&outcomes, 1);
    let r3 = run_pool(&outcomes, 3);
    let e1 = r1.result.unwrap_err();
    let e3 = r3.result.unwrap_err();
    assert_eq!(e1.chunk_index, e3.chunk_index);
    assert_eq!(e1.status, e3.status);
    assert_eq!(e1.body, e3.body);

    let good = vec![ok(), ok(), ok(), ok(), ok()];
    let g1 = run_pool(&good, 1);
    let g4 = run_pool(&good, 4);
    assert!(g1.result.is_ok());
    assert!(g4.result.is_ok());
    assert_eq!(g1.attempted, 5);
    assert_eq!(g4.attempted, 5);
}

#[test]
fn pool_every_request_rejected() {
    let outcomes = vec![fail(500), fail(500), fail(500), fail(500), fail(500)];
    let r = run_pool(&outcomes, 2);
    let e = r.result.unwrap_err();
    assert_eq!(e.chunk_index, 0);
    assert_eq!(e.status, 500);
    assert!(r.completed < 5);
    assert!(r.rounds <= 3);
}

#[test]
fn pool_state_claims_in_order_and_reports_verdict() {
    let mut st = PoolState::new(3);
    assert_eq!(st.try_claim(), Some(0));
    assert_eq!(st.try_claim(), Some(1));
    st.complete(0, ok());
    st.complete(1, ok());
    assert!(!st.is_done());
    assert_eq!(st.try_claim(), Some(2));
    st.complete(2, ok());
    assert!(st.is_done());
    assert_eq!(st.completed, 3);
    assert!(st.into_verdict().is_ok());
}

#[test]
fn pool_state_failure_cancels_further_dispatch() {
    let mut st = PoolState::new(4);
    assert_eq!(st.try_claim(), Some(0));
    assert_eq!(st.try_claim(), Some(1));
    st.complete(0, fail(500));
    // chunk 1 is still in flight and may finish, but nothing new is handed out
    assert_eq!(st.try_claim(), None);
    st.complete(1, fail(404));
    assert!(st.is_done());
    assert_eq!(st.completed, 0);
    let e = st.into_verdict().unwrap_err();
    assert_eq!(e.chunk_index, 0);
    assert_eq!(e.status, 500);
}
