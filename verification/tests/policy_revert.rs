use syncoon::errors::AppError;
use syncoon::revert::{plan_revert_requests, revert_policy, summarize_reverts};

#[test]
fn test_revert_policy_disables_expiration() {
    assert_eq!(revert_policy().expiration_period_days, 0);
}

#[test]
fn test_one_disable_request_per_room_duplicates_kept() {
    let reqs = plan_revert_requests(&vec![10, 20, 20, 30]);
    assert_eq!(reqs.len(), 4);
    let ids: Vec<u64> = reqs.iter().map(|r| r.0).collect();
    assert_eq!(ids, vec![10, 20, 20, 30]);
    assert!(reqs.iter().all(|r| r.1.expiration_period_days == 0));
}

#[test]
fn test_all_updates_succeeding_reports_every_room() {
    let summary = summarize_reverts(vec![(10, Ok(())), (30, Ok(())), (20, Ok(()))]).unwrap();
    assert_eq!(summary, vec![10, 30, 20]);
}

#[test]
fn test_failed_update_of_middle_room_is_the_overall_error() {
    let boom = AppError::DracoonError("update failed for room 20".into());
    let summary = summarize_reverts(vec![
        (10, Ok(())),
        (20, Err(boom.clone())),
        (30, Ok(())),
    ]);
    // the error for room 20 surfaces; the sibling outcomes do not
    assert_eq!(summary, Err(boom));
}

#[test]
fn test_first_failure_in_drain_order_wins() {
    let first = AppError::ConnectionFailed;
    let second = AppError::IoError;
    let summary = summarize_reverts(vec![
        (1, Err(first.clone())),
        (2, Err(second)),
        (3, Ok(())),
    ]);
    assert_eq!(summary, Err(first));
}
