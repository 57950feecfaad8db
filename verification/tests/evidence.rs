use tkspeed::evidence::{config_success, profile_failure, profile_success, EvidenceCounts};
use tkspeed::evidence::confidence_for_executions;

#[test]
fn confidence_zero_executions() {
    assert_eq!(confidence_for_executions(0), 0);
}

#[test]
fn confidence_one_execution() {
    assert_eq!(confidence_for_executions(1), 25);
}

#[test]
fn confidence_two_executions() {
    assert_eq!(confidence_for_executions(2), 25);
}

#[test]
fn confidence_three_executions() {
    assert_eq!(confidence_for_executions(3), 50);
}

#[test]
fn confidence_four_executions() {
    assert_eq!(confidence_for_executions(4), 50);
}

#[test]
fn confidence_five_executions() {
    assert_eq!(confidence_for_executions(5), 75);
}

#[test]
fn confidence_nine_executions() {
    assert_eq!(confidence_for_executions(9), 75);
}

#[test]
fn confidence_ten_executions() {
    assert_eq!(confidence_for_executions(10), 95);
}

#[test]
fn confidence_hundred_executions() {
    assert_eq!(confidence_for_executions(100), 95);
}

#[test]
fn confidence_never_decreases_with_more_executions() {
    let mut prev = 0;
    for n in 0..200u32 {
        let c = confidence_for_executions(n);
        assert!(c >= prev);
        assert!(c <= 95);
        prev = c;
    }
    assert_eq!(confidence_for_executions(u32::MAX), 95);
}

#[test]
fn profile_confidence_follows_successes() {
    let mut c = profile_success(None);
    assert_eq!((c.executions, c.successful_executions, c.confidence), (1, 1, 25));
    c = profile_success(Some(c));
    assert_eq!(c.confidence, 25);
    c = profile_success(Some(c));
    assert_eq!((c.executions, c.successful_executions, c.confidence), (3, 3, 50));
    c = profile_failure(Some(c));
    assert_eq!((c.executions, c.successful_executions, c.confidence), (4, 3, 50));
    c = profile_success(Some(c));
    c = profile_success(Some(c));
    assert_eq!((c.executions, c.successful_executions, c.confidence), (6, 5, 75));
    let f = profile_failure(None);
    assert_eq!((f.executions, f.successful_executions, f.confidence), (1, 0, 0));
}

#[test]
fn config_confidence_follows_runs() {
    let first = config_success(None);
    assert_eq!((first.executions, first.successful_executions, first.confidence), (1, 1, 25));
    let prev = EvidenceCounts { executions: 9, successful_executions: 4, confidence: 75 };
    let next = config_success(Some(prev));
    assert_eq!((next.executions, next.successful_executions, next.confidence), (10, 5, 95));
}

#[test]
fn profile_history_twelve_successes_two_failures() {
    let mut c = profile_success(None);
    for _ in 1..12 {
        c = profile_success(Some(c));
    }
    for _ in 0..2 {
        c = profile_failure(Some(c));
    }
    assert_eq!((c.executions, c.successful_executions, c.confidence), (14, 12, 95));
}

#[test]
fn config_history_of_five_successes() {
    let mut c = config_success(None);
    for _ in 1..5 {
        c = config_success(Some(c));
    }
    assert_eq!((c.executions, c.successful_executions, c.confidence), (5, 5, 75));
}

#[test]
fn profile_history_starting_with_failure() {
    let c = profile_failure(None);
    let c = profile_success(Some(c));
    assert_eq!((c.executions, c.successful_executions, c.confidence), (2, 1, 25));
}
