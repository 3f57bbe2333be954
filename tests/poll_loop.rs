use podog::poll::{replay, PollError, PollPhase, Poller, MAX_FAILURES};
use podog::service::{
    receipt_outcome, receipt_url, submission_outcome, NotificationResult, ReceiptQueryError,
    ReceiptStatus, SubmitError,
};

fn receipt(acknowledged: u32, expired: u32) -> ReceiptStatus {
    ReceiptStatus {
        status: 1,
        acknowledged,
        acknowledged_at: 0,
        acknowledged_by: String::new(),
        acknowledged_by_device: String::new(),
        last_delivered_at: 0,
        expired,
        expires_at: 0,
        called_back: 0,
        called_back_at: 0,
    }
}

fn failures(n: usize) -> Vec<Result<ReceiptStatus, ReceiptQueryError>> {
    (0..n).map(|_| Err(ReceiptQueryError::Failed)).collect()
}

#[test]
fn accepted_submission_without_receipt_cannot_be_awaited() {
    let response = NotificationResult {
        status: 1,
        request: String::from("abc"),
        receipt: String::new(),
        errors: vec![],
    };
    let result = match submission_outcome(response) {
        Ok(r) => r,
        Err(_) => panic!("status 1 must be accepted"),
    };
    assert_eq!(result.request, "abc");
    assert_eq!(result.receipt, "");
    assert_eq!(Poller::start(&result), Err(PollError::Precondition));
}

#[test]
fn refused_submission_carries_service_errors() {
    let response = NotificationResult {
        status: 0,
        request: String::from("abc"),
        receipt: String::new(),
        errors: vec![String::from("user identifier invalid")],
    };
    match submission_outcome(response) {
        Err(SubmitError::Service(errors)) => {
            assert_eq!(errors, vec![String::from("user identifier invalid")])
        }
        Ok(_) => panic!("status 0 must be refused"),
    }
}

#[test]
fn receipt_starts_polling() {
    let result = NotificationResult {
        status: 1,
        request: String::from("abc"),
        receipt: String::from("r1"),
        errors: vec![],
    };
    assert_eq!(Poller::start(&result), Ok(Poller { phase: PollPhase::Polling, failures: 0 }));
}

#[test]
fn receipt_outcome_needs_status_one() {
    assert!(receipt_outcome(receipt(0, 0)).is_ok());
    let mut st = receipt(1, 0);
    st.status = 0;
    assert_eq!(receipt_outcome(st).err(), Some(ReceiptQueryError::Failed));
}

#[test]
fn receipt_url_uses_application_token() {
    assert_eq!(
        receipt_url("r123", "tok"),
        "https://api.pushover.net/1/receipts/r123.json?token=tok"
    );
}

#[test]
fn four_failures_then_acknowledged() {
    let mut outcomes = failures(4);
    outcomes.push(Ok(receipt(1, 0)));
    outcomes.push(Err(ReceiptQueryError::Failed));
    let (p, used) = replay(&outcomes);
    assert_eq!(p, Poller { phase: PollPhase::Acknowledged, failures: 0 });
    assert_eq!(used, 5);
    assert_eq!(p.verdict(), Ok(PollPhase::Acknowledged));
}

#[test]
fn five_failures_abort_without_a_sixth() {
    let outcomes = failures(6);
    let (p, used) = replay(&outcomes);
    assert_eq!(p, Poller { phase: PollPhase::Aborted, failures: MAX_FAILURES });
    assert_eq!(used, 5);
    assert_eq!(p.verdict(), Err(PollError::Aborted));
}

#[test]
fn expired_ends_poll_after_failures() {
    let mut outcomes = failures(3);
    outcomes.push(Ok(receipt(0, 1)));
    let (p, used) = replay(&outcomes);
    assert_eq!(p.phase, PollPhase::Expired);
    assert_eq!(used, 4);
    assert_eq!(p.verdict(), Ok(PollPhase::Expired));
}

#[test]
fn success_resets_failure_count() {
    let mut p = Poller::new();
    p.step(&Err(ReceiptQueryError::Failed));
    p.step(&Err(ReceiptQueryError::Failed));
    assert_eq!(p.failures, 2);
    p.step(&Ok(receipt(0, 0)));
    assert_eq!(p, Poller { phase: PollPhase::Polling, failures: 0 });
    assert!(!p.is_finished());
}

#[test]
fn acknowledged_wins_over_expired() {
    let mut p = Poller::new();
    p.step(&Ok(receipt(1, 1)));
    assert_eq!(p.phase, PollPhase::Acknowledged);
    assert!(p.is_finished());
    p.step(&Err(ReceiptQueryError::Failed));
    assert_eq!(p.phase, PollPhase::Acknowledged);
}

#[test]
fn replay_of_nothing_keeps_polling() {
    let (p, used) = replay(&vec![]);
    assert_eq!(p, Poller::new());
    assert_eq!(used, 0);
}
