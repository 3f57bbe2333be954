//! The acknowledgment poll: one decision per receipt fetch.
//!
//! The caller waits between fetches, performs each fetch and hands its
//! outcome to [`Poller::step`] until the poller is finished.
use vstd::prelude::*;
use crate::service::{NotificationResult, ReceiptQueryError, ReceiptStatus};

verus! {

/// Consecutive failed fetches after which polling gives up.
pub const MAX_FAILURES: u32 = 5;

/// Seconds to wait before each fetch.
pub const POLL_INTERVAL_SECS: u64 = 5;

#[derive(PartialEq, Eq, Structural, Clone, Copy, Debug)]
pub enum PollPhase {
    Polling,
    Acknowledged,
    Expired,
    Aborted,
}

#[derive(PartialEq, Eq, Structural, Clone, Copy, Debug)]
pub struct Poller {
    pub phase: PollPhase,
    /// Failed fetches since the last successful one.
    pub failures: u32,
}

#[derive(PartialEq, Eq, Structural, Clone, Copy, Debug)]
pub enum PollError {
    /// Waiting was asked for, but the notification carries no receipt.
    Precondition,
    /// Too many consecutive fetches failed; the notification itself was sent.
    Aborted,
}

/// The poller that the poll starts from.
pub open spec fn initial_poller() -> Poller {
    Poller { phase: PollPhase::Polling, failures: 0 }
}

/// The poller after one fetch with the given outcome.
pub open spec fn next_poller(p: Poller, outcome: Result<ReceiptStatus, ReceiptQueryError>) -> Poller {
    if p.phase != PollPhase::Polling {
        p
    } else {
        match outcome {
            Ok(st) => if st.acknowledged == 1 {
                Poller { phase: PollPhase::Acknowledged, failures: 0 }
            } else if st.expired == 1 {
                Poller { phase: PollPhase::Expired, failures: 0 }
            } else {
                Poller { phase: PollPhase::Polling, failures: 0 }
            },
            Err(_) => if p.failures + 1 >= MAX_FAILURES {
                Poller { phase: PollPhase::Aborted, failures: (p.failures + 1) as u32 }
            } else {
                Poller { phase: PollPhase::Polling, failures: (p.failures + 1) as u32 }
            },
        }
    }
}

/// Running the poll over recorded fetch outcomes from index `i` on: the
/// final poller and the number of outcomes consumed by then.
pub open spec fn run_from(p: Poller, outcomes: Seq<Result<ReceiptStatus, ReceiptQueryError>>, i: int) -> (Poller, int)
    decreases outcomes.len() - i,
{
    if i < 0 || i >= outcomes.len() || p.phase != PollPhase::Polling {
        (p, i)
    } else {
        run_from(next_poller(p, outcomes[i]), outcomes, i + 1)
    }
}

impl Poller {
    pub open spec fn wf(&self) -> bool {
        &&& self.failures <= MAX_FAILURES
        &&& self.phase == PollPhase::Polling ==> self.failures < MAX_FAILURES
    }

    /// A poller that has not fetched yet.
    pub fn new() -> (r: Poller)
        ensures
            r == initial_poller(),
            r.wf(),
    {
        Poller { phase: PollPhase::Polling, failures: 0 }
    }

    /// Starts waiting on a submitted notification; refused when it carries
    /// no receipt identifier.
    pub fn start(result: &NotificationResult) -> (r: Result<Poller, PollError>)
        ensures
            result.receipt@.len() == 0 <==> r == Err::<Poller, PollError>(PollError::Precondition),
            result.receipt@.len() > 0 <==> r == Ok::<Poller, PollError>(initial_poller()),
    {
        if result.receipt.as_str().unicode_len() == 0 {
            Err(PollError::Precondition)
        } else {
            Ok(Poller::new())
        }
    }

    /// True once the poll has reached a terminal phase.
    pub fn is_finished(&self) -> (r: bool)
        ensures
            r == (self.phase != PollPhase::Polling),
    {
        self.phase != PollPhase::Polling
    }

    /// Takes the outcome of one fetch. A success resets the failure count
    /// and ends the poll when the notification was acknowledged or expired;
    /// a failure counts, and the fifth in a row aborts the poll.
    pub fn step(&mut self, outcome: &Result<ReceiptStatus, ReceiptQueryError>)
        requires
            old(self).wf(),
        ensures
            *final(self) == next_poller(*old(self), *outcome),
            final(self).wf(),
    {
        if self.phase != PollPhase::Polling {
            return;
        }
        match outcome {
            Ok(st) => {
                self.failures = 0;
                if st.acknowledged == 1 {
                    self.phase = PollPhase::Acknowledged;
                } else if st.expired == 1 {
                    self.phase = PollPhase::Expired;
                }
            },
            Err(_) => {
                self.failures = self.failures + 1;
                if self.failures >= MAX_FAILURES {
                    self.phase = PollPhase::Aborted;
                }
            },
        }
    }

    /// How a finished poll ends for the caller: acknowledged or expired is
    /// success, aborted is [`PollError::Aborted`].
    pub fn verdict(&self) -> (r: Result<PollPhase, PollError>)
        ensures
            self.phase == PollPhase::Aborted <==> r == Err::<PollPhase, PollError>(PollError::Aborted),
            self.phase != PollPhase::Aborted <==> r == Ok::<PollPhase, PollError>(self.phase),
    {
        if self.phase == PollPhase::Aborted {
            Err(PollError::Aborted)
        } else {
            Ok(self.phase)
        }
    }
}

/// Runs a fresh poll over recorded fetch outcomes, stopping as soon as it
/// finishes; returns the final poller and how many outcomes it consumed.
pub fn replay(outcomes: &Vec<Result<ReceiptStatus, ReceiptQueryError>>) -> (r: (Poller, usize))
    ensures
        (r.0, r.1 as int) == run_from(initial_poller(), outcomes@, 0),
        r.0.wf(),
{
    let mut p = Poller::new();
    let mut i: usize = 0;
    while i < outcomes.len() && !p.is_finished()
        invariant
            0 <= i <= outcomes@.len(),
            p.wf(),
            run_from(p, outcomes@, i as int) == run_from(initial_poller(), outcomes@, 0),
        decreases outcomes@.len() - i,
    {
        p.step(&outcomes[i]);
        i = i + 1;
    }
    (p, i)
}

proof fn lemma_failures_prefix(outcomes: Seq<Result<ReceiptStatus, ReceiptQueryError>>, j: int)
    requires
        0 <= j < MAX_FAILURES,
        j <= outcomes.len(),
        forall|k: int| 0 <= k < j ==> (#[trigger] outcomes[k]) is Err,
    ensures
        run_from(initial_poller(), outcomes, 0)
            == run_from(Poller { phase: PollPhase::Polling, failures: j as u32 }, outcomes, j),
    decreases j,
{
    if j > 0 {
        lemma_failures_prefix(outcomes, j - 1);
        assert(outcomes[j - 1] is Err);
    }
}

/// Five failed fetches in a row abort the poll, and no sixth fetch is made.
pub proof fn lemma_abort_at_threshold(outcomes: Seq<Result<ReceiptStatus, ReceiptQueryError>>)
    requires
        outcomes.len() >= MAX_FAILURES,
        forall|k: int| 0 <= k < MAX_FAILURES ==> (#[trigger] outcomes[k]) is Err,
    ensures
        run_from(initial_poller(), outcomes, 0)
            == (Poller { phase: PollPhase::Aborted, failures: MAX_FAILURES }, MAX_FAILURES as int),
{
    lemma_failures_prefix(outcomes, 4);
    let before = Poller { phase: PollPhase::Polling, failures: 4 };
    let after = Poller { phase: PollPhase::Aborted, failures: MAX_FAILURES };
    assert(outcomes[4] is Err);
    assert(next_poller(before, outcomes[4]) == after);
    assert(run_from(before, outcomes, 4) == run_from(after, outcomes, 5));
    assert(run_from(after, outcomes, 5) == (after, 5int));
}

/// Fewer than five failed fetches followed by an acknowledged receipt end
/// the poll as acknowledged, with the failure count reset.
pub proof fn lemma_acknowledged_after_failures(outcomes: Seq<Result<ReceiptStatus, ReceiptQueryError>>, k: int)
    requires
        0 <= k < MAX_FAILURES,
        k < outcomes.len(),
        forall|j: int| 0 <= j < k ==> (#[trigger] outcomes[j]) is Err,
        outcomes[k] matches Ok(st) && st.acknowledged == 1,
    ensures
        run_from(initial_poller(), outcomes, 0)
            == (Poller { phase: PollPhase::Acknowledged, failures: 0 }, k + 1),
{
    lemma_failures_prefix(outcomes, k);
    let before = Poller { phase: PollPhase::Polling, failures: k as u32 };
    let after = Poller { phase: PollPhase::Acknowledged, failures: 0 };
    assert(next_poller(before, outcomes[k]) == after);
    assert(run_from(before, outcomes, k) == run_from(after, outcomes, k + 1));
    assert(run_from(after, outcomes, k + 1) == (after, k + 1));
}

/// An expired, unacknowledged receipt ends the poll as expired, whatever
/// the failures before it.
pub proof fn lemma_expired_ends_poll(p: Poller, st: ReceiptStatus)
    requires
        p.wf(),
        p.phase == PollPhase::Polling,
        st.expired == 1,
        st.acknowledged == 0,
    ensures
        next_poller(p, Ok(st)) == (Poller { phase: PollPhase::Expired, failures: 0 }),
{
}

} // verus!
