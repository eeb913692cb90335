//! The resilient submitter's decision engine: a two-state machine (Sending,
//! Polling) bounded by one wall-clock deadline started at the first send.
//! The caller performs each RPC call and hands back the classified outcome;
//! every transition is decided here.

use vstd::prelude::*;
use vstd::string::StrSliceExecFns;

use crate::errors::OmniError;

verus! {

/// The fixed submission ceiling: 300 seconds from the first send.
pub const DEADLINE_MILLIS: u64 = 300000;

/// One RPC call's result, classified: delivered, a gateway/request timeout
/// that only means "keep polling", or anything else.
#[derive(Debug, Clone, Copy, PartialEq, Eq, Structural)]
pub enum CallOutcome {
    Success,
    GatewayTimeout,
    Fatal,
}

/// Where the submission stands: the initial send, or status polling after a
/// gateway timeout.
#[derive(Debug, Clone, Copy, PartialEq, Eq, Structural)]
pub enum SubmitState {
    Sending,
    Polling,
}

/// What the engine tells the caller to do next.
#[derive(Debug, Clone, Copy, PartialEq, Eq, Structural)]
pub enum SubmitAction {
    /// Terminal: hand the received response to the caller.
    ReturnSuccess,
    /// Terminal: surface this error.
    ReturnError(OmniError),
    /// Query status by the request identifier and call again.
    Poll,
}

/// The transition relation of the submitter. In `Sending`, a success returns,
/// a gateway timeout moves to polling, anything else is fatal. In `Polling`,
/// an exceeded deadline aborts regardless of the observed outcome; otherwise
/// a success returns, a gateway timeout polls again, anything else is fatal.
pub open spec fn submit_step_spec(
    state: SubmitState,
    outcome: CallOutcome,
    elapsed_millis: u64,
) -> SubmitAction {
    match state {
        SubmitState::Sending => match outcome {
            CallOutcome::Success => SubmitAction::ReturnSuccess,
            CallOutcome::GatewayTimeout => SubmitAction::Poll,
            CallOutcome::Fatal => SubmitAction::ReturnError(OmniError::TransportFailure),
        },
        SubmitState::Polling => if elapsed_millis > DEADLINE_MILLIS {
            SubmitAction::ReturnError(OmniError::DeadlineExceeded)
        } else {
            match outcome {
                CallOutcome::Success => SubmitAction::ReturnSuccess,
                CallOutcome::GatewayTimeout => SubmitAction::Poll,
                CallOutcome::Fatal => SubmitAction::ReturnError(OmniError::TransportFailure),
            }
        },
    }
}

/// Decides the next action from the current state, the classified outcome of
/// the call that just returned, and the time elapsed since the first send.
pub fn submit_step(state: SubmitState, outcome: CallOutcome, elapsed_millis: u64) -> (r:
    SubmitAction)
    ensures
        r == submit_step_spec(state, outcome, elapsed_millis),
{
    match state {
        SubmitState::Sending => match outcome {
            CallOutcome::Success => SubmitAction::ReturnSuccess,
            CallOutcome::GatewayTimeout => SubmitAction::Poll,
            CallOutcome::Fatal => SubmitAction::ReturnError(OmniError::TransportFailure),
        },
        SubmitState::Polling => {
            if elapsed_millis > DEADLINE_MILLIS {
                SubmitAction::ReturnError(OmniError::DeadlineExceeded)
            } else {
                match outcome {
                    CallOutcome::Success => SubmitAction::ReturnSuccess,
                    CallOutcome::GatewayTimeout => SubmitAction::Poll,
                    CallOutcome::Fatal => SubmitAction::ReturnError(OmniError::TransportFailure),
                }
            }
        },
    }
}

/// Whether one sequence occurs as a contiguous subsequence of another.
pub open spec fn contains_seq(hay: Seq<char>, needle: Seq<char>) -> bool {
    exists|i: int|
        0 <= i && i + needle.len() <= hay.len() && #[trigger] hay.subrange(i, i + needle.len())
            == needle
}

/// Whether the needle matches the haystack at one position.
fn matches_at(hay: &str, hay_len: usize, needle: &str, needle_len: usize, at: usize) -> (r: bool)
    requires
        hay_len == hay@.len(),
        needle_len == needle@.len(),
        at + needle_len <= hay_len,
    ensures
        r == (hay@.subrange(at as int, at + needle@.len()) == needle@),
{
    let mut j: usize = 0;
    while j < needle_len
        invariant
            hay_len == hay@.len(),
            needle_len == needle@.len(),
            at + needle_len <= hay_len,
            j <= needle_len,
            forall|k: int| 0 <= k < j ==> hay@[at + k] == needle@[k],
        decreases needle_len - j,
    {
        if hay.get_char(at + j) != needle.get_char(j) {
            proof {
                assert(hay@.subrange(at as int, at + needle@.len())[j as int] != needle@[
                    j as int]);
            }
            return false;
        }
        j = j + 1;
    }
    proof {
        assert(hay@.subrange(at as int, at + needle@.len()) =~= needle@);
    }
    true
}

/// Whether the needle occurs anywhere in the haystack.
pub fn str_contains(hay: &str, needle: &str) -> (r: bool)
    ensures
        r == contains_seq(hay@, needle@),
{
    let hay_len = hay.unicode_len();
    let needle_len = needle.unicode_len();
    if needle_len > hay_len {
        proof {
            assert(!contains_seq(hay@, needle@));
        }
        return false;
    }
    if needle_len == 0 {
        proof {
            assert(hay@.subrange(0, 0 + needle@.len() as int) =~= needle@);
            assert(contains_seq(hay@, needle@));
        }
        return true;
    }
    let last = hay_len - needle_len;
    let mut i: usize = 0;
    while i <= last
        invariant
            hay_len == hay@.len(),
            needle_len == needle@.len(),
            needle_len <= hay_len,
            last == hay_len - needle_len,
            needle_len >= 1,
            i <= last + 1,
            forall|p: int|
                0 <= p < i ==> #[trigger] hay@.subrange(p, p + needle@.len()) != needle@,
        decreases last + 1 - i,
    {
        if matches_at(hay, hay_len, needle, needle_len, i) {
            return true;
        }
        i = i + 1;
    }
    proof {
        assert forall|p: int|
            0 <= p && p + needle@.len() <= hay@.len() implies #[trigger] hay@.subrange(
            p,
            p + needle@.len(),
        ) != needle@ by {
            assert(p < i);
        }
    }
    false
}

/// The gateway-timeout text that identifies a retryable transport failure.
pub open spec fn request_timeout_text() -> Seq<char> {
    "408 Request Timeout"@
}

/// Classifies a failed call: retryable exactly when the transport reported
/// the timeout error kind, or its message carries the request-timeout text.
pub fn classify_failure(is_timeout_kind: bool, message: &str) -> (r: CallOutcome)
    ensures
        r == (if is_timeout_kind || contains_seq(message@, request_timeout_text()) {
            CallOutcome::GatewayTimeout
        } else {
            CallOutcome::Fatal
        }),
        r != CallOutcome::Success,
{
    if is_timeout_kind || str_contains(message, "408 Request Timeout") {
        CallOutcome::GatewayTimeout
    } else {
        CallOutcome::Fatal
    }
}

/// The terminal result of a submission run over a script of observed call
/// outcomes and their elapsed times: the index of the call that ended it and
/// how, or `None` when the script ran out with the machine still polling.
pub open spec fn submission_result(
    state: SubmitState,
    outcomes: Seq<CallOutcome>,
    elapsed: Seq<u64>,
) -> Option<Result<int, OmniError>>
    decreases outcomes.len(),
{
    if outcomes.len() == 0 {
        None
    } else {
        match submit_step_spec(state, outcomes.first(), elapsed.first()) {
            SubmitAction::ReturnSuccess => Some(Ok(0)),
            SubmitAction::ReturnError(e) => Some(Err(e)),
            SubmitAction::Poll => match submission_result(
                SubmitState::Polling,
                outcomes.drop_first(),
                elapsed.drop_first(),
            ) {
                Option::None => None,
                Option::Some(Result::Ok(i)) => Some(Ok(i + 1)),
                Option::Some(Result::Err(e)) => Some(Err(e)),
            },
        }
    }
}

/// Runs the decision engine over a script of classified call outcomes, each
/// paired with the elapsed time observed when it returned. Returns the index
/// of the terminating call and its verdict, or `None` when the script ended
/// with the machine still polling.
pub fn run_submission(outcomes: &Vec<CallOutcome>, elapsed: &Vec<u64>) -> (r: Option<
    Result<usize, OmniError>,
>)
    requires
        outcomes@.len() == elapsed@.len(),
    ensures
        match r {
            Option::None => submission_result(SubmitState::Sending, outcomes@, elapsed@) is None,
            Option::Some(Result::Ok(i)) => submission_result(
                SubmitState::Sending,
                outcomes@,
                elapsed@,
            ) == Some(Ok::<int, OmniError>(i as int)),
            Option::Some(Result::Err(e)) => submission_result(
                SubmitState::Sending,
                outcomes@,
                elapsed@,
            ) == Some(Err::<int, OmniError>(e)),
        },
{
    let mut state = SubmitState::Sending;
    let n = outcomes.len();
    let mut i: usize = 0;
    proof {
        assert(outcomes@.skip(0) =~= outcomes@);
        assert(elapsed@.skip(0) =~= elapsed@);
    }
    while i < n
        invariant
            n == outcomes@.len() == elapsed@.len(),
            i <= n,
            i > 0 ==> state is Polling,
            i == 0 ==> state is Sending,
            submission_result(SubmitState::Sending, outcomes@, elapsed@) == shift_result(
                submission_result(state, outcomes@.skip(i as int), elapsed@.skip(i as int)),
                i as int,
            ),
        decreases n - i,
    {
        let action = submit_step(state, outcomes[i], elapsed[i]);
        proof {
            let rest_o = outcomes@.skip(i as int);
            let rest_e = elapsed@.skip(i as int);
            assert(rest_o.first() == outcomes@[i as int]);
            assert(rest_e.first() == elapsed@[i as int]);
            assert(rest_o.drop_first() =~= outcomes@.skip(i + 1));
            assert(rest_e.drop_first() =~= elapsed@.skip(i + 1));
        }
        match action {
            SubmitAction::ReturnSuccess => {
                proof {
                    assert(submission_result(state, outcomes@.skip(i as int), elapsed@.skip(i as int))
                        == Some(Ok::<int, OmniError>(0)));
                }
                return Some(Ok(i));
            },
            SubmitAction::ReturnError(e) => {
                proof {
                    assert(submission_result(state, outcomes@.skip(i as int), elapsed@.skip(i as int))
                        == Some(Err::<int, OmniError>(e)));
                }
                return Some(Err(e));
            },
            SubmitAction::Poll => {
                state = SubmitState::Polling;
            },
        }
        i = i + 1;
    }
    proof {
        assert(outcomes@.skip(n as int).len() == 0);
    }
    None
}

/// A submission verdict observed after skipping a prefix, translated back to
/// the whole script: terminal indices shift by the prefix length.
pub open spec fn shift_result(r: Option<Result<int, OmniError>>, by: int) -> Option<
    Result<int, OmniError>,
> {
    match r {
        Option::None => None,
        Option::Some(Result::Ok(i)) => Some(Ok(i + by)),
        Option::Some(Result::Err(e)) => Some(Err(e)),
    }
}

/// A gateway timeout answered by a success on the first poll, inside the
/// deadline, delivers the response: no error surfaces.
pub proof fn lemma_submitter_recovers_after_timeout(outcomes: Seq<CallOutcome>, elapsed: Seq<u64>)
    requires
        outcomes.len() == 2,
        elapsed.len() == 2,
        outcomes[0] is GatewayTimeout,
        outcomes[1] is Success,
        elapsed[1] <= DEADLINE_MILLIS,
    ensures
        submission_result(SubmitState::Sending, outcomes, elapsed) == Some(
            Ok::<int, OmniError>(1),
        ),
{
    assert(outcomes.drop_first().first() == outcomes[1]);
    assert(elapsed.drop_first().first() == elapsed[1]);
    assert(submission_result(SubmitState::Polling, outcomes.drop_first(), elapsed.drop_first())
        == Some(Ok::<int, OmniError>(0)));
}

/// When every call reports a gateway timeout, the first poll observed past
/// the deadline aborts the submission with `DeadlineExceeded`.
pub proof fn lemma_submitter_deadline(outcomes: Seq<CallOutcome>, elapsed: Seq<u64>, k: int)
    requires
        outcomes.len() == elapsed.len(),
        1 <= k < outcomes.len(),
        forall|i: int| 0 <= i < outcomes.len() ==> outcomes[i] is GatewayTimeout,
        forall|j: int| 1 <= j < k ==> elapsed[j] <= DEADLINE_MILLIS,
        elapsed[k] > DEADLINE_MILLIS,
    ensures
        submission_result(SubmitState::Sending, outcomes, elapsed) == Some(
            Err::<int, OmniError>(OmniError::DeadlineExceeded),
        ),
{
    lemma_polling_deadline(outcomes.drop_first(), elapsed.drop_first(), k - 1);
    assert(outcomes.first() is GatewayTimeout);
}

/// The polling half of the deadline argument, by induction on the script.
proof fn lemma_polling_deadline(outcomes: Seq<CallOutcome>, elapsed: Seq<u64>, k: int)
    requires
        outcomes.len() == elapsed.len(),
        0 <= k < outcomes.len(),
        forall|i: int| 0 <= i < outcomes.len() ==> outcomes[i] is GatewayTimeout,
        forall|j: int| 0 <= j < k ==> elapsed[j] <= DEADLINE_MILLIS,
        elapsed[k] > DEADLINE_MILLIS,
    ensures
        submission_result(SubmitState::Polling, outcomes, elapsed) == Some(
            Err::<int, OmniError>(OmniError::DeadlineExceeded),
        ),
    decreases k,
{
    if k > 0 {
        lemma_polling_deadline(outcomes.drop_first(), elapsed.drop_first(), k - 1);
    }
}

} // verus!
