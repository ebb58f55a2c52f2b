//! The retry policy of a single archive download: a published archive is
//! processed, a missing one (HTTP 404) is skipped, and any other answer or a
//! network error is retried after a pause, for at most five attempts.

use vstd::prelude::*;

verus! {

/// Attempts per archive.
pub const MAX_ATTEMPTS: u32 = 5;

/// Pause before the next attempt, in seconds.
pub const RETRY_DELAY_SECS: u64 = 180;

/// What one request returned.
#[derive(Clone, Copy, Debug, PartialEq, Eq, Structural)]
pub enum FetchResult {
    /// The server answered with this HTTP status code.
    Status(u16),
    /// The request failed before any answer.
    NetworkError,
}

/// What to do after an attempt.
#[derive(Clone, Copy, Debug, PartialEq, Eq, Structural)]
pub enum AttemptAction {
    /// Read the body and save the data.
    Process,
    /// The archive is not published yet: stop without error.
    Skip,
    /// Wait this many seconds, then try again.
    Retry { delay_secs: u64 },
    /// The last attempt failed: stop with an error.
    GiveUp,
}

/// A 2xx status (`StatusCode::is_success`).
pub open spec fn is_success_status(code: int) -> bool {
    200 <= code < 300
}

/// The decision after attempt number `attempt` (counted from 1).
pub open spec fn attempt_action(attempt: int, result: FetchResult) -> AttemptAction {
    match result {
        FetchResult::Status(code) => if is_success_status(code as int) {
            AttemptAction::Process
        } else if code == 404 {
            AttemptAction::Skip
        } else if attempt < MAX_ATTEMPTS {
            AttemptAction::Retry { delay_secs: RETRY_DELAY_SECS }
        } else {
            AttemptAction::GiveUp
        },
        FetchResult::NetworkError => if attempt < MAX_ATTEMPTS {
            AttemptAction::Retry { delay_secs: RETRY_DELAY_SECS }
        } else {
            AttemptAction::GiveUp
        },
    }
}

/// Whether a result is one that is retried (neither a success nor a 404).
pub open spec fn is_retryable(result: FetchResult) -> bool {
    match result {
        FetchResult::Status(code) => !is_success_status(code as int) && code != 404,
        FetchResult::NetworkError => true,
    }
}

/// The decision after attempt number `attempt` with the given result.
pub fn next_action(attempt: u32, result: FetchResult) -> (r: AttemptAction)
    requires
        1 <= attempt <= MAX_ATTEMPTS,
    ensures
        r == attempt_action(attempt as int, result),
        r matches AttemptAction::Retry { delay_secs } ==> delay_secs == 180,
{
    match result {
        FetchResult::Status(code) => {
            if 200 <= code && code < 300 {
                AttemptAction::Process
            } else if code == 404 {
                AttemptAction::Skip
            } else if attempt < MAX_ATTEMPTS {
                AttemptAction::Retry { delay_secs: RETRY_DELAY_SECS }
            } else {
                AttemptAction::GiveUp
            }
        },
        FetchResult::NetworkError => {
            if attempt < MAX_ATTEMPTS {
                AttemptAction::Retry { delay_secs: RETRY_DELAY_SECS }
            } else {
                AttemptAction::GiveUp
            }
        },
    }
}

/// A download that meets `results[0]`, `results[1]`, ... from attempt
/// `attempt` on and follows `attempt_action`: the number of requests it makes
/// and the decision it stops on.
pub open spec fn run_attempts(results: Seq<FetchResult>, attempt: int) -> (int, AttemptAction)
    decreases MAX_ATTEMPTS - attempt,
{
    if attempt < 1 || attempt > MAX_ATTEMPTS || results.len() < attempt {
        (0, AttemptAction::GiveUp)
    } else {
        let action = attempt_action(attempt, results[attempt - 1]);
        if action is Retry && attempt < MAX_ATTEMPTS {
            let rest = run_attempts(results, attempt + 1);
            (rest.0 + 1, rest.1)
        } else {
            (1, action)
        }
    }
}

/// Every pause between two requests lasts 180 seconds, whatever the attempt
/// and whatever went wrong; a retry is decided only after one of the first
/// four attempts, and only for a result that is neither a 2xx nor a 404.
pub proof fn lemma_retry_delay(attempt: int, result: FetchResult)
    ensures
        attempt_action(attempt, result) matches AttemptAction::Retry { delay_secs } ==> delay_secs
            == 180,
        attempt_action(attempt, result) is Retry <==> (attempt < 5 && match result {
            FetchResult::Status(code) => !(200 <= code < 300) && code != 404,
            FetchResult::NetworkError => true,
        }),
        attempt_action(attempt, result) is GiveUp <==> (attempt >= 5 && match result {
            FetchResult::Status(code) => !(200 <= code < 300) && code != 404,
            FetchResult::NetworkError => true,
        }),
        attempt_action(attempt, result) is Skip <==> result == FetchResult::Status(404),
{
}

/// A download makes at most five requests; it stops on the first result
/// that is a success (process) or a 404 (skip), every earlier result having
/// been retried; and it gives up exactly when five results in a row are
/// retryable.
pub proof fn lemma_retry_policy(results: Seq<FetchResult>)
    requires
        results.len() >= MAX_ATTEMPTS,
    ensures
        1 <= run_attempts(results, 1).0 <= MAX_ATTEMPTS,
        !(run_attempts(results, 1).1 is Retry),
        run_attempts(results, 1).1 == attempt_action(
            run_attempts(results, 1).0,
            results[run_attempts(results, 1).0 - 1],
        ),
        forall|k: int| 0 <= k < run_attempts(results, 1).0 - 1 ==> is_retryable(#[trigger] results[k]),
        forall|k: int|
            0 <= k < run_attempts(results, 1).0 - 1 ==> attempt_action(k + 1, #[trigger] results[k])
                == (AttemptAction::Retry { delay_secs: 180 }),
        run_attempts(results, 1).1 is GiveUp <==> forall|k: int|
            0 <= k < MAX_ATTEMPTS ==> is_retryable(#[trigger] results[k]),
{
    lemma_run_from(results, 1);
    assert forall|k: int|
        0 <= k < run_attempts(results, 1).0 - 1 implies attempt_action(k + 1, #[trigger] results[k])
        == (AttemptAction::Retry { delay_secs: 180 }) by {
        assert(is_retryable(results[k]));
    }
}

proof fn lemma_run_from(results: Seq<FetchResult>, attempt: int)
    requires
        results.len() >= MAX_ATTEMPTS,
        1 <= attempt <= MAX_ATTEMPTS,
    ensures
        1 <= run_attempts(results, attempt).0 <= MAX_ATTEMPTS - attempt + 1,
        !(run_attempts(results, attempt).1 is Retry),
        run_attempts(results, attempt).1 == attempt_action(
            attempt + run_attempts(results, attempt).0 - 1,
            results[attempt + run_attempts(results, attempt).0 - 2],
        ),
        forall|k: int|
            attempt - 1 <= k < attempt + run_attempts(results, attempt).0 - 2 ==> is_retryable(
                #[trigger] results[k],
            ),
        run_attempts(results, attempt).1 is GiveUp <==> forall|k: int|
            attempt - 1 <= k < MAX_ATTEMPTS ==> is_retryable(#[trigger] results[k]),
    decreases MAX_ATTEMPTS - attempt,
{
    let action = attempt_action(attempt, results[attempt - 1]);
    if action is Retry && attempt < MAX_ATTEMPTS {
        lemma_run_from(results, attempt + 1);
        assert forall|k: int|
            attempt - 1 <= k < MAX_ATTEMPTS && (forall|j: int|
                attempt <= j < MAX_ATTEMPTS ==> is_retryable(#[trigger] results[j])) implies is_retryable(
            #[trigger] results[k],
        ) by {
            if k == attempt - 1 {
            }
        }
    } else {
        if attempt < MAX_ATTEMPTS {
            assert(!is_retryable(results[attempt - 1]));
        }
    }
}

} // verus!
