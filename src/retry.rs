use crate::error::ClientError;
use vstd::prelude::*;

verus! {

/// How many times one logical request is retried after a `401`.
pub const MAX_RETRY_COUNT: u8 = 3;

/// Status code of a successful response.
pub const STATUS_OK: u16 = 200;

/// Status code of a response that refused the bearer token.
pub const STATUS_UNAUTHORIZED: u16 = 401;

/// Milliseconds of backoff per retry, from the second retry on.
pub const BACKOFF_STEP_MS: u64 = 500;

/// What a logical request does after the protected endpoint answered.
#[derive(Debug, Clone, Copy, PartialEq, Eq, Structural)]
pub enum Decision {
    /// Hand the response body to the caller's handler.
    Deliver,
    /// Wait `wait_ms` milliseconds, force a refresh of the credentials, send again.
    Retry { wait_ms: u64 },
    /// Stop and report the error.
    Fail(ClientError),
}

/// The wait before the `k`-th retry: none before the first, `500 ms * k` after.
pub open spec fn backoff_ms(k: int) -> int {
    if k <= 1 {
        0
    } else {
        BACKOFF_STEP_MS * k
    }
}

/// The decision taken on `status` after `retries` unauthorized retries, and the
/// number of retries made afterwards.
pub open spec fn step(retries: u8, status: u16) -> (Decision, u8) {
    if status == STATUS_OK {
        (Decision::Deliver, retries)
    } else if status == STATUS_UNAUTHORIZED {
        if retries >= MAX_RETRY_COUNT {
            (Decision::Fail(ClientError::AuthExhausted), retries)
        } else {
            (Decision::Retry { wait_ms: backoff_ms(retries + 1) as u64 }, (retries + 1) as u8)
        }
    } else {
        (Decision::Fail(ClientError::UnsupportedStatus(status)), retries)
    }
}

/// Runs the state machine from `retries` over the statuses that successive sends
/// receive. Gives the number of sends made and the decision that ended the
/// request, or `None` if the statuses ran out first.
pub open spec fn run(retries: u8, statuses: Seq<u16>) -> (nat, Option<Decision>)
    decreases statuses.len(),
{
    if statuses.len() == 0 {
        (0, None)
    } else {
        let (d, next) = step(retries, statuses[0]);
        match d {
            Decision::Retry { .. } => {
                let (n, o) = run(next, statuses.drop_first());
                (n + 1, o)
            },
            _ => (1, Some(d)),
        }
    }
}

/// The retry state of one logical request: how many times it has been retried
/// after the endpoint refused its token. It starts at zero for every request.
#[derive(Debug)]
pub struct RetryState {
    unauthorized_retries: u8,
}

impl RetryState {
    pub closed spec fn retries(&self) -> u8 {
        self.unauthorized_retries
    }

    pub fn new() -> (s: RetryState)
        ensures
            s.retries() == 0,
    {
        RetryState { unauthorized_retries: 0 }
    }

    pub fn unauthorized_retries(&self) -> (r: u8)
        ensures
            r == self.retries(),
    {
        self.unauthorized_retries
    }

    /// Decides what follows a response with `status`, counting the retry it asks for.
    pub fn on_status(&mut self, status: u16) -> (d: Decision)
        ensures
            (d, final(self).retries()) == step(old(self).retries(), status),
    {
        if status == STATUS_OK {
            Decision::Deliver
        } else if status == STATUS_UNAUTHORIZED {
            if self.unauthorized_retries >= MAX_RETRY_COUNT {
                Decision::Fail(ClientError::AuthExhausted)
            } else {
                self.unauthorized_retries = self.unauthorized_retries + 1;
                let wait_ms: u64 = if self.unauthorized_retries > 1 {
                    BACKOFF_STEP_MS * self.unauthorized_retries as u64
                } else {
                    0
                };
                Decision::Retry { wait_ms }
            }
        } else {
            Decision::Fail(ClientError::UnsupportedStatus(status))
        }
    }
}

/// A request whose endpoint always answers `401` is sent exactly
/// `1 + MAX_RETRY_COUNT` times and then fails with `AuthExhausted`; no further
/// send follows, whatever statuses would come after.
pub proof fn lemma_retry_ceiling(statuses: Seq<u16>)
    requires
        statuses.len() >= 4,
        forall|i: int| 0 <= i < 4 ==> statuses[i] == STATUS_UNAUTHORIZED,
    ensures
        run(0, statuses) == (4nat, Some(Decision::Fail(ClientError::AuthExhausted))),
{
    let s1 = statuses.drop_first();
    let s2 = s1.drop_first();
    let s3 = s2.drop_first();
    assert(s1[0] == STATUS_UNAUTHORIZED && s2[0] == STATUS_UNAUTHORIZED && s3[0]
        == STATUS_UNAUTHORIZED);
    assert(run(3, s3) == (1nat, Some(Decision::Fail(ClientError::AuthExhausted))));
    assert(run(2, s2) == (2nat, Some(Decision::Fail(ClientError::AuthExhausted))));
    assert(run(1, s1) == (3nat, Some(Decision::Fail(ClientError::AuthExhausted))));
}

/// The waits before the first, second and third retry are 0, 1000 and 1500 ms.
pub proof fn lemma_backoff_schedule()
    ensures
        step(0, STATUS_UNAUTHORIZED) == (Decision::Retry { wait_ms: 0 }, 1u8),
        step(1, STATUS_UNAUTHORIZED) == (Decision::Retry { wait_ms: 1000 }, 2u8),
        step(2, STATUS_UNAUTHORIZED) == (Decision::Retry { wait_ms: 1500 }, 3u8),
{
}

/// A status other than `200` or `401` on the first send ends the request with
/// `UnsupportedStatus` after that one send: no retry and no wait.
pub proof fn lemma_hard_failure(statuses: Seq<u16>)
    requires
        statuses.len() >= 1,
        statuses[0] != STATUS_OK,
        statuses[0] != STATUS_UNAUTHORIZED,
    ensures
        run(0, statuses) == (1nat, Some(Decision::Fail(ClientError::UnsupportedStatus(statuses[0])))),
{
}

} // verus!
