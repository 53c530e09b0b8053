//! Failures of Telegram requests, and when a request is tried again.

use crate::chat::ChatId;
use vstd::prelude::*;

verus! {

/// An answer of Telegram that refuses a request.
#[derive(Debug)]
pub enum ApiError {
    MessageIdInvalid,
    NotEnoughRightsToManagePins,
    NotEnoughRightsToPinMessage,
    ChatNotFound,
    /// One that has no name of its own, with Telegram's text.
    Unknown(String),
    /// Any other.
    Other,
}

/// Why a request failed.
#[derive(Debug)]
pub enum RequestError {
    Api(ApiError),
    /// The group became a supergroup with this id.
    MigrateToChatId(ChatId),
    /// The network failed.
    Network,
    /// Anything else.
    Other,
}

/// Maximum attempts for a Telegram call retried on network failures.
pub const MAX_ATTEMPTS: u32 = 3;

/// Backoff in milliseconds before each retry after the first attempt.
pub open spec fn backoff() -> Seq<u64> {
    seq![500, 1000]
}

/// The backoff after the failed attempts `attempts`, counted from zero.
fn backoff_millis(attempts: u32) -> (r: u64)
    requires
        attempts + 1 < MAX_ATTEMPTS,
    ensures
        r == backoff()[attempts as int],
{
    if attempts == 0 {
        500
    } else {
        1000
    }
}

/// What follows an attempt.
#[derive(Clone, Copy, Debug, PartialEq, Eq, Structural)]
pub enum RetryStep {
    /// Its result is the result.
    Return,
    /// Wait, then try again; `attempts` counts the failed attempts.
    Again { after_millis: u64, attempts: u32 },
}

/// What follows an attempt that came after `attempts` failed ones, where
/// `network` says whether the network failed it: only network failures are
/// tried again, and only within the budget.
pub open spec fn retry_step(attempts: u32, network: bool) -> RetryStep {
    if network && attempts + 1 < MAX_ATTEMPTS {
        RetryStep::Again {
            after_millis: backoff()[attempts as int],
            attempts: (attempts + 1) as u32,
        }
    } else {
        RetryStep::Return
    }
}

/// What follows an attempt that came after `attempts` failed ones and went as
/// `outcome` says.
pub open spec fn next_attempt(attempts: u32, outcome: Result<(), RequestError>) -> RetryStep {
    retry_step(attempts, outcome == Err::<(), RequestError>(RequestError::Network))
}

/// What follows an attempt that came after `attempts` failed ones. Network
/// errors are tried again up to [`MAX_ATTEMPTS`] times in all, with backoff;
/// success and any other error are returned immediately.
///
/// A flood wait (429) is not among the failures here: the throttle that the
/// bot is built with waits as long as Telegram demands. This budget covers
/// network failures only.
pub fn with_retry(attempts: u32, outcome: &Result<(), RequestError>) -> (r: RetryStep)
    ensures
        r == next_attempt(attempts, *outcome),
{
    match outcome {
        Err(RequestError::Network) => if attempts >= MAX_ATTEMPTS - 1 {
            RetryStep::Return
        } else {
            RetryStep::Again { after_millis: backoff_millis(attempts), attempts: attempts + 1 }
        },
        _ => RetryStep::Return,
    }
}

/// How many attempts are made from the one after `attempts` failed ones on,
/// where `network` says of each attempt whether the network fails it.
pub open spec fn attempts_made(network: spec_fn(u32) -> bool, attempts: u32) -> nat
    decreases MAX_ATTEMPTS - attempts,
{
    match retry_step(attempts, network(attempts)) {
        RetryStep::Return => 1,
        RetryStep::Again { attempts: next, .. } => 1 + attempts_made(network, next),
    }
}

/// The waits, in milliseconds, between those attempts.
pub open spec fn waits(network: spec_fn(u32) -> bool, attempts: u32) -> Seq<u64>
    decreases MAX_ATTEMPTS - attempts,
{
    match retry_step(attempts, network(attempts)) {
        RetryStep::Return => Seq::empty(),
        RetryStep::Again { after_millis, attempts: next } => seq![after_millis] + waits(
            network,
            next,
        ),
    }
}

/// The attempt budget. There is at least one attempt and there are at most
/// [`MAX_ATTEMPTS`]; each but the last failed on the network and waited out
/// one backoff slot; the last one is the first that did not fail on the
/// network, unless the budget is used up. With no success every slot is used.
pub proof fn attempts_stay_within_the_budget(network: spec_fn(u32) -> bool)
    ensures
        ({
            let n = attempts_made(network, 0);
            &&& 1 <= n <= MAX_ATTEMPTS
            &&& forall|i: u32| i + 1 < n ==> #[trigger] network(i)
            &&& n < MAX_ATTEMPTS ==> !network((n - 1) as u32)
            &&& waits(network, 0) == backoff().take(n - 1)
            &&& backoff().len() == MAX_ATTEMPTS - 1
            &&& (forall|i: u32| #[trigger] network(i)) ==> n == MAX_ATTEMPTS && waits(network, 0)
                == backoff()
        }),
{
    reveal_with_fuel(attempts_made, 4);
    reveal_with_fuel(waits, 4);
    let n = attempts_made(network, 0);
    assert(network(0) || !network(0));
    assert(network(1) || !network(1));
    assert(waits(network, 0) =~= backoff().take(n - 1));
    assert(backoff().take(2) =~= backoff());
}

} // verus!
