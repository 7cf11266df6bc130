//! How often a failed lookup is sent again, and how long to pause between.

use vstd::prelude::*;

verus! {

/// The number of sends where the caller names none.
pub const DEFAULT_MAX_RETRIES: usize = 5;

/// The pause after a failed send where the caller names none, in milliseconds.
pub const DEFAULT_RETRY_DELAY_MS: u64 = 3000;

/// The limits of one lookup.
#[derive(Clone, Copy, Debug, PartialEq, Eq, Structural)]
pub struct RetryPolicy {
    /// How many sends are made at most.
    pub max_retries: usize,
    /// The pause after each failed send, in milliseconds.
    pub retry_delay_ms: u64,
}

/// What follows a number of failed sends.
#[derive(Clone, Copy, Debug, PartialEq, Eq, Structural)]
pub enum RetryStep {
    /// Send the request.
    Send,
    /// Every send allowed has failed: report that the tries are used up.
    GiveUp,
}

impl RetryPolicy {
    /// The step after `failures` failed sends.
    pub open spec fn step(&self, failures: usize) -> RetryStep {
        if failures < self.max_retries {
            RetryStep::Send
        } else {
            RetryStep::GiveUp
        }
    }

    /// The policy for the given limits, with the defaults where one is absent.
    pub fn new(max_retries: Option<usize>, retry_delay_ms: Option<u64>) -> (policy: RetryPolicy)
        ensures
            policy.max_retries == match max_retries {
                Some(n) => n,
                None => DEFAULT_MAX_RETRIES,
            },
            policy.retry_delay_ms == match retry_delay_ms {
                Some(d) => d,
                None => DEFAULT_RETRY_DELAY_MS,
            },
    {
        RetryPolicy {
            max_retries: match max_retries {
                Some(n) => n,
                None => DEFAULT_MAX_RETRIES,
            },
            retry_delay_ms: match retry_delay_ms {
                Some(d) => d,
                None => DEFAULT_RETRY_DELAY_MS,
            },
        }
    }

    /// What to do after `failures` failed sends, each of which was followed by
    /// the pause: send again while fewer than the limit have been made, then
    /// give up. With a limit of zero nothing is ever sent.
    pub fn next_step(&self, failures: usize) -> (step: RetryStep)
        ensures
            step == self.step(failures),
    {
        if failures < self.max_retries {
            RetryStep::Send
        } else {
            RetryStep::GiveUp
        }
    }
}

/// The sends of one lookup never exceed the limit: once as many have failed,
/// every later step gives up.
pub proof fn lemma_sends_are_bounded(policy: RetryPolicy, failures: usize)
    ensures
        policy.step(failures) == RetryStep::Send <==> failures < policy.max_retries,
        forall|later: usize|
            failures <= later && policy.step(failures) == RetryStep::GiveUp ==> #[trigger] policy.step(
                later,
            ) == RetryStep::GiveUp,
{
}

} // verus!
