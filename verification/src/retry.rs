//! Retrying a request: the decisions taken after each attempt.
//!
//! The caller makes an attempt, hands its outcome to [`Retry::record`], and
//! does what the returned [`RetryStep`] says.

use vstd::prelude::*;

use crate::limits::HTTP_RETRY_ATTEMPTS;
use crate::text::{decimal, decimal_value, lemma_decimal_reads_back, u64_to_decimal};

verus! {

/// What to do after an attempt.
#[derive(Debug)]
pub enum RetryStep<T> {
    /// The attempt succeeded with this value.
    Succeeded(T),
    /// The attempt failed; make another one.
    TryAgain,
    /// The last allowed attempt failed; fail with this message.
    GaveUp(String),
}

/// [`RetryStep`] with its message taken by its view.
pub enum RetryDecision<T> {
    Succeed(T),
    Again,
    GiveUp(Seq<char>),
}

/// The decision that a step stands for.
pub open spec fn decision_of<T>(step: RetryStep<T>) -> RetryDecision<T> {
    match step {
        RetryStep::Succeeded(v) => RetryDecision::Succeed(v),
        RetryStep::TryAgain => RetryDecision::Again,
        RetryStep::GaveUp(m) => RetryDecision::GiveUp(m@),
    }
}

/// An outcome with its error message taken by its view.
pub open spec fn outcome_view<T>(outcome: Result<T, String>) -> Result<T, Seq<char>> {
    match outcome {
        Ok(v) => Ok(v),
        Err(e) => Err(e@),
    }
}

/// The message of a request that failed on every attempt.
pub open spec fn give_up_message(description: Seq<char>, last_error: Seq<char>) -> Seq<char> {
    description + " failed after "@ + decimal(HTTP_RETRY_ATTEMPTS as nat) + " attempts: "@
        + last_error
}

/// The decision after attempt number `made + 1`, whose outcome is `outcome`.
pub open spec fn step_decision<T>(
    description: Seq<char>,
    made: nat,
    outcome: Result<T, Seq<char>>,
) -> RetryDecision<T> {
    match outcome {
        Ok(v) => RetryDecision::Succeed(v),
        Err(e) => if made + 1 >= HTTP_RETRY_ATTEMPTS {
            RetryDecision::GiveUp(give_up_message(description, e))
        } else {
            RetryDecision::Again
        },
    }
}

/// The number of attempts made and the result, when the outcomes of the
/// attempts from number `made + 1` on are `outcomes[made..]`.
pub open spec fn run_from<T>(
    description: Seq<char>,
    outcomes: Seq<Result<T, Seq<char>>>,
    made: nat,
) -> (nat, Result<T, Seq<char>>)
    decreases HTTP_RETRY_ATTEMPTS - made,
{
    if made >= HTTP_RETRY_ATTEMPTS {
        (made, Err(Seq::empty()))
    } else {
        match step_decision(description, made, outcomes[made as int]) {
            RetryDecision::Succeed(v) => (made + 1, Ok(v)),
            RetryDecision::GiveUp(m) => (made + 1, Err(m)),
            RetryDecision::Again => run_from(description, outcomes, made + 1),
        }
    }
}

/// The state of a request being retried.
pub struct Retry {
    description: String,
    made: usize,
}

impl Retry {
    /// What the request is, as the failure message names it.
    pub closed spec fn description(&self) -> Seq<char> {
        self.description@
    }

    /// The attempts made so far.
    pub closed spec fn made(&self) -> nat {
        self.made as nat
    }

    /// Whether another attempt may be made.
    pub open spec fn is_running(&self) -> bool {
        self.made() < HTTP_RETRY_ATTEMPTS
    }

    /// A request before its first attempt.
    pub fn new(description: &str) -> (r: Retry)
        ensures
            r.description() == description@,
            r.made() == 0,
    {
        Retry { description: description.to_owned(), made: 0 }
    }

    /// Records the outcome of the next attempt and decides what follows:
    /// a success ends the request, a failure calls for another attempt
    /// until `HTTP_RETRY_ATTEMPTS` of them have failed, and the request then
    /// fails with a message that names it and the last error.
    pub fn record<T>(&mut self, outcome: Result<T, String>) -> (step: RetryStep<T>)
        requires
            old(self).is_running(),
        ensures
            final(self).description() == old(self).description(),
            final(self).made() == old(self).made() + 1,
            decision_of(step) == step_decision(
                old(self).description(),
                old(self).made(),
                outcome_view(outcome),
            ),
    {
        self.made = self.made + 1;
        match outcome {
            Ok(v) => RetryStep::Succeeded(v),
            Err(e) => {
                if self.made >= HTTP_RETRY_ATTEMPTS {
                    let mut message = self.description.clone();
                    message.append(" failed after ");
                    let count = u64_to_decimal(HTTP_RETRY_ATTEMPTS as u64);
                    message.append(count.as_str());
                    message.append(" attempts: ");
                    message.append(e.as_str());
                    RetryStep::GaveUp(message)
                } else {
                    RetryStep::TryAgain
                }
            },
        }
    }
}

/// A request is answered by its first successful attempt, provided the
/// attempts before it failed and it comes within `HTTP_RETRY_ATTEMPTS`.
pub proof fn lemma_first_success_wins<T>(
    description: Seq<char>,
    outcomes: Seq<Result<T, Seq<char>>>,
    i: nat,
)
    requires
        i < HTTP_RETRY_ATTEMPTS,
        i < outcomes.len(),
        outcomes[i as int] is Ok,
        forall|j: int| 0 <= j < i ==> (#[trigger] outcomes[j]) is Err,
    ensures
        run_from(description, outcomes, 0) == (i + 1, outcomes[i as int]),
{
    lemma_run_from_success(description, outcomes, 0, i);
}

proof fn lemma_run_from_success<T>(
    description: Seq<char>,
    outcomes: Seq<Result<T, Seq<char>>>,
    made: nat,
    i: nat,
)
    requires
        made <= i < HTTP_RETRY_ATTEMPTS,
        i < outcomes.len(),
        outcomes[i as int] is Ok,
        forall|j: int| 0 <= j < i ==> (#[trigger] outcomes[j]) is Err,
    ensures
        run_from(description, outcomes, made) == (i + 1, outcomes[i as int]),
    decreases i - made,
{
    if made < i {
        assert(outcomes[made as int] is Err);
        lemma_run_from_success(description, outcomes, made + 1, i);
    }
}

/// When every allowed attempt fails, the request gives up after exactly
/// `HTTP_RETRY_ATTEMPTS` attempts, with a message naming the request and the
/// last error.
pub proof fn lemma_gives_up_with_last_error<T>(
    description: Seq<char>,
    outcomes: Seq<Result<T, Seq<char>>>,
)
    requires
        HTTP_RETRY_ATTEMPTS <= outcomes.len(),
        forall|j: int| 0 <= j < HTTP_RETRY_ATTEMPTS ==> (#[trigger] outcomes[j]) is Err,
    ensures
        run_from(description, outcomes, 0) == (
            HTTP_RETRY_ATTEMPTS as nat,
            Err::<T, Seq<char>>(
                give_up_message(
                    description,
                    outcomes[HTTP_RETRY_ATTEMPTS - 1]->Err_0,
                ),
            ),
        ),
{
    assert(outcomes[0] is Err);
    assert(outcomes[1] is Err);
    assert(outcomes[2] is Err);
    reveal_with_fuel(run_from, 4);
}

/// The give-up message starts with the request's description, ends with
/// the last error, and between them says how many attempts were made, in
/// decimal digits that read back as `HTTP_RETRY_ATTEMPTS`.
pub proof fn lemma_give_up_message_layout(description: Seq<char>, last_error: Seq<char>)
    ensures
        ({
            let m = give_up_message(description, last_error);
            &&& m.take(description.len() as int) == description
            &&& m.subrange(description.len() as int, description.len() as int + 14) == " failed after "@
            &&& decimal_value(m.subrange(description.len() as int + 14, m.len() - last_error.len() - 11))
                == HTTP_RETRY_ATTEMPTS
            &&& m.len() == description.len() + last_error.len() + 26
            &&& m.subrange(m.len() - last_error.len() - 11, m.len() - last_error.len())
                == " attempts: "@
            &&& m.skip(m.len() - last_error.len()) == last_error
        }),
{
    reveal_strlit(" failed after ");
    reveal_strlit(" attempts: ");
    lemma_decimal_reads_back(HTTP_RETRY_ATTEMPTS as nat);
    let m = give_up_message(description, last_error);
    let n = description.len() as int;
    assert(m.take(n) =~= description);
    assert(m.subrange(n, n + 14) =~= " failed after "@);
    assert(m.subrange(n + 14, m.len() - last_error.len() - 11) =~= decimal(
        HTTP_RETRY_ATTEMPTS as nat,
    ));
    assert(m.subrange(m.len() - last_error.len() - 11, m.len() - last_error.len())
        =~= " attempts: "@);
    assert(m.skip(m.len() - last_error.len()) =~= last_error);
}

} // verus!
