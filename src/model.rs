//! What whole runs do, as functions of the configuration and of how each
//! attempt ends, and the laws that hold of them.
use vstd::arithmetic::power2::{lemma_pow2_unfold, pow2};
use vstd::prelude::*;

use crate::config::RetryConfig;
use crate::retry::{attempt_env, delay, goes_on, wants_retry};

verus! {

/// Attempts a run makes, `done` of them already made, when its attempt `i`
/// (from 0) ends with `outcomes[i]`. A run that would go on past the last
/// outcome is counted as making all of them.
pub open spec fn attempts_from(c: RetryConfig, outcomes: Seq<Option<i32>>, done: nat) -> nat
    decreases outcomes.len() - done,
{
    if done >= outcomes.len() {
        outcomes.len()
    } else if goes_on(c, done + 1, outcomes[done as int]) {
        attempts_from(c, outcomes, done + 1)
    } else {
        done + 1
    }
}

/// Attempts a whole run makes against the given outcomes.
pub open spec fn attempts_made(c: RetryConfig, outcomes: Seq<Option<i32>>) -> nat {
    attempts_from(c, outcomes, 0)
}

/// How the attempt before attempt `i` ended, as the engine records it.
pub open spec fn prev_outcome(outcomes: Seq<Option<i32>>, i: int) -> Option<i32> {
    if i == 0 {
        None
    } else {
        outcomes[i - 1]
    }
}

/// The retry variables that each attempt of the run sees, in order.
pub open spec fn run_envs(c: RetryConfig, outcomes: Seq<Option<i32>>) -> Seq<
    Seq<(Seq<char>, Seq<char>)>,
> {
    Seq::new(
        attempts_made(c, outcomes),
        |i: int| attempt_env(c, i as nat, prev_outcome(outcomes, i)),
    )
}

/// With backoff on and the clamp not reached, the pause after `n` attempts
/// is `2^n` seconds, twice the one before.
pub proof fn lemma_backoff_doubles(c: RetryConfig, n: nat)
    requires
        c.backoff,
        n >= 1,
        pow2(n) <= c.max_backoff,
    ensures
        delay(c, n) == pow2(n),
        delay(c, n) == 2 * delay(c, (n - 1) as nat),
{
    lemma_pow2_unfold(n);
}

/// With backoff on, once `2^n` passes the clamp the pause is the clamp.
pub proof fn lemma_backoff_clamped(c: RetryConfig, n: nat)
    requires
        c.backoff,
        pow2(n) > c.max_backoff,
    ensures
        delay(c, n) == c.max_backoff,
{
}

/// With backoff off, every pause is the fixed one.
pub proof fn lemma_fixed_sleep(c: RetryConfig, n: nat)
    requires
        !c.backoff,
    ensures
        delay(c, n) == c.sleep,
{
}

proof fn lemma_every_outcome_retried(c: RetryConfig, outcomes: Seq<Option<i32>>, done: nat)
    requires
        forall|i: int| 0 <= i < outcomes.len() ==> wants_retry(c, #[trigger] outcomes[i]),
        done <= outcomes.len(),
        c.max_tries == 0 || (done < c.max_tries && c.max_tries <= outcomes.len()),
    ensures
        attempts_from(c, outcomes, done) == if c.max_tries == 0 {
            outcomes.len()
        } else {
            c.max_tries as nat
        },
    decreases outcomes.len() - done,
{
    if done < outcomes.len() {
        if goes_on(c, done + 1, outcomes[done as int]) {
            lemma_every_outcome_retried(c, outcomes, done + 1);
        }
    }
}

/// Flipping `retry_on_success` flips the retry predicate on every outcome;
/// so a command that always exits 0 is run again up to the budget only with
/// the flag, and once without it.
pub proof fn lemma_retry_on_success_inverts(
    c: RetryConfig,
    code: Option<i32>,
    outcomes: Seq<Option<i32>>,
)
    requires
        outcomes.len() >= 1,
        outcomes.len() >= c.max_tries,
        forall|i: int| 0 <= i < outcomes.len() ==> #[trigger] outcomes[i] == Some(0i32),
    ensures
        wants_retry(RetryConfig { retry_on_success: !c.retry_on_success, ..c }, code) == !wants_retry(
            c,
            code,
        ),
        c.retry_on_success ==> attempts_made(c, outcomes) == if c.max_tries == 0 {
            outcomes.len()
        } else {
            c.max_tries as nat
        },
        !c.retry_on_success ==> attempts_made(c, outcomes) == 1,
{
    if c.retry_on_success {
        lemma_every_outcome_retried(c, outcomes, 0);
    }
}

/// Against a command that always fails, a budget of `N > 0` gives exactly
/// `N` attempts, and a budget of 0 never stops the run.
pub proof fn lemma_budget_on_failure(c: RetryConfig, outcomes: Seq<Option<i32>>)
    requires
        !c.retry_on_success,
        outcomes.len() >= 1,
        outcomes.len() >= c.max_tries,
        forall|i: int| 0 <= i < outcomes.len() ==> #[trigger] outcomes[i] != Some(0i32),
    ensures
        attempts_made(c, outcomes) == if c.max_tries == 0 {
            outcomes.len()
        } else {
            c.max_tries as nat
        },
{
    lemma_every_outcome_retried(c, outcomes, 0);
}

proof fn lemma_until_first_success(c: RetryConfig, outcomes: Seq<Option<i32>>, k: nat, done: nat)
    requires
        c.max_tries == 0,
        !c.retry_on_success,
        k < outcomes.len(),
        outcomes[k as int] == Some(0i32),
        forall|i: int| 0 <= i < k ==> #[trigger] outcomes[i] != Some(0i32),
        done <= k,
    ensures
        attempts_from(c, outcomes, done) == k + 1,
    decreases k - done,
{
    if done < k {
        lemma_until_first_success(c, outcomes, k, done + 1);
    }
}

/// With an unlimited budget, the run goes on until the first success, however
/// many attempts that takes.
pub proof fn lemma_unlimited_until_success(c: RetryConfig, outcomes: Seq<Option<i32>>, k: nat)
    requires
        c.max_tries == 0,
        !c.retry_on_success,
        k < outcomes.len(),
        outcomes[k as int] == Some(0i32),
        forall|i: int| 0 <= i < k ==> #[trigger] outcomes[i] != Some(0i32),
    ensures
        attempts_made(c, outcomes) == k + 1,
{
    lemma_until_first_success(c, outcomes, k, 0);
}

proof fn lemma_attempts_bounds(c: RetryConfig, outcomes: Seq<Option<i32>>, done: nat)
    requires
        done < outcomes.len(),
    ensures
        done < attempts_from(c, outcomes, done) <= outcomes.len(),
    decreases outcomes.len() - done,
{
    if goes_on(c, done + 1, outcomes[done as int]) {
        if done + 1 < outcomes.len() {
            lemma_attempts_bounds(c, outcomes, done + 1);
        } else {
            assert(attempts_from(c, outcomes, done + 1) == outcomes.len());
        }
    }
}

proof fn lemma_same_answers_from(
    c: RetryConfig,
    o1: Seq<Option<i32>>,
    o2: Seq<Option<i32>>,
    done: nat,
)
    requires
        o1.len() == o2.len(),
        done <= o1.len(),
        forall|i: int| done <= i < attempts_from(c, o1, done) ==> #[trigger] o1[i] == o2[i],
    ensures
        attempts_from(c, o2, done) == attempts_from(c, o1, done),
    decreases o1.len() - done,
{
    if done < o1.len() {
        lemma_attempts_bounds(c, o1, done);
        assert(o1[done as int] == o2[done as int]);
        if goes_on(c, done + 1, o1[done as int]) {
            lemma_same_answers_from(c, o1, o2, done + 1);
        }
    }
}

/// Two runs of one configuration against a command that answers the same
/// way to the same attempts make as many attempts, and hand each attempt the
/// same retry variables.
pub proof fn lemma_same_answers_same_run(c: RetryConfig, o1: Seq<Option<i32>>, o2: Seq<Option<i32>>)
    requires
        o1.len() == o2.len(),
        forall|i: int| 0 <= i < attempts_made(c, o1) ==> #[trigger] o1[i] == o2[i],
    ensures
        attempts_made(c, o2) == attempts_made(c, o1),
        run_envs(c, o2) == run_envs(c, o1),
{
    lemma_same_answers_from(c, o1, o2, 0);
    let n = attempts_made(c, o1);
    assert forall|i: int| 0 <= i < n implies prev_outcome(o1, i) == prev_outcome(o2, i) by {
        if i > 0 {
            assert(o1[i - 1] == o2[i - 1]);
        }
    }
    assert(run_envs(c, o2) =~= run_envs(c, o1));
}

} // verus!
