//! Resolving the identity that writes are made under, with bounded retry.
//!
//! The identity may not be at hand right after the node has started. It is
//! asked for up to a fixed number of times, with a pause after each failure
//! that doubles from a base up to a cap. This is the one place where the
//! identity is retried.

use crate::storage::error::StorageError;
use crate::storage::text::{decimal, decimal_of, join};
use vstd::prelude::*;
use vstd::string::*;

verus! {

/// How often the identity is asked for and how long the pauses are.
#[derive(Clone, Copy, Debug, PartialEq, Eq)]
pub struct RetryPolicy {
    /// The number of attempts after which resolving gives up.
    pub max_attempts: u32,
    /// The pause after the first failure, in milliseconds.
    pub base_delay_ms: u64,
    /// The longest pause, in milliseconds.
    pub max_delay_ms: u64,
}

/// Two to the power of `n`.
pub open spec fn pow2(n: nat) -> nat
    decreases n,
{
    if n == 0 {
        1
    } else {
        2 * pow2((n - 1) as nat)
    }
}

/// The pause after the failure of the attempt with the given number,
/// counted from one: the base doubled for each earlier failure, but no
/// more than the cap.
pub open spec fn backoff(policy: RetryPolicy, attempt: nat) -> nat {
    let doubled: nat = (policy.base_delay_ms as nat) * pow2(
        if attempt >= 1 {
            (attempt - 1) as nat
        } else {
            0
        },
    );
    if doubled <= policy.max_delay_ms {
        doubled
    } else {
        policy.max_delay_ms as nat
    }
}

/// The sum of the pauses after the first `failures` attempts.
pub open spec fn total_delay(policy: RetryPolicy, failures: nat) -> nat
    decreases failures,
{
    if failures == 0 {
        0
    } else {
        total_delay(policy, (failures - 1) as nat) + backoff(policy, failures)
    }
}

/// Powers of two are positive and grow.
pub proof fn lemma_pow2_grows(a: nat, b: nat)
    requires
        a <= b,
    ensures
        1 <= pow2(a) <= pow2(b),
    decreases b,
{
    if b == 0 {
    } else if a == b {
        lemma_pow2_grows(0, (b - 1) as nat);
    } else {
        lemma_pow2_grows(a, (b - 1) as nat);
    }
}

/// A pause is never longer than the cap, and a later pause is never
/// shorter than an earlier one.
pub proof fn lemma_backoff_bounds(policy: RetryPolicy, a: nat, b: nat)
    requires
        a <= b,
    ensures
        backoff(policy, a) <= backoff(policy, b) <= policy.max_delay_ms,
{
    let ea: nat = if a >= 1 {
        (a - 1) as nat
    } else {
        0
    };
    let eb: nat = if b >= 1 {
        (b - 1) as nat
    } else {
        0
    };
    lemma_pow2_grows(ea, eb);
    assert(policy.base_delay_ms * pow2(ea) <= policy.base_delay_ms * pow2(eb)) by (nonlinear_arith)
        requires
            pow2(ea) <= pow2(eb),
    ;
}

impl RetryPolicy {
    /// The policy of the application: three attempts, pauses from 100
    /// milliseconds up to one second.
    pub fn production() -> (r: Self)
        ensures
            r == (RetryPolicy { max_attempts: 3, base_delay_ms: 100, max_delay_ms: 1000 }),
    {
        RetryPolicy { max_attempts: 3, base_delay_ms: 100, max_delay_ms: 1000 }
    }

    /// The policy for test runs, where the node may take longer to start:
    /// ten attempts, the same pauses.
    pub fn testing() -> (r: Self)
        ensures
            r == (RetryPolicy { max_attempts: 10, base_delay_ms: 100, max_delay_ms: 1000 }),
    {
        RetryPolicy { max_attempts: 10, base_delay_ms: 100, max_delay_ms: 1000 }
    }

    /// The pause after the failure of the attempt with the given number,
    /// counted from one.
    pub fn backoff_delay(&self, attempt: u32) -> (r: u64)
        ensures
            r == backoff(*self, attempt as nat),
    {
        let cap = self.max_delay_ms;
        if self.base_delay_ms >= cap {
            proof {
                let e: nat = if attempt >= 1 {
                    (attempt - 1) as nat
                } else {
                    0
                };
                lemma_pow2_grows(0, e);
                assert(self.base_delay_ms * pow2(e) >= self.base_delay_ms) by (nonlinear_arith)
                    requires
                        pow2(e) >= 1,
                ;
                if self.base_delay_ms == cap && self.base_delay_ms * pow2(e) <= cap {
                    assert(self.base_delay_ms * pow2(e) == cap);
                }
            }
            return cap;
        }
        let mut delay: u64 = self.base_delay_ms;
        let mut done: u32 = 1;
        proof {
            assert(pow2(0) == 1);
            assert(self.base_delay_ms * pow2(0) == self.base_delay_ms) by (nonlinear_arith)
                requires
                    pow2(0) == 1,
            ;
        }
        while done < attempt && delay < cap
            invariant
                1 <= done,
                done <= attempt || (attempt == 0 && done == 1),
                cap == self.max_delay_ms,
                delay == backoff(*self, done as nat),
                delay < cap ==> delay == self.base_delay_ms * pow2((done - 1) as nat),
            decreases attempt - done,
        {
            proof {
                assert(pow2(done as nat) == 2 * pow2((done - 1) as nat));
                assert(self.base_delay_ms * pow2(done as nat) == 2 * (self.base_delay_ms * pow2(
                    (done - 1) as nat,
                ))) by (nonlinear_arith)
                    requires
                        pow2(done as nat) == 2 * pow2((done - 1) as nat),
                ;
            }
            if delay >= cap - delay {
                delay = cap;
            } else {
                delay = delay + delay;
            }
            done = done + 1;
        }
        proof {
            if done < attempt {
                lemma_backoff_bounds(*self, done as nat, attempt as nat);
            }
        }
        delay
    }
}

/// What to do after an attempt to resolve the identity.
#[derive(Debug, PartialEq, Eq)]
pub enum AuthorStep {
    /// The identity is resolved.
    Resolved(String),
    /// Pause for so many milliseconds, then ask again.
    RetryAfter { millis: u64 },
    /// Give up with this error.
    Failed(StorageError),
}

/// The detail of the error after the last attempt failed.
pub open spec fn exhausted_detail(attempts: nat, cause: Seq<char>) -> Seq<char> {
    "Failed to get default author after "@ + decimal_of(attempts as int) + " attempts: "@ + cause
}

/// A sum of pauses as 64 bits hold it: a sum beyond them is given as the
/// largest number of 64 bits.
pub open spec fn capped(millis: nat) -> u64 {
    if millis <= u64::MAX {
        millis as u64
    } else {
        u64::MAX
    }
}

/// How far resolving the identity has come under a policy: how many
/// attempts failed, and after how many of them a pause was asked for.
#[derive(Clone, Copy, Debug, PartialEq, Eq)]
pub struct AuthorRetry {
    policy: RetryPolicy,
    failures: u32,
    pauses: u32,
    waited_ms: u64,
}

impl AuthorRetry {
    #[verifier::type_invariant]
    spec fn well_formed(&self) -> bool {
        &&& self.pauses <= self.failures
        &&& self.pauses == self.failures || self.failures >= self.policy.max_attempts
        &&& self.waited_ms == capped(total_delay(self.policy, self.pauses as nat))
    }

    /// The policy that is followed.
    pub closed spec fn spec_policy(&self) -> RetryPolicy {
        self.policy
    }

    /// The number of attempts that failed.
    pub closed spec fn spec_failures(&self) -> nat {
        self.failures as nat
    }

    /// The number of pauses that were asked for.
    pub closed spec fn spec_pauses(&self) -> nat {
        self.pauses as nat
    }

    /// Before the first attempt.
    pub fn new(policy: RetryPolicy) -> (r: Self)
        ensures
            r.spec_policy() == policy,
            r.spec_failures() == 0,
            r.spec_pauses() == 0,
    {
        AuthorRetry { policy, failures: 0, pauses: 0, waited_ms: 0 }
    }

    /// The number of attempts that failed.
    pub fn failures(&self) -> (r: u32)
        ensures
            r == self.spec_failures(),
    {
        self.failures
    }

    /// The pauses that were asked for so far, in milliseconds, in all:
    /// the sum of the schedule of the policy over the pauses.
    pub fn waited_ms(&self) -> (r: u64)
        ensures
            r == capped(total_delay(self.spec_policy(), self.spec_pauses())),
            self.spec_pauses() <= self.spec_failures(),
            self.spec_pauses() == self.spec_failures() || self.spec_failures()
                >= self.spec_policy().max_attempts,
    {
        proof {
            use_type_invariant(self);
        }
        self.waited_ms
    }
}

/// What to do after an attempt to resolve the identity.
///
/// A success resolves. A failure that brings the number of failed attempts
/// to the limit of the policy, or beyond, gives up with an internal error
/// that names the number of attempts and the cause. Any other failure asks
/// for a pause of the length that the policy gives for this attempt.
pub fn get_default_author_with_retry(
    retry: &mut AuthorRetry,
    attempt: Result<String, String>,
) -> (r: AuthorStep)
    ensures
        final(retry).spec_policy() == old(retry).spec_policy(),
        match attempt {
            Ok(author) => r == AuthorStep::Resolved(author) && *final(retry) == *old(retry),
            Err(cause) => if old(retry).spec_failures() + 1 >= old(
                retry,
            ).spec_policy().max_attempts {
                &&& r matches AuthorStep::Failed(StorageError::Internal(m)) && m@
                    == exhausted_detail(final(retry).spec_failures(), cause@)
                &&& final(retry).spec_failures() == if old(retry).spec_failures() < u32::MAX {
                    old(retry).spec_failures() + 1
                } else {
                    old(retry).spec_failures()
                }
                &&& final(retry).spec_pauses() == old(retry).spec_pauses()
            } else {
                &&& r == (AuthorStep::RetryAfter {
                    millis: backoff(
                        old(retry).spec_policy(),
                        old(retry).spec_failures() + 1,
                    ) as u64,
                })
                &&& final(retry).spec_failures() == old(retry).spec_failures() + 1
                &&& final(retry).spec_pauses() == final(retry).spec_failures()
            },
        },
{
    proof {
        use_type_invariant(&*retry);
    }
    match attempt {
        Ok(author) => AuthorStep::Resolved(author),
        Err(cause) => {
            let failures = if retry.failures < u32::MAX {
                retry.failures + 1
            } else {
                retry.failures
            };
            if failures >= retry.policy.max_attempts {
                let mut m = join(
                    "Failed to get default author after ",
                    decimal(failures as u64).as_str(),
                );
                m.append(" attempts: ");
                m.append(cause.as_str());
                *retry = AuthorRetry {
                    policy: retry.policy,
                    failures,
                    pauses: retry.pauses,
                    waited_ms: retry.waited_ms,
                };
                AuthorStep::Failed(StorageError::Internal(m))
            } else {
                let millis = retry.policy.backoff_delay(failures);
                proof {
                    lemma_backoff_bounds(retry.policy, failures as nat, failures as nat);
                    lemma_total_delay_grows(retry.policy, retry.pauses as nat, failures as nat);
                }
                let waited_ms = if millis <= u64::MAX - retry.waited_ms {
                    retry.waited_ms + millis
                } else {
                    u64::MAX
                };
                *retry = AuthorRetry {
                    policy: retry.policy,
                    failures,
                    pauses: failures,
                    waited_ms,
                };
                AuthorStep::RetryAfter { millis }
            }
        },
    }
}

/// The sum of the pauses grows with the number of pauses, and is at most
/// as many caps as there were pauses.
pub proof fn lemma_total_delay_grows(policy: RetryPolicy, a: nat, b: nat)
    requires
        a <= b,
    ensures
        total_delay(policy, a) <= total_delay(policy, b) <= b * policy.max_delay_ms,
    decreases b,
{
    if b > 0 {
        lemma_backoff_bounds(policy, b, b);
        if a < b {
            lemma_total_delay_grows(policy, a, (b - 1) as nat);
        } else {
            lemma_total_delay_grows(policy, (b - 1) as nat, (b - 1) as nat);
        }
        assert((b - 1) * policy.max_delay_ms + policy.max_delay_ms == b * policy.max_delay_ms)
            by (nonlinear_arith);
    }
}

} // verus!
