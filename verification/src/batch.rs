//! The batch runner: attempts run strictly one after another, every outcome
//! is recorded, a failed attempt never aborts the batch, and the accumulated
//! account list is exactly the successes in attempt order.

use crate::account::Account;
use crate::digits::append_decimal;
use crate::digits::dec_digits;
use crate::orchestrator::spec_step_name;
use crate::orchestrator::step_name;
use crate::orchestrator::SignupStep;
use vstd::prelude::*;
use vstd::string::StringExecFns;

verus! {

/// Where an attempt failed: opening its session, or one signup step.
#[derive(Clone, Copy, PartialEq, Eq, Structural, Debug)]
pub enum FailurePoint {
    SessionStart,
    Step(SignupStep),
}

/// The outcome of one attempt.
pub enum AttemptOutcome {
    Success(Account),
    Failure(FailurePoint),
}

pub open spec fn is_success(o: AttemptOutcome) -> bool {
    o is Success
}

/// The accounts of the successful attempts, in attempt order.
pub open spec fn successes_of(s: Seq<AttemptOutcome>) -> Seq<Account>
    decreases s.len(),
{
    if s.len() == 0 {
        Seq::empty()
    } else {
        let rest = successes_of(s.drop_last());
        match s.last() {
            AttemptOutcome::Success(a) => rest.push(a),
            AttemptOutcome::Failure(_) => rest,
        }
    }
}

pub proof fn lemma_successes_push(s: Seq<AttemptOutcome>, o: AttemptOutcome)
    ensures
        successes_of(s.push(o)) == (match o {
            AttemptOutcome::Success(a) => successes_of(s).push(a),
            AttemptOutcome::Failure(_) => successes_of(s),
        }),
{
    assert(s.push(o).drop_last() =~= s);
    assert(s.push(o).last() == o);
}

/// A batch's result list never outgrows its attempts, and it is shorter
/// only when at least one attempt failed.
pub proof fn lemma_results_bounded(s: Seq<AttemptOutcome>)
    ensures
        successes_of(s).len() <= s.len(),
        successes_of(s).len() < s.len() ==> exists|i: int|
            0 <= i < s.len() && !is_success(#[trigger] s[i]),
    decreases s.len(),
{
    if s.len() > 0 {
        lemma_results_bounded(s.drop_last());
        match s.last() {
            AttemptOutcome::Success(_) => {
                if successes_of(s).len() < s.len() {
                    let i = choose|i: int|
                        0 <= i < s.drop_last().len() && !is_success(#[trigger] s.drop_last()[i]);
                    assert(s.drop_last()[i] == s[i]);
                    assert(!is_success(s[i]));
                }
            },
            AttemptOutcome::Failure(_) => {
                assert(!is_success(s[s.len() - 1]));
            },
        }
    }
}

/// Recording outcomes distributes over splitting the history anywhere.
pub proof fn lemma_successes_append(a: Seq<AttemptOutcome>, b: Seq<AttemptOutcome>)
    ensures
        successes_of(a + b) == successes_of(a) + successes_of(b),
    decreases b.len(),
{
    if b.len() == 0 {
        assert(a + b =~= a);
        assert(successes_of(a) + successes_of(b) =~= successes_of(a));
    } else {
        lemma_successes_append(a, b.drop_last());
        assert((a + b).drop_last() =~= a + b.drop_last());
        assert((a + b).last() == b.last());
        match b.last() {
            AttemptOutcome::Success(acc) => {
                assert((successes_of(a) + successes_of(b.drop_last())).push(acc) =~= successes_of(
                    a,
                ) + successes_of(b.drop_last()).push(acc));
            },
            AttemptOutcome::Failure(_) => {},
        }
    }
}

/// One failed attempt contributes nothing to the result list, and every
/// success before and after it stays, in order.
pub proof fn lemma_failure_isolated(
    pre: Seq<AttemptOutcome>,
    f: FailurePoint,
    post: Seq<AttemptOutcome>,
)
    ensures
        successes_of(pre + seq![AttemptOutcome::Failure(f)] + post) == successes_of(pre)
            + successes_of(post),
{
    let one = seq![AttemptOutcome::Failure(f)];
    lemma_successes_append(pre + one, post);
    lemma_successes_append(pre, one);
    assert(one.len() == 1);
    assert(one.last() == AttemptOutcome::Failure(f));
    assert(one.drop_last() =~= Seq::<AttemptOutcome>::empty());
    assert(successes_of(Seq::<AttemptOutcome>::empty()) =~= Seq::<Account>::empty());
    assert(successes_of(one) =~= Seq::<Account>::empty());
    assert(successes_of(pre) + successes_of(one) =~= successes_of(pre));
}

/// The batch runner's state: the requested quantity, the attempts performed
/// so far, the accumulated accounts and the count of failed attempts. The
/// outcome history is carried as ghost state, which pins the accumulated
/// accounts to be exactly the successes in attempt order.
pub struct BatchState {
    pub quantity: u32,
    pub attempted: u32,
    pub accounts: Vec<Account>,
    pub failures: u32,
    pub history: Ghost<Seq<AttemptOutcome>>,
}

impl BatchState {
    pub open spec fn wf(&self) -> bool {
        &&& self.attempted <= self.quantity
        &&& self.history@.len() == self.attempted
        &&& self.accounts@ == successes_of(self.history@)
        &&& self.failures + self.accounts@.len() == self.attempted
    }

    /// A fresh batch for `quantity` requested accounts.
    pub fn new(quantity: u32) -> (b: Self)
        ensures
            b.wf(),
            b.quantity == quantity,
            b.attempted == 0,
            b.failures == 0,
            b.accounts@ == Seq::<Account>::empty(),
            b.history@ == Seq::<AttemptOutcome>::empty(),
    {
        let b = BatchState {
            quantity,
            attempted: 0,
            accounts: Vec::new(),
            failures: 0,
            history: Ghost(Seq::empty()),
        };
        proof {
            assert(successes_of(b.history@) =~= Seq::<Account>::empty());
        }
        b
    }

    /// True when every requested attempt has been performed.
    pub fn done(&self) -> (r: bool)
        ensures
            r == (self.attempted == self.quantity),
    {
        self.attempted == self.quantity
    }

    /// Records one attempt's outcome: a success appends its account, a
    /// failure only counts; either way exactly one more attempt is counted,
    /// and the batch goes on.
    pub fn record_outcome(&mut self, outcome: AttemptOutcome)
        requires
            old(self).wf(),
            old(self).attempted < old(self).quantity,
        ensures
            final(self).wf(),
            final(self).quantity == old(self).quantity,
            final(self).attempted == old(self).attempted + 1,
            final(self).history@ == old(self).history@.push(outcome),
            final(self).accounts@ == (match outcome {
                AttemptOutcome::Success(a) => old(self).accounts@.push(a),
                AttemptOutcome::Failure(_) => old(self).accounts@,
            }),
            final(self).failures == (match outcome {
                AttemptOutcome::Success(_) => old(self).failures as int,
                AttemptOutcome::Failure(_) => old(self).failures + 1,
            }),
    {
        proof {
            lemma_successes_push(self.history@, outcome);
        }
        self.history = Ghost(self.history@.push(outcome));
        match outcome {
            AttemptOutcome::Success(a) => {
                self.accounts.push(a);
            },
            AttemptOutcome::Failure(_) => {
                self.failures = self.failures + 1;
            },
        }
        self.attempted = self.attempted + 1;
    }
}

/// In every well-formed batch state the result list is bounded by the
/// attempts made, and shorter only when some recorded attempt failed.
pub proof fn lemma_batch_accounts_bounded(b: BatchState)
    requires
        b.wf(),
    ensures
        b.accounts@.len() <= b.attempted,
        b.accounts@.len() < b.attempted ==> exists|i: int|
            0 <= i < b.history@.len() && !is_success(#[trigger] b.history@[i]),
{
    lemma_results_bounded(b.history@);
}

/// A diagnostic name for a failure point.
pub open spec fn spec_failure_name(f: FailurePoint) -> Seq<char> {
    match f {
        FailurePoint::SessionStart => "session start failure"@,
        FailurePoint::Step(s) => spec_step_name(s) + " step failure"@,
    }
}

pub fn failure_name(f: FailurePoint) -> (r: String)
    ensures
        r@ == spec_failure_name(f),
{
    match f {
        FailurePoint::SessionStart => "session start failure".to_owned(),
        FailurePoint::Step(s) => {
            let mut t = step_name(s).to_owned();
            t.append(" step failure");
            t
        },
    }
}

/// The diagnostic line logged for one failed attempt: the 1-based attempt
/// index and the failure point.
pub open spec fn spec_failure_note(attempt: nat, f: FailurePoint) -> Seq<char> {
    "attempt "@ + dec_digits(attempt) + ": "@ + spec_failure_name(f)
}

pub fn failure_note(attempt: u32, f: FailurePoint) -> (r: String)
    ensures
        r@ == spec_failure_note(attempt as nat, f),
{
    let mut s = "attempt ".to_owned();
    append_decimal(&mut s, attempt as u64);
    s.append(": ");
    let name = failure_name(f);
    s.append(name.as_str());
    proof {
        assert(s@ =~= spec_failure_note(attempt as nat, f));
    }
    s
}

} // verus!
