//! A file operation that is tried again while the system reports that the
//! files are still held by someone else.
//!
//! The policy says which error codes of the system are transient, how many
//! attempts are made, and how long to wait after a transient failure. Any
//! other failure ends the operation at once.

use vstd::prelude::*;

verus! {

/// The system's code for a file that another process still holds open.
pub const SHARING_VIOLATION: i32 = 32;

/// The system's code for a file to which access was denied.
pub const ACCESS_DENIED: i32 = 5;

/// The code that stands for a failure without a system code.
pub const NO_CODE: i32 = -1;

/// Attempts made by the staging steps that retry.
pub const RENAME_ATTEMPTS: u32 = 3;

/// Milliseconds that the staging steps wait after a transient failure.
pub const RENAME_BACKOFF_MS: u64 = 1000;

/// When and how often an operation is tried again.
#[derive(Debug)]
pub struct RetryPolicy {
    /// The system error codes after which the operation is tried again.
    pub transient: Vec<i32>,
    /// The number of attempts; at least one is always made.
    pub attempts: u32,
    /// Milliseconds to wait after a transient failure.
    pub backoff_ms: u64,
}

/// The mathematical content of a [`RetryPolicy`].
pub struct RetryPolicyView {
    pub transient: Seq<i32>,
    pub attempts: u32,
    pub backoff_ms: u64,
}

impl View for RetryPolicy {
    type V = RetryPolicyView;

    open spec fn view(&self) -> RetryPolicyView {
        RetryPolicyView {
            transient: self.transient@,
            attempts: self.attempts,
            backoff_ms: self.backoff_ms,
        }
    }
}

impl RetryPolicyView {
    /// The policy counts `code` as transient.
    pub open spec fn is_transient(self, code: i32) -> bool {
        self.transient.contains(code)
    }
}

impl RetryPolicy {
    /// Does the policy count `code` as transient?
    pub fn is_transient(&self, code: i32) -> (b: bool)
        ensures
            b == self@.is_transient(code),
    {
        let mut i: usize = 0;
        while i < self.transient.len()
            invariant
                i <= self.transient.len(),
                forall|j: int| 0 <= j < i ==> self.transient@[j] != code,
            decreases self.transient.len() - i,
        {
            if self.transient[i] == code {
                return true;
            }
            i += 1;
        }
        false
    }

    /// A copy of this policy.
    pub fn duplicate(&self) -> (p: RetryPolicy)
        ensures
            p@ == self@,
    {
        let mut transient: Vec<i32> = Vec::new();
        let mut i: usize = 0;
        while i < self.transient.len()
            invariant
                i <= self.transient.len(),
                transient@ == self.transient@.take(i as int),
            decreases self.transient.len() - i,
        {
            transient.push(self.transient[i]);
            i += 1;
        }
        assert(self.transient@.take(self.transient.len() as int) =~= self.transient@);
        RetryPolicy { transient, attempts: self.attempts, backoff_ms: self.backoff_ms }
    }
}

/// What the caller of a retried operation has to do next.
#[derive(Clone, Copy, PartialEq, Eq, Debug, Structural)]
pub enum RetryStep {
    /// Try the operation.
    Attempt,
    /// Wait for the policy's backoff.
    Pause,
    /// Nothing: the operation succeeded.
    Succeeded,
    /// Nothing: the operation failed for good.
    Failed,
}

/// What the caller reports back.
#[derive(Debug)]
pub enum RetryEvent {
    /// The operation succeeded.
    Done,
    /// The operation failed with the given system code ([`NO_CODE`] where the
    /// system gave none) and description.
    Refused { code: i32, detail: String },
    /// The backoff has passed.
    Paused,
}

/// The mathematical content of a [`RetryEvent`].
pub enum RetryEventView {
    Done,
    Refused { code: i32, detail: Seq<char> },
    Paused,
}

impl View for RetryEvent {
    type V = RetryEventView;

    open spec fn view(&self) -> RetryEventView {
        match self {
            RetryEvent::Done => RetryEventView::Done,
            RetryEvent::Refused { code, detail } => RetryEventView::Refused {
                code: *code,
                detail: detail@,
            },
            RetryEvent::Paused => RetryEventView::Paused,
        }
    }
}

/// The state of a retried operation.
#[derive(Debug)]
pub struct Retry {
    policy: RetryPolicy,
    attempts_left: u32,
    step: RetryStep,
    detail: String,
}

/// The mathematical content of a [`Retry`].
pub struct RetryView {
    pub policy: RetryPolicyView,
    /// Attempts that are left, the pending one included.
    pub attempts_left: nat,
    pub step: RetryStep,
    /// The description of the last failure; empty before the first.
    pub detail: Seq<char>,
}

impl RetryView {
    /// An operation that has not been tried yet.
    pub open spec fn initial(policy: RetryPolicyView) -> RetryView {
        RetryView {
            policy,
            attempts_left: policy.attempts as nat,
            step: RetryStep::Attempt,
            detail: Seq::empty(),
        }
    }

    /// The operation after the caller has reported `event`. A transient
    /// failure uses up an attempt and is followed by a pause; after the pause
    /// the operation is tried again where an attempt is left and has failed
    /// where none is. Any other failure is final. An event that does not
    /// answer the pending step changes nothing.
    pub open spec fn next(self, event: RetryEventView) -> RetryView {
        match (self.step, event) {
            (RetryStep::Attempt, RetryEventView::Done) => RetryView {
                step: RetryStep::Succeeded,
                ..self
            },
            (RetryStep::Attempt, RetryEventView::Refused { code, detail }) => {
                if self.policy.is_transient(code) {
                    RetryView {
                        attempts_left: if self.attempts_left > 0 {
                            (self.attempts_left - 1) as nat
                        } else {
                            0
                        },
                        step: RetryStep::Pause,
                        detail,
                        ..self
                    }
                } else {
                    RetryView { step: RetryStep::Failed, detail, ..self }
                }
            },
            (RetryStep::Pause, RetryEventView::Paused) => {
                if self.attempts_left > 0 {
                    RetryView { step: RetryStep::Attempt, ..self }
                } else {
                    RetryView { step: RetryStep::Failed, ..self }
                }
            },
            _ => self,
        }
    }

    /// The operation after the caller has reported `events` in turn.
    pub open spec fn run(self, events: Seq<RetryEventView>) -> RetryView
        decreases events.len(),
    {
        if events.len() == 0 {
            self
        } else {
            self.run(events.drop_last()).next(events.last())
        }
    }
}

impl View for Retry {
    type V = RetryView;

    closed spec fn view(&self) -> RetryView {
        RetryView {
            policy: self.policy@,
            attempts_left: self.attempts_left as nat,
            step: self.step,
            detail: self.detail@,
        }
    }
}

impl Retry {
    /// An operation under `policy` that has not been tried yet.
    pub fn new(policy: RetryPolicy) -> (r: Retry)
        ensures
            r@ == RetryView::initial(policy@),
    {
        let attempts_left = policy.attempts;
        Retry { policy, attempts_left, step: RetryStep::Attempt, detail: String::new() }
    }

    /// The operation after the caller has reported `event`.
    pub fn advance(self, event: RetryEvent) -> (r: Retry)
        ensures
            r@ == self@.next(event@),
    {
        match (self.step, event) {
            (RetryStep::Attempt, RetryEvent::Done) => Retry {
                policy: self.policy,
                attempts_left: self.attempts_left,
                step: RetryStep::Succeeded,
                detail: self.detail,
            },
            (RetryStep::Attempt, RetryEvent::Refused { code, detail }) => {
                if self.policy.is_transient(code) {
                    Retry {
                        policy: self.policy,
                        attempts_left: if self.attempts_left > 0 {
                            self.attempts_left - 1
                        } else {
                            0
                        },
                        step: RetryStep::Pause,
                        detail,
                    }
                } else {
                    Retry {
                        policy: self.policy,
                        attempts_left: self.attempts_left,
                        step: RetryStep::Failed,
                        detail,
                    }
                }
            },
            (RetryStep::Pause, RetryEvent::Paused) => {
                let step = if self.attempts_left > 0 {
                    RetryStep::Attempt
                } else {
                    RetryStep::Failed
                };
                Retry {
                    policy: self.policy,
                    attempts_left: self.attempts_left,
                    step,
                    detail: self.detail,
                }
            },
            _ => self,
        }
    }

    /// What the caller has to do next.
    pub fn pending(&self) -> (step: RetryStep)
        ensures
            step == self@.step,
    {
        self.step
    }

    /// Milliseconds to wait at a pause.
    pub fn backoff_ms(&self) -> (ms: u64)
        ensures
            ms == self@.policy.backoff_ms,
    {
        self.policy.backoff_ms
    }

    /// The description of the last failure.
    pub fn detail(&self) -> (detail: String)
        ensures
            detail@ == self@.detail,
    {
        self.detail.clone()
    }
}

/// What a caller reports when the operation fails each time with one of the
/// given codes and descriptions: each failure, then the pause.
pub open spec fn refused_rounds(failures: Seq<(i32, Seq<char>)>) -> Seq<RetryEventView>
    decreases failures.len(),
{
    if failures.len() == 0 {
        Seq::empty()
    } else {
        refused_rounds(failures.drop_last()).push(
            RetryEventView::Refused { code: failures.last().0, detail: failures.last().1 },
        ).push(RetryEventView::Paused)
    }
}

/// Every code in `failures` is transient under `policy`.
pub open spec fn all_transient(policy: RetryPolicyView, failures: Seq<(i32, Seq<char>)>) -> bool {
    forall|i: int| 0 <= i < failures.len() ==> policy.is_transient((#[trigger] failures[i]).0)
}

/// After fewer transient failures than the policy has attempts, the operation
/// is about to be tried again.
pub proof fn lemma_transient_failures(policy: RetryPolicyView, failures: Seq<(i32, Seq<char>)>)
    requires
        all_transient(policy, failures),
        failures.len() < policy.attempts,
    ensures
        RetryView::initial(policy).run(refused_rounds(failures)) == (RetryView {
            attempts_left: (policy.attempts - failures.len()) as nat,
            detail: if failures.len() == 0 {
                Seq::empty()
            } else {
                failures.last().1
            },
            ..RetryView::initial(policy)
        }),
    decreases failures.len(),
{
    if failures.len() > 0 {
        let earlier = failures.drop_last();
        lemma_transient_failures(policy, earlier);
        let refused = RetryEventView::Refused {
            code: failures.last().0,
            detail: failures.last().1,
        };
        lemma_run_push(RetryView::initial(policy), refused_rounds(earlier), refused);
        lemma_run_push(
            RetryView::initial(policy),
            refused_rounds(earlier).push(refused),
            RetryEventView::Paused,
        );
    }
}

/// Within the bound, a success counts: an operation that fails with transient
/// codes fewer times than the policy has attempts and then succeeds has
/// succeeded.
pub proof fn law_success_within_bound(policy: RetryPolicyView, failures: Seq<(i32, Seq<char>)>)
    requires
        all_transient(policy, failures),
        failures.len() < policy.attempts,
    ensures
        RetryView::initial(policy).run(
            refused_rounds(failures).push(RetryEventView::Done),
        ).step == RetryStep::Succeeded,
{
    lemma_transient_failures(policy, failures);
    lemma_run_push(RetryView::initial(policy), refused_rounds(failures), RetryEventView::Done);
}

/// At the bound, the operation has failed: an operation that fails with
/// transient codes as often as the policy has attempts has failed, with the
/// description of the last failure, and whatever is reported after that
/// changes nothing.
pub proof fn law_failure_at_bound(
    policy: RetryPolicyView,
    failures: Seq<(i32, Seq<char>)>,
    later: Seq<RetryEventView>,
)
    requires
        all_transient(policy, failures),
        failures.len() >= 1,
        failures.len() == policy.attempts || (policy.attempts == 0 && failures.len() == 1),
    ensures
        RetryView::initial(policy).run(refused_rounds(failures)).step == RetryStep::Failed,
        RetryView::initial(policy).run(refused_rounds(failures)).detail == failures.last().1,
        RetryView::initial(policy).run(refused_rounds(failures) + later) == RetryView::initial(
            policy,
        ).run(refused_rounds(failures)),
{
    let earlier = failures.drop_last();
    if policy.attempts > 0 {
        lemma_transient_failures(policy, earlier);
    }
    let refused = RetryEventView::Refused { code: failures.last().0, detail: failures.last().1 };
    lemma_run_push(RetryView::initial(policy), refused_rounds(earlier), refused);
    lemma_run_push(
        RetryView::initial(policy),
        refused_rounds(earlier).push(refused),
        RetryEventView::Paused,
    );
    lemma_settled_stays(RetryView::initial(policy).run(refused_rounds(failures)), later);
    lemma_run_concat(RetryView::initial(policy), refused_rounds(failures), later);
}

/// A failure whose code is not transient is final at once.
pub proof fn law_other_failure_is_final(r: RetryView, code: i32, detail: Seq<char>)
    requires
        r.step == RetryStep::Attempt,
        !r.policy.is_transient(code),
    ensures
        r.next(RetryEventView::Refused { code, detail }).step == RetryStep::Failed,
        r.next(RetryEventView::Refused { code, detail }).detail == detail,
{
}

/// Reporting one more event is one more step.
pub proof fn lemma_run_push(r: RetryView, events: Seq<RetryEventView>, e: RetryEventView)
    ensures
        r.run(events.push(e)) == r.run(events).next(e),
{
    assert(events.push(e).drop_last() =~= events);
}

/// Reporting two runs of events in turn is reporting them all.
pub proof fn lemma_run_concat(r: RetryView, first: Seq<RetryEventView>, second: Seq<RetryEventView>)
    ensures
        r.run(first + second) == r.run(first).run(second),
    decreases second.len(),
{
    if second.len() == 0 {
    } else {
        assert((first + second).drop_last() =~= first + second.drop_last());
        lemma_run_concat(r, first, second.drop_last());
    }
}

/// An operation that has succeeded or failed stays as it is.
pub proof fn lemma_settled_stays(r: RetryView, events: Seq<RetryEventView>)
    requires
        r.step == RetryStep::Succeeded || r.step == RetryStep::Failed,
    ensures
        r.run(events) == r,
    decreases events.len(),
{
    if events.len() > 0 {
        lemma_settled_stays(r, events.drop_last());
    }
}

} // verus!
