//! Escape-time evaluator: the per-pixel iteration state machine.
//!
//! The verifier cannot model the floating-point formula step itself, so
//! the evaluator is split along that line: the embedding program holds
//! the complex value `z`, and before each formula application it hands
//! the evaluator one observation — whether `z` has already escaped the
//! radius-2 circle.  The evaluator owns everything else: the iteration
//! counter, the cap, and the decision to keep iterating or to stop.  A
//! ghost log of the observations ties the final count to its meaning:
//! when the machine stops, the count is the index of the first
//! successful escape test, or the cap if no test succeeded in time.

use vstd::prelude::*;

verus! {

/// Where the per-pixel iteration stands.
#[derive(Clone, Copy, Debug, PartialEq, Eq, Structural)]
pub enum EvalStatus {
    /// Still iterating: no escape seen and the cap not yet reached.
    Running,
    /// An escape test succeeded before the cap was reached.
    Escaped,
    /// The iteration cap was reached without an escape.
    Capped,
}

/// The escape count that a sequence of escape-test observations earns:
/// the index of the first `true` observation, or `max_iterations` if
/// the first `max_iterations` observations are all `false`.
pub open spec fn escape_count(escapes: Seq<bool>, max_iterations: nat) -> nat
    decreases max_iterations,
{
    if max_iterations == 0 {
        0
    } else if escapes.len() == 0 {
        0
    } else if escapes[0] {
        0
    } else {
        1 + escape_count(escapes.drop_first(), (max_iterations - 1) as nat)
    }
}

/// The state machine that runs the escape-time loop for one pixel.
pub struct Evaluator {
    /// How many formula applications have been requested so far.
    pub iteration: u64,
    /// The iteration cap for this render.
    pub max_iterations: u64,
    /// Whether the machine is still iterating, and if not, why it stopped.
    pub status: EvalStatus,
    /// The escape-test observations consumed so far, oldest first.
    pub events: Ghost<Seq<bool>>,
}

impl Evaluator {
    /// The machine's invariant: the counter, the status and the
    /// observation log agree with one another.
    pub open spec fn wf(self) -> bool {
        match self.status {
            EvalStatus::Running => {
                &&& self.iteration <= self.max_iterations
                &&& self.events@.len() == self.iteration
                &&& forall|i: int| 0 <= i < self.events@.len() ==> !self.events@[i]
            },
            EvalStatus::Escaped => {
                &&& self.iteration < self.max_iterations
                &&& self.events@.len() == self.iteration + 1
                &&& forall|i: int| 0 <= i < self.iteration ==> !self.events@[i]
                &&& self.events@[self.iteration as int]
            },
            EvalStatus::Capped => {
                &&& self.iteration == self.max_iterations
                &&& self.events@.len() == self.iteration
                &&& forall|i: int| 0 <= i < self.events@.len() ==> !self.events@[i]
            },
        }
    }

    /// Starts the escape-time loop for one pixel.
    pub fn new(max_iterations: u64) -> (evaluator: Evaluator)
        ensures
            evaluator.wf(),
            evaluator.iteration == 0,
            evaluator.max_iterations == max_iterations,
            evaluator.status is Running,
            evaluator.events@ == Seq::<bool>::empty(),
    {
        Evaluator {
            iteration: 0,
            max_iterations,
            status: EvalStatus::Running,
            events: Ghost(Seq::empty()),
        }
    }

    /// Feeds the machine the escape test of the current `z` and decides
    /// whether to go on.  The cap is checked before the escape test, so
    /// a cap of zero stops at once whatever the test said.  The result
    /// says whether the caller should apply the formula once more and
    /// come back; once it is `false` the machine has stopped for good
    /// and `self.iteration` is the pixel's count.
    pub fn step(&mut self, escaped: bool) -> (apply: bool)
        requires
            old(self).wf(),
            old(self).status is Running,
        ensures
            final(self).wf(),
            final(self).max_iterations == old(self).max_iterations,
            apply == (final(self).status is Running),
            old(self).iteration == old(self).max_iterations ==> {
                &&& final(self).status is Capped
                &&& final(self).iteration == old(self).iteration
                &&& final(self).events@ == old(self).events@
            },
            old(self).iteration < old(self).max_iterations && escaped ==> {
                &&& final(self).status is Escaped
                &&& final(self).iteration == old(self).iteration
                &&& final(self).events@ == old(self).events@.push(true)
            },
            old(self).iteration < old(self).max_iterations && !escaped ==> {
                &&& final(self).status is Running
                &&& final(self).iteration == old(self).iteration + 1
                &&& final(self).events@ == old(self).events@.push(false)
            },
    {
        if self.iteration == self.max_iterations {
            self.status = EvalStatus::Capped;
            false
        } else if escaped {
            self.events = Ghost(self.events@.push(true));
            self.status = EvalStatus::Escaped;
            false
        } else {
            self.events = Ghost(self.events@.push(false));
            self.iteration = self.iteration + 1;
            true
        }
    }
}

/// A run of all-false observations long enough to cover the cap earns
/// exactly the cap.
proof fn lemma_escape_count_all_false(escapes: Seq<bool>, max_iterations: nat)
    requires
        escapes.len() >= max_iterations,
        forall|i: int| 0 <= i < escapes.len() ==> !escapes[i],
    ensures
        escape_count(escapes, max_iterations) == max_iterations,
    decreases max_iterations,
{
    if max_iterations > 0 {
        assert(forall|i: int|
            0 <= i < escapes.drop_first().len() ==> escapes.drop_first()[i] == escapes[i + 1]);
        lemma_escape_count_all_false(escapes.drop_first(), (max_iterations - 1) as nat);
    }
}

/// Observations that are false up to index `k` and true at `k`, with
/// `k` under the cap, earn exactly `k`.
proof fn lemma_escape_count_first_true(escapes: Seq<bool>, max_iterations: nat, k: nat)
    requires
        k < max_iterations,
        k < escapes.len(),
        forall|i: int| 0 <= i < k ==> !escapes[i],
        escapes[k as int],
    ensures
        escape_count(escapes, max_iterations) == k,
    decreases k,
{
    if k > 0 {
        assert(forall|i: int|
            0 <= i < escapes.drop_first().len() ==> escapes.drop_first()[i] == escapes[i + 1]);
        lemma_escape_count_first_true(escapes.drop_first(), (max_iterations - 1) as nat, (k - 1) as nat);
    }
}

/// Once the machine has stopped, its count is exactly the escape count
/// of the observations it consumed: the index of the first successful
/// escape test, or the cap if none succeeded in time.
pub proof fn lemma_finished_count(evaluator: Evaluator)
    requires
        evaluator.wf(),
        !(evaluator.status is Running),
    ensures
        evaluator.iteration == escape_count(evaluator.events@, evaluator.max_iterations as nat),
{
    match evaluator.status {
        EvalStatus::Running => {},
        EvalStatus::Escaped => {
            lemma_escape_count_first_true(
                evaluator.events@,
                evaluator.max_iterations as nat,
                evaluator.iteration as nat,
            );
        },
        EvalStatus::Capped => {
            lemma_escape_count_all_false(evaluator.events@, evaluator.max_iterations as nat);
        },
    }
}

/// Determinism of the escape-time loop: two finished runs under the
/// same cap that consumed the same escape-test observations stopped
/// for the same reason with the same count.
pub proof fn lemma_evaluator_deterministic(first: Evaluator, second: Evaluator)
    requires
        first.wf(),
        second.wf(),
        !(first.status is Running),
        !(second.status is Running),
        first.max_iterations == second.max_iterations,
        first.events@ == second.events@,
    ensures
        first.iteration == second.iteration,
        first.status == second.status,
{
    lemma_finished_count(first);
    lemma_finished_count(second);
}

/// A pixel whose very first escape test already succeeds earns count
/// zero, whatever the cap.
pub proof fn lemma_immediate_escape(escapes: Seq<bool>, max_iterations: nat)
    requires
        escapes.len() > 0,
        escapes[0],
    ensures
        escape_count(escapes, max_iterations) == 0,
{
}

} // verus!
