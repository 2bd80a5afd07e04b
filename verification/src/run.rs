//! Step-by-step execution of a plan.
//!
//! The orchestrator never performs outside work itself: the caller takes
//! the current step from a [`SetupRun`], performs its action (the
//! service-manager round trip, the container bookkeeping), and reports
//! whether it succeeded.  The machine applies the step's failure policy:
//! a failed fatal step aborts the run, a failed lenient step is logged by
//! the caller and the run continues.

use crate::errors::{LauncherError, LauncherErrorView};
use crate::orchestrator::{Plan, PlanStep, PlanStepView, StepAction, StepActionView, StepPolicy};
use vstd::prelude::*;

verus! {

/// How many of `steps` a run attempts when the `i`-th attempted step gets
/// outcome `outcomes[i]`: every step up to and including the first failing
/// fatal step, and no step beyond it.
pub open spec fn steps_attempted(steps: Seq<PlanStepView>, outcomes: Seq<bool>) -> nat
    decreases steps.len(),
{
    if steps.len() == 0 || outcomes.len() == 0 {
        0
    } else if steps[0].policy is Fatal && !outcomes[0] {
        1
    } else {
        1 + steps_attempted(steps.drop_first(), outcomes.drop_first())
    }
}

/// Whether a run over `steps` with the given outcomes hits a failing fatal
/// step.
pub open spec fn run_aborts(steps: Seq<PlanStepView>, outcomes: Seq<bool>) -> bool
    decreases steps.len(),
{
    if steps.len() == 0 || outcomes.len() == 0 {
        false
    } else if steps[0].policy is Fatal && !outcomes[0] {
        true
    } else {
        run_aborts(steps.drop_first(), outcomes.drop_first())
    }
}

/// The name a step's failure is reported under: the unit name for unit
/// steps, the shape name otherwise.
pub open spec fn step_subject(a: StepActionView) -> Seq<char> {
    match a {
        StepActionView::StartInterfaceUnit { unit } => unit,
        StepActionView::StopInterfaceUnit { unit } => unit,
        StepActionView::StartShape { name, shape } => name,
        StepActionView::StopShape { name, shape } => name,
        StepActionView::SkipMissingShape { name } => name,
    }
}

fn step_subject_name(a: &StepAction) -> (r: String)
    ensures
        r@ == step_subject(a@),
{
    match a {
        StepAction::StartInterfaceUnit { unit } => unit.clone(),
        StepAction::StopInterfaceUnit { unit } => unit.clone(),
        StepAction::StartShape { name, shape: _ } => name.clone(),
        StepAction::StopShape { name, shape: _ } => name.clone(),
        StepAction::SkipMissingShape { name } => name.clone(),
    }
}

/// A plan being executed: the steps, how far the run has come, and the
/// fatal failure that ended it early, if one did.
pub struct SetupRun {
    plan: Plan,
    pos: usize,
    failure: Option<LauncherError>,
    history: Ghost<Seq<bool>>,
}

impl SetupRun {
    /// The steps of the plan being run.
    pub closed spec fn steps(&self) -> Seq<PlanStepView> {
        self.plan@
    }

    /// The outcomes reported so far, in order.
    pub closed spec fn history(&self) -> Seq<bool> {
        self.history@
    }

    /// Whether the run has been ended by a failing fatal step.
    pub closed spec fn aborted(&self) -> bool {
        self.failure is Some
    }

    /// The fatal failure that ended the run, if one did.
    pub closed spec fn failure_view(&self) -> Option<LauncherErrorView> {
        self.failure.deep_view()
    }

    /// The number of steps attempted so far.
    pub open spec fn position(&self) -> nat {
        self.history().len()
    }

    /// A run is in progress while no fatal failure has occurred and steps
    /// remain.
    pub open spec fn in_progress(&self) -> bool {
        !self.aborted() && self.position() < self.steps().len()
    }

    /// The machine's invariant: the position counts the reported outcomes,
    /// which the run semantics accept in full, and the stored failure says
    /// exactly whether the run has aborted.
    pub closed spec fn wf(&self) -> bool {
        &&& self.pos as nat == self.history@.len()
        &&& self.pos <= self.plan.steps@.len()
        &&& steps_attempted(self.plan@, self.history@) == self.history@.len()
        &&& (self.failure is Some) == run_aborts(self.plan@, self.history@)
    }

    /// Begins a run of `plan`, with nothing attempted yet.
    pub fn new(plan: Plan) -> (r: SetupRun)
        ensures
            r.wf(),
            r.steps() == plan@,
            r.history() == Seq::<bool>::empty(),
            !r.aborted(),
            r.failure_view() is None,
    {
        SetupRun { plan, pos: 0, failure: None, history: Ghost(Seq::empty()) }
    }

    /// The step to perform next, while the run is in progress.
    pub fn current_step(&self) -> (r: Option<&PlanStep>)
        requires
            self.wf(),
        ensures
            (r is Some) == self.in_progress(),
            r matches Some(s) ==> s@ == self.steps()[self.position() as int],
    {
        match &self.failure {
            Some(_) => None,
            None => {
                if self.pos < self.plan.steps.len() {
                    proof {
                        assert(self.plan@[self.pos as int] == self.plan.steps@[self.pos as int]@);
                    }
                    Some(&self.plan.steps[self.pos])
                } else {
                    None
                }
            },
        }
    }

    /// Records the outcome of the current step and applies its policy: a
    /// failed fatal step aborts the run with `ExternalOperationFailed`,
    /// anything else moves on to the next step.
    pub fn advance(&mut self, success: bool)
        requires
            old(self).wf(),
            old(self).in_progress(),
        ensures
            final(self).wf(),
            final(self).steps() == old(self).steps(),
            final(self).history() == old(self).history().push(success),
            final(self).aborted() == (old(self).steps()[old(self).position() as int].policy
                is Fatal && !success),
            final(self).aborted() ==> final(self).failure_view() == Some(
                LauncherErrorView::ExternalOperationFailed {
                    unit: step_subject(old(self).steps()[old(self).position() as int].action),
                },
            ),
            !final(self).aborted() ==> final(self).failure_view() is None,
    {
        proof {
            assert(self.plan@[self.pos as int] == self.plan.steps@[self.pos as int]@);
        }
        let len = self.plan.steps.len();
        let step = &self.plan.steps[self.pos];
        let fatal = match step.policy {
            StepPolicy::Fatal => true,
            StepPolicy::LogAndContinue => false,
        };
        if fatal && !success {
            let unit = step_subject_name(&step.action);
            self.failure = Some(LauncherError::ExternalOperationFailed { unit });
        }
        self.pos = self.pos + 1;
        let ghost previous = self.history@;
        self.history = Ghost(self.history@.push(success));
        proof {
            lemma_run_extend(self.plan@, previous, success);
        }
    }

    /// How many steps have been attempted so far.
    pub fn attempted_count(&self) -> (r: usize)
        requires
            self.wf(),
        ensures
            r == self.position(),
    {
        self.pos
    }

    /// The fatal failure that ended the run, or `None` while none has
    /// occurred.
    pub fn failure(&self) -> (r: &Option<LauncherError>)
        ensures
            r.deep_view() == self.failure_view(),
            (r is Some) == self.aborted(),
    {
        &self.failure
    }
}

proof fn lemma_run_extend(steps: Seq<PlanStepView>, h: Seq<bool>, b: bool)
    requires
        h.len() < steps.len(),
        steps_attempted(steps, h) == h.len(),
        !run_aborts(steps, h),
    ensures
        steps_attempted(steps, h.push(b)) == h.len() + 1,
        run_aborts(steps, h.push(b)) == (steps[h.len() as int].policy is Fatal && !b),
    decreases h.len(),
{
    let hp = h.push(b);
    if h.len() == 0 {
        assert(hp.len() == 1);
        assert(hp[0] == b);
        if steps[0].policy is Fatal && !b {
            assert(steps_attempted(steps, hp) == 1);
            assert(run_aborts(steps, hp));
        } else {
            assert(hp.drop_first() =~= Seq::<bool>::empty());
            assert(steps_attempted(steps.drop_first(), hp.drop_first()) == 0);
            assert(steps_attempted(steps, hp) == 1);
            assert(!run_aborts(steps.drop_first(), hp.drop_first()));
            assert(!run_aborts(steps, hp));
        }
    } else {
        assert(hp[0] == h[0]);
        assert(!(steps[0].policy is Fatal && !h[0]));
        assert(steps_attempted(steps, h) == 1 + steps_attempted(
            steps.drop_first(),
            h.drop_first(),
        ));
        assert(!run_aborts(steps.drop_first(), h.drop_first()));
        lemma_run_extend(steps.drop_first(), h.drop_first(), b);
        assert(hp.drop_first() =~= h.drop_first().push(b));
        assert(steps.drop_first()[h.len() - 1] == steps[h.len() as int]);
        assert(steps_attempted(steps, hp) == 1 + steps_attempted(
            steps.drop_first(),
            hp.drop_first(),
        ));
        assert(run_aborts(steps, hp) == run_aborts(steps.drop_first(), hp.drop_first()));
    }
}

/// A run whose every step is lenient never aborts, whatever the outcomes.
pub proof fn lemma_lenient_run_never_aborts(steps: Seq<PlanStepView>, outcomes: Seq<bool>)
    requires
        forall|i: int| 0 <= i < steps.len() ==> steps[i].policy is LogAndContinue,
    ensures
        !run_aborts(steps, outcomes),
    decreases steps.len(),
{
    if steps.len() == 0 || outcomes.len() == 0 {
    } else {
        assert(steps[0].policy is LogAndContinue);
        assert forall|i: int|
            0 <= i < steps.drop_first().len() implies steps.drop_first()[i].policy
            is LogAndContinue by {
            assert(steps.drop_first()[i] == steps[i + 1]);
        }
        lemma_lenient_run_never_aborts(steps.drop_first(), outcomes.drop_first());
    }
}

/// A run that never aborts and has an outcome for every step attempts them
/// all.
pub proof fn lemma_run_attempts_all(steps: Seq<PlanStepView>, outcomes: Seq<bool>)
    requires
        outcomes.len() >= steps.len(),
        !run_aborts(steps, outcomes),
    ensures
        steps_attempted(steps, outcomes) == steps.len(),
    decreases steps.len(),
{
    if steps.len() == 0 {
    } else {
        assert(!(steps[0].policy is Fatal && !outcomes[0]));
        lemma_run_attempts_all(steps.drop_first(), outcomes.drop_first());
    }
}

} // verus!
