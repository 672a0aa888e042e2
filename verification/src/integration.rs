//! Adaptive step control for the embedded Runge-Kutta-Fehlberg 4(5) stepper.
//!
//! One integration step is a chain of trials.  Each trial evaluates the six
//! RKF stages at some step size, compares the embedded fourth- and
//! fifth-order estimates, and either accepts the fifth-order state, retries
//! with the controller's shrunken step, or gives up.  The stage arithmetic is
//! the numeric driver's job; this module owns the policy: when a trial is
//! accepted, when it is retried, when the attempt fails, and — crucially —
//! that a failed attempt hands back the original state untouched, so the
//! caller can apply its fallback classification.

use vstd::prelude::*;

verus! {

/// Why an integration step gave up before meeting the error tolerance.
#[derive(Clone, Copy, Debug, PartialEq, Eq, Structural)]
pub enum IntegrationError {
    /// The controller's shrunken step fell below the minimum step floor.
    MinStepReached,
    /// The bounded number of retries was used up.
    MaxRetriesReached,
}

/// What the controller tells the driver to do after one trial.
#[derive(Clone, Copy, Debug, PartialEq, Eq, Structural)]
pub enum StepControl {
    /// The error met the tolerance: take the fifth-order state.
    Accept,
    /// Try again at the controller's shrunken step.
    Retry,
    /// Give up for the stated reason.
    Fail(IntegrationError),
}

/// The acceptance rule as a spec-level function, so that contracts can
/// quote it: a trial within tolerance is always accepted; a rejected trial
/// fails with `MinStepReached` if the shrunken step is below the floor,
/// fails with `MaxRetriesReached` if this rejection exhausts the retry
/// budget, and is retried otherwise.
pub open spec fn step_control_spec(
    error_within_tolerance: bool,
    shrunk_step_below_min: bool,
    retries: usize,
    max_retries: usize,
) -> StepControl {
    if error_within_tolerance {
        StepControl::Accept
    } else if shrunk_step_below_min {
        StepControl::Fail(IntegrationError::MinStepReached)
    } else if retries >= max_retries {
        StepControl::Fail(IntegrationError::MaxRetriesReached)
    } else {
        StepControl::Retry
    }
}

/// The acceptance rule of the adaptive controller, applied after one trial.
///
/// `error_within_tolerance` is the comparison of the embedded error estimate
/// against the tolerance; `shrunk_step_below_min` compares the controller's
/// next candidate step against the minimum step floor; `retries` counts the
/// rejected trials made so far.
pub fn step_control(
    error_within_tolerance: bool,
    shrunk_step_below_min: bool,
    retries: usize,
    max_retries: usize,
) -> (c: StepControl)
    ensures
        c == step_control_spec(
            error_within_tolerance,
            shrunk_step_below_min,
            retries,
            max_retries,
        ),
{
    if error_within_tolerance {
        StepControl::Accept
    } else if shrunk_step_below_min {
        StepControl::Fail(IntegrationError::MinStepReached)
    } else if retries >= max_retries {
        StepControl::Fail(IntegrationError::MaxRetriesReached)
    } else {
        StepControl::Retry
    }
}

/// The growth cap on an accepted step.
///
/// After a long rejection chain the controller's formula can suggest a much
/// larger step than the one just taken; letting it through would overshoot
/// the next region of strong curvature.  The driver hands in the suggested
/// step, the doubled current step, and their comparison; the cap keeps the
/// smaller of the two.
pub fn cap_step_growth<S>(suggested: S, doubled_current: S, suggested_exceeds_double: bool) -> (s:
    S)
    ensures
        suggested_exceeds_double ==> s == doubled_current,
        !suggested_exceeds_double ==> s == suggested,
{
    if suggested_exceeds_double {
        doubled_current
    } else {
        suggested
    }
}

/// How one integration attempt ended.
#[derive(Clone, Copy, Debug)]
pub enum IntegrationOutcome<St, S> {
    /// A trial met the tolerance: the fifth-order state and the capped
    /// suggestion for the next step.
    Accepted { state: St, next_step: S },
    /// No trial met the tolerance: the original state and step, untouched.
    Failed { state: St, step: S, error: IntegrationError },
}

/// One adaptive integration attempt, driven trial by trial.
///
/// The session holds the state and step the attempt started from.  The
/// driver evaluates the RKF stages, then reports each trial through
/// [`Rkf45Session::on_trial`]; the session applies [`step_control`] and,
/// once decided, yields the outcome.  Whatever the trial chain looked like,
/// a failed attempt yields the initial state and the initial step exactly.
pub struct Rkf45Session<St, S> {
    initial_state: St,
    initial_step: S,
    retries: usize,
    max_retries: usize,
    outcome: Option<IntegrationOutcome<St, S>>,
}

impl<St: Copy, S: Copy> Rkf45Session<St, S> {
    /// The state this attempt started from.
    pub closed spec fn spec_initial_state(self) -> St {
        self.initial_state
    }

    /// The step size this attempt started from.
    pub closed spec fn spec_initial_step(self) -> S {
        self.initial_step
    }

    /// How many trials have been rejected so far.
    pub closed spec fn spec_retries(self) -> usize {
        self.retries
    }

    /// The retry budget the attempt was given.
    pub closed spec fn spec_max_retries(self) -> usize {
        self.max_retries
    }

    /// The decision, once one has been reached.
    pub closed spec fn spec_outcome(self) -> Option<IntegrationOutcome<St, S>> {
        self.outcome
    }

    /// A session never exceeds its retry budget, and a failure always
    /// carries the initial state and step.
    pub open spec fn wf(self) -> bool {
        &&& self.spec_retries() <= self.spec_max_retries()
        &&& self.spec_outcome() matches Some(
            IntegrationOutcome::Failed { state, step, error },
        ) ==> state == self.spec_initial_state() && step == self.spec_initial_step()
    }

    /// Opens an attempt from `state` with step `step` and the given retry
    /// budget.
    pub fn begin(state: St, step: S, max_retries: usize) -> (s: Self)
        ensures
            s.wf(),
            s.spec_initial_state() == state,
            s.spec_initial_step() == step,
            s.spec_retries() == 0,
            s.spec_max_retries() == max_retries,
            s.spec_outcome() is None,
    {
        Rkf45Session { initial_state: state, initial_step: step, retries: 0, max_retries, outcome: None }
    }

    /// Whether a decision has been reached.
    pub fn is_decided(&self) -> (b: bool)
        ensures
            b == (self.spec_outcome() is Some),
    {
        self.outcome.is_some()
    }

    /// Reports one trial.
    ///
    /// `candidate` is the fifth-order state of the trial and
    /// `capped_next_step` the growth-capped suggestion for the next step;
    /// they are taken when the trial is accepted.  The flags are the
    /// driver's comparisons, as in [`step_control`].  The returned control
    /// tells the driver whether to evaluate another trial at the shrunken
    /// step.
    pub fn on_trial(
        &mut self,
        candidate: St,
        capped_next_step: S,
        error_within_tolerance: bool,
        shrunk_step_below_min: bool,
    ) -> (c: StepControl)
        requires
            old(self).wf(),
            old(self).spec_outcome() is None,
        ensures
            final(self).wf(),
            final(self).spec_initial_state() == old(self).spec_initial_state(),
            final(self).spec_initial_step() == old(self).spec_initial_step(),
            final(self).spec_max_retries() == old(self).spec_max_retries(),
            c == step_control_spec(
                error_within_tolerance,
                shrunk_step_below_min,
                old(self).spec_retries(),
                old(self).spec_max_retries(),
            ),
            c is Accept ==> final(self).spec_outcome() == Some(
                IntegrationOutcome::Accepted { state: candidate, next_step: capped_next_step },
            ),
            c matches StepControl::Fail(e) ==> final(self).spec_outcome() == Some(
                IntegrationOutcome::Failed {
                    state: old(self).spec_initial_state(),
                    step: old(self).spec_initial_step(),
                    error: e,
                },
            ),
            c is Retry ==> final(self).spec_outcome() is None && final(self).spec_retries() == old(
                self,
            ).spec_retries() + 1,
    {
        let control = step_control(
            error_within_tolerance,
            shrunk_step_below_min,
            self.retries,
            self.max_retries,
        );
        match control {
            StepControl::Accept => {
                self.outcome = Some(
                    IntegrationOutcome::Accepted { state: candidate, next_step: capped_next_step },
                );
            },
            StepControl::Fail(error) => {
                self.outcome = Some(
                    IntegrationOutcome::Failed {
                        state: self.initial_state,
                        step: self.initial_step,
                        error,
                    },
                );
            },
            StepControl::Retry => {
                self.retries = self.retries + 1;
            },
        }
        control
    }

    /// Yields the decision.
    pub fn resolve(self) -> (o: IntegrationOutcome<St, S>)
        requires
            self.wf(),
            self.spec_outcome() is Some,
        ensures
            Some(o) == self.spec_outcome(),
            o matches IntegrationOutcome::Failed { state, step, .. } ==> state
                == self.spec_initial_state() && step == self.spec_initial_step(),
    {
        self.outcome.unwrap()
    }
}

/// The stepper never fails with a modified state: however many trials an
/// attempt went through, an outcome of `Failed` carries exactly the state
/// and step that [`Rkf45Session::begin`] was given.
pub proof fn lemma_failure_preserves_state<St: Copy, S: Copy>(s: Rkf45Session<St, S>)
    requires
        s.wf(),
    ensures
        s.spec_outcome() matches Some(IntegrationOutcome::Failed { state, step, .. }) ==> state
            == s.spec_initial_state() && step == s.spec_initial_step(),
{
}

} // verus!
