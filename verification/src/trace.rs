//! One ray's whole life, from the first step to its colour.
//!
//! This is the loop that turns one pixel's ray into one colour: up to a
//! hard cap of integration steps, renormalize on schedule, advance the
//! termination state machine, blend whatever sample a stopping criterion
//! resolved to, and cut the loop short once the transmittance has
//! collapsed.  The trace owns the ray and the compositor and enforces the
//! sequencing: no step beyond the cap, renormalization exactly on
//! schedule, and no further work once the trace has finished.

use vstd::prelude::*;

use crate::compositor::{spec_contribution, spec_new_transmittance, valid_color, Color, Compositor, FP_ONE};
use crate::ray::{Ray, StepEvent, StoppingCriterion};
use crate::tensors::SphericalState4D;

verus! {

/// What the driver must do next for this trace.
#[derive(Clone, Copy, Debug, PartialEq, Eq, Structural)]
pub enum TracePlan {
    /// Evaluate one more integration step; renormalize the state against
    /// the null-geodesic constraint first when the flag says so.
    Step { renormalize: bool },
    /// The trace is over: the step cap is reached or the transmittance
    /// has collapsed.  Resolve the colour with [`Trace::finish`].
    Done,
}

/// The per-pixel pipeline: a ray, the colour accumulated along it, and
/// the loop bookkeeping of the integration run.
pub struct Trace<S> {
    ray: Ray<S>,
    compositor: Compositor,
    steps_taken: usize,
    step_cap: usize,
    normalization_interval: usize,
    stopped_early: bool,
}

impl<S: Copy> Trace<S> {
    /// The ray being traced.
    pub closed spec fn spec_ray(self) -> Ray<S> {
        self.ray
    }

    /// The compositing state accumulated so far.
    pub closed spec fn spec_compositor(self) -> Compositor {
        self.compositor
    }

    /// How many steps have been taken.
    pub closed spec fn spec_steps_taken(self) -> usize {
        self.steps_taken
    }

    /// The hard cap on integration steps.
    pub closed spec fn spec_step_cap(self) -> usize {
        self.step_cap
    }

    /// The renormalization interval.
    pub closed spec fn spec_normalization_interval(self) -> usize {
        self.normalization_interval
    }

    /// Whether the early transmittance cutoff has fired.
    pub closed spec fn spec_stopped_early(self) -> bool {
        self.stopped_early
    }

    /// The trace never oversteps its cap, needs a positive interval for
    /// its schedule, and keeps the compositing invariant.
    pub open spec fn wf(self) -> bool {
        &&& self.spec_steps_taken() <= self.spec_step_cap()
        &&& self.spec_normalization_interval() > 0
        &&& self.spec_compositor().wf()
    }

    /// What the driver must do next: another step while the cap is not
    /// reached and the transmittance holds out, nothing otherwise.  The
    /// state is renormalized every `normalization_interval` steps, but
    /// never before the first.
    pub open spec fn spec_plan(self) -> TracePlan {
        if self.spec_stopped_early() || self.spec_steps_taken() == self.spec_step_cap() {
            TracePlan::Done
        } else {
            TracePlan::Step {
                renormalize: self.spec_steps_taken() > 0 && self.spec_steps_taken() as int
                    % self.spec_normalization_interval() as int == 0,
            }
        }
    }

    /// Opens a trace over a fresh compositor.
    pub fn begin(ray: Ray<S>, step_cap: usize, normalization_interval: usize) -> (t: Self)
        requires
            normalization_interval > 0,
        ensures
            t.wf(),
            t.spec_ray() == ray,
            t.spec_steps_taken() == 0,
            t.spec_step_cap() == step_cap,
            t.spec_normalization_interval() == normalization_interval,
            !t.spec_stopped_early(),
            t.spec_compositor().spec_transmittance() == FP_ONE,
            t.spec_compositor().spec_accumulated() == (Color { r: 0, g: 0, b: 0, a: 0 }),
    {
        Trace {
            ray,
            compositor: Compositor::new(),
            steps_taken: 0,
            step_cap,
            normalization_interval,
            stopped_early: false,
        }
    }

    /// Tells the driver what to do next.
    pub fn plan(&self) -> (p: TracePlan)
        requires
            self.wf(),
        ensures
            p == self.spec_plan(),
    {
        if self.stopped_early || self.steps_taken == self.step_cap {
            TracePlan::Done
        } else {
            TracePlan::Step {
                renormalize: crate::ray::needs_renormalization(
                    self.steps_taken,
                    self.normalization_interval,
                ),
            }
        }
    }

    /// Reads the ray's state back, for the driver to renormalize or
    /// integrate from.
    pub fn state(&self) -> (s: SphericalState4D<S>)
        ensures
            s == self.spec_ray().spec_state(),
    {
        self.ray.state()
    }

    /// Reads the ray's current step size.
    pub fn d_lambda(&self) -> (s: S)
        ensures
            s == self.spec_ray().spec_d_lambda(),
    {
        self.ray.d_lambda()
    }

    /// The periodic renormalization, due exactly when the current plan
    /// asks for it: the driver re-derives the time-velocity from the
    /// spatial velocity and the Schwarzschild radius, and only that
    /// component of the ray's state is replaced (see
    /// [`Ray::renormalize_to`]).
    pub fn renormalize_to(&mut self, dt: S)
        requires
            old(self).wf(),
            old(self).spec_plan() == (TracePlan::Step { renormalize: true }),
        ensures
            final(self).wf(),
            final(self).spec_ray().spec_state() == (SphericalState4D {
                dt,
                ..old(self).spec_ray().spec_state()
            }),
            final(self).spec_ray().spec_d_lambda() == old(self).spec_ray().spec_d_lambda(),
            final(self).spec_compositor() == old(self).spec_compositor(),
            final(self).spec_steps_taken() == old(self).spec_steps_taken(),
            final(self).spec_step_cap() == old(self).spec_step_cap(),
            final(self).spec_normalization_interval() == old(self).spec_normalization_interval(),
            final(self).spec_stopped_early() == old(self).spec_stopped_early(),
    {
        self.ray.renormalize_to(dt);
    }

    /// One step of the trace: advances the termination state machine
    /// (see [`Ray::step`]) and counts the step against the cap.
    pub fn step<V>(
        &mut self,
        within_visual_radius: bool,
        event: Option<StepEvent<S, V>>,
    ) -> (res: Option<StoppingCriterion<S, V>>)
        requires
            old(self).wf(),
            old(self).spec_plan() is Step,
            !within_visual_radius ==> event is Some,
        ensures
            final(self).wf(),
            final(self).spec_steps_taken() == old(self).spec_steps_taken() + 1,
            final(self).spec_step_cap() == old(self).spec_step_cap(),
            final(self).spec_normalization_interval() == old(self).spec_normalization_interval(),
            final(self).spec_stopped_early() == old(self).spec_stopped_early(),
            final(self).spec_compositor() == old(self).spec_compositor(),
            within_visual_radius ==> res == Some(
                StoppingCriterion::<S, V>::EnteredEventHorizon,
            ) && final(self).spec_ray() == old(self).spec_ray(),
            !within_visual_radius ==> (match event.unwrap() {
                StepEvent::Failed { near_horizon, last_position } => {
                    &&& near_horizon ==> res == Some(
                        StoppingCriterion::<S, V>::EnteredEventHorizon,
                    )
                    &&& !near_horizon ==> res == Some(
                        StoppingCriterion::<S, V>::OutOfBoundingBox(last_position),
                    )
                    &&& final(self).spec_ray() == old(self).spec_ray()
                },
                StepEvent::Advanced {
                    state,
                    next_step,
                    disk_crossing,
                    beyond_bounding_box,
                    moving_outward,
                    position,
                } => {
                    &&& disk_crossing matches Some(radius) ==> res == Some(
                        StoppingCriterion::<S, V>::CrossedAccretionDisk(radius),
                    ) && final(self).spec_ray() == old(self).spec_ray()
                    &&& disk_crossing is None && beyond_bounding_box && moving_outward ==> res
                        == Some(StoppingCriterion::<S, V>::OutOfBoundingBox(position))
                        && final(self).spec_ray() == old(self).spec_ray()
                    &&& disk_crossing is None && !(beyond_bounding_box && moving_outward) ==> res
                        is None && final(self).spec_ray().spec_state() == state
                        && final(self).spec_ray().spec_d_lambda() == next_step
                },
            }),
    {
        self.steps_taken = self.steps_taken + 1;
        self.ray.step(within_visual_radius, event)
    }

    /// Blends the sample a stopping criterion resolved to — each channel
    /// gains the sample's contribution under the transmittance still left,
    /// exactly as [`Compositor::add_sample`] states — and fires the early
    /// cutoff once so little transmittance is left that further samples
    /// cannot contribute noticeably.
    pub fn absorb(&mut self, sample: Color)
        requires
            old(self).wf(),
            valid_color(sample),
        ensures
            final(self).wf(),
            final(self).spec_ray() == old(self).spec_ray(),
            final(self).spec_steps_taken() == old(self).spec_steps_taken(),
            final(self).spec_step_cap() == old(self).spec_step_cap(),
            final(self).spec_normalization_interval() == old(self).spec_normalization_interval(),
            final(self).spec_compositor().spec_accumulated().r
                == old(self).spec_compositor().spec_accumulated().r + spec_contribution(
                sample.r as int,
                sample.a as int,
                old(self).spec_compositor().spec_transmittance(),
            ),
            final(self).spec_compositor().spec_accumulated().g
                == old(self).spec_compositor().spec_accumulated().g + spec_contribution(
                sample.g as int,
                sample.a as int,
                old(self).spec_compositor().spec_transmittance(),
            ),
            final(self).spec_compositor().spec_accumulated().b
                == old(self).spec_compositor().spec_accumulated().b + spec_contribution(
                sample.b as int,
                sample.a as int,
                old(self).spec_compositor().spec_transmittance(),
            ),
            final(self).spec_compositor().spec_transmittance() == spec_new_transmittance(
                old(self).spec_compositor().spec_transmittance(),
                sample.a as int,
            ),
            final(self).spec_compositor().spec_transmittance()
                <= old(self).spec_compositor().spec_transmittance(),
            sample.a == FP_ONE ==> final(self).spec_compositor().spec_transmittance() == 0,
            final(self).spec_stopped_early()
                == (20 * final(self).spec_compositor().spec_transmittance() < FP_ONE),
    {
        self.compositor.add_sample(sample);
        self.stopped_early = self.compositor.should_stop();
    }

    /// Closes the trace: blends the ambient background under the
    /// remaining transmittance and yields the final linear colour, for
    /// the driver to gamma-correct.
    pub fn finish(self, background: Color) -> (c: Color)
        requires
            self.wf(),
            valid_color(background),
        ensures
            c.r == self.spec_compositor().spec_accumulated().r + spec_contribution(
                background.r as int,
                background.a as int,
                self.spec_compositor().spec_transmittance(),
            ),
            c.g == self.spec_compositor().spec_accumulated().g + spec_contribution(
                background.g as int,
                background.a as int,
                self.spec_compositor().spec_transmittance(),
            ),
            c.b == self.spec_compositor().spec_accumulated().b + spec_contribution(
                background.b as int,
                background.a as int,
                self.spec_compositor().spec_transmittance(),
            ),
            c.a == FP_ONE - spec_new_transmittance(
                self.spec_compositor().spec_transmittance(),
                background.a as int,
            ),
    {
        self.compositor.finish(background)
    }
}

/// A trace plans no step past its cap: once as many steps were taken as
/// the cap allows, the plan is `Done` — the hard bound that keeps a ray
/// near the photon sphere from stalling the frame.
pub proof fn lemma_step_cap_is_hard<S: Copy>(t: Trace<S>)
    requires
        t.wf(),
        t.spec_steps_taken() == t.spec_step_cap(),
    ensures
        t.spec_plan() == TracePlan::Done,
{
}

} // verus!
