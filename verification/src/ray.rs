//! The per-ray termination state machine.
//!
//! A ray owns one photon's spacetime state and its current integration step.
//! Each rendering step either terminates the ray — capture by the event
//! horizon, a crossing of the accretion disk, or escape past the bounding
//! box — or advances the stored state by one accepted integration step.
//! The numeric driver evaluates the geometry (radii, the plane-crossing
//! interpolation, the outwardness dot product) and reports its findings;
//! this module owns the order and the effect of the checks.

use vstd::prelude::*;

use crate::tensors::SphericalState4D;

verus! {

/// Why a ray stopped.  `OutOfBoundingBox` carries the escape direction used
/// to sample the skybox; `CrossedAccretionDisk` carries the radius at which
/// the ray pierced the equatorial plane.
#[derive(Clone, Copy, Debug)]
pub enum StoppingCriterion<S, V> {
    EnteredEventHorizon,
    OutOfBoundingBox(V),
    CrossedAccretionDisk(S),
}

/// The driver's report on one integration attempt from the current state.
///
/// All flags and payloads are comparisons and conversions the driver made on
/// its own scalars: `near_horizon` compares the current radius against the
/// visual radius, `beyond_bounding_box` compares the new radius against the
/// bounding-box radius, and `moving_outward` is the sign of the dot product
/// of the new position with the current velocity.
#[derive(Clone, Copy, Debug)]
pub enum StepEvent<S, V> {
    /// The integrator gave up.  `last_position` is the current position in
    /// Cartesian form, kept as a fallback escape direction.
    Failed { near_horizon: bool, last_position: V },
    /// The integrator accepted a step to `state`, suggesting `next_step`.
    /// `disk_crossing` is the equatorial-crossing radius, if the segment
    /// from the current to the new position crosses the disk; `position` is
    /// the new position in Cartesian form.
    Advanced {
        state: SphericalState4D<S>,
        next_step: S,
        disk_crossing: Option<S>,
        beyond_bounding_box: bool,
        moving_outward: bool,
        position: V,
    },
}

/// One photon's integration state: its spacetime coordinates and the
/// adaptive step size to try next.
pub struct Ray<S> {
    state: SphericalState4D<S>,
    d_lambda: S,
}

impl<S: Copy> Ray<S> {
    /// The stored spacetime state.
    pub closed spec fn spec_state(self) -> SphericalState4D<S> {
        self.state
    }

    /// The step size the next integration attempt will start from.
    pub closed spec fn spec_d_lambda(self) -> S {
        self.d_lambda
    }

    /// Opens a ray at `state` with the initial step size `d_lambda_0`.
    pub fn new(state: SphericalState4D<S>, d_lambda_0: S) -> (ray: Self)
        ensures
            ray.spec_state() == state,
            ray.spec_d_lambda() == d_lambda_0,
    {
        Ray { state, d_lambda: d_lambda_0 }
    }

    /// Reads the stored state back, for the driver to integrate from.
    pub fn state(&self) -> (s: SphericalState4D<S>)
        ensures
            s == self.spec_state(),
    {
        self.state
    }

    /// Reads the current step size.
    pub fn d_lambda(&self) -> (s: S)
        ensures
            s == self.spec_d_lambda(),
    {
        self.d_lambda
    }

    /// The periodic renormalization against the null-geodesic constraint:
    /// the driver re-derives the time-velocity from the spatial velocity
    /// and the Schwarzschild radius, and only that component is replaced —
    /// position, spatial velocity and the elapsed coordinate time stay
    /// exactly as they were.
    pub fn renormalize_to(&mut self, dt: S)
        ensures
            final(self).spec_state() == (SphericalState4D { dt, ..old(self).spec_state() }),
            final(self).spec_d_lambda() == old(self).spec_d_lambda(),
    {
        self.state = SphericalState4D { dt, ..self.state };
    }

    /// One step of the termination state machine.
    ///
    /// `within_visual_radius` is the driver's comparison of the current
    /// radius against the black hole's visual radius; it is checked before
    /// anything else, so a ray already at the horizon is captured without
    /// integrating (`event` may then be `None`).  Otherwise the driver must
    /// have attempted an integration step and reports it in `event`:
    ///
    /// - a failed attempt is classified conservatively — capture if the ray
    ///   is near the horizon, otherwise an escape along the last position;
    /// - a disk crossing is reported before the escape check, and leaves the
    ///   stored state untouched: the disk is optically thin, and the ray
    ///   resumes from the state it had before the crossing was found;
    /// - an escape needs both flags: beyond the bounding box *and* moving
    ///   outward;
    /// - otherwise the ray stays active and carries the accepted state and
    ///   the suggested step forward.
    ///
    /// The stored state changes only in the last case.
    pub fn step<V>(
        &mut self,
        within_visual_radius: bool,
        event: Option<StepEvent<S, V>>,
    ) -> (res: Option<StoppingCriterion<S, V>>)
        requires
            !within_visual_radius ==> event is Some,
        ensures
            within_visual_radius ==> res == Some(
                StoppingCriterion::<S, V>::EnteredEventHorizon,
            ) && *final(self) == *old(self),
            !within_visual_radius ==> (match event.unwrap() {
                StepEvent::Failed { near_horizon, last_position } => {
                    &&& near_horizon ==> res == Some(
                        StoppingCriterion::<S, V>::EnteredEventHorizon,
                    )
                    &&& !near_horizon ==> res == Some(
                        StoppingCriterion::<S, V>::OutOfBoundingBox(last_position),
                    )
                    &&& *final(self) == *old(self)
                },
                StepEvent::Advanced {
                    state,
                    next_step,
                    disk_crossing,
                    beyond_bounding_box,
                    moving_outward,
                    position,
                } => {
                    &&& disk_crossing matches Some(radius) ==> res == Some(
                        StoppingCriterion::<S, V>::CrossedAccretionDisk(radius),
                    ) && *final(self) == *old(self)
                    &&& disk_crossing is None && beyond_bounding_box && moving_outward ==> res
                        == Some(StoppingCriterion::<S, V>::OutOfBoundingBox(position)) && *final(self)
                        == *old(self)
                    &&& disk_crossing is None && !(beyond_bounding_box && moving_outward) ==> res
                        is None && final(self).spec_state() == state
                        && final(self).spec_d_lambda() == next_step
                },
            }),
    {
        if within_visual_radius {
            return Some(StoppingCriterion::EnteredEventHorizon);
        }
        match event.unwrap() {
            StepEvent::Failed { near_horizon, last_position } => {
                if near_horizon {
                    // The integrator is numerically stuck at the edge of the
                    // horizon: treat the ray as captured.
                    Some(StoppingCriterion::EnteredEventHorizon)
                } else {
                    // A rare fallback: classify as an escape along the last
                    // valid position.
                    Some(StoppingCriterion::OutOfBoundingBox(last_position))
                }
            },
            StepEvent::Advanced {
                state,
                next_step,
                disk_crossing,
                beyond_bounding_box,
                moving_outward,
                position,
            } => {
                if let Some(radius) = disk_crossing {
                    Some(StoppingCriterion::CrossedAccretionDisk(radius))
                } else if beyond_bounding_box && moving_outward {
                    Some(StoppingCriterion::OutOfBoundingBox(position))
                } else {
                    self.state = state;
                    self.d_lambda = next_step;
                    None
                }
            },
        }
    }
}

/// The renormalization schedule: the state is renormalized against the
/// null-geodesic constraint every `interval` accepted steps, but never
/// before the first step.
pub fn needs_renormalization(step_index: usize, interval: usize) -> (b: bool)
    requires
        interval > 0,
    ensures
        b == (step_index > 0 && step_index % interval == 0),
{
    step_index > 0 && step_index % interval == 0
}

} // verus!
