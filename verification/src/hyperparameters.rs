//! The configuration bundle of the integration loop.
//!
//! Every tunable of the engine sits here and is passed explicitly: the
//! initial step, the bounding-box radius, the integration step cap, the
//! renormalization interval, the error tolerance, the step bounds and
//! growth ratio, and the retry budget.  The scalar fields are scaled
//! relative to the Schwarzschild radius by the driver, so one bundle works
//! across black-hole masses; the discrete fields drive the loops verified
//! in this crate.

use vstd::prelude::*;

verus! {

/// The immutable configuration of one render.
#[derive(Clone, Copy, Debug)]
pub struct Hyperparameters<S> {
    /// The step size every ray starts from.
    pub d_lambda_0: S,
    /// The radius beyond which an outward-moving ray has escaped.
    pub bounding_box_radius: S,
    /// The hard cap on integration steps per ray: the primary defense
    /// against a ray stalling near the photon sphere.
    pub num_integration_steps: usize,
    /// Accepted steps between renormalizations of the state against the
    /// null-geodesic constraint.
    pub normalization_interval: usize,
    /// The error tolerance one trial must meet to be accepted.
    pub integration_error_tolerance: S,
    /// The floor below which the controller's shrunken step fails the
    /// attempt.
    pub min_d_lambda: S,
    /// The ceiling on the step size.
    pub max_d_lambda: S,
    /// The cap on step growth across one accepted step.
    pub max_d_lambda_ratio: S,
    /// The retry budget of one integration attempt.
    pub max_retries: usize,
}

impl<S: Copy> Hyperparameters<S> {
    /// Packs a configuration bundle.
    pub fn new(
        d_lambda_0: S,
        bounding_box_radius: S,
        num_integration_steps: usize,
        normalization_interval: usize,
        integration_error_tolerance: S,
        min_d_lambda: S,
        max_d_lambda: S,
        max_d_lambda_ratio: S,
        max_retries: usize,
    ) -> (h: Self)
        ensures
            h == (Hyperparameters {
                d_lambda_0,
                bounding_box_radius,
                num_integration_steps,
                normalization_interval,
                integration_error_tolerance,
                min_d_lambda,
                max_d_lambda,
                max_d_lambda_ratio,
                max_retries,
            }),
    {
        Hyperparameters {
            d_lambda_0,
            bounding_box_radius,
            num_integration_steps,
            normalization_interval,
            integration_error_tolerance,
            min_d_lambda,
            max_d_lambda,
            max_d_lambda_ratio,
            max_retries,
        }
    }
}

} // verus!
