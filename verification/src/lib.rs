//! Control core of a Schwarzschild black-hole renderer.
//!
//! A photon's path is integrated through curved spacetime by an adaptive
//! Runge-Kutta-Fehlberg 4(5) stepper; a per-ray state machine decides when the
//! ray is captured by the horizon, crosses the accretion disk, or escapes the
//! bounding box; a volumetric compositor accumulates the resulting colour
//! samples front to back.  This crate holds the decision layer of that
//! pipeline: every termination, retry, scheduling and blending rule is stated
//! in a contract and proved.  The scalar arithmetic that feeds those decisions
//! (the geodesic right-hand side, the embedded error estimate, the coordinate
//! conversions) is carried as opaque payloads of generic type, supplied by the
//! numeric driver that embeds this crate.

pub mod black_hole;
pub mod compositor;
pub mod dispatch;
pub mod hyperparameters;
pub mod integration;
pub mod ray;
pub mod tensors;
pub mod trace;
