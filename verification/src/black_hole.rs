//! The black hole and its accretion disk.
//!
//! Both are immutable value types built once per scene from the
//! Schwarzschild radius; their scalar fields are the numeric driver's and
//! stay generic here.  The disk owns the rule that decides whether a step
//! segment crossed it: the segment must pierce the equatorial plane within
//! the step (interpolation parameter in `[0, 1]`) and the piercing radius
//! must lie within the disk's radial range.

use vstd::prelude::*;

use crate::compositor::Color;
use crate::tensors::CartesianCoords4D;

verus! {

/// The accretion disk: radial range, geometry of the emission fade, and the
/// precomputed Shakura-Sunyaev radiance parameters the driver's emission
/// model reads.
#[derive(Clone, Copy, Debug)]
pub struct AccretionDisk<S> {
    pub r_isco: S,
    pub accretion_r_max: S,
    pub width: S,
    pub max_temperature: S,
    pub step_opacity: S,
    pub doppler_factor: S,
    pub fade_start_ratio: S,
    pub peak_brightness: S,
}

/// Whether a disk crossing is reported, given the driver's four boundary
/// comparisons: the crossing exists exactly when the interpolation
/// parameter lies inside `[0, 1]` and the radius inside the disk's range.
pub open spec fn spec_disk_crossing<S>(
    crossing_radius: S,
    t_below_zero: bool,
    t_above_one: bool,
    radius_below_isco: bool,
    radius_above_max: bool,
) -> Option<S> {
    if !t_below_zero && !t_above_one && !radius_below_isco && !radius_above_max {
        Some(crossing_radius)
    } else {
        None
    }
}

impl<S: Copy> AccretionDisk<S> {
    /// Packs the precomputed disk parameters.
    pub fn new(
        r_isco: S,
        accretion_r_max: S,
        width: S,
        max_temperature: S,
        step_opacity: S,
        doppler_factor: S,
        fade_start_ratio: S,
        peak_brightness: S,
    ) -> (d: Self)
        ensures
            d == (AccretionDisk {
                r_isco,
                accretion_r_max,
                width,
                max_temperature,
                step_opacity,
                doppler_factor,
                fade_start_ratio,
                peak_brightness,
            }),
    {
        AccretionDisk {
            r_isco,
            accretion_r_max,
            width,
            max_temperature,
            step_opacity,
            doppler_factor,
            fade_start_ratio,
            peak_brightness,
        }
    }

    /// Decides a disk crossing for one step segment.
    ///
    /// The driver interpolates the segment to the equatorial plane, getting
    /// the parameter `t` and the radius there; it hands in that radius and
    /// its four boundary comparisons: `t < 0`, `t > 1`, `radius < r_isco`,
    /// `radius > accretion_r_max`.  A crossing is reported exactly when all
    /// four fail, so `t = 0` and `t = 1` count as crossings and a parameter
    /// outside `[0, 1]` never does.
    pub fn check_intersection(
        &self,
        crossing_radius: S,
        t_below_zero: bool,
        t_above_one: bool,
        radius_below_isco: bool,
        radius_above_max: bool,
    ) -> (res: Option<S>)
        ensures
            res == spec_disk_crossing(
                crossing_radius,
                t_below_zero,
                t_above_one,
                radius_below_isco,
                radius_above_max,
            ),
    {
        if !t_below_zero && !t_above_one && !radius_below_isco && !radius_above_max {
            Some(crossing_radius)
        } else {
            None
        }
    }
}

/// A segment whose plane-crossing interpolation parameter falls outside
/// `[0, 1]` is never a disk crossing, whatever the radius comparisons say.
pub proof fn lemma_no_crossing_outside_step<S>(
    crossing_radius: S,
    t_below_zero: bool,
    t_above_one: bool,
    radius_below_isco: bool,
    radius_above_max: bool,
)
    requires
        t_below_zero || t_above_one,
    ensures
        spec_disk_crossing(
            crossing_radius,
            t_below_zero,
            t_above_one,
            radius_below_isco,
            radius_above_max,
        ) is None,
{
}

/// A crossing radius outside the disk's radial range is never a disk
/// crossing either.
pub proof fn lemma_no_crossing_outside_disk<S>(
    crossing_radius: S,
    t_below_zero: bool,
    t_above_one: bool,
    radius_below_isco: bool,
    radius_above_max: bool,
)
    requires
        radius_below_isco || radius_above_max,
    ensures
        spec_disk_crossing(
            crossing_radius,
            t_below_zero,
            t_above_one,
            radius_below_isco,
            radius_above_max,
        ) is None,
{
}

/// A black hole: its position, mass, Schwarzschild radius, the slightly
/// inflated visual radius used as the capture threshold, its accretion
/// disk, and the colour a captured ray resolves to.
#[derive(Clone, Copy, Debug)]
pub struct BlackHole<S> {
    pub coords: CartesianCoords4D<S>,
    pub radius: S,
    pub visual_radius: S,
    pub accretion_disk: AccretionDisk<S>,
    pub mass: S,
    pub color: Color,
}

impl<S: Copy> BlackHole<S> {
    /// Builds a black hole from its precomputed geometry.  The driver
    /// derives `radius` from the mass and `visual_radius` as the radius
    /// inflated by a factor above one, so the capture check never touches
    /// the coordinate singularity at the horizon itself.
    pub fn new(
        coords: CartesianCoords4D<S>,
        radius: S,
        visual_radius: S,
        accretion_disk: AccretionDisk<S>,
        mass: S,
        color: Color,
    ) -> (b: Self)
        ensures
            b == (BlackHole { coords, radius, visual_radius, accretion_disk, mass, color }),
    {
        BlackHole { coords, radius, visual_radius, accretion_disk, mass, color }
    }

    /// The spacetime position of the black hole.
    pub fn coords(&self) -> (c: CartesianCoords4D<S>)
        ensures
            c == self.coords,
    {
        self.coords
    }

    /// The Schwarzschild radius.
    pub fn radius(&self) -> (r: S)
        ensures
            r == self.radius,
    {
        self.radius
    }

    /// The capture threshold: the Schwarzschild radius slightly inflated.
    pub fn visual_radius(&self) -> (r: S)
        ensures
            r == self.visual_radius,
    {
        self.visual_radius
    }

    /// The accretion disk.
    pub fn accretion_disk(&self) -> (d: AccretionDisk<S>)
        ensures
            d == self.accretion_disk,
    {
        self.accretion_disk
    }

    /// The mass.
    pub fn mass(&self) -> (m: S)
        ensures
            m == self.mass,
    {
        self.mass
    }

    /// The colour a captured ray resolves to.
    pub fn color(&self) -> (c: Color)
        ensures
            c == self.color,
    {
        self.color
    }
}

} // verus!
