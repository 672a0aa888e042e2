//! Coordinate-tagged state tuples.
//!
//! Positions and photon states exist in two coordinate systems, and mixing
//! them up is the classic bug of a ray tracer.  Each tuple is therefore a
//! distinct nominal struct, named after its system; conversion between the
//! systems is the numeric driver's job, so the component type stays generic
//! here.  The unit structs `Spherical` and `Cartesian` name the two systems.

use vstd::prelude::*;

verus! {

/// Tag for the spherical (Schwarzschild) coordinate system.
#[derive(Clone, Copy, Debug)]
pub struct Spherical;

/// Tag for the flat Cartesian coordinate system.
#[derive(Clone, Copy, Debug)]
pub struct Cartesian;

/// A static position in Cartesian coordinates.
#[derive(Clone, Copy, Debug)]
pub struct CartesianCoords3D<S> {
    pub x: S,
    pub y: S,
    pub z: S,
}

/// A static spacetime position in Cartesian coordinates.
#[derive(Clone, Copy, Debug)]
pub struct CartesianCoords4D<S> {
    pub t: S,
    pub x: S,
    pub y: S,
    pub z: S,
}

/// A position together with a velocity, both in Cartesian coordinates.
#[derive(Clone, Copy, Debug)]
pub struct CartesianState3D<S> {
    pub x: S,
    pub y: S,
    pub z: S,
    pub dx: S,
    pub dy: S,
    pub dz: S,
}

/// A photon's full spacetime state in Schwarzschild spherical form:
/// the four coordinates and their rates of change along the path.
#[derive(Clone, Copy, Debug)]
pub struct SphericalState4D<S> {
    pub t: S,
    pub r: S,
    pub theta: S,
    pub phi: S,
    pub dt: S,
    pub dr: S,
    pub dtheta: S,
    pub dphi: S,
}

impl<S> CartesianCoords3D<S> {
    /// Packs three components into a tagged Cartesian position.
    pub fn cartesian(x: S, y: S, z: S) -> (c: Self)
        ensures
            c == (CartesianCoords3D { x, y, z }),
    {
        CartesianCoords3D { x, y, z }
    }
}

impl<S> CartesianCoords4D<S> {
    /// Packs four components into a tagged Cartesian spacetime position.
    pub fn cartesian(t: S, x: S, y: S, z: S) -> (c: Self)
        ensures
            c == (CartesianCoords4D { t, x, y, z }),
    {
        CartesianCoords4D { t, x, y, z }
    }
}

impl<S> CartesianState3D<S> {
    /// Packs a position and a velocity into a tagged Cartesian state.
    pub fn cartesian(x: S, y: S, z: S, dx: S, dy: S, dz: S) -> (c: Self)
        ensures
            c == (CartesianState3D { x, y, z, dx, dy, dz }),
    {
        CartesianState3D { x, y, z, dx, dy, dz }
    }
}

impl<S> SphericalState4D<S> {
    /// Packs the eight components of a spacetime state.
    pub fn spherical(t: S, r: S, theta: S, phi: S, dt: S, dr: S, dtheta: S, dphi: S) -> (s: Self)
        ensures
            s == (SphericalState4D { t, r, theta, phi, dt, dr, dtheta, dphi }),
    {
        SphericalState4D { t, r, theta, phi, dt, dr, dtheta, dphi }
    }
}

} // verus!
