//! A small 3D math library built on exact scalar arithmetic: vectors,
//! points, quaternions and matrices for geometric transformations, with the
//! quaternion rotation and composition engine as its core.
//!
//! Scalars are exact fractions of 128-bit integers, so every algebraic
//! operation is exact and its result is pinned down by a contract.
//! Operations that are inherently transcendental (square roots, sines,
//! cosines, logarithms) take their transcendental inputs as precomputed
//! scalars; hosts that work in floating point compute those inputs
//! themselves and convert at the boundary.

pub mod arith;
pub mod camera;
pub mod matrices;
pub mod points;
pub mod quaternion;
pub mod rational;
pub mod vectors;

use vstd::prelude::*;

verus! {

} // verus!
