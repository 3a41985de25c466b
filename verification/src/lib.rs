//! Type-level vocabulary and decisions of a small ray caster.
//!
//! The geometry of the ray caster is single-precision floating point and is
//! kept by the program that renders.  What it rests on and what can be stated
//! exactly lives here: the markers that keep unit vectors apart from general
//! ones and screen positions apart from world positions, the rule that says
//! which roots of the ray-sphere quadratic are reported and in what order,
//! and the rule that places a row of the scene in an image buffer.

pub mod coordinate;
pub mod sphere;
pub mod vector;
