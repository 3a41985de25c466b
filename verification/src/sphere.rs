//! How many points a ray and a sphere share, and in what order they are
//! reported.
//!
//! The distance `t` along a ray at which it meets a sphere solves a quadratic
//! `a t^2 + b t + c = 0`.  The sign of its discriminant `b^2 - 4ac` alone
//! decides which roots stand for points of the sphere; the roots' values are
//! floating-point arithmetic and are computed by the caller.

use vstd::prelude::*;

verus! {

/// Sign of the discriminant of the quadratic.
#[derive(Clone, Copy, Debug, PartialEq, Eq)]
pub enum Discriminant {
    /// Below zero: the ray passes the sphere by.
    Negative,
    /// Exactly zero: the ray touches the sphere.
    Zero,
    /// Above zero: the ray goes through the sphere.
    Positive,
}

/// A root of the quadratic.
#[derive(Clone, Copy, Debug, PartialEq, Eq)]
pub enum Root {
    /// The one root of a zero discriminant, `-b / 2a`.
    Double,
    /// The larger root, `(-b + sqrt(discriminant)) / 2a`.
    Plus,
    /// The smaller root, `(-b - sqrt(discriminant)) / 2a`.
    Minus,
}

/// The roots that stand for points of the sphere, in the order in which the
/// points are reported: none for a miss, the double root for a tangent ray,
/// and otherwise the larger root before the smaller.  The order is not one
/// of distance from the origin of the ray.
pub open spec fn roots_of(d: Discriminant) -> Seq<Root> {
    match d {
        Discriminant::Negative => Seq::<Root>::empty(),
        Discriminant::Zero => seq![Root::Double],
        Discriminant::Positive => seq![Root::Plus, Root::Minus],
    }
}

/// Lists the roots at which the ray meets the sphere, given the sign of the
/// discriminant.  Every sign is answered; none is refused.
pub fn hit_roots(d: Discriminant) -> (roots: Vec<Root>)
    ensures
        roots@ == roots_of(d),
{
    let mut roots: Vec<Root> = Vec::new();
    match d {
        Discriminant::Negative => {},
        Discriminant::Zero => {
            roots.push(Root::Double);
        },
        Discriminant::Positive => {
            roots.push(Root::Plus);
            roots.push(Root::Minus);
        },
    }
    assert(roots@ =~= roots_of(d));
    roots
}

/// The number of points is fixed by the sign, and fixes it: a miss gives
/// none, a tangent ray exactly one, any other ray exactly two.
pub proof fn hit_count_by_sign(d: Discriminant)
    ensures
        roots_of(d).len() == 0 <==> d == Discriminant::Negative,
        roots_of(d).len() == 1 <==> d == Discriminant::Zero,
        roots_of(d).len() == 2 <==> d == Discriminant::Positive,
{
}

/// A ray that goes through the sphere reports the point of the larger root
/// first and that of the smaller root second; a tangent ray reports the
/// double root and no other.
pub proof fn hit_order(d: Discriminant)
    ensures
        d == Discriminant::Positive ==> roots_of(d)[0] == Root::Plus && roots_of(d)[1]
            == Root::Minus,
        d == Discriminant::Zero ==> roots_of(d)[0] == Root::Double,
{
}

} // verus!
