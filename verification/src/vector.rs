//! Markers for the two flavours of a free vector.

use vstd::prelude::*;

verus! {

/// Flavour of a vector: whether its magnitude is constrained.
pub trait Kind {

}

/// A vector of arbitrary magnitude.
#[derive(Debug)]
pub struct General();

impl Kind for General {

}

/// A vector of magnitude one, obtained by normalisation only.
#[derive(Debug)]
pub struct Normal();

impl Kind for Normal {

}

} // verus!
