//! Markers for the spaces a planar position can live in, and the row
//! convention that links screen space to an image buffer.

use vstd::prelude::*;

verus! {

/// Space of a two-dimensional position.
pub trait Coordinate {

}

/// Discrete pixels, sampled at their centres, rows counted upward.
#[derive(Debug)]
pub struct Screen();

impl Coordinate for Screen {

}

/// Positions on the projection surface, relative to its own origin.
#[derive(Debug)]
pub struct Canvas();

impl Coordinate for Canvas {

}

/// Positions in the single global frame of the scene.
#[derive(Debug)]
pub struct World();

impl Coordinate for World {

}

/// Row of an image buffer of `height` rows, counted downward from the top
/// edge, that shows screen row `y`, counted upward from the bottom edge.
pub open spec fn image_row_of(height: int, y: int) -> int {
    height - 1 - y
}

/// Turns a screen row into the row of a top-left-origin image buffer.
pub fn image_row(height: u32, y: u32) -> (row: u32)
    requires
        y < height,
    ensures
        row == image_row_of(height as int, y as int),
        row < height,
{
    height - 1 - y
}

/// Flipping a row twice gives the row back.
pub proof fn image_row_involution(height: int, y: int)
    ensures
        image_row_of(height, image_row_of(height, y)) == y,
{
}

/// Rows inside the buffer stay inside it, and two screen rows never share
/// a buffer row.
pub proof fn image_row_disjoint(height: int, y1: int, y2: int)
    requires
        0 <= y1 < height,
        0 <= y2 < height,
    ensures
        0 <= image_row_of(height, y1) < height,
        image_row_of(height, y1) == image_row_of(height, y2) <==> y1 == y2,
{
}

} // verus!
