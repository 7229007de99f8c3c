//! A verified model of an N×N×N twisty cube as a group of permutations
//! acting on tile positions.
//!
//! The crate is organised leaf to root:
//! - [`geometry`]: faces, corners, diagonals and the face-adjacency tables;
//! - [`rotations`]: the 24 whole-cube rotations as permutations of the four
//!   main diagonals, and the derivation of face permutations from them;
//! - [`schemes`]: colour schemes assigning a colour to each face;
//! - [`tiles`]: the full permutation of all 6·n² tile positions;
//! - [`partial`]: sparse permutations and the two geometric primitives that
//!   moves are compiled from;
//! - [`restrictions`]: lazy enumeration of geometric tile subsets (slices);
//! - [`moves`]: the move notations and their compilation to tile permutations;
//! - [`state`]: the coloured cube state and solved-state checks.

use vstd::prelude::*;

pub mod geometry;
pub mod rotations;
pub mod schemes;
pub mod tiles;
pub mod state;
pub mod restrictions;
pub mod partial;
pub mod moves;

verus! {

/// Standard colours used on the cube's faces.
#[derive(Clone, Copy, Debug, PartialEq, Eq, Structural)]
pub enum Colour {
    White,
    Yellow,
    Red,
    Orange,
    Blue,
    Green,
}

/// Rotation angles for face and layer turns: the cyclic group of order 4.
#[derive(Clone, Copy, Debug, PartialEq, Eq, Structural)]
pub enum Angle {
    /// No rotation.
    Zero,
    /// Quarter turn clockwise.
    CWQuarter,
    /// Half turn.
    Half,
    /// Quarter turn anti-clockwise.
    ACWQuarter,
}

/// Composition of two angles: rotating by `a` and then by `b` rotates by
/// `spec_angle_plus(a, b)`.
pub open spec fn spec_angle_plus(a: Angle, b: Angle) -> Angle {
    match (a, b) {
        (Angle::Zero, x) => x,
        (x, Angle::Zero) => x,
        (Angle::CWQuarter, Angle::CWQuarter) => Angle::Half,
        (Angle::CWQuarter, Angle::Half) => Angle::ACWQuarter,
        (Angle::CWQuarter, Angle::ACWQuarter) => Angle::Zero,
        (Angle::Half, Angle::CWQuarter) => Angle::ACWQuarter,
        (Angle::Half, Angle::Half) => Angle::Zero,
        (Angle::Half, Angle::ACWQuarter) => Angle::CWQuarter,
        (Angle::ACWQuarter, Angle::CWQuarter) => Angle::Zero,
        (Angle::ACWQuarter, Angle::Half) => Angle::CWQuarter,
        (Angle::ACWQuarter, Angle::ACWQuarter) => Angle::Half,
    }
}

/// The angular difference: `spec_angle_minus(a, b)` is the angle `d` with
/// `spec_angle_plus(b, d) == a`.
pub open spec fn spec_angle_minus(a: Angle, b: Angle) -> Angle {
    match (a, b) {
        (x, Angle::Zero) => x,
        (Angle::CWQuarter, Angle::ACWQuarter) => Angle::Half,
        (Angle::CWQuarter, Angle::Half) => Angle::ACWQuarter,
        (Angle::CWQuarter, Angle::CWQuarter) => Angle::Zero,
        (Angle::Half, Angle::ACWQuarter) => Angle::ACWQuarter,
        (Angle::Half, Angle::Half) => Angle::Zero,
        (Angle::Half, Angle::CWQuarter) => Angle::CWQuarter,
        (Angle::ACWQuarter, Angle::ACWQuarter) => Angle::Zero,
        (Angle::ACWQuarter, Angle::Half) => Angle::CWQuarter,
        (Angle::ACWQuarter, Angle::CWQuarter) => Angle::Half,
        (Angle::Zero, Angle::CWQuarter) => Angle::ACWQuarter,
        (Angle::Zero, Angle::Half) => Angle::Half,
        (Angle::Zero, Angle::ACWQuarter) => Angle::CWQuarter,
    }
}

/// The inverse angle: `spec_angle_neg(a) == spec_angle_minus(Zero, a)`.
pub open spec fn spec_angle_neg(a: Angle) -> Angle {
    spec_angle_minus(Angle::Zero, a)
}

/// Where the tile at `(row, col)` of an n×n grid lands when the grid is
/// rotated by `a` around its centre.
pub open spec fn spec_rotate_indices(a: Angle, n: int, row: int, col: int) -> (int, int) {
    match a {
        Angle::Zero => (row, col),
        Angle::CWQuarter => (col, n - 1 - row),
        Angle::Half => (n - 1 - row, n - 1 - col),
        Angle::ACWQuarter => (n - 1 - col, row),
    }
}

impl Angle {
    /// Composes two rotation angles.
    pub fn plus(self, rhs: Angle) -> (r: Angle)
        ensures
            r == spec_angle_plus(self, rhs),
    {
        match (self, rhs) {
            (Angle::Zero, x) => x,
            (x, Angle::Zero) => x,
            (Angle::CWQuarter, Angle::CWQuarter) => Angle::Half,
            (Angle::CWQuarter, Angle::Half) => Angle::ACWQuarter,
            (Angle::CWQuarter, Angle::ACWQuarter) => Angle::Zero,
            (Angle::Half, Angle::CWQuarter) => Angle::ACWQuarter,
            (Angle::Half, Angle::Half) => Angle::Zero,
            (Angle::Half, Angle::ACWQuarter) => Angle::CWQuarter,
            (Angle::ACWQuarter, Angle::CWQuarter) => Angle::Zero,
            (Angle::ACWQuarter, Angle::Half) => Angle::CWQuarter,
            (Angle::ACWQuarter, Angle::ACWQuarter) => Angle::Half,
        }
    }

    /// The angular difference between two angles.
    pub fn minus(self, rhs: Angle) -> (r: Angle)
        ensures
            r == spec_angle_minus(self, rhs),
    {
        match (self, rhs) {
            (x, Angle::Zero) => x,
            (Angle::CWQuarter, Angle::ACWQuarter) => Angle::Half,
            (Angle::CWQuarter, Angle::Half) => Angle::ACWQuarter,
            (Angle::CWQuarter, Angle::CWQuarter) => Angle::Zero,
            (Angle::Half, Angle::ACWQuarter) => Angle::ACWQuarter,
            (Angle::Half, Angle::Half) => Angle::Zero,
            (Angle::Half, Angle::CWQuarter) => Angle::CWQuarter,
            (Angle::ACWQuarter, Angle::ACWQuarter) => Angle::Zero,
            (Angle::ACWQuarter, Angle::Half) => Angle::CWQuarter,
            (Angle::ACWQuarter, Angle::CWQuarter) => Angle::Half,
            (Angle::Zero, Angle::CWQuarter) => Angle::ACWQuarter,
            (Angle::Zero, Angle::Half) => Angle::Half,
            (Angle::Zero, Angle::ACWQuarter) => Angle::CWQuarter,
        }
    }

    /// The inverse angle.
    pub fn negate(self) -> (r: Angle)
        ensures
            r == spec_angle_neg(self),
    {
        Angle::Zero.minus(self)
    }

    /// Applies this rotation angle to the indices of an n×n grid, rotating
    /// around the grid's centre.
    pub fn rotate_indices(self, n: usize, row: usize, col: usize) -> (r: (usize, usize))
        requires
            row < n,
            col < n,
        ensures
            (r.0 as int, r.1 as int) == spec_rotate_indices(self, n as int, row as int, col as int),
            r.0 < n,
            r.1 < n,
    {
        match self {
            Angle::Zero => (row, col),
            Angle::CWQuarter => (col, (n - 1) - row),
            Angle::Half => (n - 1 - row, n - 1 - col),
            Angle::ACWQuarter => (n - 1 - col, row),
        }
    }
}

/// Rotating by `a` and then by `b` is rotating by `a + b`.
pub proof fn lemma_rotate_indices_compose(a: Angle, b: Angle, n: int, row: int, col: int)
    requires
        0 <= row < n,
        0 <= col < n,
    ensures
        spec_rotate_indices(b, n, spec_rotate_indices(a, n, row, col).0, spec_rotate_indices(a, n, row, col).1)
            == spec_rotate_indices(spec_angle_plus(a, b), n, row, col),
{
}

/// Index rotation keeps the indices inside the grid.
pub proof fn lemma_rotate_indices_bounds(a: Angle, n: int, row: int, col: int)
    requires
        0 <= row < n,
        0 <= col < n,
    ensures
        0 <= spec_rotate_indices(a, n, row, col).0 < n,
        0 <= spec_rotate_indices(a, n, row, col).1 < n,
{
}

/// Index rotation is injective: distinct grid cells land on distinct cells.
pub proof fn lemma_rotate_indices_injective(a: Angle, n: int, r1: int, c1: int, r2: int, c2: int)
    requires
        0 <= r1 < n,
        0 <= c1 < n,
        0 <= r2 < n,
        0 <= c2 < n,
        spec_rotate_indices(a, n, r1, c1) == spec_rotate_indices(a, n, r2, c2),
    ensures
        r1 == r2 && c1 == c2,
{
}

} // verus!
