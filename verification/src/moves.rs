//! Move notations and their compilation to tile permutations.
//!
//! Every move variant — basic single-layer turns, wide turns, single-slice
//! turns, layer-range turns and classic middle-layer turns — compiles by the
//! same algorithm, parametrised over the set of slice indices it touches.
//! Each touched slice contributes a ring rotation, slice 0 additionally the
//! face's own rotation, and slice n−1 the opposite face's rotation the other
//! way. The contributions compose into one sparse permutation, which is then
//! extended to a full [`TilePerm`] by fixing every untouched tile.

use vstd::prelude::*;
use crate::Angle;
use crate::{spec_angle_neg};
use crate::geometry::{Face, FaceSide, spec_opposite, spec_side_rotated};
use crate::tiles::{TilePos, TilePerm, spec_pos_valid};
use crate::rotations::{CubeRotation, spec_rot_id, spec_rot_compose, spec_rot_wf, spec_dest, spec_x, spec_x3, spec_y, spec_y3, spec_z, spec_z3};
use crate::restrictions::{Slice, spec_ring_pos};
use crate::partial::{
    PartialTilePerm, rotate_face_only, rotate_outside_of_slice, spec_rotate_face_entry,
    spec_ring_entry, spec_compose_entry, spec_side_of, lemma_compose_preserves, lemma_entry_valid,
};

verus! {

/// Basic single-layer face turns, in standard notation: the face letter
/// turns a quarter clockwise, `2` a half, `3` a quarter anti-clockwise.
#[derive(Clone, Copy, Debug, PartialEq, Eq, Structural)]
#[allow(missing_docs)]
pub enum BasicMove {
    U,
    U2,
    U3,
    D,
    D2,
    D3,
    L,
    L2,
    L3,
    R,
    R2,
    R3,
    F,
    F2,
    F3,
    B,
    B2,
    B3,
}

/// A basic move reduced to its geometric content: a face and an angle.
#[derive(Clone, Copy, Debug, PartialEq, Eq, Structural)]
pub struct BasicMoveInternal {
    /// The face being turned.
    pub face: Face,
    /// The amount of the turn.
    pub amount: Angle,
}

/// The face and angle of a basic move.
pub open spec fn spec_basic_internal(m: BasicMove) -> BasicMoveInternal {
    match m {
        BasicMove::U => BasicMoveInternal { face: Face::Up, amount: Angle::CWQuarter },
        BasicMove::U2 => BasicMoveInternal { face: Face::Up, amount: Angle::Half },
        BasicMove::U3 => BasicMoveInternal { face: Face::Up, amount: Angle::ACWQuarter },
        BasicMove::D => BasicMoveInternal { face: Face::Down, amount: Angle::CWQuarter },
        BasicMove::D2 => BasicMoveInternal { face: Face::Down, amount: Angle::Half },
        BasicMove::D3 => BasicMoveInternal { face: Face::Down, amount: Angle::ACWQuarter },
        BasicMove::L => BasicMoveInternal { face: Face::Left, amount: Angle::CWQuarter },
        BasicMove::L2 => BasicMoveInternal { face: Face::Left, amount: Angle::Half },
        BasicMove::L3 => BasicMoveInternal { face: Face::Left, amount: Angle::ACWQuarter },
        BasicMove::R => BasicMoveInternal { face: Face::Right, amount: Angle::CWQuarter },
        BasicMove::R2 => BasicMoveInternal { face: Face::Right, amount: Angle::Half },
        BasicMove::R3 => BasicMoveInternal { face: Face::Right, amount: Angle::ACWQuarter },
        BasicMove::F => BasicMoveInternal { face: Face::Front, amount: Angle::CWQuarter },
        BasicMove::F2 => BasicMoveInternal { face: Face::Front, amount: Angle::Half },
        BasicMove::F3 => BasicMoveInternal { face: Face::Front, amount: Angle::ACWQuarter },
        BasicMove::B => BasicMoveInternal { face: Face::Back, amount: Angle::CWQuarter },
        BasicMove::B2 => BasicMoveInternal { face: Face::Back, amount: Angle::Half },
        BasicMove::B3 => BasicMoveInternal { face: Face::Back, amount: Angle::ACWQuarter },
    }
}

impl BasicMoveInternal {
    /// Pairs a face with a turn amount.
    pub fn new(face: Face, amount: Angle) -> (r: BasicMoveInternal)
        ensures
            r == (BasicMoveInternal { face, amount }),
    {
        BasicMoveInternal { face, amount }
    }
}

impl BasicMove {
    /// The face and angle of this move.
    pub fn internal(self) -> (r: BasicMoveInternal)
        ensures
            r == spec_basic_internal(self),
    {
        match self {
            BasicMove::U => BasicMoveInternal::new(Face::Up, Angle::CWQuarter),
            BasicMove::U2 => BasicMoveInternal::new(Face::Up, Angle::Half),
            BasicMove::U3 => BasicMoveInternal::new(Face::Up, Angle::ACWQuarter),
            BasicMove::D => BasicMoveInternal::new(Face::Down, Angle::CWQuarter),
            BasicMove::D2 => BasicMoveInternal::new(Face::Down, Angle::Half),
            BasicMove::D3 => BasicMoveInternal::new(Face::Down, Angle::ACWQuarter),
            BasicMove::L => BasicMoveInternal::new(Face::Left, Angle::CWQuarter),
            BasicMove::L2 => BasicMoveInternal::new(Face::Left, Angle::Half),
            BasicMove::L3 => BasicMoveInternal::new(Face::Left, Angle::ACWQuarter),
            BasicMove::R => BasicMoveInternal::new(Face::Right, Angle::CWQuarter),
            BasicMove::R2 => BasicMoveInternal::new(Face::Right, Angle::Half),
            BasicMove::R3 => BasicMoveInternal::new(Face::Right, Angle::ACWQuarter),
            BasicMove::F => BasicMoveInternal::new(Face::Front, Angle::CWQuarter),
            BasicMove::F2 => BasicMoveInternal::new(Face::Front, Angle::Half),
            BasicMove::F3 => BasicMoveInternal::new(Face::Front, Angle::ACWQuarter),
            BasicMove::B => BasicMoveInternal::new(Face::Back, Angle::CWQuarter),
            BasicMove::B2 => BasicMoveInternal::new(Face::Back, Angle::Half),
            BasicMove::B3 => BasicMoveInternal::new(Face::Back, Angle::ACWQuarter),
        }
    }
}

/// Wide turns: the face letter with `w`, turning all layers from the face
/// down to the given depth.
#[derive(Clone, Copy, Debug, PartialEq, Eq, Structural)]
#[allow(missing_docs)]
pub enum WideMove {
    Uw(usize),
    Uw2(usize),
    Uw3(usize),
    Dw(usize),
    Dw2(usize),
    Dw3(usize),
    Lw(usize),
    Lw2(usize),
    Lw3(usize),
    Rw(usize),
    Rw2(usize),
    Rw3(usize),
    Fw(usize),
    Fw2(usize),
    Fw3(usize),
    Bw(usize),
    Bw2(usize),
    Bw3(usize),
}

/// A wide move reduced to its geometric content: face, angle and depth.
#[derive(Clone, Copy, Debug, PartialEq, Eq, Structural)]
pub struct WideMoveInternal {
    /// The face the turned layers are counted from.
    pub face: Face,
    /// The amount of the turn.
    pub amount: Angle,
    /// How many layers turn, starting at the face.
    pub depth: usize,
}

/// The face, angle and depth of a wide move.
pub open spec fn spec_wide_internal(m: WideMove) -> WideMoveInternal {
    match m {
        WideMove::Uw(d) => WideMoveInternal { face: Face::Up, amount: Angle::CWQuarter, depth: d },
        WideMove::Uw2(d) => WideMoveInternal { face: Face::Up, amount: Angle::Half, depth: d },
        WideMove::Uw3(d) => WideMoveInternal { face: Face::Up, amount: Angle::ACWQuarter, depth: d },
        WideMove::Dw(d) => WideMoveInternal { face: Face::Down, amount: Angle::CWQuarter, depth: d },
        WideMove::Dw2(d) => WideMoveInternal { face: Face::Down, amount: Angle::Half, depth: d },
        WideMove::Dw3(d) => WideMoveInternal { face: Face::Down, amount: Angle::ACWQuarter, depth: d },
        WideMove::Lw(d) => WideMoveInternal { face: Face::Left, amount: Angle::CWQuarter, depth: d },
        WideMove::Lw2(d) => WideMoveInternal { face: Face::Left, amount: Angle::Half, depth: d },
        WideMove::Lw3(d) => WideMoveInternal { face: Face::Left, amount: Angle::ACWQuarter, depth: d },
        WideMove::Rw(d) => WideMoveInternal { face: Face::Right, amount: Angle::CWQuarter, depth: d },
        WideMove::Rw2(d) => WideMoveInternal { face: Face::Right, amount: Angle::Half, depth: d },
        WideMove::Rw3(d) => WideMoveInternal { face: Face::Right, amount: Angle::ACWQuarter, depth: d },
        WideMove::Fw(d) => WideMoveInternal { face: Face::Front, amount: Angle::CWQuarter, depth: d },
        WideMove::Fw2(d) => WideMoveInternal { face: Face::Front, amount: Angle::Half, depth: d },
        WideMove::Fw3(d) => WideMoveInternal { face: Face::Front, amount: Angle::ACWQuarter, depth: d },
        WideMove::Bw(d) => WideMoveInternal { face: Face::Back, amount: Angle::CWQuarter, depth: d },
        WideMove::Bw2(d) => WideMoveInternal { face: Face::Back, amount: Angle::Half, depth: d },
        WideMove::Bw3(d) => WideMoveInternal { face: Face::Back, amount: Angle::ACWQuarter, depth: d },
    }
}

impl WideMoveInternal {
    /// Pairs a face with a turn amount and a depth.
    pub fn new(face: Face, amount: Angle, depth: usize) -> (r: WideMoveInternal)
        ensures
            r == (WideMoveInternal { face, amount, depth }),
    {
        WideMoveInternal { face, amount, depth }
    }
}

impl WideMove {
    /// The face, angle and depth of this move.
    pub fn internal(self) -> (r: WideMoveInternal)
        ensures
            r == spec_wide_internal(self),
    {
        match self {
            WideMove::Uw(d) => WideMoveInternal::new(Face::Up, Angle::CWQuarter, d),
            WideMove::Uw2(d) => WideMoveInternal::new(Face::Up, Angle::Half, d),
            WideMove::Uw3(d) => WideMoveInternal::new(Face::Up, Angle::ACWQuarter, d),
            WideMove::Dw(d) => WideMoveInternal::new(Face::Down, Angle::CWQuarter, d),
            WideMove::Dw2(d) => WideMoveInternal::new(Face::Down, Angle::Half, d),
            WideMove::Dw3(d) => WideMoveInternal::new(Face::Down, Angle::ACWQuarter, d),
            WideMove::Lw(d) => WideMoveInternal::new(Face::Left, Angle::CWQuarter, d),
            WideMove::Lw2(d) => WideMoveInternal::new(Face::Left, Angle::Half, d),
            WideMove::Lw3(d) => WideMoveInternal::new(Face::Left, Angle::ACWQuarter, d),
            WideMove::Rw(d) => WideMoveInternal::new(Face::Right, Angle::CWQuarter, d),
            WideMove::Rw2(d) => WideMoveInternal::new(Face::Right, Angle::Half, d),
            WideMove::Rw3(d) => WideMoveInternal::new(Face::Right, Angle::ACWQuarter, d),
            WideMove::Fw(d) => WideMoveInternal::new(Face::Front, Angle::CWQuarter, d),
            WideMove::Fw2(d) => WideMoveInternal::new(Face::Front, Angle::Half, d),
            WideMove::Fw3(d) => WideMoveInternal::new(Face::Front, Angle::ACWQuarter, d),
            WideMove::Bw(d) => WideMoveInternal::new(Face::Back, Angle::CWQuarter, d),
            WideMove::Bw2(d) => WideMoveInternal::new(Face::Back, Angle::Half, d),
            WideMove::Bw3(d) => WideMoveInternal::new(Face::Back, Angle::ACWQuarter, d),
        }
    }
}

/// Single-slice turns: the face letter with `s`, turning one layer named by
/// its 1-indexed distance from the face.
#[derive(Clone, Copy, Debug, PartialEq, Eq, Structural)]
#[allow(missing_docs)]
pub enum SliceMove {
    Us(usize),
    Us2(usize),
    Us3(usize),
    Ds(usize),
    Ds2(usize),
    Ds3(usize),
    Ls(usize),
    Ls2(usize),
    Ls3(usize),
    Rs(usize),
    Rs2(usize),
    Rs3(usize),
    Fs(usize),
    Fs2(usize),
    Fs3(usize),
    Bs(usize),
    Bs2(usize),
    Bs3(usize),
}

/// A slice move reduced to its geometric content: face, angle and layer.
#[derive(Clone, Copy, Debug, PartialEq, Eq, Structural)]
pub struct SliceMoveInternal {
    /// The face the layer is counted from.
    pub face: Face,
    /// The amount of the turn.
    pub amount: Angle,
    /// The 1-indexed layer that turns.
    pub layer: usize,
}

/// The face, angle and layer of a slice move.
pub open spec fn spec_slice_internal(m: SliceMove) -> SliceMoveInternal {
    match m {
        SliceMove::Us(l) => SliceMoveInternal { face: Face::Up, amount: Angle::CWQuarter, layer: l },
        SliceMove::Us2(l) => SliceMoveInternal { face: Face::Up, amount: Angle::Half, layer: l },
        SliceMove::Us3(l) => SliceMoveInternal { face: Face::Up, amount: Angle::ACWQuarter, layer: l },
        SliceMove::Ds(l) => SliceMoveInternal { face: Face::Down, amount: Angle::CWQuarter, layer: l },
        SliceMove::Ds2(l) => SliceMoveInternal { face: Face::Down, amount: Angle::Half, layer: l },
        SliceMove::Ds3(l) => SliceMoveInternal { face: Face::Down, amount: Angle::ACWQuarter, layer: l },
        SliceMove::Ls(l) => SliceMoveInternal { face: Face::Left, amount: Angle::CWQuarter, layer: l },
        SliceMove::Ls2(l) => SliceMoveInternal { face: Face::Left, amount: Angle::Half, layer: l },
        SliceMove::Ls3(l) => SliceMoveInternal { face: Face::Left, amount: Angle::ACWQuarter, layer: l },
        SliceMove::Rs(l) => SliceMoveInternal { face: Face::Right, amount: Angle::CWQuarter, layer: l },
        SliceMove::Rs2(l) => SliceMoveInternal { face: Face::Right, amount: Angle::Half, layer: l },
        SliceMove::Rs3(l) => SliceMoveInternal { face: Face::Right, amount: Angle::ACWQuarter, layer: l },
        SliceMove::Fs(l) => SliceMoveInternal { face: Face::Front, amount: Angle::CWQuarter, layer: l },
        SliceMove::Fs2(l) => SliceMoveInternal { face: Face::Front, amount: Angle::Half, layer: l },
        SliceMove::Fs3(l) => SliceMoveInternal { face: Face::Front, amount: Angle::ACWQuarter, layer: l },
        SliceMove::Bs(l) => SliceMoveInternal { face: Face::Back, amount: Angle::CWQuarter, layer: l },
        SliceMove::Bs2(l) => SliceMoveInternal { face: Face::Back, amount: Angle::Half, layer: l },
        SliceMove::Bs3(l) => SliceMoveInternal { face: Face::Back, amount: Angle::ACWQuarter, layer: l },
    }
}

impl SliceMoveInternal {
    /// Pairs a face with a turn amount and a 1-indexed layer.
    pub fn new(face: Face, amount: Angle, layer: usize) -> (r: SliceMoveInternal)
        ensures
            r == (SliceMoveInternal { face, amount, layer }),
    {
        SliceMoveInternal { face, amount, layer }
    }
}

impl SliceMove {
    /// The face, angle and layer of this move.
    pub fn internal(self) -> (r: SliceMoveInternal)
        ensures
            r == spec_slice_internal(self),
    {
        match self {
            SliceMove::Us(l) => SliceMoveInternal::new(Face::Up, Angle::CWQuarter, l),
            SliceMove::Us2(l) => SliceMoveInternal::new(Face::Up, Angle::Half, l),
            SliceMove::Us3(l) => SliceMoveInternal::new(Face::Up, Angle::ACWQuarter, l),
            SliceMove::Ds(l) => SliceMoveInternal::new(Face::Down, Angle::CWQuarter, l),
            SliceMove::Ds2(l) => SliceMoveInternal::new(Face::Down, Angle::Half, l),
            SliceMove::Ds3(l) => SliceMoveInternal::new(Face::Down, Angle::ACWQuarter, l),
            SliceMove::Ls(l) => SliceMoveInternal::new(Face::Left, Angle::CWQuarter, l),
            SliceMove::Ls2(l) => SliceMoveInternal::new(Face::Left, Angle::Half, l),
            SliceMove::Ls3(l) => SliceMoveInternal::new(Face::Left, Angle::ACWQuarter, l),
            SliceMove::Rs(l) => SliceMoveInternal::new(Face::Right, Angle::CWQuarter, l),
            SliceMove::Rs2(l) => SliceMoveInternal::new(Face::Right, Angle::Half, l),
            SliceMove::Rs3(l) => SliceMoveInternal::new(Face::Right, Angle::ACWQuarter, l),
            SliceMove::Fs(l) => SliceMoveInternal::new(Face::Front, Angle::CWQuarter, l),
            SliceMove::Fs2(l) => SliceMoveInternal::new(Face::Front, Angle::Half, l),
            SliceMove::Fs3(l) => SliceMoveInternal::new(Face::Front, Angle::ACWQuarter, l),
            SliceMove::Bs(l) => SliceMoveInternal::new(Face::Back, Angle::CWQuarter, l),
            SliceMove::Bs2(l) => SliceMoveInternal::new(Face::Back, Angle::Half, l),
            SliceMove::Bs3(l) => SliceMoveInternal::new(Face::Back, Angle::ACWQuarter, l),
        }
    }
}

/// Layer-range turns: the face letter with `r`, turning every layer from a
/// 1-indexed start to a 1-indexed end, both inclusive.
#[derive(Clone, Copy, Debug, PartialEq, Eq, Structural)]
#[allow(missing_docs)]
pub enum RangeMove {
    Ur(usize, usize),
    Ur2(usize, usize),
    Ur3(usize, usize),
    Dr(usize, usize),
    Dr2(usize, usize),
    Dr3(usize, usize),
    Lr(usize, usize),
    Lr2(usize, usize),
    Lr3(usize, usize),
    Rr(usize, usize),
    Rr2(usize, usize),
    Rr3(usize, usize),
    Fr(usize, usize),
    Fr2(usize, usize),
    Fr3(usize, usize),
    Br(usize, usize),
    Br2(usize, usize),
    Br3(usize, usize),
}

/// A range move reduced to its geometric content: face, angle and the two
/// 1-indexed layer bounds.
#[derive(Clone, Copy, Debug, PartialEq, Eq, Structural)]
pub struct RangeMoveInternal {
    /// The face the layers are counted from.
    pub face: Face,
    /// The amount of the turn.
    pub amount: Angle,
    /// The first turned layer, 1-indexed, inclusive.
    pub start_layer: usize,
    /// The last turned layer, 1-indexed, inclusive.
    pub end_layer: usize,
}

/// The face, angle and layer bounds of a range move.
pub open spec fn spec_range_internal(m: RangeMove) -> RangeMoveInternal {
    match m {
        RangeMove::Ur(s, e) => RangeMoveInternal { face: Face::Up, amount: Angle::CWQuarter, start_layer: s, end_layer: e },
        RangeMove::Ur2(s, e) => RangeMoveInternal { face: Face::Up, amount: Angle::Half, start_layer: s, end_layer: e },
        RangeMove::Ur3(s, e) => RangeMoveInternal { face: Face::Up, amount: Angle::ACWQuarter, start_layer: s, end_layer: e },
        RangeMove::Dr(s, e) => RangeMoveInternal { face: Face::Down, amount: Angle::CWQuarter, start_layer: s, end_layer: e },
        RangeMove::Dr2(s, e) => RangeMoveInternal { face: Face::Down, amount: Angle::Half, start_layer: s, end_layer: e },
        RangeMove::Dr3(s, e) => RangeMoveInternal { face: Face::Down, amount: Angle::ACWQuarter, start_layer: s, end_layer: e },
        RangeMove::Lr(s, e) => RangeMoveInternal { face: Face::Left, amount: Angle::CWQuarter, start_layer: s, end_layer: e },
        RangeMove::Lr2(s, e) => RangeMoveInternal { face: Face::Left, amount: Angle::Half, start_layer: s, end_layer: e },
        RangeMove::Lr3(s, e) => RangeMoveInternal { face: Face::Left, amount: Angle::ACWQuarter, start_layer: s, end_layer: e },
        RangeMove::Rr(s, e) => RangeMoveInternal { face: Face::Right, amount: Angle::CWQuarter, start_layer: s, end_layer: e },
        RangeMove::Rr2(s, e) => RangeMoveInternal { face: Face::Right, amount: Angle::Half, start_layer: s, end_layer: e },
        RangeMove::Rr3(s, e) => RangeMoveInternal { face: Face::Right, amount: Angle::ACWQuarter, start_layer: s, end_layer: e },
        RangeMove::Fr(s, e) => RangeMoveInternal { face: Face::Front, amount: Angle::CWQuarter, start_layer: s, end_layer: e },
        RangeMove::Fr2(s, e) => RangeMoveInternal { face: Face::Front, amount: Angle::Half, start_layer: s, end_layer: e },
        RangeMove::Fr3(s, e) => RangeMoveInternal { face: Face::Front, amount: Angle::ACWQuarter, start_layer: s, end_layer: e },
        RangeMove::Br(s, e) => RangeMoveInternal { face: Face::Back, amount: Angle::CWQuarter, start_layer: s, end_layer: e },
        RangeMove::Br2(s, e) => RangeMoveInternal { face: Face::Back, amount: Angle::Half, start_layer: s, end_layer: e },
        RangeMove::Br3(s, e) => RangeMoveInternal { face: Face::Back, amount: Angle::ACWQuarter, start_layer: s, end_layer: e },
    }
}

impl RangeMoveInternal {
    /// Pairs a face with a turn amount and two 1-indexed layer bounds.
    pub fn new(face: Face, amount: Angle, start_layer: usize, end_layer: usize) -> (r: RangeMoveInternal)
        ensures
            r == (RangeMoveInternal { face, amount, start_layer, end_layer }),
    {
        RangeMoveInternal { face, amount, start_layer, end_layer }
    }
}

impl RangeMove {
    /// The face, angle and layer bounds of this move.
    pub fn internal(self) -> (r: RangeMoveInternal)
        ensures
            r == spec_range_internal(self),
    {
        match self {
            RangeMove::Ur(s, e) => RangeMoveInternal::new(Face::Up, Angle::CWQuarter, s, e),
            RangeMove::Ur2(s, e) => RangeMoveInternal::new(Face::Up, Angle::Half, s, e),
            RangeMove::Ur3(s, e) => RangeMoveInternal::new(Face::Up, Angle::ACWQuarter, s, e),
            RangeMove::Dr(s, e) => RangeMoveInternal::new(Face::Down, Angle::CWQuarter, s, e),
            RangeMove::Dr2(s, e) => RangeMoveInternal::new(Face::Down, Angle::Half, s, e),
            RangeMove::Dr3(s, e) => RangeMoveInternal::new(Face::Down, Angle::ACWQuarter, s, e),
            RangeMove::Lr(s, e) => RangeMoveInternal::new(Face::Left, Angle::CWQuarter, s, e),
            RangeMove::Lr2(s, e) => RangeMoveInternal::new(Face::Left, Angle::Half, s, e),
            RangeMove::Lr3(s, e) => RangeMoveInternal::new(Face::Left, Angle::ACWQuarter, s, e),
            RangeMove::Rr(s, e) => RangeMoveInternal::new(Face::Right, Angle::CWQuarter, s, e),
            RangeMove::Rr2(s, e) => RangeMoveInternal::new(Face::Right, Angle::Half, s, e),
            RangeMove::Rr3(s, e) => RangeMoveInternal::new(Face::Right, Angle::ACWQuarter, s, e),
            RangeMove::Fr(s, e) => RangeMoveInternal::new(Face::Front, Angle::CWQuarter, s, e),
            RangeMove::Fr2(s, e) => RangeMoveInternal::new(Face::Front, Angle::Half, s, e),
            RangeMove::Fr3(s, e) => RangeMoveInternal::new(Face::Front, Angle::ACWQuarter, s, e),
            RangeMove::Br(s, e) => RangeMoveInternal::new(Face::Back, Angle::CWQuarter, s, e),
            RangeMove::Br2(s, e) => RangeMoveInternal::new(Face::Back, Angle::Half, s, e),
            RangeMove::Br3(s, e) => RangeMoveInternal::new(Face::Back, Angle::ACWQuarter, s, e),
        }
    }
}

/// Classic middle-layer turns of an odd-dimensioned cube: M turns like L,
/// E like D, S like F.
#[derive(Clone, Copy, Debug, PartialEq, Eq, Structural)]
#[allow(missing_docs)]
pub enum MiddleMove {
    M,
    M2,
    M3,
    E,
    E2,
    E3,
    S,
    S2,
    S3,
}

/// A middle move reduced to its geometric content: the face defining its
/// turning direction, and an angle.
#[derive(Clone, Copy, Debug, PartialEq, Eq, Structural)]
pub struct MiddleMoveInternal {
    /// The face whose turning direction the middle layer follows.
    pub face: Face,
    /// The amount of the turn.
    pub amount: Angle,
}

/// The reference face and angle of a middle move.
pub open spec fn spec_middle_internal(m: MiddleMove) -> MiddleMoveInternal {
    match m {
        MiddleMove::M => MiddleMoveInternal { face: Face::Left, amount: Angle::CWQuarter },
        MiddleMove::M2 => MiddleMoveInternal { face: Face::Left, amount: Angle::Half },
        MiddleMove::M3 => MiddleMoveInternal { face: Face::Left, amount: Angle::ACWQuarter },
        MiddleMove::E => MiddleMoveInternal { face: Face::Down, amount: Angle::CWQuarter },
        MiddleMove::E2 => MiddleMoveInternal { face: Face::Down, amount: Angle::Half },
        MiddleMove::E3 => MiddleMoveInternal { face: Face::Down, amount: Angle::ACWQuarter },
        MiddleMove::S => MiddleMoveInternal { face: Face::Front, amount: Angle::CWQuarter },
        MiddleMove::S2 => MiddleMoveInternal { face: Face::Front, amount: Angle::Half },
        MiddleMove::S3 => MiddleMoveInternal { face: Face::Front, amount: Angle::ACWQuarter },
    }
}

impl MiddleMoveInternal {
    /// Pairs a reference face with a turn amount.
    pub fn new(face: Face, amount: Angle) -> (r: MiddleMoveInternal)
        ensures
            r == (MiddleMoveInternal { face, amount }),
    {
        MiddleMoveInternal { face, amount }
    }
}

impl MiddleMove {
    /// The reference face and angle of this move.
    pub fn internal(self) -> (r: MiddleMoveInternal)
        ensures
            r == spec_middle_internal(self),
    {
        match self {
            MiddleMove::M => MiddleMoveInternal::new(Face::Left, Angle::CWQuarter),
            MiddleMove::M2 => MiddleMoveInternal::new(Face::Left, Angle::Half),
            MiddleMove::M3 => MiddleMoveInternal::new(Face::Left, Angle::ACWQuarter),
            MiddleMove::E => MiddleMoveInternal::new(Face::Down, Angle::CWQuarter),
            MiddleMove::E2 => MiddleMoveInternal::new(Face::Down, Angle::Half),
            MiddleMove::E3 => MiddleMoveInternal::new(Face::Down, Angle::ACWQuarter),
            MiddleMove::S => MiddleMoveInternal::new(Face::Front, Angle::CWQuarter),
            MiddleMove::S2 => MiddleMoveInternal::new(Face::Front, Angle::Half),
            MiddleMove::S3 => MiddleMoveInternal::new(Face::Front, Angle::ACWQuarter),
        }
    }
}

/// One slice's contribution to a move, as a sparse-permutation entry: the
/// face's own rotation on slice 0, the opposite face's counter-rotation on
/// slice n−1 (both only when the move turns faces at all), and the ring
/// rotation everywhere else on the slice.
pub open spec fn spec_move_slice_entry(
    face: Face,
    amount: Angle,
    i: int,
    with_faces: bool,
    n: int,
    p: TilePos,
) -> Option<TilePos> {
    if with_faces && i == 0 && p.face == face {
        spec_rotate_face_entry(face, amount, n, p)
    } else if with_faces && i == n - 1 && i != 0 && p.face == spec_opposite(face) {
        spec_rotate_face_entry(spec_opposite(face), spec_angle_neg(amount), n, p)
    } else {
        spec_ring_entry(face, i, amount, n, p)
    }
}

/// The sparse-permutation entry of the slices `[lo, hi]` of a move, composed
/// slice by slice.
pub open spec fn spec_move_range_entry(
    face: Face,
    amount: Angle,
    lo: int,
    hi: int,
    with_faces: bool,
    n: int,
    p: TilePos,
) -> Option<TilePos>
    decreases hi + 1 - lo,
{
    if lo > hi {
        None
    } else {
        match spec_move_range_entry(face, amount, lo, hi - 1, with_faces, n, p) {
            Some(q) => Some(
                match spec_move_slice_entry(face, amount, hi, with_faces, n, q) {
                    Some(x) => x,
                    None => q,
                },
            ),
            None => spec_move_slice_entry(face, amount, hi, with_faces, n, p),
        }
    }
}

/// Where a move built from the slices `[lo, hi]` sends a tile: the sparse
/// entry where one exists, the tile itself everywhere else.
pub open spec fn spec_move_at(
    face: Face,
    amount: Angle,
    lo: int,
    hi: int,
    with_faces: bool,
    n: int,
    p: TilePos,
) -> TilePos {
    match spec_move_range_entry(face, amount, lo, hi, with_faces, n, p) {
        Some(q) => q,
        None => p,
    }
}

/// No face borders itself or its opposite, so a face's own tiles and its
/// opposite's tiles never read as ring tiles.
pub proof fn lemma_side_of_face_none(face: Face)
    ensures
        spec_side_of(face, face) is None,
        spec_side_of(face, spec_opposite(face)) is None,
{
}

/// Compiles the slices `[start, end_exclusive)` of a turn of `face` by
/// `amount` into a full tile permutation; `with_faces` says whether end
/// slices also turn their cap face.
fn compile_slices(face: Face, amount: Angle, start: usize, end_exclusive: usize, with_faces: bool, n: usize) -> (r: TilePerm)
    requires
        6 * (n * n) <= usize::MAX,
        end_exclusive <= n,
    ensures
        r.wf(),
        r.n == n,
        r.injective(),
        forall|p: TilePos|
            spec_pos_valid(p, n as int)
                ==> #[trigger] r.spec_at(p)
                    == spec_move_at(face, amount, start as int, end_exclusive - 1, with_faces, n as int, p),
{
    let mut combined = PartialTilePerm::empty(n);
    let mut i = start;
    while i < end_exclusive
        invariant
            6 * (n * n) <= usize::MAX,
            end_exclusive <= n,
            start <= i,
            i <= end_exclusive || i == start,
            combined.wf(),
            combined.n == n,
            combined.injective_ext(),
            combined.closed(),
            forall|p: TilePos|
                spec_pos_valid(p, n as int)
                    ==> #[trigger] combined.spec_entry(p)
                        == spec_move_range_entry(face, amount, start as int, i - 1, with_faces, n as int, p),
        decreases end_exclusive - i,
    {
        let face_pp = if with_faces && i == 0 {
            rotate_face_only(face, amount, n)
        } else if with_faces && i == n - 1 && i != 0 {
            rotate_face_only(face.opposite(), amount.negate(), n)
        } else {
            PartialTilePerm::empty(n)
        };
        let edge_pp = rotate_outside_of_slice(Slice { face, slice_index: i }, amount, n);
        let slice_pp = face_pp.compose(&edge_pp);
        proof {
            lemma_side_of_face_none(face);
            assert forall|p: TilePos| spec_pos_valid(p, n as int)
                implies #[trigger] slice_pp.spec_entry(p)
                    == spec_move_slice_entry(face, amount, i as int, with_faces, n as int, p) by {
                lemma_entry_valid(face_pp, p);
            }
            lemma_compose_preserves(face_pp, edge_pp, slice_pp);
        }
        let next = combined.compose(&slice_pp);
        proof {
            assert forall|p: TilePos| spec_pos_valid(p, n as int)
                implies #[trigger] next.spec_entry(p)
                    == spec_move_range_entry(face, amount, start as int, i as int, with_faces, n as int, p) by {
                lemma_entry_valid(combined, p);
            }
            lemma_compose_preserves(combined, slice_pp, next);
        }
        combined = next;
        i += 1;
    }
    combined.to_tile_perm()
}

/// The whole-cube rotation about the axis through `face`, turning the same
/// way as a `face` turn by the given amount.
pub open spec fn spec_rotation_for(face: Face, amount: Angle) -> CubeRotation {
    let axis = spec_axis_rotation(face);
    match amount {
        Angle::Zero => spec_rot_id(),
        Angle::CWQuarter => axis,
        Angle::Half => spec_rot_compose(axis, axis),
        Angle::ACWQuarter => spec_rot_compose(spec_rot_compose(axis, axis), axis),
    }
}

/// The 90° whole-cube rotation that turns the same way as a quarter turn of
/// the given face.
pub open spec fn spec_axis_rotation(face: Face) -> CubeRotation {
    match face {
        Face::Up => spec_y(),
        Face::Down => spec_y3(),
        Face::Left => spec_x3(),
        Face::Right => spec_x(),
        Face::Front => spec_z(),
        Face::Back => spec_z3(),
    }
}

/// The rotation of a face turn is well formed, fixes the turned face and its
/// opposite, and turns their grids by the turn's angle — the opposite one
/// the other way.
#[verifier::rlimit(100)]
proof fn lemma_rotation_for_caps(face: Face, amount: Angle)
    ensures
        spec_rot_wf(spec_rotation_for(face, amount)),
        spec_dest(spec_rotation_for(face, amount), face) == face,
        crate::tiles::spec_orientation_angle(spec_rotation_for(face, amount), face) == amount,
        spec_dest(spec_rotation_for(face, amount), spec_opposite(face)) == spec_opposite(face),
        crate::tiles::spec_orientation_angle(spec_rotation_for(face, amount), spec_opposite(face))
            == spec_angle_neg(amount),
{
    reveal(spec_dest);
}

/// The crux of the slice laws: a whole-cube face rotation carries the ring
/// tile at step `j`, depth `d` along side `s` to the tile at the same step
/// and depth along the side the turn carries `s` to.
#[verifier::rlimit(100)]
proof fn lemma_rotation_moves_ring(face: Face, amount: Angle, s: FaceSide, j: int, d: int, n: int)
    requires
        0 <= j < n,
        0 <= d < n,
        n <= usize::MAX,
    ensures
        crate::tiles::spec_rotation_at(spec_rotation_for(face, amount), n, spec_ring_pos(face, s, j, d, n))
            == spec_ring_pos(face, spec_side_rotated(s, amount), j, d, n),
{
    reveal(spec_dest);
}

/// Whether a position belongs to the slice at depth `i` from `face`: the
/// face's own tiles at depth 0, the opposite face's tiles at depth n−1, and
/// the ring tiles whose decoded depth is `i`.
pub open spec fn spec_in_slice(face: Face, i: int, n: int, p: TilePos) -> bool {
    ||| (i == 0 && p.face == face)
    ||| (i == n - 1 && p.face == spec_opposite(face))
    ||| (match crate::partial::spec_ring_decode(face, p, n) {
        Some(sjd) => sjd.2 == i,
        None => false,
    })
}

/// A slice contribution only touches tiles of its own slice, and sends them
/// back into it.
proof fn lemma_slice_entry_stays(face: Face, amount: Angle, h: int, with_faces: bool, n: int, p: TilePos)
    requires
        0 <= h < n,
        n <= usize::MAX,
        spec_pos_valid(p, n),
    ensures
        spec_move_slice_entry(face, amount, h, with_faces, n, p) is Some
            ==> spec_in_slice(face, h, n, p),
        spec_move_slice_entry(face, amount, h, with_faces, n, p) matches Some(q)
            ==> spec_in_slice(face, h, n, q) && spec_pos_valid(q, n),
{
    lemma_side_of_face_none(face);
    let e = spec_move_slice_entry(face, amount, h, with_faces, n, p);
    if e is Some {
        if with_faces && h == 0 && p.face == face {
            crate::lemma_rotate_indices_bounds(amount, n, p.row as int, p.col as int);
        } else if with_faces && h == n - 1 && h != 0 && p.face == spec_opposite(face) {
            crate::lemma_rotate_indices_bounds(
                spec_angle_neg(amount), n, p.row as int, p.col as int);
        } else {
            crate::partial::lemma_ring_decode_sound(face, p, n);
            let sjd = crate::partial::spec_ring_decode(face, p, n)->Some_0;
            crate::partial::lemma_ring_roundtrip(face, spec_side_rotated(sjd.0, amount), sjd.1, h, n);
        }
    }
}

/// A position lies in at most one slice of a face.
proof fn lemma_in_slice_unique(face: Face, i1: int, i2: int, n: int, p: TilePos)
    requires
        spec_pos_valid(p, n),
        spec_in_slice(face, i1, n, p),
        spec_in_slice(face, i2, n, p),
    ensures
        i1 == i2,
{
    lemma_side_of_face_none(face);
}

/// Slices a move does not touch contribute nothing at any position outside
/// them.
proof fn lemma_move_range_entry_off(face: Face, amount: Angle, lo: int, hi: int, with_faces: bool, n: int, i: int, p: TilePos)
    requires
        hi < n,
        n <= usize::MAX,
        spec_pos_valid(p, n),
        spec_in_slice(face, i, n, p),
        !(lo <= i <= hi),
        0 <= lo,
    ensures
        spec_move_range_entry(face, amount, lo, hi, with_faces, n, p) is None,
    decreases hi + 1 - lo,
{
    if lo <= hi {
        lemma_move_range_entry_off(face, amount, lo, hi - 1, with_faces, n, i, p);
        lemma_slice_entry_stays(face, amount, hi, with_faces, n, p);
        if spec_move_slice_entry(face, amount, hi, with_faces, n, p) is Some {
            lemma_in_slice_unique(face, i, hi, n, p);
        }
    }
}

/// On a slice the move does touch, the whole move acts as that one slice's
/// contribution.
proof fn lemma_move_range_entry_local(face: Face, amount: Angle, lo: int, i: int, hi: int, with_faces: bool, n: int, p: TilePos)
    requires
        0 <= lo <= i <= hi < n,
        n <= usize::MAX,
        spec_pos_valid(p, n),
        spec_in_slice(face, i, n, p),
    ensures
        spec_move_range_entry(face, amount, lo, hi, with_faces, n, p)
            == spec_move_slice_entry(face, amount, i, with_faces, n, p),
    decreases hi - i,
{
    if hi == i {
        lemma_move_range_entry_off(face, amount, lo, i - 1, with_faces, n, i, p);
    } else {
        lemma_move_range_entry_local(face, amount, lo, i, hi - 1, with_faces, n, p);
        lemma_slice_entry_stays(face, amount, i, with_faces, n, p);
        let e = spec_move_slice_entry(face, amount, i, with_faces, n, p);
        if e is Some {
            let q = e->Some_0;
            lemma_slice_entry_stays(face, amount, hi, with_faces, n, q);
            if spec_move_slice_entry(face, amount, hi, with_faces, n, q) is Some {
                lemma_in_slice_unique(face, i, hi, n, q);
            }
        } else {
            lemma_slice_entry_stays(face, amount, hi, with_faces, n, p);
            if spec_move_slice_entry(face, amount, hi, with_faces, n, p) is Some {
                lemma_in_slice_unique(face, i, hi, n, p);
            }
        }
    }
}

/// On its own slice, one slice contribution acts exactly as the
/// corresponding whole-cube rotation.
proof fn lemma_slice_agreement(face: Face, amount: Angle, i: int, with_faces: bool, n: int, p: TilePos)
    requires
        0 <= i < n,
        n <= usize::MAX,
        spec_pos_valid(p, n),
        spec_in_slice(face, i, n, p),
        with_faces || (0 < i < n - 1) || n == 1,
    ensures
        (match spec_move_slice_entry(face, amount, i, with_faces, n, p) {
            Some(q) => q,
            None => p,
        }) == crate::tiles::spec_rotation_at(spec_rotation_for(face, amount), n, p),
{
    lemma_side_of_face_none(face);
    lemma_rotation_for_caps(face, amount);
    if p.face == face {
        assert(i == 0);
        crate::lemma_rotate_indices_bounds(amount, n, p.row as int, p.col as int);
    } else if p.face == spec_opposite(face) {
        assert(i == n - 1);
        crate::lemma_rotate_indices_bounds(spec_angle_neg(amount), n, p.row as int, p.col as int);
    } else {
        crate::partial::lemma_ring_decode_sound(face, p, n);
        let sjd = crate::partial::spec_ring_decode(face, p, n)->Some_0;
        lemma_rotation_moves_ring(face, amount, sjd.0, sjd.1, i, n);
    }
}

/// Each tile of a slice the move touches moves exactly as the corresponding
/// whole-cube rotation moves it.
pub proof fn lemma_move_agrees_on_touched_slice(face: Face, amount: Angle, lo: int, hi: int, with_faces: bool, n: int, i: int, p: TilePos)
    requires
        0 <= lo <= i <= hi < n,
        n <= usize::MAX,
        spec_pos_valid(p, n),
        spec_in_slice(face, i, n, p),
        with_faces || (0 < i < n - 1) || n == 1,
    ensures
        spec_move_at(face, amount, lo, hi, with_faces, n, p)
            == crate::tiles::spec_rotation_at(spec_rotation_for(face, amount), n, p),
{
    lemma_move_range_entry_local(face, amount, lo, i, hi, with_faces, n, p);
    lemma_slice_agreement(face, amount, i, with_faces, n, p);
}

/// Each tile of a slice the move does not touch stays exactly where it is.
pub proof fn lemma_move_fixes_untouched_slice(face: Face, amount: Angle, lo: int, hi: int, with_faces: bool, n: int, i: int, p: TilePos)
    requires
        0 <= i < n,
        hi < n,
        0 <= lo,
        !(lo <= i <= hi),
        n <= usize::MAX,
        spec_pos_valid(p, n),
        spec_in_slice(face, i, n, p),
    ensures
        spec_move_at(face, amount, lo, hi, with_faces, n, p) == p,
{
    lemma_move_range_entry_off(face, amount, lo, hi, with_faces, n, i, p);
}

/// A ring tile of the opposite face's end cap reads, from the reference
/// face's side, as a ring tile at depth n−1.
proof fn lemma_opposite_ring_depth(face: Face, side: FaceSide, j: int, n: int)
    requires
        0 <= j < n,
        n <= usize::MAX,
    ensures
        (match crate::partial::spec_ring_decode(face, spec_ring_pos(spec_opposite(face), side, j, 0, n), n) {
            Some(sjd) => sjd.2 == n - 1,
            None => false,
        }),
{
}

/// Every tile a slice enumerates belongs to that slice.
pub proof fn lemma_slice_element_in_slice(face: Face, idx: int, n: int, k: int)
    requires
        0 <= idx < n,
        n <= usize::MAX,
        0 <= k < crate::restrictions::spec_slice_positions(face, idx, n).len(),
    ensures
        spec_in_slice(face, idx, n, crate::restrictions::spec_slice_positions(face, idx, n)[k]),
{
    let s = crate::restrictions::spec_slice_positions(face, idx, n);
    let nn = n * n;
    if (idx == 0 || idx == n - 1) && k < nn {
        let cap = if idx == 0 { face } else { spec_opposite(face) };
        crate::tiles::lemma_index_split(k, n);
        assert(s[k] == crate::tiles::spec_pos_at_index(cap, k, n));
    } else {
        let cap = if idx == 0 { face }
            else if idx == n - 1 { spec_opposite(face) }
            else { face };
        let depth = if idx == 0 || idx == n - 1 { 0 } else { idx };
        let r = if idx == 0 || idx == n - 1 { k - nn } else { k };
        if r < n {
            vstd::arithmetic::div_mod::lemma_fundamental_div_mod_converse(r, n, 0, r);
        } else if r < 2 * n {
            vstd::arithmetic::div_mod::lemma_fundamental_div_mod_converse(r, n, 1, r - n);
        } else if r < 3 * n {
            vstd::arithmetic::div_mod::lemma_fundamental_div_mod_converse(r, n, 2, r - 2 * n);
        } else {
            vstd::arithmetic::div_mod::lemma_fundamental_div_mod_converse(r, n, 3, r - 3 * n);
        }
        let side = crate::geometry::spec_side_from_index(r / n);
        let jj = r % n;
        assert(s[k] == spec_ring_pos(cap, side, jj, depth, n));
        if idx == 0 || (idx == n - 1 && n == 1) {
            crate::partial::lemma_ring_roundtrip(face, side, jj, 0, n);
        } else if idx == n - 1 {
            lemma_opposite_ring_depth(face, side, jj, n);
        } else {
            crate::partial::lemma_ring_roundtrip(face, side, jj, idx, n);
        }
    }
}

/// A basic move, as a tile permutation, agrees with the corresponding axis
/// rotation on slice 0 of its face, and with the identity on every other
/// slice of its face.
pub proof fn lemma_basic_move_slice_law(m: BasicMove, n: int, i: int, k: int)
    requires
        1 <= n,
        n <= usize::MAX,
        0 <= i < n,
        0 <= k < crate::restrictions::spec_slice_positions(spec_basic_internal(m).face, i, n).len(),
    ensures
        ({
            let face = spec_basic_internal(m).face;
            let amount = spec_basic_internal(m).amount;
            let p = crate::restrictions::spec_slice_positions(face, i, n)[k];
            &&& (i == 0 ==> spec_move_at(face, amount, 0, 0, true, n, p)
                == crate::tiles::spec_rotation_at(spec_rotation_for(face, amount), n, p))
            &&& (i != 0 ==> spec_move_at(face, amount, 0, 0, true, n, p) == p)
        }),
{
    let face = spec_basic_internal(m).face;
    let amount = spec_basic_internal(m).amount;
    let p = crate::restrictions::spec_slice_positions(face, i, n)[k];
    crate::restrictions::lemma_slice_element_index(face, i, n, k);
    lemma_slice_element_in_slice(face, i, n, k);
    if i == 0 {
        lemma_move_agrees_on_touched_slice(face, amount, 0, 0, true, n, 0, p);
    } else {
        lemma_move_fixes_untouched_slice(face, amount, 0, 0, true, n, i, p);
    }
}

/// A wide move of depth d agrees with the corresponding axis rotation on the
/// slices below d, and with the identity on every deeper slice of its face.
pub proof fn lemma_wide_move_slice_law(m: WideMove, n: int, i: int, k: int)
    requires
        1 <= n,
        n <= usize::MAX,
        spec_wide_internal(m).depth <= n,
        0 <= i < n,
        0 <= k < crate::restrictions::spec_slice_positions(spec_wide_internal(m).face, i, n).len(),
    ensures
        ({
            let face = spec_wide_internal(m).face;
            let amount = spec_wide_internal(m).amount;
            let d = spec_wide_internal(m).depth;
            let p = crate::restrictions::spec_slice_positions(face, i, n)[k];
            &&& (i < d ==> spec_move_at(face, amount, 0, d - 1, true, n, p)
                == crate::tiles::spec_rotation_at(spec_rotation_for(face, amount), n, p))
            &&& (i >= d ==> spec_move_at(face, amount, 0, d - 1, true, n, p) == p)
        }),
{
    let face = spec_wide_internal(m).face;
    let amount = spec_wide_internal(m).amount;
    let d = spec_wide_internal(m).depth;
    let p = crate::restrictions::spec_slice_positions(face, i, n)[k];
    crate::restrictions::lemma_slice_element_index(face, i, n, k);
    lemma_slice_element_in_slice(face, i, n, k);
    if i < d {
        lemma_move_agrees_on_touched_slice(face, amount, 0, d - 1, true, n, i, p);
    } else {
        lemma_move_fixes_untouched_slice(face, amount, 0, d - 1, true, n, i, p);
    }
}

/// A range move agrees with the corresponding axis rotation on the slices of
/// its layer range, and with the identity on every slice of its face outside
/// that range.
pub proof fn lemma_range_move_slice_law(m: RangeMove, n: int, i: int, k: int)
    requires
        1 <= n,
        n <= usize::MAX,
        1 <= spec_range_internal(m).start_layer,
        spec_range_internal(m).end_layer <= n,
        0 <= i < n,
        0 <= k < crate::restrictions::spec_slice_positions(spec_range_internal(m).face, i, n).len(),
    ensures
        ({
            let face = spec_range_internal(m).face;
            let amount = spec_range_internal(m).amount;
            let lo = spec_range_internal(m).start_layer - 1;
            let hi = spec_range_internal(m).end_layer - 1;
            let p = crate::restrictions::spec_slice_positions(face, i, n)[k];
            &&& (lo <= i <= hi ==> spec_move_at(face, amount, lo, hi, true, n, p)
                == crate::tiles::spec_rotation_at(spec_rotation_for(face, amount), n, p))
            &&& (!(lo <= i <= hi) ==> spec_move_at(face, amount, lo, hi, true, n, p) == p)
        }),
{
    let face = spec_range_internal(m).face;
    let amount = spec_range_internal(m).amount;
    let lo = spec_range_internal(m).start_layer - 1;
    let hi = spec_range_internal(m).end_layer - 1;
    let p = crate::restrictions::spec_slice_positions(face, i, n)[k];
    crate::restrictions::lemma_slice_element_index(face, i, n, k);
    lemma_slice_element_in_slice(face, i, n, k);
    if lo <= i <= hi {
        lemma_move_agrees_on_touched_slice(face, amount, lo, hi, true, n, i, p);
    } else {
        lemma_move_fixes_untouched_slice(face, amount, lo, hi, true, n, i, p);
    }
}

/// A middle move on an odd cube agrees with the corresponding axis rotation
/// on the middle slice alone, and with the identity on every other slice of
/// its reference face.
pub proof fn lemma_middle_move_slice_law(m: MiddleMove, n: int, i: int, k: int)
    requires
        1 <= n,
        n % 2 == 1,
        n <= usize::MAX,
        0 <= i < n,
        0 <= k < crate::restrictions::spec_slice_positions(spec_middle_internal(m).face, i, n).len(),
    ensures
        ({
            let face = spec_middle_internal(m).face;
            let amount = spec_middle_internal(m).amount;
            let p = crate::restrictions::spec_slice_positions(face, i, n)[k];
            &&& (i == n / 2 ==> spec_move_at(face, amount, n / 2, n / 2, false, n, p)
                == crate::tiles::spec_rotation_at(spec_rotation_for(face, amount), n, p))
            &&& (i != n / 2 ==> spec_move_at(face, amount, n / 2, n / 2, false, n, p) == p)
        }),
{
    let face = spec_middle_internal(m).face;
    let amount = spec_middle_internal(m).amount;
    let p = crate::restrictions::spec_slice_positions(face, i, n)[k];
    crate::restrictions::lemma_slice_element_index(face, i, n, k);
    lemma_slice_element_in_slice(face, i, n, k);
    vstd::arithmetic::div_mod::lemma_fundamental_div_mod(n, 2);
    vstd::arithmetic::div_mod::lemma_mod_pos_bound(n, 2);
    if i == n / 2 {
        lemma_move_agrees_on_touched_slice(face, amount, n / 2, n / 2, false, n, i, p);
    } else {
        lemma_move_fixes_untouched_slice(face, amount, n / 2, n / 2, false, n, i, p);
    }
}

/// One application of a basic move, at the level of positions: tiles of the
/// turned face rotate in place, ring tiles of its outer slice step one side
/// around, and every other tile is fixed.
proof fn lemma_basic_move_at_step(face: Face, amount: Angle, n: int, p: TilePos)
    requires
        0 < n,
        n <= usize::MAX,
        spec_pos_valid(p, n),
    ensures
        spec_pos_valid(spec_move_at(face, amount, 0, 0, true, n, p), n),
        p.face == face ==> ({
            let rc = crate::spec_rotate_indices(amount, n, p.row as int, p.col as int);
            spec_move_at(face, amount, 0, 0, true, n, p)
                == (TilePos { face, row: rc.0 as usize, col: rc.1 as usize })
        }),
        p.face != face ==> (match crate::partial::spec_ring_decode(face, p, n) {
            Some(sjd) => if sjd.2 == 0 {
                spec_move_at(face, amount, 0, 0, true, n, p)
                    == spec_ring_pos(face, spec_side_rotated(sjd.0, amount), sjd.1, 0, n)
            } else {
                spec_move_at(face, amount, 0, 0, true, n, p) == p
            },
            None => spec_move_at(face, amount, 0, 0, true, n, p) == p,
        }),
{
    reveal_with_fuel(spec_move_range_entry, 2);
    lemma_side_of_face_none(face);
    if p.face == face {
        crate::lemma_rotate_indices_bounds(amount, n, p.row as int, p.col as int);
    } else {
        crate::partial::lemma_ring_decode_sound(face, p, n);
        let d = crate::partial::spec_ring_decode(face, p, n);
        if d is Some {
            let sjd = d->Some_0;
            if sjd.2 == 0 {
                crate::partial::lemma_ring_roundtrip(
                    face,
                    spec_side_rotated(sjd.0, amount),
                    sjd.1,
                    0,
                    n,
                );
            }
        }
    }
}

/// Applying a basic move four times over returns every tile to its place.
#[verifier::rlimit(50)]
pub proof fn lemma_basic_move_at_order_four(face: Face, amount: Angle, n: int, p: TilePos)
    requires
        0 < n,
        n <= usize::MAX,
        spec_pos_valid(p, n),
    ensures
        ({
            let m1 = spec_move_at(face, amount, 0, 0, true, n, p);
            let m2 = spec_move_at(face, amount, 0, 0, true, n, m1);
            let m3 = spec_move_at(face, amount, 0, 0, true, n, m2);
            spec_move_at(face, amount, 0, 0, true, n, m3) == p
        }),
{
    let m1 = spec_move_at(face, amount, 0, 0, true, n, p);
    let m2 = spec_move_at(face, amount, 0, 0, true, n, m1);
    let m3 = spec_move_at(face, amount, 0, 0, true, n, m2);
    lemma_basic_move_at_step(face, amount, n, p);
    lemma_basic_move_at_step(face, amount, n, m1);
    lemma_basic_move_at_step(face, amount, n, m2);
    lemma_basic_move_at_step(face, amount, n, m3);
    lemma_side_of_face_none(face);
    if p.face == face {
        crate::lemma_rotate_indices_bounds(amount, n, p.row as int, p.col as int);
        crate::lemma_rotate_indices_compose(amount, amount, n, p.row as int, p.col as int);
        let a2 = crate::spec_angle_plus(amount, amount);
        crate::lemma_rotate_indices_compose(a2, amount, n, p.row as int, p.col as int);
        let a3 = crate::spec_angle_plus(a2, amount);
        crate::lemma_rotate_indices_compose(a3, amount, n, p.row as int, p.col as int);
        assert(crate::spec_angle_plus(a3, amount) == Angle::Zero);
    } else {
        crate::partial::lemma_ring_decode_sound(face, p, n);
        let d = crate::partial::spec_ring_decode(face, p, n);
        if d is Some && d->Some_0.2 == 0 {
            let sjd = d->Some_0;
            let s1 = spec_side_rotated(sjd.0, amount);
            let s2 = spec_side_rotated(s1, amount);
            let s3 = spec_side_rotated(s2, amount);
            crate::partial::lemma_ring_roundtrip(face, s1, sjd.1, 0, n);
            crate::partial::lemma_ring_roundtrip(face, s2, sjd.1, 0, n);
            crate::partial::lemma_ring_roundtrip(face, s3, sjd.1, 0, n);
            crate::geometry::lemma_adjacent_faces_distinct(face, s1, s1);
            crate::geometry::lemma_adjacent_faces_distinct(face, s2, s2);
            crate::geometry::lemma_adjacent_faces_distinct(face, s3, s3);
            assert(spec_side_rotated(s3, amount) == sjd.0);
        }
    }
}

/// Four consecutive applications of any basic move return a cube state to
/// its original configuration.
pub proof fn lemma_basic_move_order_four(
    perm: TilePerm,
    face: Face,
    amount: Angle,
    s0: crate::state::RubiksState,
    s1: crate::state::RubiksState,
    s2: crate::state::RubiksState,
    s3: crate::state::RubiksState,
    s4: crate::state::RubiksState,
)
    requires
        perm.wf(),
        0 < perm.n,
        forall|p: TilePos|
            spec_pos_valid(p, perm.n as int)
                ==> #[trigger] perm.spec_at(p) == spec_move_at(face, amount, 0, 0, true, perm.n as int, p),
        s0.n == perm.n,
        s1.n == perm.n,
        s2.n == perm.n,
        s3.n == perm.n,
        s4.n == perm.n,
        forall|p: TilePos|
            spec_pos_valid(p, perm.n as int)
                ==> s1.spec_colour_at(#[trigger] perm.spec_at(p)) == s0.spec_colour_at(p),
        forall|p: TilePos|
            spec_pos_valid(p, perm.n as int)
                ==> s2.spec_colour_at(#[trigger] perm.spec_at(p)) == s1.spec_colour_at(p),
        forall|p: TilePos|
            spec_pos_valid(p, perm.n as int)
                ==> s3.spec_colour_at(#[trigger] perm.spec_at(p)) == s2.spec_colour_at(p),
        forall|p: TilePos|
            spec_pos_valid(p, perm.n as int)
                ==> s4.spec_colour_at(#[trigger] perm.spec_at(p)) == s3.spec_colour_at(p),
    ensures
        forall|p: TilePos|
            spec_pos_valid(p, perm.n as int) ==> #[trigger] s4.spec_colour_at(p) == s0.spec_colour_at(p),
{
    let n = perm.n as int;
    assert(n <= n * n) by (nonlinear_arith)
        requires
            0 < n,
    ;
    assert forall|p: TilePos|
        spec_pos_valid(p, n) implies #[trigger] s4.spec_colour_at(p) == s0.spec_colour_at(p) by {
        crate::tiles::lemma_at_valid(perm, p);
        let m1 = perm.spec_at(p);
        crate::tiles::lemma_at_valid(perm, m1);
        let m2 = perm.spec_at(m1);
        crate::tiles::lemma_at_valid(perm, m2);
        let m3 = perm.spec_at(m2);
        crate::tiles::lemma_at_valid(perm, m3);
        lemma_basic_move_at_order_four(face, amount, n, p);
        assert(perm.spec_at(m3) == p);
        assert(s1.spec_colour_at(m1) == s0.spec_colour_at(p));
        assert(s2.spec_colour_at(m2) == s1.spec_colour_at(m1));
        assert(s3.spec_colour_at(m3) == s2.spec_colour_at(m2));
        assert(s4.spec_colour_at(p) == s3.spec_colour_at(m3));
    }
}

impl BasicMove {
    /// The tile permutation of this move on an n×n×n cube: the face's own
    /// grid turns in place and the adjacent edge tiles cycle around it.
    pub fn to_tile_perm(self, n: usize) -> (r: TilePerm)
        requires
            6 * (n * n) <= usize::MAX,
            1 <= n,
        ensures
            r.wf(),
            r.n == n,
            r.injective(),
            forall|p: TilePos|
                spec_pos_valid(p, n as int)
                    ==> #[trigger] r.spec_at(p) == spec_move_at(
                        spec_basic_internal(self).face,
                        spec_basic_internal(self).amount,
                        0,
                        0,
                        true,
                        n as int,
                        p,
                    ),
    {
        let internal = self.internal();
        compile_slices(internal.face, internal.amount, 0, 1, true, n)
    }
}

impl WideMove {
    /// The tile permutation of this move on an n×n×n cube: the slices from
    /// the face down to the move's depth all turn together.
    pub fn to_tile_perm(self, n: usize) -> (r: TilePerm)
        requires
            6 * (n * n) <= usize::MAX,
            spec_wide_internal(self).depth <= n,
        ensures
            r.wf(),
            r.n == n,
            r.injective(),
            forall|p: TilePos|
                spec_pos_valid(p, n as int)
                    ==> #[trigger] r.spec_at(p) == spec_move_at(
                        spec_wide_internal(self).face,
                        spec_wide_internal(self).amount,
                        0,
                        spec_wide_internal(self).depth - 1,
                        true,
                        n as int,
                        p,
                    ),
    {
        let internal = self.internal();
        compile_slices(internal.face, internal.amount, 0, internal.depth, true, n)
    }
}

impl SliceMove {
    /// The tile permutation of this move on an n×n×n cube: the single
    /// 1-indexed layer turns, with the cap face joining in when the layer is
    /// an end layer.
    pub fn to_tile_perm(self, n: usize) -> (r: TilePerm)
        requires
            6 * (n * n) <= usize::MAX,
            1 <= spec_slice_internal(self).layer,
            spec_slice_internal(self).layer <= n,
        ensures
            r.wf(),
            r.n == n,
            r.injective(),
            forall|p: TilePos|
                spec_pos_valid(p, n as int)
                    ==> #[trigger] r.spec_at(p) == spec_move_at(
                        spec_slice_internal(self).face,
                        spec_slice_internal(self).amount,
                        spec_slice_internal(self).layer - 1,
                        spec_slice_internal(self).layer - 1,
                        true,
                        n as int,
                        p,
                    ),
    {
        let internal = self.internal();
        compile_slices(internal.face, internal.amount, internal.layer - 1, internal.layer, true, n)
    }
}

impl RangeMove {
    /// The tile permutation of this move on an n×n×n cube: every layer from
    /// the 1-indexed start to the 1-indexed end turns; an inverted range
    /// turns nothing.
    pub fn to_tile_perm(self, n: usize) -> (r: TilePerm)
        requires
            6 * (n * n) <= usize::MAX,
            1 <= spec_range_internal(self).start_layer,
            spec_range_internal(self).end_layer <= n,
        ensures
            r.wf(),
            r.n == n,
            r.injective(),
            forall|p: TilePos|
                spec_pos_valid(p, n as int)
                    ==> #[trigger] r.spec_at(p) == spec_move_at(
                        spec_range_internal(self).face,
                        spec_range_internal(self).amount,
                        spec_range_internal(self).start_layer - 1,
                        spec_range_internal(self).end_layer - 1,
                        true,
                        n as int,
                        p,
                    ),
    {
        let internal = self.internal();
        if internal.start_layer > internal.end_layer {
            compile_slices(internal.face, internal.amount, internal.start_layer - 1, 0, true, n)
        } else {
            compile_slices(internal.face, internal.amount, internal.start_layer - 1, internal.end_layer, true, n)
        }
    }
}

impl MiddleMove {
    /// The tile permutation of this move on an n×n×n cube: the middle slice
    /// turns, and no face grid turns with it.
    pub fn to_tile_perm(self, n: usize) -> (r: TilePerm)
        requires
            6 * (n * n) <= usize::MAX,
            1 <= n,
        ensures
            r.wf(),
            r.n == n,
            r.injective(),
            forall|p: TilePos|
                spec_pos_valid(p, n as int)
                    ==> #[trigger] r.spec_at(p) == spec_move_at(
                        spec_middle_internal(self).face,
                        spec_middle_internal(self).amount,
                        n as int / 2,
                        n as int / 2,
                        false,
                        n as int,
                        p,
                    ),
    {
        let internal = self.internal();
        let middle_index = n / 2;
        compile_slices(internal.face, internal.amount, middle_index, middle_index + 1, false, n)
    }
}

} // verus!
