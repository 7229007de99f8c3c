//! The cube's rotation group, represented as permutations of the four main
//! diagonals, and the derivation of face permutations from rotations.
//!
//! A whole-cube rotation permutes the four main diagonals; every bijection on
//! the diagonals is realised by exactly one of the 24 rotations. Composition
//! follows cubing convention: `a.compose(b)` means "apply `a`, then `b`".
//!
//! The derivation of a [`FacePerm`] works face by face: apply the rotation to
//! the face's canonical diagonal ordering, cyclically normalise the images so
//! that ULF comes first, and match the remaining triple against the faces'
//! canonical orderings. The proofs below show that for a well-formed rotation
//! this match always finds exactly one face, and that the derivation is a
//! homomorphism from the diagonal group to the group of face permutations.

use vstd::prelude::*;
use crate::geometry::{CubeDiag, Face, spec_diag_orientation};

verus! {

/// A whole-cube rotation as a permutation of the four main diagonals: each
/// field holds the image of the diagonal it is named after.
#[derive(Clone, Copy, Debug, PartialEq, Eq, Structural)]
pub struct CubeRotation {
    /// The image of the URF diagonal.
    pub urf: CubeDiag,
    /// The image of the ULF diagonal.
    pub ulf: CubeDiag,
    /// The image of the URB diagonal.
    pub urb: CubeDiag,
    /// The image of the ULB diagonal.
    pub ulb: CubeDiag,
}

/// A permutation of the six faces: each field holds the image of the face it
/// is named after. Only the 24 permutations reachable from a [`CubeRotation`]
/// are realisable.
#[derive(Clone, Copy, Debug, PartialEq, Eq, Structural)]
pub struct FacePerm {
    /// The image of the Up face.
    pub up: Face,
    /// The image of the Down face.
    pub down: Face,
    /// The image of the Left face.
    pub left: Face,
    /// The image of the Right face.
    pub right: Face,
    /// The image of the Front face.
    pub front: Face,
    /// The image of the Back face.
    pub back: Face,
}

/// The image of a diagonal under a rotation.
pub open spec fn spec_rot_apply(r: CubeRotation, d: CubeDiag) -> CubeDiag {
    match d {
        CubeDiag::URF => r.urf,
        CubeDiag::ULF => r.ulf,
        CubeDiag::URB => r.urb,
        CubeDiag::ULB => r.ulb,
    }
}

/// A rotation is well formed when it is a bijection on the diagonals.
pub open spec fn spec_rot_wf(r: CubeRotation) -> bool {
    &&& r.urf != r.ulf
    &&& r.urf != r.urb
    &&& r.urf != r.ulb
    &&& r.ulf != r.urb
    &&& r.ulf != r.ulb
    &&& r.urb != r.ulb
}

/// The identity rotation, fixing every diagonal.
pub open spec fn spec_rot_id() -> CubeRotation {
    CubeRotation { urf: CubeDiag::URF, ulf: CubeDiag::ULF, urb: CubeDiag::URB, ulb: CubeDiag::ULB }
}

/// Composition of rotations: apply `a`, then `b`.
pub open spec fn spec_rot_compose(a: CubeRotation, b: CubeRotation) -> CubeRotation {
    CubeRotation {
        urf: spec_rot_apply(b, a.urf),
        ulf: spec_rot_apply(b, a.ulf),
        urb: spec_rot_apply(b, a.urb),
        ulb: spec_rot_apply(b, a.ulb),
    }
}

/// The diagonal that `r` maps to `d`.
pub open spec fn spec_rot_preimage(r: CubeRotation, d: CubeDiag) -> CubeDiag {
    if r.urf == d {
        CubeDiag::URF
    } else if r.ulf == d {
        CubeDiag::ULF
    } else if r.urb == d {
        CubeDiag::URB
    } else {
        CubeDiag::ULB
    }
}

/// The inverse rotation: maps each image back to its source.
pub open spec fn spec_rot_inverse(r: CubeRotation) -> CubeRotation {
    CubeRotation {
        urf: spec_rot_preimage(r, CubeDiag::URF),
        ulf: spec_rot_preimage(r, CubeDiag::ULF),
        urb: spec_rot_preimage(r, CubeDiag::URB),
        ulb: spec_rot_preimage(r, CubeDiag::ULB),
    }
}

/// The image of a face under a face permutation.
pub open spec fn spec_fp_apply(p: FacePerm, f: Face) -> Face {
    match f {
        Face::Up => p.up,
        Face::Down => p.down,
        Face::Left => p.left,
        Face::Right => p.right,
        Face::Front => p.front,
        Face::Back => p.back,
    }
}

/// Composition of face permutations: apply `a`, then `b`.
pub open spec fn spec_fp_compose(a: FacePerm, b: FacePerm) -> FacePerm {
    FacePerm {
        up: spec_fp_apply(b, a.up),
        down: spec_fp_apply(b, a.down),
        left: spec_fp_apply(b, a.left),
        right: spec_fp_apply(b, a.right),
        front: spec_fp_apply(b, a.front),
        back: spec_fp_apply(b, a.back),
    }
}

/// The identity face permutation.
pub open spec fn spec_fp_id() -> FacePerm {
    FacePerm {
        up: Face::Up,
        down: Face::Down,
        left: Face::Left,
        right: Face::Right,
        front: Face::Front,
        back: Face::Back,
    }
}

/// The face that `p` maps to `f`.
pub open spec fn spec_fp_preimage(p: FacePerm, f: Face) -> Face {
    if p.up == f {
        Face::Up
    } else if p.down == f {
        Face::Down
    } else if p.left == f {
        Face::Left
    } else if p.right == f {
        Face::Right
    } else if p.front == f {
        Face::Front
    } else {
        Face::Back
    }
}

/// The inverse face permutation.
pub open spec fn spec_fp_inverse(p: FacePerm) -> FacePerm {
    FacePerm {
        up: spec_fp_preimage(p, Face::Up),
        down: spec_fp_preimage(p, Face::Down),
        left: spec_fp_preimage(p, Face::Left),
        right: spec_fp_preimage(p, Face::Right),
        front: spec_fp_preimage(p, Face::Front),
        back: spec_fp_preimage(p, Face::Back),
    }
}

/// A face's full canonical diagonal frame: ULF followed by the face's
/// canonical ordering of the remaining three diagonals.
pub open spec fn spec_tuple(f: Face) -> (CubeDiag, CubeDiag, CubeDiag, CubeDiag) {
    (CubeDiag::ULF, spec_diag_orientation(f).0, spec_diag_orientation(f).1, spec_diag_orientation(f).2)
}

/// A rotation applied to each entry of a diagonal 4-tuple.
pub open spec fn spec_apply4(
    r: CubeRotation,
    t: (CubeDiag, CubeDiag, CubeDiag, CubeDiag),
) -> (CubeDiag, CubeDiag, CubeDiag, CubeDiag) {
    (spec_rot_apply(r, t.0), spec_rot_apply(r, t.1), spec_rot_apply(r, t.2), spec_rot_apply(r, t.3))
}

/// A 4-tuple cyclically rotated left by `k` places (for `0 <= k < 4`).
pub open spec fn spec_cyc(
    t: (CubeDiag, CubeDiag, CubeDiag, CubeDiag),
    k: int,
) -> (CubeDiag, CubeDiag, CubeDiag, CubeDiag) {
    if k == 0 {
        t
    } else if k == 1 {
        (t.1, t.2, t.3, t.0)
    } else if k == 2 {
        (t.2, t.3, t.0, t.1)
    } else {
        (t.3, t.0, t.1, t.2)
    }
}

/// The geometric meaning of the face derivation: rotation `r` carries face
/// `f` to face `g` when it maps `f`'s canonical diagonal frame to a cyclic
/// rotation of `g`'s frame.
pub open spec fn spec_maps_to(r: CubeRotation, f: Face, g: Face) -> bool {
    exists|k: int| 0 <= k < 4 && spec_apply4(r, spec_tuple(f)) == spec_cyc(spec_tuple(g), k)
}

/// The face whose canonical diagonal ordering equals the given triple, if
/// any.
pub open spec fn spec_face_of_triple(t: (CubeDiag, CubeDiag, CubeDiag)) -> Option<Face> {
    if t == spec_diag_orientation(Face::Up) {
        Some(Face::Up)
    } else if t == spec_diag_orientation(Face::Down) {
        Some(Face::Down)
    } else if t == spec_diag_orientation(Face::Left) {
        Some(Face::Left)
    } else if t == spec_diag_orientation(Face::Right) {
        Some(Face::Right)
    } else if t == spec_diag_orientation(Face::Front) {
        Some(Face::Front)
    } else if t == spec_diag_orientation(Face::Back) {
        Some(Face::Back)
    } else {
        None
    }
}

/// The cyclic normalisation step of the face derivation: rotate the image
/// tuple until ULF comes first, and drop the leading ULF.
pub open spec fn spec_normalise(t: (CubeDiag, CubeDiag, CubeDiag, CubeDiag)) -> (
    CubeDiag,
    CubeDiag,
    CubeDiag,
) {
    if t.0 == CubeDiag::ULF {
        (t.1, t.2, t.3)
    } else if t.1 == CubeDiag::ULF {
        (t.2, t.3, t.0)
    } else if t.2 == CubeDiag::ULF {
        (t.3, t.0, t.1)
    } else {
        (t.0, t.1, t.2)
    }
}

/// The destination of face `f` under rotation `r`, as the derivation
/// algorithm computes it. For a well-formed rotation the triple always
/// matches some face; the fallback is never reached.
#[verifier::opaque]
pub open spec fn spec_dest(r: CubeRotation, f: Face) -> Face {
    match spec_face_of_triple(spec_normalise(spec_apply4(r, spec_tuple(f)))) {
        Some(g) => g,
        None => Face::Up,
    }
}

/// The face permutation derived from a rotation.
pub open spec fn spec_face_perm(r: CubeRotation) -> FacePerm {
    FacePerm {
        up: spec_dest(r, Face::Up),
        down: spec_dest(r, Face::Down),
        left: spec_dest(r, Face::Left),
        right: spec_dest(r, Face::Right),
        front: spec_dest(r, Face::Front),
        back: spec_dest(r, Face::Back),
    }
}

/// Each face's canonical frame starts with ULF and mentions ULF nowhere
/// else; its four entries are pairwise distinct.
pub proof fn lemma_tuple_frame(f: Face)
    ensures
        spec_tuple(f).0 == CubeDiag::ULF,
        spec_tuple(f).1 != CubeDiag::ULF,
        spec_tuple(f).2 != CubeDiag::ULF,
        spec_tuple(f).3 != CubeDiag::ULF,
        spec_tuple(f).1 != spec_tuple(f).2,
        spec_tuple(f).1 != spec_tuple(f).3,
        spec_tuple(f).2 != spec_tuple(f).3,
{
}

/// Distinct faces have distinct canonical frames.
pub proof fn lemma_tuple_distinct(f1: Face, f2: Face)
    requires
        spec_tuple(f1) == spec_tuple(f2),
    ensures
        f1 == f2,
{
}

/// For a well-formed rotation, the derivation's normalise-and-match step
/// always finds a face: the algorithm cannot fail.
pub proof fn lemma_derivation_total(r: CubeRotation, f: Face)
    requires
        spec_rot_wf(r),
    ensures
        spec_face_of_triple(spec_normalise(spec_apply4(r, spec_tuple(f)))) is Some,
{
    lemma_tuple_frame(f);
}

/// Soundness of the derivation: rotation `r` carries face `f` to the face
/// the algorithm computes.
pub proof fn lemma_dest_maps_to(r: CubeRotation, f: Face)
    requires
        spec_rot_wf(r),
    ensures
        spec_maps_to(r, f, spec_dest(r, f)),
{
    reveal(spec_dest);
    lemma_tuple_frame(f);
    let m = spec_apply4(r, spec_tuple(f));
    let g = spec_dest(r, f);
    lemma_derivation_total(r, f);
    lemma_tuple_frame(g);
    if m.0 == CubeDiag::ULF {
        assert(spec_apply4(r, spec_tuple(f)) == spec_cyc(spec_tuple(g), 0));
    } else if m.1 == CubeDiag::ULF {
        assert(spec_apply4(r, spec_tuple(f)) == spec_cyc(spec_tuple(g), 3));
    } else if m.2 == CubeDiag::ULF {
        assert(spec_apply4(r, spec_tuple(f)) == spec_cyc(spec_tuple(g), 2));
    } else {
        assert(m.3 == CubeDiag::ULF);
        assert(spec_apply4(r, spec_tuple(f)) == spec_cyc(spec_tuple(g), 1));
    }
}

/// Uniqueness of the derived destination: a rotation carries a face to at
/// most one face.
pub proof fn lemma_maps_to_unique(r: CubeRotation, f: Face, g1: Face, g2: Face)
    requires
        spec_maps_to(r, f, g1),
        spec_maps_to(r, f, g2),
    ensures
        g1 == g2,
{
    let k1 = choose|k: int| 0 <= k < 4 && spec_apply4(r, spec_tuple(f)) == spec_cyc(spec_tuple(g1), k);
    let k2 = choose|k: int| 0 <= k < 4 && spec_apply4(r, spec_tuple(f)) == spec_cyc(spec_tuple(g2), k);
    lemma_tuple_frame(g1);
    lemma_tuple_frame(g2);
    assert(spec_cyc(spec_tuple(g1), k1) == spec_cyc(spec_tuple(g2), k2));
    assert(k1 == k2);
    assert(spec_tuple(g1) == spec_tuple(g2));
    lemma_tuple_distinct(g1, g2);
}

/// No two faces are carried to the same face: together with uniqueness this
/// makes the derived face permutation a bijection.
pub proof fn lemma_maps_to_injective(r: CubeRotation, f1: Face, f2: Face, g: Face)
    requires
        spec_rot_wf(r),
        spec_maps_to(r, f1, g),
        spec_maps_to(r, f2, g),
    ensures
        f1 == f2,
{
    let k1 = choose|k: int| 0 <= k < 4 && spec_apply4(r, spec_tuple(f1)) == spec_cyc(spec_tuple(g), k);
    let k2 = choose|k: int| 0 <= k < 4 && spec_apply4(r, spec_tuple(f2)) == spec_cyc(spec_tuple(g), k);
    lemma_tuple_frame(f1);
    lemma_tuple_frame(f2);
    lemma_tuple_frame(g);
    assert(k1 == k2);
    assert(spec_tuple(f1) == spec_tuple(f2));
    lemma_tuple_distinct(f1, f2);
}

/// Applying a rotation commutes with cyclic rotation of a tuple, and cyclic
/// rotations compose additively; hence carrying composes: if `a` carries `f`
/// to `g` and `b` carries `g` to `h`, their composition carries `f` to `h`.
pub proof fn lemma_maps_to_compose(a: CubeRotation, b: CubeRotation, f: Face, g: Face, h: Face)
    requires
        spec_maps_to(a, f, g),
        spec_maps_to(b, g, h),
    ensures
        spec_maps_to(spec_rot_compose(a, b), f, h),
{
    let k1 = choose|k: int| 0 <= k < 4 && spec_apply4(a, spec_tuple(f)) == spec_cyc(spec_tuple(g), k);
    let k2 = choose|k: int| 0 <= k < 4 && spec_apply4(b, spec_tuple(g)) == spec_cyc(spec_tuple(h), k);
    let ab = spec_rot_compose(a, b);
    let k = if k1 + k2 < 4 { k1 + k2 } else { k1 + k2 - 4 };
    assert(spec_apply4(ab, spec_tuple(f)) == spec_apply4(b, spec_apply4(a, spec_tuple(f))));
    assert(spec_apply4(b, spec_cyc(spec_tuple(g), k1)) == spec_cyc(spec_apply4(b, spec_tuple(g)), k1));
    assert(spec_cyc(spec_cyc(spec_tuple(h), k2), k1) == spec_cyc(spec_tuple(h), k));
    assert(spec_apply4(ab, spec_tuple(f)) == spec_cyc(spec_tuple(h), k));
}

/// Composition of well-formed rotations is well formed.
pub proof fn lemma_compose_wf(a: CubeRotation, b: CubeRotation)
    requires
        spec_rot_wf(a),
        spec_rot_wf(b),
    ensures
        spec_rot_wf(spec_rot_compose(a, b)),
{
}

/// The face-permutation derivation is a homomorphism: the permutation of a
/// composed rotation is the composition of the permutations.
pub proof fn lemma_face_perm_homomorphism(a: CubeRotation, b: CubeRotation)
    requires
        spec_rot_wf(a),
        spec_rot_wf(b),
    ensures
        spec_face_perm(spec_rot_compose(a, b))
            == spec_fp_compose(spec_face_perm(a), spec_face_perm(b)),
{
    let ab = spec_rot_compose(a, b);
    lemma_compose_wf(a, b);
    assert forall|f: Face| #[trigger] spec_dest(ab, f) == spec_dest(b, spec_dest(a, f)) by {
        lemma_dest_compose(a, b, f);
    }
}

/// One face's destination under a composed rotation is its destination under
/// the first rotation followed by the second.
proof fn lemma_dest_compose(a: CubeRotation, b: CubeRotation, f: Face)
    requires
        spec_rot_wf(a),
        spec_rot_wf(b),
    ensures
        spec_dest(spec_rot_compose(a, b), f) == spec_dest(b, spec_dest(a, f)),
{
    let ab = spec_rot_compose(a, b);
    lemma_compose_wf(a, b);
    lemma_dest_maps_to(a, f);
    lemma_dest_maps_to(b, spec_dest(a, f));
    lemma_dest_maps_to(ab, f);
    lemma_maps_to_compose(a, b, f, spec_dest(a, f), spec_dest(b, spec_dest(a, f)));
    lemma_maps_to_unique(ab, f, spec_dest(ab, f), spec_dest(b, spec_dest(a, f)));
}

/// The identity rotation derives the identity face permutation.
pub proof fn lemma_face_perm_identity()
    ensures
        spec_face_perm(spec_rot_id()) == spec_fp_id(),
{
    reveal(spec_dest);
}

/// The derived face permutation of a well-formed rotation is injective.
pub proof fn lemma_face_perm_injective(r: CubeRotation, f1: Face, f2: Face)
    requires
        spec_rot_wf(r),
        spec_dest(r, f1) == spec_dest(r, f2),
    ensures
        f1 == f2,
{
    lemma_dest_maps_to(r, f1);
    lemma_dest_maps_to(r, f2);
    lemma_maps_to_injective(r, f1, f2, spec_dest(r, f1));
}

/// Composition of rotations is associative.
pub proof fn lemma_rotation_assoc(a: CubeRotation, b: CubeRotation, c: CubeRotation)
    ensures
        spec_rot_compose(spec_rot_compose(a, b), c) == spec_rot_compose(a, spec_rot_compose(b, c)),
{
}

/// The identity rotation is a left and right identity of composition.
pub proof fn lemma_rotation_identity(a: CubeRotation)
    ensures
        spec_rot_compose(a, spec_rot_id()) == a,
        spec_rot_compose(spec_rot_id(), a) == a,
{
}

/// For a well-formed rotation, the inverse undoes it on both sides, and is
/// itself well formed.
pub proof fn lemma_rotation_inverse(a: CubeRotation)
    requires
        spec_rot_wf(a),
    ensures
        spec_rot_compose(a, spec_rot_inverse(a)) == spec_rot_id(),
        spec_rot_compose(spec_rot_inverse(a), a) == spec_rot_id(),
        spec_rot_wf(spec_rot_inverse(a)),
{
}

impl CubeRotation {
    /// The identity rotation.
    pub fn id() -> (r: CubeRotation)
        ensures
            r == spec_rot_id(),
    {
        CubeRotation {
            urf: CubeDiag::URF,
            ulf: CubeDiag::ULF,
            urb: CubeDiag::URB,
            ulb: CubeDiag::ULB,
        }
    }

    /// The identity rotation, under its multiplicative name.
    pub fn one() -> (r: CubeRotation)
        ensures
            r == spec_rot_id(),
    {
        CubeRotation::id()
    }

    /// The identity rotation, under its group-theory name.
    pub fn e() -> (r: CubeRotation)
        ensures
            r == spec_rot_id(),
    {
        CubeRotation::id()
    }

    /// The image of a diagonal under this rotation.
    pub fn apply(self, d: CubeDiag) -> (r: CubeDiag)
        ensures
            r == spec_rot_apply(self, d),
    {
        match d {
            CubeDiag::URF => self.urf,
            CubeDiag::ULF => self.ulf,
            CubeDiag::URB => self.urb,
            CubeDiag::ULB => self.ulb,
        }
    }

    /// Composes two rotations: apply `self`, then `rhs`.
    pub fn compose(self, rhs: CubeRotation) -> (r: CubeRotation)
        ensures
            r == spec_rot_compose(self, rhs),
    {
        CubeRotation {
            urf: rhs.apply(self.urf),
            ulf: rhs.apply(self.ulf),
            urb: rhs.apply(self.urb),
            ulb: rhs.apply(self.ulb),
        }
    }

    /// The inverse of this rotation: if `self` maps `d` to `e`, the inverse
    /// maps `e` to `d`.
    pub fn inverse(self) -> (r: CubeRotation)
        requires
            spec_rot_wf(self),
        ensures
            r == spec_rot_inverse(self),
            forall|d: CubeDiag| spec_rot_apply(r, #[trigger] spec_rot_apply(self, d)) == d,
    {
        CubeRotation {
            urf: self.preimage(CubeDiag::URF),
            ulf: self.preimage(CubeDiag::ULF),
            urb: self.preimage(CubeDiag::URB),
            ulb: self.preimage(CubeDiag::ULB),
        }
    }

    /// The diagonal that this rotation maps to `d`.
    fn preimage(self, d: CubeDiag) -> (r: CubeDiag)
        ensures
            r == spec_rot_preimage(self, d),
    {
        if self.urf == d {
            CubeDiag::URF
        } else if self.ulf == d {
            CubeDiag::ULF
        } else if self.urb == d {
            CubeDiag::URB
        } else {
            CubeDiag::ULB
        }
    }

    /// 90° rotation about the X axis (the axis through Left and Right).
    pub fn x() -> (r: CubeRotation)
        ensures
            r == spec_x(),
    {
        CubeRotation {
            urf: CubeDiag::URB,
            ulf: CubeDiag::ULB,
            urb: CubeDiag::ULF,
            ulb: CubeDiag::URF,
        }
    }

    /// 180° rotation about the X axis.
    pub fn x2() -> (r: CubeRotation)
        ensures
            r == spec_x2(),
    {
        CubeRotation {
            urf: CubeDiag::ULF,
            ulf: CubeDiag::URF,
            urb: CubeDiag::ULB,
            ulb: CubeDiag::URB,
        }
    }

    /// 270° rotation about the X axis.
    pub fn x3() -> (r: CubeRotation)
        ensures
            r == spec_x3(),
    {
        CubeRotation {
            urf: CubeDiag::ULB,
            ulf: CubeDiag::URB,
            urb: CubeDiag::URF,
            ulb: CubeDiag::ULF,
        }
    }

    /// 90° rotation about the Y axis (the axis through Up and Down).
    pub fn y() -> (r: CubeRotation)
        ensures
            r == spec_y(),
    {
        CubeRotation {
            urf: CubeDiag::ULF,
            ulf: CubeDiag::ULB,
            urb: CubeDiag::URF,
            ulb: CubeDiag::URB,
        }
    }

    /// 180° rotation about the Y axis.
    pub fn y2() -> (r: CubeRotation)
        ensures
            r == spec_y2(),
    {
        CubeRotation {
            urf: CubeDiag::ULB,
            ulf: CubeDiag::URB,
            urb: CubeDiag::ULF,
            ulb: CubeDiag::URF,
        }
    }

    /// 270° rotation about the Y axis.
    pub fn y3() -> (r: CubeRotation)
        ensures
            r == spec_y3(),
    {
        CubeRotation {
            urf: CubeDiag::URB,
            ulf: CubeDiag::URF,
            urb: CubeDiag::ULB,
            ulb: CubeDiag::ULF,
        }
    }

    /// 90° rotation about the Z axis (the axis through Front and Back).
    pub fn z() -> (r: CubeRotation)
        ensures
            r == spec_z(),
    {
        CubeRotation {
            urf: CubeDiag::ULB,
            ulf: CubeDiag::URF,
            urb: CubeDiag::ULF,
            ulb: CubeDiag::URB,
        }
    }

    /// 180° rotation about the Z axis.
    pub fn z2() -> (r: CubeRotation)
        ensures
            r == spec_z2(),
    {
        CubeRotation {
            urf: CubeDiag::URB,
            ulf: CubeDiag::ULB,
            urb: CubeDiag::URF,
            ulb: CubeDiag::ULF,
        }
    }

    /// 270° rotation about the Z axis.
    pub fn z3() -> (r: CubeRotation)
        ensures
            r == spec_z3(),
    {
        CubeRotation {
            urf: CubeDiag::ULF,
            ulf: CubeDiag::URB,
            urb: CubeDiag::ULB,
            ulb: CubeDiag::URF,
        }
    }
}

/// The 90° X rotation as a diagonal permutation.
pub open spec fn spec_x() -> CubeRotation {
    CubeRotation { urf: CubeDiag::URB, ulf: CubeDiag::ULB, urb: CubeDiag::ULF, ulb: CubeDiag::URF }
}

/// The 180° X rotation as a diagonal permutation.
pub open spec fn spec_x2() -> CubeRotation {
    CubeRotation { urf: CubeDiag::ULF, ulf: CubeDiag::URF, urb: CubeDiag::ULB, ulb: CubeDiag::URB }
}

/// The 270° X rotation as a diagonal permutation.
pub open spec fn spec_x3() -> CubeRotation {
    CubeRotation { urf: CubeDiag::ULB, ulf: CubeDiag::URB, urb: CubeDiag::URF, ulb: CubeDiag::ULF }
}

/// The 90° Y rotation as a diagonal permutation.
pub open spec fn spec_y() -> CubeRotation {
    CubeRotation { urf: CubeDiag::ULF, ulf: CubeDiag::ULB, urb: CubeDiag::URF, ulb: CubeDiag::URB }
}

/// The 180° Y rotation as a diagonal permutation.
pub open spec fn spec_y2() -> CubeRotation {
    CubeRotation { urf: CubeDiag::ULB, ulf: CubeDiag::URB, urb: CubeDiag::ULF, ulb: CubeDiag::URF }
}

/// The 270° Y rotation as a diagonal permutation.
pub open spec fn spec_y3() -> CubeRotation {
    CubeRotation { urf: CubeDiag::URB, ulf: CubeDiag::URF, urb: CubeDiag::ULB, ulb: CubeDiag::ULF }
}

/// The 90° Z rotation as a diagonal permutation.
pub open spec fn spec_z() -> CubeRotation {
    CubeRotation { urf: CubeDiag::ULB, ulf: CubeDiag::URF, urb: CubeDiag::ULF, ulb: CubeDiag::URB }
}

/// The 180° Z rotation as a diagonal permutation.
pub open spec fn spec_z2() -> CubeRotation {
    CubeRotation { urf: CubeDiag::URB, ulf: CubeDiag::ULB, urb: CubeDiag::URF, ulb: CubeDiag::ULF }
}

/// The 270° Z rotation as a diagonal permutation.
pub open spec fn spec_z3() -> CubeRotation {
    CubeRotation { urf: CubeDiag::ULF, ulf: CubeDiag::URB, urb: CubeDiag::ULB, ulb: CubeDiag::URF }
}

/// Each 90° generator has order exactly four, and its inverse equals its
/// cube.
pub proof fn lemma_generator_order_four()
    ensures
        spec_rot_compose(spec_rot_compose(spec_rot_compose(spec_x(), spec_x()), spec_x()), spec_x()) == spec_rot_id(),
        spec_rot_compose(spec_rot_compose(spec_x(), spec_x()), spec_x()) != spec_rot_id(),
        spec_rot_compose(spec_x(), spec_x()) != spec_rot_id(),
        spec_x() != spec_rot_id(),
        spec_rot_inverse(spec_x()) == spec_rot_compose(spec_rot_compose(spec_x(), spec_x()), spec_x()),
        spec_rot_compose(spec_rot_compose(spec_rot_compose(spec_y(), spec_y()), spec_y()), spec_y()) == spec_rot_id(),
        spec_rot_compose(spec_rot_compose(spec_y(), spec_y()), spec_y()) != spec_rot_id(),
        spec_rot_compose(spec_y(), spec_y()) != spec_rot_id(),
        spec_y() != spec_rot_id(),
        spec_rot_inverse(spec_y()) == spec_rot_compose(spec_rot_compose(spec_y(), spec_y()), spec_y()),
        spec_rot_compose(spec_rot_compose(spec_rot_compose(spec_z(), spec_z()), spec_z()), spec_z()) == spec_rot_id(),
        spec_rot_compose(spec_rot_compose(spec_z(), spec_z()), spec_z()) != spec_rot_id(),
        spec_rot_compose(spec_z(), spec_z()) != spec_rot_id(),
        spec_z() != spec_rot_id(),
        spec_rot_inverse(spec_z()) == spec_rot_compose(spec_rot_compose(spec_z(), spec_z()), spec_z()),
{
}

/// The named generator constants are well-formed rotations.
pub proof fn lemma_generators_wf()
    ensures
        spec_rot_wf(spec_rot_id()),
        spec_rot_wf(spec_x()),
        spec_rot_wf(spec_x2()),
        spec_rot_wf(spec_x3()),
        spec_rot_wf(spec_y()),
        spec_rot_wf(spec_y2()),
        spec_rot_wf(spec_y3()),
        spec_rot_wf(spec_z()),
        spec_rot_wf(spec_z2()),
        spec_rot_wf(spec_z3()),
{
}

impl FacePerm {
    /// The image of a face under this permutation.
    pub fn apply(self, f: Face) -> (r: Face)
        ensures
            r == spec_fp_apply(self, f),
    {
        match f {
            Face::Up => self.up,
            Face::Down => self.down,
            Face::Left => self.left,
            Face::Right => self.right,
            Face::Front => self.front,
            Face::Back => self.back,
        }
    }

    /// Composes two face permutations: apply `self`, then `rhs`.
    pub fn compose(self, rhs: FacePerm) -> (r: FacePerm)
        ensures
            r == spec_fp_compose(self, rhs),
    {
        FacePerm {
            up: rhs.apply(self.up),
            down: rhs.apply(self.down),
            left: rhs.apply(self.left),
            right: rhs.apply(self.right),
            front: rhs.apply(self.front),
            back: rhs.apply(self.back),
        }
    }

    /// The inverse of this face permutation: maps each image back to its
    /// source.
    pub fn inverse(self) -> (r: FacePerm)
        ensures
            r == spec_fp_inverse(self),
    {
        FacePerm {
            up: self.preimage(Face::Up),
            down: self.preimage(Face::Down),
            left: self.preimage(Face::Left),
            right: self.preimage(Face::Right),
            front: self.preimage(Face::Front),
            back: self.preimage(Face::Back),
        }
    }

    /// The face that this permutation maps to `f`.
    fn preimage(self, f: Face) -> (r: Face)
        ensures
            r == spec_fp_preimage(self, f),
    {
        if self.up == f {
            Face::Up
        } else if self.down == f {
            Face::Down
        } else if self.left == f {
            Face::Left
        } else if self.right == f {
            Face::Right
        } else if self.front == f {
            Face::Front
        } else {
            Face::Back
        }
    }

    /// Derives the face permutation of a rotation: for each face, apply the
    /// rotation to the face's canonical diagonal frame, cyclically normalise
    /// the images so ULF comes first, and match the remaining triple against
    /// the faces' canonical orderings.
    pub fn from_rotation(rotation: CubeRotation) -> (r: FacePerm)
        requires
            spec_rot_wf(rotation),
        ensures
            r == spec_face_perm(rotation),
            forall|f: Face| spec_maps_to(rotation, f, #[trigger] spec_fp_apply(r, f)),
    {
        let r = FacePerm {
            up: Self::dest(rotation, Face::Up),
            down: Self::dest(rotation, Face::Down),
            left: Self::dest(rotation, Face::Left),
            right: Self::dest(rotation, Face::Right),
            front: Self::dest(rotation, Face::Front),
            back: Self::dest(rotation, Face::Back),
        };
        proof {
            assert forall|f: Face| spec_maps_to(rotation, f, #[trigger] spec_fp_apply(r, f)) by {
                lemma_dest_maps_to(rotation, f);
            }
        }
        r
    }

    /// One face's destination under the derivation.
    fn dest(rotation: CubeRotation, face: Face) -> (r: Face)
        requires
            spec_rot_wf(rotation),
        ensures
            r == spec_dest(rotation, face),
    {
        let (d2, d3, d4) = face.diag_orientation_following_ulf();
        let m0 = rotation.apply(CubeDiag::ULF);
        let m1 = rotation.apply(d2);
        let m2 = rotation.apply(d3);
        let m3 = rotation.apply(d4);
        let (e2, e3, e4) = if m0 == CubeDiag::ULF {
            (m1, m2, m3)
        } else if m1 == CubeDiag::ULF {
            (m2, m3, m0)
        } else if m2 == CubeDiag::ULF {
            (m3, m0, m1)
        } else {
            (m0, m1, m2)
        };
        proof {
            reveal(spec_dest);
            lemma_derivation_total(rotation, face);
        }
        match Self::face_of_triple(e2, e3, e4) {
            Some(g) => g,
            None => {
                proof {
                    assert(false);
                }
                Face::Up
            },
        }
    }

    /// The face whose canonical diagonal ordering equals the given triple,
    /// if any.
    fn face_of_triple(e2: CubeDiag, e3: CubeDiag, e4: CubeDiag) -> (r: Option<Face>)
        ensures
            r == spec_face_of_triple((e2, e3, e4)),
    {
        let up = Face::Up.diag_orientation_following_ulf();
        let down = Face::Down.diag_orientation_following_ulf();
        let left = Face::Left.diag_orientation_following_ulf();
        let right = Face::Right.diag_orientation_following_ulf();
        let front = Face::Front.diag_orientation_following_ulf();
        let back = Face::Back.diag_orientation_following_ulf();
        if e2 == up.0 && e3 == up.1 && e4 == up.2 {
            Some(Face::Up)
        } else if e2 == down.0 && e3 == down.1 && e4 == down.2 {
            Some(Face::Down)
        } else if e2 == left.0 && e3 == left.1 && e4 == left.2 {
            Some(Face::Left)
        } else if e2 == right.0 && e3 == right.1 && e4 == right.2 {
            Some(Face::Right)
        } else if e2 == front.0 && e3 == front.1 && e4 == front.2 {
            Some(Face::Front)
        } else if e2 == back.0 && e3 == back.1 && e4 == back.2 {
            Some(Face::Back)
        } else {
            None
        }
    }
}

} // verus!
