//! The coloured state of an n×n×n cube, application of tile permutations to
//! it, and the solved-state checks.
//!
//! Applying a permutation uses a "pull" read: the new colour at position `p`
//! is the old colour at the inverse image of `p`. This keeps composition and
//! application consistent: composing permutations and applying once equals
//! applying them one after the other.

use vstd::prelude::*;
use crate::Colour;
use crate::geometry::{Face, spec_face_index, spec_face_from_index};
use crate::rotations::{spec_rot_compose, spec_rot_id, spec_x, spec_x3, spec_y, spec_z, spec_z3, CubeRotation};
use crate::rotations::{lemma_generators_wf, lemma_compose_wf};
use crate::schemes::{ColourPerm, ColourScheme, spec_scheme_face, spec_scheme_get_face, spec_scheme_rotated};
use crate::tiles::{TilePos, TilePerm, spec_pos_valid, spec_pos_at_index, spec_inverts, lemma_index_join, lemma_index_split, lemma_at_valid};

verus! {

/// The colours of one face, in row-major order.
#[derive(Clone, Debug, PartialEq, Eq)]
pub struct FaceState {
    /// The cube dimension.
    pub n: usize,
    /// The tile colours, in row-major order; length n².
    pub vals: Vec<Colour>,
}

impl FaceState {
    /// Shape invariant: n² colours.
    pub open spec fn wf(self) -> bool {
        &&& self.n * self.n <= usize::MAX
        &&& self.vals@.len() == self.n * self.n
    }

    /// A face showing one colour on every tile.
    pub fn flat(colour: Colour, n: usize) -> (r: FaceState)
        requires
            n * n <= usize::MAX,
        ensures
            r.wf(),
            r.n == n,
            forall|j: int| 0 <= j < r.vals@.len() ==> #[trigger] r.vals@[j] == colour,
    {
        let nn = n * n;
        let mut vals: Vec<Colour> = Vec::new();
        let mut k: usize = 0;
        while k < nn
            invariant
                k <= nn,
                vals@.len() == k,
                forall|j: int| 0 <= j < k ==> #[trigger] vals@[j] == colour,
            decreases nn - k,
        {
            vals.push(colour);
            k += 1;
        }
        FaceState { n, vals }
    }
}

/// The complete colour state of an n×n×n cube, one [`FaceState`] per face.
#[derive(Clone, Debug, PartialEq, Eq)]
pub struct RubiksState {
    /// The cube dimension.
    pub n: usize,
    /// The Up face.
    pub up: FaceState,
    /// The Down face.
    pub down: FaceState,
    /// The Left face.
    pub left: FaceState,
    /// The Right face.
    pub right: FaceState,
    /// The Front face.
    pub front: FaceState,
    /// The Back face.
    pub back: FaceState,
}

impl RubiksState {
    /// The state of one face.
    pub open spec fn spec_face_state(self, f: Face) -> FaceState {
        match f {
            Face::Up => self.up,
            Face::Down => self.down,
            Face::Left => self.left,
            Face::Right => self.right,
            Face::Front => self.front,
            Face::Back => self.back,
        }
    }

    /// The colour shown at a tile position.
    pub open spec fn spec_colour_at(self, p: TilePos) -> Colour {
        self.spec_face_state(p.face).vals@[p.row * self.n + p.col]
    }

    /// Shape invariant: six well-formed faces of dimension n.
    pub open spec fn wf(self) -> bool {
        &&& self.up.wf() && self.up.n == self.n
        &&& self.down.wf() && self.down.n == self.n
        &&& self.left.wf() && self.left.n == self.n
        &&& self.right.wf() && self.right.n == self.n
        &&& self.front.wf() && self.front.n == self.n
        &&& self.back.wf() && self.back.n == self.n
    }

    /// The state shows, at every position, the colour the scheme assigns to
    /// that position's face.
    pub open spec fn spec_is_solved_in(self, cp: ColourPerm) -> bool {
        forall|p: TilePos|
            spec_pos_valid(p, self.n as int)
                ==> #[trigger] self.spec_colour_at(p) == spec_scheme_face(cp, p.face)
    }

    /// The state of the given face.
    pub fn face_state(&self, face: Face) -> (r: &FaceState)
        ensures
            *r == self.spec_face_state(face),
    {
        match face {
            Face::Up => &self.up,
            Face::Down => &self.down,
            Face::Left => &self.left,
            Face::Right => &self.right,
            Face::Front => &self.front,
            Face::Back => &self.back,
        }
    }

    /// The colour shown at a tile position.
    pub fn colour_at(&self, p: TilePos) -> (r: Colour)
        requires
            self.wf(),
            spec_pos_valid(p, self.n as int),
        ensures
            r == self.spec_colour_at(p),
    {
        proof {
            lemma_index_join(p.row as int, p.col as int, self.n as int);
        }
        let idx = p.row * self.n + p.col;
        match p.face {
            Face::Up => self.up.vals[idx],
            Face::Down => self.down.vals[idx],
            Face::Left => self.left.vals[idx],
            Face::Right => self.right.vals[idx],
            Face::Front => self.front.vals[idx],
            Face::Back => self.back.vals[idx],
        }
    }

    /// The solved state of a colour scheme: every tile of every face shows
    /// the scheme's colour for that face.
    pub fn solved_in<Scheme: ColourScheme>(scheme: Scheme, n: usize) -> (r: RubiksState)
        requires
            n * n <= usize::MAX,
        ensures
            r.wf(),
            r.n == n,
            r.spec_is_solved_in(scheme.model()),
    {
        let r = RubiksState {
            n,
            up: FaceState::flat(scheme.up(), n),
            down: FaceState::flat(scheme.down(), n),
            left: FaceState::flat(scheme.left(), n),
            right: FaceState::flat(scheme.right(), n),
            front: FaceState::flat(scheme.front(), n),
            back: FaceState::flat(scheme.back(), n),
        };
        proof {
            assert forall|p: TilePos|
                spec_pos_valid(p, n as int)
                    implies #[trigger] r.spec_colour_at(p) == spec_scheme_face(scheme.model(), p.face) by {
                lemma_index_join(p.row as int, p.col as int, n as int);
            }
        }
        r
    }

    /// Whether the cube is solved in the given scheme, in the scheme's exact
    /// orientation.
    pub fn is_solved_in<Scheme: ColourScheme>(&self, scheme: Scheme) -> (r: bool)
        requires
            self.wf(),
        ensures
            r == self.spec_is_solved_in(scheme.model()),
    {
        let n = self.n;
        let mut fi: usize = 0;
        while fi < 6
            invariant
                self.wf(),
                n == self.n,
                fi <= 6,
                forall|p: TilePos|
                    spec_pos_valid(p, n as int) && spec_face_index(p.face) < fi
                        ==> #[trigger] self.spec_colour_at(p) == spec_scheme_face(scheme.model(), p.face),
            decreases 6 - fi,
        {
            let face = Face::from_index(fi);
            let target = scheme.from_face(face);
            let nn = n * n;
            let mut k: usize = 0;
            while k < nn
                invariant
                    self.wf(),
                    n == self.n,
                    fi < 6,
                    face == spec_face_from_index(fi as int),
                    spec_face_index(face) == fi,
                    target == spec_scheme_face(scheme.model(), face),
                    nn == n * n,
                    k <= nn,
                    forall|p: TilePos|
                        spec_pos_valid(p, n as int) && spec_face_index(p.face) < fi
                            ==> #[trigger] self.spec_colour_at(p) == spec_scheme_face(scheme.model(), p.face),
                    forall|p: TilePos|
                        spec_pos_valid(p, n as int) && p.face == face && p.row * n + p.col < k
                            ==> #[trigger] self.spec_colour_at(p) == spec_scheme_face(scheme.model(), p.face),
                decreases nn - k,
            {
                proof {
                    lemma_index_split(k as int, n as int);
                }
                let row = k / n;
                let col = k % n;
                let p = TilePos { face, row, col };
                if self.colour_at(p) != target {
                    proof {
                        assert(self.spec_colour_at(p) != spec_scheme_face(scheme.model(), p.face));
                    }
                    return false;
                }
                proof {
                    assert forall|q: TilePos|
                        spec_pos_valid(q, n as int) && q.face == face && q.row * n + q.col < k + 1
                            implies #[trigger] self.spec_colour_at(q) == spec_scheme_face(scheme.model(), q.face) by {
                        lemma_index_join(q.row as int, q.col as int, n as int);
                        lemma_index_join(row as int, col as int, n as int);
                    }
                }
                k += 1;
            }
            proof {
                assert forall|p: TilePos|
                    spec_pos_valid(p, n as int) && spec_face_index(p.face) < fi + 1
                        implies #[trigger] self.spec_colour_at(p) == spec_scheme_face(scheme.model(), p.face) by {
                    if spec_face_index(p.face) == fi {
                        lemma_index_join(p.row as int, p.col as int, n as int);
                    }
                }
            }
            fi += 1;
        }
        true
    }

    /// The scheme read off this cube's top-left corner tiles.
    pub open spec fn spec_corner_scheme(self) -> ColourPerm {
        ColourPerm {
            up: self.up.vals@[0],
            down: self.down.vals@[0],
            left: self.left.vals@[0],
            right: self.right.vals@[0],
            front: self.front.vals@[0],
            back: self.back.vals@[0],
        }
    }

    /// Whether the cube is solved in the scheme its own corner tiles define:
    /// every face shows a single colour. A 0×0×0 cube counts as solved.
    pub open spec fn spec_is_solved(self) -> bool {
        if self.n == 0 {
            true
        } else {
            self.spec_is_solved_in(self.spec_corner_scheme())
        }
    }

    /// Whether the cube is solved in the colour configuration it currently
    /// shows, whatever that configuration is.
    pub fn is_solved(&self) -> (r: bool)
        requires
            self.wf(),
        ensures
            r == self.spec_is_solved(),
    {
        if self.n == 0 {
            true
        } else {
            proof {
                lemma_index_join(0, 0, self.n as int);
            }
            let zero = TilePos { face: Face::Up, row: 0, col: 0 };
            let custom_scheme = ColourPerm {
                up: self.colour_at(TilePos { face: Face::Up, row: 0, col: 0 }),
                down: self.colour_at(TilePos { face: Face::Down, row: 0, col: 0 }),
                left: self.colour_at(TilePos { face: Face::Left, row: 0, col: 0 }),
                right: self.colour_at(TilePos { face: Face::Right, row: 0, col: 0 }),
                front: self.colour_at(TilePos { face: Face::Front, row: 0, col: 0 }),
                back: self.colour_at(TilePos { face: Face::Back, row: 0, col: 0 }),
            };
            self.is_solved_in(custom_scheme)
        }
    }

    /// The rotation that brings the scheme face carrying the cube's top
    /// colour onto the Up face.
    pub open spec fn spec_top_alignment(scheme_side: Face) -> CubeRotation {
        match scheme_side {
            Face::Up => spec_rot_id(),
            Face::Down => spec_rot_compose(spec_x(), spec_x()),
            Face::Left => spec_z(),
            Face::Right => spec_z3(),
            Face::Front => spec_x(),
            Face::Back => spec_x3(),
        }
    }

    /// Whether the cube is solved in some whole-cube rotation of the given
    /// scheme, decided by the two-step orientation algorithm: first align
    /// the scheme to the cube's top colour, then to its front colour, then
    /// check the exact orientation.
    pub open spec fn spec_is_solved_up_to_rotation_in(self, cp: ColourPerm) -> bool {
        if self.n == 0 {
            true
        } else {
            let top_colour = self.spec_colour_at(TilePos { face: Face::Up, row: 0, col: 0 });
            match spec_scheme_get_face(cp, top_colour) {
                None => false,
                Some(scheme_side) => {
                    let first = spec_scheme_rotated(cp, Self::spec_top_alignment(scheme_side));
                    let front_colour = self.spec_colour_at(TilePos { face: Face::Front, row: 0, col: 0 });
                    match spec_scheme_get_face(first, front_colour) {
                        None => false,
                        Some(front_side) => match front_side {
                            Face::Front => self.spec_is_solved_in(first),
                            Face::Back => self.spec_is_solved_in(spec_scheme_rotated(first, spec_rot_compose(spec_y(), spec_y()))),
                            Face::Left => self.spec_is_solved_in(spec_scheme_rotated(first, crate::rotations::spec_y3())),
                            Face::Right => self.spec_is_solved_in(spec_scheme_rotated(first, spec_y())),
                            _ => false,
                        },
                    }
                },
            }
        }
    }

    /// Whether the cube is solved in the given scheme, allowing any of the
    /// 24 whole-cube orientations.
    pub fn is_solved_up_to_rotation_in<Scheme: ColourScheme>(&self, scheme: Scheme) -> (r: bool)
        requires
            self.wf(),
        ensures
            r == self.spec_is_solved_up_to_rotation_in(scheme.model()),
    {
        if self.n == 0 {
            return true;
        }
        proof {
            lemma_index_join(0, 0, self.n as int);
            lemma_generators_wf();
            lemma_compose_wf(spec_x(), spec_x());
            lemma_compose_wf(spec_y(), spec_y());
        }
        let top_colour = self.colour_at(TilePos { face: Face::Up, row: 0, col: 0 });
        match scheme.get_face(top_colour) {
            None => false,
            Some(scheme_side) => {
                let first_rotation = match scheme_side {
                    Face::Up => CubeRotation::id(),
                    Face::Down => CubeRotation::x().compose(CubeRotation::x()),
                    Face::Left => CubeRotation::z(),
                    Face::Right => CubeRotation::z3(),
                    Face::Front => CubeRotation::x(),
                    Face::Back => CubeRotation::x3(),
                };
                let first_edit_scheme = scheme.rotated(first_rotation);
                let front_colour = self.colour_at(TilePos { face: Face::Front, row: 0, col: 0 });
                match first_edit_scheme.get_face(front_colour) {
                    None => false,
                    Some(front_side) => match front_side {
                        Face::Front => self.is_solved_in(first_edit_scheme),
                        Face::Back => self.is_solved_in(
                            first_edit_scheme.rotated(CubeRotation::y().compose(CubeRotation::y())),
                        ),
                        Face::Left => self.is_solved_in(first_edit_scheme.rotated(CubeRotation::y3())),
                        Face::Right => self.is_solved_in(first_edit_scheme.rotated(CubeRotation::y())),
                        _ => false,
                    },
                }
            },
        }
    }
}

impl TilePerm {
    /// Applies this permutation to a cube state: the tile at `p` moves to
    /// `self.apply(p)`, carrying its colour along.
    pub fn on(&self, cube: &RubiksState) -> (r: RubiksState)
        requires
            self.wf(),
            self.injective(),
            cube.wf(),
            cube.n == self.n,
        ensures
            r.wf(),
            r.n == self.n,
            forall|p: TilePos|
                spec_pos_valid(p, self.n as int)
                    ==> r.spec_colour_at(#[trigger] self.spec_at(p)) == cube.spec_colour_at(p),
    {
        let n = self.n;
        let perm_inverse = self.inverse();
        let r = RubiksState {
            n,
            up: Self::pull_face(cube, &perm_inverse, Face::Up),
            down: Self::pull_face(cube, &perm_inverse, Face::Down),
            left: Self::pull_face(cube, &perm_inverse, Face::Left),
            right: Self::pull_face(cube, &perm_inverse, Face::Right),
            front: Self::pull_face(cube, &perm_inverse, Face::Front),
            back: Self::pull_face(cube, &perm_inverse, Face::Back),
        };
        proof {
            assert forall|p: TilePos|
                spec_pos_valid(p, n as int)
                    implies r.spec_colour_at(#[trigger] self.spec_at(p)) == cube.spec_colour_at(p) by {
                lemma_at_valid(*self, p);
                let q = self.spec_at(p);
                lemma_index_join(q.row as int, q.col as int, n as int);
            }
        }
        r
    }

    /// One face of the pulled-back state: each tile reads its colour from
    /// the inverse image of its position.
    fn pull_face(cube: &RubiksState, inverse: &TilePerm, face: Face) -> (g: FaceState)
        requires
            cube.wf(),
            inverse.wf(),
            inverse.n == cube.n,
        ensures
            g.wf(),
            g.n == cube.n,
            forall|j: int|
                0 <= j < g.vals@.len()
                    ==> #[trigger] g.vals@[j] == cube.spec_colour_at(
                        inverse.spec_at(spec_pos_at_index(face, j, cube.n as int)),
                    ),
    {
        let n = cube.n;
        let nn = n * n;
        let mut vals: Vec<Colour> = Vec::new();
        let mut k: usize = 0;
        while k < nn
            invariant
                cube.wf(),
                inverse.wf(),
                inverse.n == cube.n,
                n == cube.n,
                nn == n * n,
                k <= nn,
                vals@.len() == k,
                forall|j: int|
                    0 <= j < k
                        ==> #[trigger] vals@[j] == cube.spec_colour_at(
                            inverse.spec_at(spec_pos_at_index(face, j, n as int)),
                        ),
            decreases nn - k,
        {
            proof {
                lemma_index_split(k as int, n as int);
            }
            let row = k / n;
            let col = k % n;
            let src = inverse.apply(TilePos { face, row, col });
            vals.push(cube.colour_at(src));
            k += 1;
        }
        FaceState { n, vals }
    }
}

/// Applying two permutations one after the other changes a state as
/// applying their composition once: at the destination of every tile, the
/// state reached in two steps and the state reached in one agree. The "pull"
/// rule of application matches the "apply-then" convention of composition.
pub proof fn lemma_apply_then_compose(
    a: TilePerm,
    b: TilePerm,
    c: TilePerm,
    s: RubiksState,
    s1: RubiksState,
    s2: RubiksState,
    t: RubiksState,
)
    requires
        a.wf(),
        b.wf(),
        a.n == b.n,
        c.n == a.n,
        s.n == a.n,
        s1.n == a.n,
        s2.n == a.n,
        t.n == a.n,
        forall|p: TilePos| spec_pos_valid(p, a.n as int) ==> #[trigger] c.spec_at(p) == crate::tiles::spec_compose_at(a, b, p),
        forall|p: TilePos| spec_pos_valid(p, a.n as int) ==> s1.spec_colour_at(#[trigger] a.spec_at(p)) == s.spec_colour_at(p),
        forall|p: TilePos| spec_pos_valid(p, a.n as int) ==> s2.spec_colour_at(#[trigger] b.spec_at(p)) == s1.spec_colour_at(p),
        forall|p: TilePos| spec_pos_valid(p, a.n as int) ==> t.spec_colour_at(#[trigger] c.spec_at(p)) == s.spec_colour_at(p),
    ensures
        forall|p: TilePos| spec_pos_valid(p, a.n as int) ==> t.spec_colour_at(#[trigger] c.spec_at(p)) == s2.spec_colour_at(c.spec_at(p)),
{
    assert forall|p: TilePos|
        spec_pos_valid(p, a.n as int)
            implies t.spec_colour_at(#[trigger] c.spec_at(p)) == s2.spec_colour_at(c.spec_at(p)) by {
        lemma_at_valid(a, p);
        assert(s2.spec_colour_at(b.spec_at(a.spec_at(p))) == s1.spec_colour_at(a.spec_at(p)));
        assert(s1.spec_colour_at(a.spec_at(p)) == s.spec_colour_at(p));
    }
}

} // verus!

