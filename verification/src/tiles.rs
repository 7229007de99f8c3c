//! Tile positions and the full tile-permutation group of an n×n×n cube.
//!
//! A [`TilePerm`] maps every one of the 6·n² tile positions to a position.
//! Composition follows cubing convention (`a.compose(b)` applies `a`, then
//! `b`), and the inverse maps every destination back to its source. The
//! conversion from a whole-cube rotation places each face's grid onto the
//! destination face given by the derived face permutation, rotated by the
//! angle read off the principal diagonals.

use vstd::prelude::*;
use vstd::arithmetic::div_mod::{lemma_fundamental_div_mod, lemma_fundamental_div_mod_converse};
use crate::Angle;
use crate::{spec_rotate_indices, spec_angle_minus};
use crate::geometry::{Face, CubeDiag, spec_face_index, spec_face_from_index, spec_principal_diag, spec_diag_orientation};
use crate::rotations::{CubeRotation, FacePerm, spec_rot_wf, spec_rot_apply, spec_dest, spec_face_perm, lemma_face_perm_injective};

verus! {

/// The position of one tile: a face and coordinates within that face's grid,
/// `(0, 0)` being the face's top-left corner.
#[derive(Clone, Copy, Debug, PartialEq, Eq, Structural)]
pub struct TilePos {
    /// The face the tile is on.
    pub face: Face,
    /// Row within the face, from 0 at the top.
    pub row: usize,
    /// Column within the face, from 0 at the left.
    pub col: usize,
}

/// A position is valid on an n×n×n cube when its coordinates are below n.
pub open spec fn spec_pos_valid(p: TilePos, n: int) -> bool {
    p.row < n && p.col < n
}

/// Flat row-major index arithmetic: joining row and column into one index
/// stays below n² and is undone by division and remainder.
pub proof fn lemma_index_join(r: int, c: int, n: int)
    requires
        0 < n,
        0 <= r < n,
        0 <= c < n,
    ensures
        0 <= r * n + c < n * n,
        (r * n + c) / n == r,
        (r * n + c) % n == c,
{
    assert(0 <= r * n + c < n * n) by (nonlinear_arith)
        requires
            0 < n,
            0 <= r < n,
            0 <= c < n,
    ;
    lemma_fundamental_div_mod_converse(r * n + c, n, r, c);
}

/// Flat row-major index arithmetic: any index below n² splits into a row and
/// a column below n.
pub proof fn lemma_index_split(k: int, n: int)
    requires
        0 < n,
        0 <= k < n * n,
    ensures
        0 <= k / n < n,
        0 <= k % n < n,
        k == (k / n) * n + (k % n),
{
    lemma_fundamental_div_mod(k, n);
    vstd::arithmetic::div_mod::lemma_mod_pos_bound(k, n);
    let q = k / n;
    let m = k % n;
    vstd::arithmetic::mul::lemma_mul_is_commutative(n, q);
    assert(0 <= q < n) by (nonlinear_arith)
        requires
            0 < n,
            0 <= k < n * n,
            k == n * q + m,
            0 <= m < n,
    ;
}

/// The grid of one face of a tile permutation: entry `row * n + col` is the
/// destination of the tile at `(row, col)`.
#[derive(Clone, Debug, PartialEq, Eq)]
pub struct TileGrid {
    /// The cube dimension.
    pub n: usize,
    /// The destinations, in row-major order; length n².
    pub vals: Vec<TilePos>,
}

impl TileGrid {
    /// Shape and range invariant: n² entries, all of them valid positions.
    pub open spec fn wf(self) -> bool {
        &&& self.n * self.n <= usize::MAX
        &&& self.vals@.len() == self.n * self.n
        &&& forall|j: int| 0 <= j < self.vals@.len() ==> spec_pos_valid(#[trigger] self.vals@[j], self.n as int)
    }
}

/// The position a flat grid index stands for.
pub open spec fn spec_pos_at_index(face: Face, k: int, n: int) -> TilePos {
    TilePos { face, row: (k / n) as usize, col: (k % n) as usize }
}

/// A permutation of all 6·n² tile positions, one grid per face.
#[derive(Clone, Debug, PartialEq, Eq)]
pub struct TilePerm {
    /// The cube dimension.
    pub n: usize,
    /// Destinations of the Up face's tiles.
    pub up: TileGrid,
    /// Destinations of the Down face's tiles.
    pub down: TileGrid,
    /// Destinations of the Left face's tiles.
    pub left: TileGrid,
    /// Destinations of the Right face's tiles.
    pub right: TileGrid,
    /// Destinations of the Front face's tiles.
    pub front: TileGrid,
    /// Destinations of the Back face's tiles.
    pub back: TileGrid,
}

impl TilePerm {
    /// The grid holding the destinations of the given face's tiles.
    pub open spec fn spec_grid(self, f: Face) -> TileGrid {
        match f {
            Face::Up => self.up,
            Face::Down => self.down,
            Face::Left => self.left,
            Face::Right => self.right,
            Face::Front => self.front,
            Face::Back => self.back,
        }
    }

    /// The destination of a tile position under this permutation.
    pub open spec fn spec_at(self, p: TilePos) -> TilePos {
        self.spec_grid(p.face).vals@[p.row * self.n + p.col]
    }

    /// Shape and range invariant: six well-formed grids of dimension n.
    pub open spec fn wf(self) -> bool {
        &&& self.up.wf() && self.up.n == self.n
        &&& self.down.wf() && self.down.n == self.n
        &&& self.left.wf() && self.left.n == self.n
        &&& self.right.wf() && self.right.n == self.n
        &&& self.front.wf() && self.front.n == self.n
        &&& self.back.wf() && self.back.n == self.n
    }

    /// No two positions share a destination.
    pub open spec fn injective(self) -> bool {
        forall|p1: TilePos, p2: TilePos|
            spec_pos_valid(p1, self.n as int) && spec_pos_valid(p2, self.n as int)
                && #[trigger] self.spec_at(p1) == #[trigger] self.spec_at(p2) ==> p1 == p2
    }
}

/// The destination of any valid position under a well-formed permutation is
/// itself valid.
pub proof fn lemma_at_valid(tp: TilePerm, p: TilePos)
    requires
        tp.wf(),
        spec_pos_valid(p, tp.n as int),
    ensures
        spec_pos_valid(tp.spec_at(p), tp.n as int),
{
    lemma_index_join(p.row as int, p.col as int, tp.n as int);
}

/// Composition of permutations, pointwise: apply `a`, then `b`.
pub open spec fn spec_compose_at(a: TilePerm, b: TilePerm, p: TilePos) -> TilePos {
    b.spec_at(a.spec_at(p))
}

/// `b` inverts `a`: following `a` and then `b` returns every valid position
/// to itself.
pub open spec fn spec_inverts(a: TilePerm, b: TilePerm) -> bool {
    &&& a.n == b.n
    &&& forall|p: TilePos| spec_pos_valid(p, a.n as int) ==> b.spec_at(#[trigger] a.spec_at(p)) == p
}

impl TilePerm {
    /// The identity permutation: every tile stays in place.
    pub fn identity(n: usize) -> (r: TilePerm)
        requires
            n * n <= usize::MAX,
        ensures
            r.wf(),
            r.n == n,
            forall|p: TilePos| spec_pos_valid(p, n as int) ==> #[trigger] r.spec_at(p) == p,
            r.injective(),
    {
        let r = TilePerm {
            n,
            up: Self::identity_grid(Face::Up, n),
            down: Self::identity_grid(Face::Down, n),
            left: Self::identity_grid(Face::Left, n),
            right: Self::identity_grid(Face::Right, n),
            front: Self::identity_grid(Face::Front, n),
            back: Self::identity_grid(Face::Back, n),
        };
        proof {
            assert forall|p: TilePos| spec_pos_valid(p, n as int) implies #[trigger] r.spec_at(p) == p by {
                lemma_index_join(p.row as int, p.col as int, n as int);
            }
        }
        r
    }

    /// One face's grid of the identity permutation.
    fn identity_grid(face: Face, n: usize) -> (g: TileGrid)
        requires
            n * n <= usize::MAX,
        ensures
            g.wf(),
            g.n == n,
            forall|j: int| 0 <= j < g.vals@.len() ==> #[trigger] g.vals@[j] == spec_pos_at_index(face, j, n as int),
    {
        let nn = n * n;
        let mut vals: Vec<TilePos> = Vec::new();
        let mut k: usize = 0;
        while k < nn
            invariant
                nn == n * n,
                n * n <= usize::MAX,
                k <= nn,
                vals@.len() == k,
                forall|j: int| 0 <= j < k ==> #[trigger] vals@[j] == spec_pos_at_index(face, j, n as int),
                forall|j: int| 0 <= j < k ==> spec_pos_valid(#[trigger] vals@[j], n as int),
            decreases nn - k,
        {
            proof {
                lemma_index_split(k as int, n as int);
            }
            let row = k / n;
            let col = k % n;
            vals.push(TilePos { face, row, col });
            k += 1;
        }
        TileGrid { n, vals }
    }

    /// The destination of a tile under this permutation.
    pub fn apply(&self, p: TilePos) -> (r: TilePos)
        requires
            self.wf(),
            spec_pos_valid(p, self.n as int),
        ensures
            r == self.spec_at(p),
            spec_pos_valid(r, self.n as int),
    {
        proof {
            lemma_index_join(p.row as int, p.col as int, self.n as int);
        }
        let idx = p.row * self.n + p.col;
        match p.face {
            Face::Up => self.up.vals[idx],
            Face::Down => self.down.vals[idx],
            Face::Left => self.left.vals[idx],
            Face::Right => self.right.vals[idx],
            Face::Front => self.front.vals[idx],
            Face::Back => self.back.vals[idx],
        }
    }

    /// Redirects one tile position to a new destination, leaving every other
    /// position unchanged.
    fn set_at(&mut self, p: TilePos, v: TilePos)
        requires
            old(self).wf(),
            spec_pos_valid(p, old(self).n as int),
            spec_pos_valid(v, old(self).n as int),
        ensures
            final(self).wf(),
            final(self).n == old(self).n,
            final(self).spec_at(p) == v,
            forall|q: TilePos|
                spec_pos_valid(q, old(self).n as int) && q != p
                    ==> #[trigger] final(self).spec_at(q) == old(self).spec_at(q),
    {
        let n = self.n;
        proof {
            lemma_index_join(p.row as int, p.col as int, n as int);
        }
        let idx = p.row * n + p.col;
        match p.face {
            Face::Up => self.up.vals.set(idx, v),
            Face::Down => self.down.vals.set(idx, v),
            Face::Left => self.left.vals.set(idx, v),
            Face::Right => self.right.vals.set(idx, v),
            Face::Front => self.front.vals.set(idx, v),
            Face::Back => self.back.vals.set(idx, v),
        }
        proof {
            assert forall|q: TilePos|
                spec_pos_valid(q, n as int) && q != p
                    implies #[trigger] self.spec_at(q) == old(self).spec_at(q) by {
                lemma_index_join(q.row as int, q.col as int, n as int);
            }
        }
    }

    /// Composes two permutations: apply `self`, then `rhs`.
    pub fn compose(&self, rhs: &TilePerm) -> (r: TilePerm)
        requires
            self.wf(),
            rhs.wf(),
            self.n == rhs.n,
        ensures
            r.wf(),
            r.n == self.n,
            forall|p: TilePos|
                spec_pos_valid(p, self.n as int)
                    ==> #[trigger] r.spec_at(p) == spec_compose_at(*self, *rhs, p),
            self.injective() && rhs.injective() ==> r.injective(),
    {
        let n = self.n;
        let r = TilePerm {
            n,
            up: Self::compose_grid(self, rhs, Face::Up),
            down: Self::compose_grid(self, rhs, Face::Down),
            left: Self::compose_grid(self, rhs, Face::Left),
            right: Self::compose_grid(self, rhs, Face::Right),
            front: Self::compose_grid(self, rhs, Face::Front),
            back: Self::compose_grid(self, rhs, Face::Back),
        };
        proof {
            assert forall|p: TilePos|
                spec_pos_valid(p, n as int)
                    implies #[trigger] r.spec_at(p) == spec_compose_at(*self, *rhs, p) by {
                lemma_index_join(p.row as int, p.col as int, n as int);
            }
            if self.injective() && rhs.injective() {
                assert forall|p1: TilePos, p2: TilePos|
                    spec_pos_valid(p1, n as int) && spec_pos_valid(p2, n as int)
                        && #[trigger] r.spec_at(p1) == #[trigger] r.spec_at(p2) implies p1 == p2 by {
                    lemma_at_valid(*self, p1);
                    lemma_at_valid(*self, p2);
                }
            }
        }
        r
    }

    /// One face's grid of a composition.
    fn compose_grid(a: &TilePerm, b: &TilePerm, face: Face) -> (g: TileGrid)
        requires
            a.wf(),
            b.wf(),
            a.n == b.n,
        ensures
            g.wf(),
            g.n == a.n,
            forall|j: int|
                0 <= j < g.vals@.len()
                    ==> #[trigger] g.vals@[j] == spec_compose_at(*a, *b, spec_pos_at_index(face, j, a.n as int)),
    {
        let n = a.n;
        let nn = n * n;
        let mut vals: Vec<TilePos> = Vec::new();
        let mut k: usize = 0;
        while k < nn
            invariant
                a.wf(),
                b.wf(),
                a.n == b.n,
                n == a.n,
                nn == n * n,
                k <= nn,
                vals@.len() == k,
                forall|j: int|
                    0 <= j < k ==> #[trigger] vals@[j] == spec_compose_at(*a, *b, spec_pos_at_index(face, j, n as int)),
                forall|j: int| 0 <= j < k ==> spec_pos_valid(#[trigger] vals@[j], n as int),
            decreases nn - k,
        {
            proof {
                lemma_index_split(k as int, n as int);
            }
            let row = k / n;
            let col = k % n;
            let p = TilePos { face, row, col };
            let v = b.apply(a.apply(p));
            vals.push(v);
            k += 1;
        }
        TileGrid { n, vals }
    }

    /// The inverse permutation: if this permutation carries `p` to `q`, the
    /// inverse carries `q` back to `p`.
    pub fn inverse(&self) -> (r: TilePerm)
        requires
            self.wf(),
            self.injective(),
        ensures
            r.wf(),
            r.n == self.n,
            spec_inverts(*self, r),
    {
        let n = self.n;
        let mut result = TilePerm::identity(n);
        let mut fi: usize = 0;
        while fi < 6
            invariant
                self.wf(),
                self.injective(),
                n == self.n,
                fi <= 6,
                result.wf(),
                result.n == n,
                forall|p: TilePos|
                    spec_pos_valid(p, n as int) && spec_face_index(p.face) < fi
                        ==> result.spec_at(#[trigger] self.spec_at(p)) == p,
            decreases 6 - fi,
        {
            let face = Face::from_index(fi);
            let nn = n * n;
            let mut k: usize = 0;
            while k < nn
                invariant
                    self.wf(),
                    self.injective(),
                    n == self.n,
                    fi < 6,
                    face == spec_face_from_index(fi as int),
                    spec_face_index(face) == fi,
                    nn == n * n,
                    k <= nn,
                    result.wf(),
                    result.n == n,
                    forall|p: TilePos|
                        spec_pos_valid(p, n as int) && spec_face_index(p.face) < fi
                            ==> result.spec_at(#[trigger] self.spec_at(p)) == p,
                    forall|p: TilePos|
                        spec_pos_valid(p, n as int) && p.face == face && p.row * n + p.col < k
                            ==> result.spec_at(#[trigger] self.spec_at(p)) == p,
                decreases nn - k,
            {
                proof {
                    lemma_index_split(k as int, n as int);
                }
                let row = k / n;
                let col = k % n;
                let src = TilePos { face, row, col };
                let dst = self.apply(src);
                proof {
                    assert forall|p: TilePos|
                        spec_pos_valid(p, n as int)
                            && (spec_face_index(p.face) < fi
                                || (p.face == face && p.row * n + p.col < k))
                            implies self.spec_at(p) != dst by {
                        lemma_index_join(p.row as int, p.col as int, n as int);
                    }
                }
                result.set_at(dst, src);
                proof {
                    assert forall|p: TilePos|
                        spec_pos_valid(p, n as int) && spec_face_index(p.face) < fi
                            implies result.spec_at(#[trigger] self.spec_at(p)) == p by {
                        lemma_at_valid(*self, p);
                    }
                    assert forall|p: TilePos|
                        spec_pos_valid(p, n as int) && p.face == face && p.row * n + p.col < k + 1
                            implies result.spec_at(#[trigger] self.spec_at(p)) == p by {
                        lemma_at_valid(*self, p);
                        lemma_index_join(p.row as int, p.col as int, n as int);
                        lemma_index_join(row as int, col as int, n as int);
                    }
                }
                k += 1;
            }
            proof {
                assert forall|p: TilePos|
                    spec_pos_valid(p, n as int) && spec_face_index(p.face) < fi + 1
                        implies result.spec_at(#[trigger] self.spec_at(p)) == p by {
                    if spec_face_index(p.face) == fi {
                        lemma_index_join(p.row as int, p.col as int, n as int);
                    }
                }
            }
            fi += 1;
        }
        result
    }
}

/// A permutation composed with one that inverts it returns every valid
/// position to itself: `perm * perm.inverse()` is the identity.
pub proof fn lemma_inverse_cancels(a: TilePerm, b: TilePerm)
    requires
        a.wf(),
        spec_inverts(a, b),
    ensures
        forall|p: TilePos| spec_pos_valid(p, a.n as int) ==> #[trigger] spec_compose_at(a, b, p) == p,
{
}

/// Inverting twice gives back the original permutation: if `b` inverts `a`
/// and `c` inverts `b`, then `c` agrees with `a` on every valid position.
pub proof fn lemma_inverse_involution(a: TilePerm, b: TilePerm, c: TilePerm)
    requires
        a.wf(),
        spec_inverts(a, b),
        spec_inverts(b, c),
    ensures
        forall|p: TilePos| spec_pos_valid(p, a.n as int) ==> #[trigger] c.spec_at(p) == a.spec_at(p),
{
    assert forall|p: TilePos| spec_pos_valid(p, a.n as int) implies #[trigger] c.spec_at(p) == a.spec_at(p) by {
        lemma_at_valid(a, p);
        assert(b.spec_at(a.spec_at(p)) == p);
        assert(c.spec_at(b.spec_at(a.spec_at(p))) == a.spec_at(p));
    }
}

/// The position of a diagonal within a face's canonical ordering, read as an
/// angle: the principal slot is zero, the following slots a quarter, a half
/// and three quarters.
pub open spec fn spec_angle_pos(d: CubeDiag, t: (CubeDiag, CubeDiag, CubeDiag)) -> Angle {
    if d == t.0 {
        Angle::CWQuarter
    } else if d == t.1 {
        Angle::Half
    } else if d == t.2 {
        Angle::ACWQuarter
    } else {
        Angle::Zero
    }
}

/// How much a face's grid turns when a rotation carries it onto its
/// destination face: the angular difference between where the source's
/// principal diagonal lands and where the destination's principal diagonal
/// sits, both read in the destination's canonical ordering.
pub open spec fn spec_orientation_angle(r: CubeRotation, f: Face) -> Angle {
    let new_face = spec_dest(r, f);
    let t = spec_diag_orientation(new_face);
    let new_principal_pos = spec_angle_pos(spec_principal_diag(new_face), t);
    let mapped_old_pos = spec_angle_pos(spec_rot_apply(r, spec_principal_diag(f)), t);
    spec_angle_minus(mapped_old_pos, new_principal_pos)
}

/// The destination of a tile position under a whole-cube rotation: the face
/// moves to its destination face and the grid turns by the orientation
/// angle.
pub open spec fn spec_rotation_at(r: CubeRotation, n: int, p: TilePos) -> TilePos {
    let rc = spec_rotate_indices(spec_orientation_angle(r, p.face), n, p.row as int, p.col as int);
    TilePos { face: spec_dest(r, p.face), row: rc.0 as usize, col: rc.1 as usize }
}

/// Computes the destination grid of one face under a whole-cube rotation.
pub fn grid_from_face(face: Face, cube_rotation: &CubeRotation, n: usize) -> (g: TileGrid)
    requires
        spec_rot_wf(*cube_rotation),
        n * n <= usize::MAX,
    ensures
        g.wf(),
        g.n == n,
        forall|j: int|
            0 <= j < g.vals@.len()
                ==> #[trigger] g.vals@[j] == spec_rotation_at(*cube_rotation, n as int, spec_pos_at_index(face, j, n as int)),
{
    let face_perm = FacePerm::from_rotation(*cube_rotation);
    let new_face = face_perm.apply(face);
    let old_principal = face.principal_diag();
    let new_principal = new_face.principal_diag();
    let (d2, d3, d4) = new_face.diag_orientation_following_ulf();
    let new_principal_pos = if new_principal == d2 {
        Angle::CWQuarter
    } else if new_principal == d3 {
        Angle::Half
    } else if new_principal == d4 {
        Angle::ACWQuarter
    } else {
        Angle::Zero
    };
    let mapped_old_principal = cube_rotation.apply(old_principal);
    let mapped_old_principal_pos = if mapped_old_principal == d2 {
        Angle::CWQuarter
    } else if mapped_old_principal == d3 {
        Angle::Half
    } else if mapped_old_principal == d4 {
        Angle::ACWQuarter
    } else {
        Angle::Zero
    };
    let difference = mapped_old_principal_pos.minus(new_principal_pos);
    let nn = n * n;
    let mut vals: Vec<TilePos> = Vec::new();
    let mut k: usize = 0;
    while k < nn
        invariant
            spec_rot_wf(*cube_rotation),
            nn == n * n,
            n * n <= usize::MAX,
            k <= nn,
            new_face == spec_dest(*cube_rotation, face),
            difference == spec_orientation_angle(*cube_rotation, face),
            vals@.len() == k,
            forall|j: int|
                0 <= j < k
                    ==> #[trigger] vals@[j] == spec_rotation_at(*cube_rotation, n as int, spec_pos_at_index(face, j, n as int)),
            forall|j: int| 0 <= j < k ==> spec_pos_valid(#[trigger] vals@[j], n as int),
        decreases nn - k,
    {
        proof {
            lemma_index_split(k as int, n as int);
        }
        let row = k / n;
        let col = k % n;
        let (new_row, new_col) = difference.rotate_indices(n, row, col);
        vals.push(TilePos { face: new_face, row: new_row, col: new_col });
        k += 1;
    }
    TileGrid { n, vals }
}

/// Distinct valid positions land on distinct positions under a rotation.
pub proof fn lemma_rotation_at_injective(r: CubeRotation, n: int, p1: TilePos, p2: TilePos)
    requires
        spec_rot_wf(r),
        n <= usize::MAX,
        spec_pos_valid(p1, n),
        spec_pos_valid(p2, n),
        spec_rotation_at(r, n, p1) == spec_rotation_at(r, n, p2),
    ensures
        p1 == p2,
{
    lemma_face_perm_injective(r, p1.face, p2.face);
    let a = spec_orientation_angle(r, p1.face);
    crate::lemma_rotate_indices_bounds(a, n, p1.row as int, p1.col as int);
    crate::lemma_rotate_indices_bounds(a, n, p2.row as int, p2.col as int);
    crate::lemma_rotate_indices_injective(a, n, p1.row as int, p1.col as int, p2.row as int, p2.col as int);
}

impl CubeRotation {
    /// The tile permutation of this whole-cube rotation on an n×n×n cube.
    pub fn to_tile_perm(&self, n: usize) -> (r: TilePerm)
        requires
            spec_rot_wf(*self),
            n * n <= usize::MAX,
        ensures
            r.wf(),
            r.n == n,
            forall|p: TilePos|
                spec_pos_valid(p, n as int)
                    ==> #[trigger] r.spec_at(p) == spec_rotation_at(*self, n as int, p),
            r.injective(),
    {
        let r = TilePerm {
            n,
            up: grid_from_face(Face::Up, self, n),
            down: grid_from_face(Face::Down, self, n),
            left: grid_from_face(Face::Left, self, n),
            right: grid_from_face(Face::Right, self, n),
            front: grid_from_face(Face::Front, self, n),
            back: grid_from_face(Face::Back, self, n),
        };
        proof {
            assert forall|p: TilePos|
                spec_pos_valid(p, n as int)
                    implies #[trigger] r.spec_at(p) == spec_rotation_at(*self, n as int, p) by {
                lemma_index_join(p.row as int, p.col as int, n as int);
            }
            assert forall|p1: TilePos, p2: TilePos|
                spec_pos_valid(p1, n as int) && spec_pos_valid(p2, n as int)
                    && #[trigger] r.spec_at(p1) == #[trigger] r.spec_at(p2) implies p1 == p2 by {
                lemma_rotation_at_injective(*self, n as int, p1, p2);
            }
        }
        r
    }
}

} // verus!
