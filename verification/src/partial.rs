//! Sparse tile permutations and the two geometric primitives that moves are
//! compiled from.
//!
//! A [`PartialTilePerm`] is a permutation defined on a subset of positions
//! only; every unmapped position is implicitly fixed. Its invariant is that
//! the mapping is injective and only rearranges positions within its own
//! domain. The two primitives are [`rotate_face_only`], which turns the n²
//! tiles of one face in place, and [`rotate_outside_of_slice`], which cycles
//! a slice's ring of edge tiles from each side to the side the turn carries
//! it to.

use vstd::prelude::*;
use vstd::arithmetic::div_mod::lemma_fundamental_div_mod_converse;
use crate::Angle;
use crate::geometry::{Face, FaceSide, spec_face_index, spec_adjacent, spec_side_rotated, spec_side_from_index};
use crate::{spec_rotate_indices};
use crate::tiles::{TilePos, TileGrid, TilePerm, spec_pos_valid, spec_pos_at_index, lemma_index_join, lemma_index_split};
use crate::restrictions::{Slice, Restriction, spec_ring_pos, spec_side_pos};

verus! {

/// The flat index of a position in a table covering all six faces.
pub open spec fn spec_pos_index(p: TilePos, n: int) -> int {
    spec_face_index(p.face) * (n * n) + p.row * n + p.col
}

/// The flat index of a valid position is below 6·n², and determines the
/// position.
pub proof fn lemma_pos_index_join(p: TilePos, n: int)
    requires
        0 < n,
        spec_pos_valid(p, n),
    ensures
        0 <= spec_pos_index(p, n) < 6 * (n * n),
        spec_pos_index(p, n) / (n * n) == spec_face_index(p.face),
        spec_pos_index(p, n) % (n * n) == p.row * n + p.col,
{
    lemma_index_join(p.row as int, p.col as int, n);
    let m = n * n;
    let fi = spec_face_index(p.face);
    let rest = p.row * n + p.col;
    assert(0 <= fi * m + rest < 6 * m) by (nonlinear_arith)
        requires
            0 < m,
            0 <= fi < 6,
            0 <= rest < m,
    ;
    lemma_fundamental_div_mod_converse(fi * m + rest, m, fi, rest);
}

/// Distinct valid positions have distinct flat indices.
pub proof fn lemma_pos_index_injective(p1: TilePos, p2: TilePos, n: int)
    requires
        0 < n,
        spec_pos_valid(p1, n),
        spec_pos_valid(p2, n),
        spec_pos_index(p1, n) == spec_pos_index(p2, n),
    ensures
        p1 == p2,
{
    lemma_pos_index_join(p1, n);
    lemma_pos_index_join(p2, n);
    lemma_index_join(p1.row as int, p1.col as int, n);
    lemma_index_join(p2.row as int, p2.col as int, n);
    assert(spec_face_index(p1.face) == spec_face_index(p2.face));
    assert(p1.face == p2.face);
}

/// A sparse tile permutation: a destination for each position of its domain,
/// every other position implicitly fixed.
#[derive(Clone, Debug, PartialEq, Eq)]
pub struct PartialTilePerm {
    /// The cube dimension.
    pub n: usize,
    /// One optional destination per position, indexed by face, then row,
    /// then column; length 6·n².
    pub vals: Vec<Option<TilePos>>,
}

impl PartialTilePerm {
    /// Shape and range invariant: 6·n² entries, every present destination a
    /// valid position.
    pub open spec fn wf(self) -> bool {
        &&& 6 * (self.n * self.n) <= usize::MAX
        &&& self.vals@.len() == 6 * (self.n * self.n)
        &&& forall|j: int|
            0 <= j < self.vals@.len()
                ==> (#[trigger] self.vals@[j] matches Some(q) ==> spec_pos_valid(q, self.n as int))
    }

    /// The stored entry for a position.
    pub open spec fn spec_entry(self, p: TilePos) -> Option<TilePos> {
        self.vals@[spec_pos_index(p, self.n as int)]
    }

    /// Whether a position belongs to the domain.
    pub open spec fn spec_in_domain(self, p: TilePos) -> bool {
        self.spec_entry(p) is Some
    }

    /// The permutation extended by the identity: the stored destination
    /// inside the domain, the position itself outside.
    pub open spec fn spec_ext(self, p: TilePos) -> TilePos {
        match self.spec_entry(p) {
            Some(q) => q,
            None => p,
        }
    }

    /// The extended map is injective on valid positions.
    pub open spec fn injective_ext(self) -> bool {
        forall|p1: TilePos, p2: TilePos|
            spec_pos_valid(p1, self.n as int) && spec_pos_valid(p2, self.n as int)
                && #[trigger] self.spec_ext(p1) == #[trigger] self.spec_ext(p2) ==> p1 == p2
    }

    /// The permutation only rearranges positions within its domain: every
    /// destination is again in the domain.
    pub open spec fn closed(self) -> bool {
        forall|p: TilePos|
            spec_pos_valid(p, self.n as int) && #[trigger] self.spec_in_domain(p)
                ==> self.spec_in_domain(self.spec_ext(p))
    }

    /// The empty partial permutation: nothing in the domain, everything
    /// fixed.
    pub fn empty(n: usize) -> (r: PartialTilePerm)
        requires
            6 * (n * n) <= usize::MAX,
        ensures
            r.wf(),
            r.n == n,
            forall|p: TilePos| spec_pos_valid(p, n as int) ==> #[trigger] r.spec_entry(p) is None,
    {
        let nn = n * n;
        let total = 6 * nn;
        let mut vals: Vec<Option<TilePos>> = Vec::new();
        let mut k: usize = 0;
        while k < total
            invariant
                k <= total,
                vals@.len() == k,
                forall|j: int| 0 <= j < k ==> #[trigger] vals@[j] is None,
            decreases total - k,
        {
            vals.push(None);
            k += 1;
        }
        let r = PartialTilePerm { n, vals };
        proof {
            assert forall|p: TilePos| spec_pos_valid(p, n as int) implies #[trigger] r.spec_entry(p) is None by {
                lemma_pos_index_join(p, n as int);
            }
        }
        r
    }

    /// The stored entry for a position.
    pub fn entry_at(&self, p: TilePos) -> (r: Option<TilePos>)
        requires
            self.wf(),
            spec_pos_valid(p, self.n as int),
        ensures
            r == self.spec_entry(p),
    {
        proof {
            lemma_pos_index_join(p, self.n as int);
        }
        let nn = self.n * self.n;
        let idx = p.face.index() * nn + p.row * self.n + p.col;
        self.vals[idx]
    }

    /// Stores a destination for one position, leaving all other entries
    /// unchanged.
    fn set_entry(&mut self, p: TilePos, v: TilePos)
        requires
            old(self).wf(),
            spec_pos_valid(p, old(self).n as int),
            spec_pos_valid(v, old(self).n as int),
        ensures
            final(self).wf(),
            final(self).n == old(self).n,
            final(self).spec_entry(p) == Some(v),
            forall|q: TilePos|
                spec_pos_valid(q, old(self).n as int) && q != p
                    ==> #[trigger] final(self).spec_entry(q) == old(self).spec_entry(q),
    {
        let n = self.n;
        proof {
            lemma_pos_index_join(p, n as int);
        }
        let nn = n * n;
        let idx = p.face.index() * nn + p.row * n + p.col;
        self.vals.set(idx, Some(v));
        proof {
            assert forall|q: TilePos|
                spec_pos_valid(q, n as int) && q != p
                    implies #[trigger] self.spec_entry(q) == old(self).spec_entry(q) by {
                lemma_pos_index_join(q, n as int);
                if spec_pos_index(q, n as int) == spec_pos_index(p, n as int) {
                    lemma_pos_index_injective(q, p, n as int);
                }
            }
        }
    }

    /// Where the extended map sends a position.
    pub fn ext_at(&self, p: TilePos) -> (r: TilePos)
        requires
            self.wf(),
            spec_pos_valid(p, self.n as int),
        ensures
            r == self.spec_ext(p),
            spec_pos_valid(r, self.n as int),
    {
        proof {
            lemma_pos_index_join(p, self.n as int);
        }
        match self.entry_at(p) {
            Some(q) => q,
            None => p,
        }
    }

    /// Composes two partial permutations: apply `self`, then `rhs`. The
    /// domain of the result is the union of the two domains.
    pub fn compose(&self, rhs: &PartialTilePerm) -> (r: PartialTilePerm)
        requires
            self.wf(),
            rhs.wf(),
            self.n == rhs.n,
        ensures
            r.wf(),
            r.n == self.n,
            forall|p: TilePos|
                spec_pos_valid(p, self.n as int)
                    ==> #[trigger] r.spec_entry(p) == spec_compose_entry(*self, *rhs, p),
    {
        let n = self.n;
        let mut out = PartialTilePerm::empty(n);
        let mut fi: usize = 0;
        while fi < 6
            invariant
                self.wf(),
                rhs.wf(),
                self.n == rhs.n,
                n == self.n,
                fi <= 6,
                out.wf(),
                out.n == n,
                forall|p: TilePos|
                    spec_pos_valid(p, n as int) && spec_face_index(p.face) < fi
                        ==> #[trigger] out.spec_entry(p) == spec_compose_entry(*self, *rhs, p),
                forall|p: TilePos|
                    spec_pos_valid(p, n as int) && spec_face_index(p.face) >= fi
                        ==> #[trigger] out.spec_entry(p) is None,
            decreases 6 - fi,
        {
            let face = Face::from_index(fi);
            let mut row: usize = 0;
            while row < n
                invariant
                    self.wf(),
                    rhs.wf(),
                    self.n == rhs.n,
                    n == self.n,
                    fi < 6,
                    face == crate::geometry::spec_face_from_index(fi as int),
                    spec_face_index(face) == fi,
                    row <= n,
                    out.wf(),
                    out.n == n,
                    forall|p: TilePos|
                        spec_pos_valid(p, n as int) && spec_face_index(p.face) < fi
                            ==> #[trigger] out.spec_entry(p) == spec_compose_entry(*self, *rhs, p),
                    forall|p: TilePos|
                        spec_pos_valid(p, n as int) && p.face == face && p.row < row
                            ==> #[trigger] out.spec_entry(p) == spec_compose_entry(*self, *rhs, p),
                    forall|p: TilePos|
                        spec_pos_valid(p, n as int)
                            && (spec_face_index(p.face) > fi || (p.face == face && p.row >= row))
                            ==> #[trigger] out.spec_entry(p) is None,
                decreases n - row,
            {
                let mut col: usize = 0;
                while col < n
                    invariant
                        self.wf(),
                        rhs.wf(),
                        self.n == rhs.n,
                        n == self.n,
                        fi < 6,
                        face == crate::geometry::spec_face_from_index(fi as int),
                        spec_face_index(face) == fi,
                        row < n,
                        col <= n,
                        out.wf(),
                        out.n == n,
                        forall|p: TilePos|
                            spec_pos_valid(p, n as int) && spec_face_index(p.face) < fi
                                ==> #[trigger] out.spec_entry(p) == spec_compose_entry(*self, *rhs, p),
                        forall|p: TilePos|
                            spec_pos_valid(p, n as int) && p.face == face
                                && (p.row < row || (p.row == row && p.col < col))
                                ==> #[trigger] out.spec_entry(p) == spec_compose_entry(*self, *rhs, p),
                        forall|p: TilePos|
                            spec_pos_valid(p, n as int)
                                && (spec_face_index(p.face) > fi
                                    || (p.face == face
                                        && (p.row > row || (p.row == row && p.col >= col))))
                                ==> #[trigger] out.spec_entry(p) is None,
                    decreases n - col,
                {
                    let p = TilePos { face, row, col };
                    proof {
                        lemma_entry_valid(*self, p);
                        lemma_entry_valid(*rhs, p);
                    }
                    let entry = match self.entry_at(p) {
                        Some(q) => Some(rhs.ext_at(q)),
                        None => rhs.entry_at(p),
                    };
                    match entry {
                        Some(v) => {
                            out.set_entry(p, v);
                        },
                        None => {},
                    }
                    col += 1;
                }
                row += 1;
            }
            fi += 1;
        }
        out
    }
}

/// The entry of a composition at one position: follow `a`'s destination
/// through `b` where `a` is defined, fall back to `b`'s own entry elsewhere.
pub open spec fn spec_compose_entry(a: PartialTilePerm, b: PartialTilePerm, p: TilePos) -> Option<TilePos> {
    match a.spec_entry(p) {
        Some(q) => Some(b.spec_ext(q)),
        None => b.spec_entry(p),
    }
}

/// Every destination a partial permutation stores is a valid position.
pub proof fn lemma_entry_valid(a: PartialTilePerm, p: TilePos)
    requires
        a.wf(),
        spec_pos_valid(p, a.n as int),
    ensures
        a.spec_entry(p) matches Some(q) ==> spec_pos_valid(q, a.n as int),
{
    lemma_pos_index_join(p, a.n as int);
}

/// The extended map of a valid position is valid.
pub proof fn lemma_ext_valid(a: PartialTilePerm, p: TilePos)
    requires
        a.wf(),
        0 < a.n,
        spec_pos_valid(p, a.n as int),
    ensures
        spec_pos_valid(a.spec_ext(p), a.n as int),
{
    lemma_pos_index_join(p, a.n as int);
}

/// A composition's extended map is the composition of the extended maps.
pub proof fn lemma_compose_ext(a: PartialTilePerm, b: PartialTilePerm, r: PartialTilePerm, p: TilePos)
    requires
        a.wf(),
        b.wf(),
        a.n == b.n,
        r.n == a.n,
        0 < a.n,
        spec_pos_valid(p, a.n as int),
        r.spec_entry(p) == spec_compose_entry(a, b, p),
    ensures
        r.spec_ext(p) == b.spec_ext(a.spec_ext(p)),
{
    lemma_pos_index_join(p, a.n as int);
}

/// Composition preserves the partial-permutation invariant: if both sides
/// are injective and closed, so is their composition.
pub proof fn lemma_compose_preserves(a: PartialTilePerm, b: PartialTilePerm, r: PartialTilePerm)
    requires
        a.wf(),
        b.wf(),
        a.n == b.n,
        r.wf(),
        r.n == a.n,
        0 < a.n,
        forall|p: TilePos|
            spec_pos_valid(p, a.n as int) ==> #[trigger] r.spec_entry(p) == spec_compose_entry(a, b, p),
        a.injective_ext(),
        b.injective_ext(),
        a.closed(),
        b.closed(),
    ensures
        r.injective_ext(),
        r.closed(),
{
    let n = a.n as int;
    assert forall|p1: TilePos, p2: TilePos|
        spec_pos_valid(p1, n) && spec_pos_valid(p2, n)
            && #[trigger] r.spec_ext(p1) == #[trigger] r.spec_ext(p2) implies p1 == p2 by {
        lemma_compose_ext(a, b, r, p1);
        lemma_compose_ext(a, b, r, p2);
        lemma_ext_valid(a, p1);
        lemma_ext_valid(a, p2);
    }
    assert forall|p: TilePos|
        spec_pos_valid(p, n) && #[trigger] r.spec_in_domain(p)
            implies r.spec_in_domain(r.spec_ext(p)) by {
        lemma_compose_ext(a, b, r, p);
        lemma_ext_valid(a, p);
        let q = a.spec_ext(p);
        lemma_ext_valid(b, q);
        if a.spec_in_domain(p) {
            assert(a.spec_in_domain(q));
            if b.spec_in_domain(q) {
                assert(b.spec_in_domain(b.spec_ext(q)));
            } else {
                assert(b.spec_ext(q) == q);
            }
        } else {
            assert(q == p);
            assert(b.spec_in_domain(p));
            assert(b.spec_in_domain(b.spec_ext(p)));
        }
    }
}

impl PartialTilePerm {
    /// Extends this partial permutation to a full tile permutation by fixing
    /// every unmapped position.
    pub fn to_tile_perm(&self) -> (r: TilePerm)
        requires
            self.wf(),
        ensures
            r.wf(),
            r.n == self.n,
            forall|p: TilePos|
                spec_pos_valid(p, self.n as int) ==> #[trigger] r.spec_at(p) == self.spec_ext(p),
            self.injective_ext() && self.closed() ==> r.injective(),
    {
        let n = self.n;
        let r = TilePerm {
            n,
            up: self.extend_grid(Face::Up),
            down: self.extend_grid(Face::Down),
            left: self.extend_grid(Face::Left),
            right: self.extend_grid(Face::Right),
            front: self.extend_grid(Face::Front),
            back: self.extend_grid(Face::Back),
        };
        proof {
            assert forall|p: TilePos|
                spec_pos_valid(p, n as int) implies #[trigger] r.spec_at(p) == self.spec_ext(p) by {
                lemma_index_join(p.row as int, p.col as int, n as int);
            }
            if self.injective_ext() && self.closed() {
                assert forall|p1: TilePos, p2: TilePos|
                    spec_pos_valid(p1, n as int) && spec_pos_valid(p2, n as int)
                        && #[trigger] r.spec_at(p1) == #[trigger] r.spec_at(p2) implies p1 == p2 by {
                }
            }
        }
        r
    }

    /// One face's grid of the extended permutation.
    fn extend_grid(&self, face: Face) -> (g: TileGrid)
        requires
            self.wf(),
        ensures
            g.wf(),
            g.n == self.n,
            forall|j: int|
                0 <= j < g.vals@.len()
                    ==> #[trigger] g.vals@[j] == self.spec_ext(spec_pos_at_index(face, j, self.n as int)),
    {
        let n = self.n;
        let nn = n * n;
        let mut vals: Vec<TilePos> = Vec::new();
        let mut k: usize = 0;
        while k < nn
            invariant
                self.wf(),
                n == self.n,
                nn == n * n,
                k <= nn,
                vals@.len() == k,
                forall|j: int|
                    0 <= j < k ==> #[trigger] vals@[j] == self.spec_ext(spec_pos_at_index(face, j, n as int)),
                forall|j: int| 0 <= j < k ==> spec_pos_valid(#[trigger] vals@[j], n as int),
            decreases nn - k,
        {
            proof {
                lemma_index_split(k as int, n as int);
            }
            let row = k / n;
            let col = k % n;
            let p = TilePos { face, row, col };
            let v = self.ext_at(p);
            vals.push(v);
            k += 1;
        }
        TileGrid { n, vals }
    }
}

/// A plain set of tile positions, usable as a restriction.
pub struct PartialTileSet {
    /// The positions of the set, in enumeration order.
    pub positions: Vec<TilePos>,
}

impl Restriction for PartialTileSet {
    open spec fn spec_positions(&self, n: int) -> Seq<TilePos> {
        self.positions@
    }

    fn restricted_positions(&self, n: usize) -> (r: Vec<TilePos>)
    {
        let mut out: Vec<TilePos> = Vec::new();
        let mut k: usize = 0;
        while k < self.positions.len()
            invariant
                k <= self.positions@.len(),
                out@ == self.positions@.take(k as int),
            decreases self.positions@.len() - k,
        {
            out.push(self.positions[k]);
            proof {
                assert(self.positions@.take(k + 1) =~= self.positions@.take(k as int).push(self.positions@[k as int]));
            }
            k += 1;
        }
        proof {
            assert(self.positions@.take(self.positions@.len() as int) =~= self.positions@);
        }
        out
    }
}

impl PartialTilePerm {
    /// The inverse partial permutation, on the same domain: if this one
    /// carries `p` to `q`, the inverse carries `q` back to `p`.
    pub fn inverse(&self) -> (r: PartialTilePerm)
        requires
            self.wf(),
            self.injective_ext(),
        ensures
            r.wf(),
            r.n == self.n,
            forall|p: TilePos|
                spec_pos_valid(p, self.n as int)
                    ==> (#[trigger] self.spec_entry(p) matches Some(q) ==> r.spec_entry(q) == Some(p)),
            forall|q: TilePos|
                spec_pos_valid(q, self.n as int)
                    ==> (#[trigger] r.spec_entry(q) matches Some(p) ==> self.spec_entry(p) == Some(q)),
    {
        let n = self.n;
        let mut out = PartialTilePerm::empty(n);
        let mut fi: usize = 0;
        while fi < 6
            invariant
                self.wf(),
                self.injective_ext(),
                n == self.n,
                fi <= 6,
                out.wf(),
                out.n == n,
                forall|p: TilePos|
                    spec_pos_valid(p, n as int) && spec_face_index(p.face) < fi
                        ==> (#[trigger] self.spec_entry(p) matches Some(q) ==> out.spec_entry(q) == Some(p)),
                forall|q: TilePos|
                    spec_pos_valid(q, n as int)
                        ==> (#[trigger] out.spec_entry(q) matches Some(p)
                            ==> spec_face_index(p.face) < fi && self.spec_entry(p) == Some(q)),
            decreases 6 - fi,
        {
            let face = Face::from_index(fi);
            let mut row: usize = 0;
            while row < n
                invariant
                    self.wf(),
                    self.injective_ext(),
                    n == self.n,
                    fi < 6,
                    face == crate::geometry::spec_face_from_index(fi as int),
                    spec_face_index(face) == fi,
                    row <= n,
                    out.wf(),
                    out.n == n,
                    forall|p: TilePos|
                        spec_pos_valid(p, n as int)
                            && (spec_face_index(p.face) < fi || (p.face == face && p.row < row))
                            ==> (#[trigger] self.spec_entry(p) matches Some(q) ==> out.spec_entry(q) == Some(p)),
                    forall|q: TilePos|
                        spec_pos_valid(q, n as int)
                            ==> (#[trigger] out.spec_entry(q) matches Some(p)
                                ==> (spec_face_index(p.face) < fi || (p.face == face && p.row < row))
                                    && self.spec_entry(p) == Some(q)),
                decreases n - row,
            {
                let mut col: usize = 0;
                while col < n
                    invariant
                        self.wf(),
                        self.injective_ext(),
                        n == self.n,
                        fi < 6,
                        face == crate::geometry::spec_face_from_index(fi as int),
                        spec_face_index(face) == fi,
                        row < n,
                        col <= n,
                        out.wf(),
                        out.n == n,
                        forall|p: TilePos|
                            spec_pos_valid(p, n as int)
                                && (spec_face_index(p.face) < fi
                                    || (p.face == face && (p.row < row || (p.row == row && p.col < col))))
                                ==> (#[trigger] self.spec_entry(p) matches Some(q) ==> out.spec_entry(q) == Some(p)),
                        forall|q: TilePos|
                            spec_pos_valid(q, n as int)
                                ==> (#[trigger] out.spec_entry(q) matches Some(p)
                                    ==> (spec_face_index(p.face) < fi
                                        || (p.face == face && (p.row < row || (p.row == row && p.col < col))))
                                        && self.spec_entry(p) == Some(q)),
                    decreases n - col,
                {
                    let p = TilePos { face, row, col };
                    proof {
                        lemma_entry_valid(*self, p);
                    }
                    match self.entry_at(p) {
                        Some(q) => {
                            proof {
                                lemma_entry_valid(out, q);
                                if out.spec_entry(q) is Some {
                                    let p0 = out.spec_entry(q)->Some_0;
                                    assert(self.spec_entry(p0) == Some(q));
                                    assert(self.spec_ext(p0) == q && self.spec_ext(p) == q);
                                    assert(false);
                                }
                            }
                            out.set_entry(q, p);
                            proof {
                                assert forall|pp: TilePos|
                                    spec_pos_valid(pp, n as int)
                                        && (spec_face_index(pp.face) < fi
                                            || (pp.face == face && (pp.row < row || (pp.row == row && pp.col <= col))))
                                        implies (#[trigger] self.spec_entry(pp) matches Some(qq)
                                            ==> out.spec_entry(qq) == Some(pp)) by {
                                    lemma_entry_valid(*self, pp);
                                    let e = self.spec_entry(pp);
                                    if e is Some && pp != p {
                                        let qq = e->Some_0;
                                        if qq == q {
                                            assert(self.spec_ext(pp) == qq);
                                            assert(self.spec_ext(p) == q);
                                            assert(false);
                                        }
                                    }
                                }
                            }
                        },
                        None => {},
                    }
                    col += 1;
                }
                row += 1;
            }
            fi += 1;
        }
        out
    }

    /// The domain of this partial permutation, as a restriction.
    pub fn restriction_domain(&self) -> (r: PartialTileSet)
        requires
            self.wf(),
        ensures
            forall|k: int|
                0 <= k < r.positions@.len()
                    ==> spec_pos_valid(#[trigger] r.positions@[k], self.n as int)
                        && self.spec_in_domain(r.positions@[k]),
            forall|p: TilePos|
                spec_pos_valid(p, self.n as int) && #[trigger] self.spec_in_domain(p)
                    ==> r.positions@.contains(p),
    {
        let n = self.n;
        let mut positions: Vec<TilePos> = Vec::new();
        let mut fi: usize = 0;
        while fi < 6
            invariant
                self.wf(),
                n == self.n,
                fi <= 6,
                forall|k: int|
                    0 <= k < positions@.len()
                        ==> spec_pos_valid(#[trigger] positions@[k], n as int)
                            && self.spec_in_domain(positions@[k]),
                forall|p: TilePos|
                    spec_pos_valid(p, n as int) && spec_face_index(p.face) < fi && #[trigger] self.spec_in_domain(p)
                        ==> positions@.contains(p),
            decreases 6 - fi,
        {
            let face = Face::from_index(fi);
            let mut row: usize = 0;
            while row < n
                invariant
                    self.wf(),
                    n == self.n,
                    fi < 6,
                    face == crate::geometry::spec_face_from_index(fi as int),
                    spec_face_index(face) == fi,
                    row <= n,
                    forall|k: int|
                        0 <= k < positions@.len()
                            ==> spec_pos_valid(#[trigger] positions@[k], n as int)
                                && self.spec_in_domain(positions@[k]),
                    forall|p: TilePos|
                        spec_pos_valid(p, n as int) && #[trigger] self.spec_in_domain(p)
                            && (spec_face_index(p.face) < fi || (p.face == face && p.row < row))
                            ==> positions@.contains(p),
                decreases n - row,
            {
                let mut col: usize = 0;
                while col < n
                    invariant
                        self.wf(),
                        n == self.n,
                        fi < 6,
                        face == crate::geometry::spec_face_from_index(fi as int),
                        spec_face_index(face) == fi,
                        row < n,
                        col <= n,
                        forall|k: int|
                            0 <= k < positions@.len()
                                ==> spec_pos_valid(#[trigger] positions@[k], n as int)
                                    && self.spec_in_domain(positions@[k]),
                        forall|p: TilePos|
                            spec_pos_valid(p, n as int) && #[trigger] self.spec_in_domain(p)
                                && (spec_face_index(p.face) < fi
                                    || (p.face == face && (p.row < row || (p.row == row && p.col < col))))
                                ==> positions@.contains(p),
                    decreases n - col,
                {
                    let p = TilePos { face, row, col };
                    let ghost before = positions@;
                    match self.entry_at(p) {
                        Some(_) => {
                            positions.push(p);
                        },
                        None => {},
                    }
                    proof {
                        assert forall|q: TilePos| before.contains(q) implies positions@.contains(q) by {
                            let w = choose|w: int| 0 <= w < before.len() && before[w] == q;
                            assert(positions@[w] == q);
                        }
                        if self.spec_in_domain(p) {
                            assert(positions@[positions@.len() - 1] == p);
                            assert(positions@.contains(p));
                        }
                    }
                    col += 1;
                }
                row += 1;
            }
            fi += 1;
        }
        PartialTileSet { positions }
    }
}

/// The entry of a face rotation at one position: tiles of the rotated face
/// map to their turned position, everything else is outside the domain.
pub open spec fn spec_rotate_face_entry(face: Face, angle: Angle, n: int, p: TilePos) -> Option<TilePos> {
    if p.face == face {
        let rc = spec_rotate_indices(angle, n, p.row as int, p.col as int);
        Some(TilePos { face, row: rc.0 as usize, col: rc.1 as usize })
    } else {
        None
    }
}

/// The partial permutation that turns the n² tiles of one face in place by
/// the given angle, around the face's centre.
pub fn rotate_face_only(face: Face, angle: Angle, n: usize) -> (r: PartialTilePerm)
    requires
        6 * (n * n) <= usize::MAX,
    ensures
        r.wf(),
        r.n == n,
        forall|p: TilePos|
            spec_pos_valid(p, n as int)
                ==> #[trigger] r.spec_entry(p) == spec_rotate_face_entry(face, angle, n as int, p),
        r.injective_ext(),
        r.closed(),
{
    let mut out = PartialTilePerm::empty(n);
    let mut row: usize = 0;
    while row < n
        invariant
            6 * (n * n) <= usize::MAX,
            row <= n,
            out.wf(),
            out.n == n,
            forall|p: TilePos|
                spec_pos_valid(p, n as int) && p.face == face && p.row < row
                    ==> #[trigger] out.spec_entry(p) == spec_rotate_face_entry(face, angle, n as int, p),
            forall|p: TilePos|
                spec_pos_valid(p, n as int) && (p.face != face || p.row >= row)
                    ==> #[trigger] out.spec_entry(p) is None,
        decreases n - row,
    {
        let mut col: usize = 0;
        while col < n
            invariant
                6 * (n * n) <= usize::MAX,
                row < n,
                col <= n,
                out.wf(),
                out.n == n,
                forall|p: TilePos|
                    spec_pos_valid(p, n as int) && p.face == face
                        && (p.row < row || (p.row == row && p.col < col))
                        ==> #[trigger] out.spec_entry(p) == spec_rotate_face_entry(face, angle, n as int, p),
                forall|p: TilePos|
                    spec_pos_valid(p, n as int)
                        && (p.face != face || p.row > row || (p.row == row && p.col >= col))
                        ==> #[trigger] out.spec_entry(p) is None,
            decreases n - col,
        {
            let base = TilePos { face, row, col };
            let (new_row, new_col) = angle.rotate_indices(n, row, col);
            out.set_entry(base, TilePos { face, row: new_row, col: new_col });
            col += 1;
        }
        row += 1;
    }
    proof {
        assert forall|p1: TilePos, p2: TilePos|
            spec_pos_valid(p1, n as int) && spec_pos_valid(p2, n as int)
                && #[trigger] out.spec_ext(p1) == #[trigger] out.spec_ext(p2) implies p1 == p2 by {
            if p1.face == face && p2.face == face {
                crate::lemma_rotate_indices_bounds(angle, n as int, p1.row as int, p1.col as int);
                crate::lemma_rotate_indices_bounds(angle, n as int, p2.row as int, p2.col as int);
                crate::lemma_rotate_indices_injective(
                    angle, n as int, p1.row as int, p1.col as int, p2.row as int, p2.col as int);
            } else if p1.face == face {
                crate::lemma_rotate_indices_bounds(angle, n as int, p1.row as int, p1.col as int);
            } else if p2.face == face {
                crate::lemma_rotate_indices_bounds(angle, n as int, p2.row as int, p2.col as int);
            }
        }
    }
    out
}

/// The side of `face` whose neighbour is `g`, if `g` borders `face`.
pub open spec fn spec_side_of(face: Face, g: Face) -> Option<FaceSide> {
    if spec_adjacent(face, FaceSide::North).face == g {
        Some(FaceSide::North)
    } else if spec_adjacent(face, FaceSide::East).face == g {
        Some(FaceSide::East)
    } else if spec_adjacent(face, FaceSide::South).face == g {
        Some(FaceSide::South)
    } else if spec_adjacent(face, FaceSide::West).face == g {
        Some(FaceSide::West)
    } else {
        None
    }
}

/// Recovers the ring step and depth of a tile from its coordinates, given
/// the side of the neighbouring face on which the shared edge lies: the
/// inverse of the coordinate map of [`spec_side_pos`].
pub open spec fn spec_ring_coords(t: FaceSide, row: int, col: int, n: int) -> (int, int) {
    match t {
        FaceSide::North => (col, row),
        FaceSide::East => (row, n - 1 - col),
        FaceSide::South => (n - 1 - col, n - 1 - row),
        FaceSide::West => (n - 1 - row, col),
    }
}

/// Reads a position as a ring tile of `face`: the side of `face` it lies
/// across, its step along that side, and its depth from the shared edge.
/// `None` when the position's face does not border `face`.
pub open spec fn spec_ring_decode(face: Face, p: TilePos, n: int) -> Option<(FaceSide, int, int)> {
    match spec_side_of(face, p.face) {
        None => None,
        Some(s) => {
            let t = spec_adjacent(face, s).side;
            let jd = spec_ring_coords(t, p.row as int, p.col as int, n);
            Some((s, jd.0, jd.1))
        },
    }
}

/// Decoding undoes encoding: the ring tile at step `j`, depth `d` along side
/// `s` reads back as exactly `(s, j, d)`, and is a valid position.
pub proof fn lemma_ring_roundtrip(face: Face, side: FaceSide, j: int, d: int, n: int)
    requires
        n <= usize::MAX,
        0 <= j < n,
        0 <= d < n,
    ensures
        spec_pos_valid(spec_ring_pos(face, side, j, d, n), n),
        spec_ring_decode(face, spec_ring_pos(face, side, j, d, n), n) == Some((side, j, d)),
{
    crate::geometry::lemma_adjacent_faces_distinct(face, FaceSide::North, side);
    crate::geometry::lemma_adjacent_faces_distinct(face, FaceSide::East, side);
    crate::geometry::lemma_adjacent_faces_distinct(face, FaceSide::South, side);
    crate::geometry::lemma_adjacent_faces_distinct(face, FaceSide::West, side);
}

/// Encoding undoes decoding: a position that reads as `(s, j, d)` is the
/// ring tile at step `j`, depth `d` along side `s`, and `j` and `d` are in
/// range.
pub proof fn lemma_ring_decode_sound(face: Face, p: TilePos, n: int)
    requires
        spec_pos_valid(p, n),
    ensures
        spec_ring_decode(face, p, n) matches Some(sjd)
            ==> 0 <= sjd.1 < n && 0 <= sjd.2 < n && p == spec_ring_pos(face, sjd.0, sjd.1, sjd.2, n),
{
}

/// The entry of a ring rotation at one position: a ring tile of the slice
/// moves to the same step and depth on the side the angle carries its side
/// to; everything else is outside the domain.
pub open spec fn spec_ring_entry(face: Face, idx: int, angle: Angle, n: int, p: TilePos) -> Option<TilePos> {
    match spec_ring_decode(face, p, n) {
        None => None,
        Some(sjd) => if sjd.2 == idx {
            Some(spec_ring_pos(face, spec_side_rotated(sjd.0, angle), sjd.1, idx, n))
        } else {
            None
        },
    }
}

/// The partial permutation that cycles the ring of a slice: each of the n
/// tiles along each side moves to the corresponding tile along the side the
/// angle carries it to, at the same depth.
pub fn rotate_outside_of_slice(slice: Slice, angle: Angle, n: usize) -> (r: PartialTilePerm)
    requires
        6 * (n * n) <= usize::MAX,
        slice.slice_index < n,
    ensures
        r.wf(),
        r.n == n,
        forall|p: TilePos|
            spec_pos_valid(p, n as int)
                ==> #[trigger] r.spec_entry(p)
                    == spec_ring_entry(slice.face, slice.slice_index as int, angle, n as int, p),
        r.injective_ext(),
        r.closed(),
{
    let face = slice.face;
    let depth = slice.slice_index;
    let mut out = PartialTilePerm::empty(n);
    let mut si: usize = 0;
    while si < 4
        invariant
            6 * (n * n) <= usize::MAX,
            depth < n,
            si <= 4,
            out.wf(),
            out.n == n,
            forall|p: TilePos|
                spec_pos_valid(p, n as int)
                    ==> #[trigger] out.spec_entry(p) == (
                        match spec_ring_decode(face, p, n as int) {
                            Some(sjd) => if sjd.2 == depth && crate::geometry::spec_side_index(sjd.0) < si {
                                Some(spec_ring_pos(face, spec_side_rotated(sjd.0, angle), sjd.1, depth as int, n as int))
                            } else {
                                None
                            },
                            None => None,
                        }
                    ),
        decreases 4 - si,
    {
        let side = FaceSide::from_index(si);
        let adjacent = face.adjacent(side);
        let target_adjacent = face.adjacent(side.rotated(angle));
        let mut j: usize = 0;
        while j < n
            invariant
                6 * (n * n) <= usize::MAX,
                depth < n,
                si < 4,
                side == spec_side_from_index(si as int),
                crate::geometry::spec_side_index(side) == si,
                adjacent == spec_adjacent(face, side),
                target_adjacent == spec_adjacent(face, spec_side_rotated(side, angle)),
                j <= n,
                out.wf(),
                out.n == n,
                forall|p: TilePos|
                    spec_pos_valid(p, n as int)
                        ==> #[trigger] out.spec_entry(p) == (
                            match spec_ring_decode(face, p, n as int) {
                                Some(sjd) => if sjd.2 == depth
                                    && (crate::geometry::spec_side_index(sjd.0) < si
                                        || (sjd.0 == side && sjd.1 < j)) {
                                    Some(spec_ring_pos(face, spec_side_rotated(sjd.0, angle), sjd.1, depth as int, n as int))
                                } else {
                                    None
                                },
                                None => None,
                            }
                        ),
            decreases n - j,
        {
            let key = adjacent.side_pos_at_depth(j, depth, n);
            let val = target_adjacent.side_pos_at_depth(j, depth, n);
            proof {
                lemma_ring_roundtrip(face, side, j as int, depth as int, n as int);
                lemma_ring_roundtrip(face, spec_side_rotated(side, angle), j as int, depth as int, n as int);
            }
            out.set_entry(key, val);
            proof {
                assert forall|p: TilePos| spec_pos_valid(p, n as int)
                    implies #[trigger] out.spec_entry(p) == (
                        match spec_ring_decode(face, p, n as int) {
                            Some(sjd) => if sjd.2 == depth
                                && (crate::geometry::spec_side_index(sjd.0) < si
                                    || (sjd.0 == side && sjd.1 < j + 1)) {
                                Some(spec_ring_pos(face, spec_side_rotated(sjd.0, angle), sjd.1, depth as int, n as int))
                            } else {
                                None
                            },
                            None => None,
                        }
                    ) by {
                    lemma_ring_decode_sound(face, p, n as int);
                }
            }
            j += 1;
        }
        si += 1;
    }
    proof {
        assert forall|p: TilePos| spec_pos_valid(p, n as int)
            implies #[trigger] out.spec_entry(p)
                == spec_ring_entry(face, depth as int, angle, n as int, p) by {
            lemma_ring_decode_sound(face, p, n as int);
        }
        assert forall|p1: TilePos, p2: TilePos|
            spec_pos_valid(p1, n as int) && spec_pos_valid(p2, n as int)
                && #[trigger] out.spec_ext(p1) == #[trigger] out.spec_ext(p2) implies p1 == p2 by {
            lemma_ring_entry_injective_case(face, depth as int, angle, n as int, p1, p2);
        }
        assert forall|p: TilePos|
            spec_pos_valid(p, n as int) && #[trigger] out.spec_in_domain(p)
                implies out.spec_in_domain(out.spec_ext(p)) by {
            lemma_ring_decode_sound(face, p, n as int);
            let sjd = spec_ring_decode(face, p, n as int)->Some_0;
            lemma_ring_roundtrip(face, spec_side_rotated(sjd.0, angle), sjd.1, depth as int, n as int);
        }
    }
    out
}

/// Distinct valid positions have distinct images under a ring rotation
/// extended by the identity.
proof fn lemma_ring_entry_injective_case(face: Face, idx: int, angle: Angle, n: int, p1: TilePos, p2: TilePos)
    requires
        n <= usize::MAX,
        0 <= idx < n,
        spec_pos_valid(p1, n),
        spec_pos_valid(p2, n),
        (match spec_ring_entry(face, idx, angle, n, p1) {
            Some(q) => q,
            None => p1,
        }) == (match spec_ring_entry(face, idx, angle, n, p2) {
            Some(q) => q,
            None => p2,
        }),
    ensures
        p1 == p2,
{
    lemma_ring_decode_sound(face, p1, n);
    lemma_ring_decode_sound(face, p2, n);
    if spec_ring_entry(face, idx, angle, n, p1) is Some {
        let sjd1 = spec_ring_decode(face, p1, n)->Some_0;
        lemma_ring_roundtrip(face, spec_side_rotated(sjd1.0, angle), sjd1.1, idx, n);
        if spec_ring_entry(face, idx, angle, n, p2) is Some {
            let sjd2 = spec_ring_decode(face, p2, n)->Some_0;
            lemma_ring_roundtrip(face, spec_side_rotated(sjd2.0, angle), sjd2.1, idx, n);
        }
    } else if spec_ring_entry(face, idx, angle, n, p2) is Some {
        let sjd2 = spec_ring_decode(face, p2, n)->Some_0;
        lemma_ring_roundtrip(face, spec_side_rotated(sjd2.0, angle), sjd2.1, idx, n);
    }
}

} // verus!
