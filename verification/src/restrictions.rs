//! Geometric tile subsets: slices, ranges of slices, and their enumeration.
//!
//! A [`Slice`] is the set of tiles at a fixed depth from a reference face. An
//! end slice (depth 0, or depth n−1 which coincides with depth 0 of the
//! opposite face) holds a face's n² tiles plus the n edge tiles of each of
//! its four neighbours; an inner slice holds only the ring of 4·n edge
//! tiles. Enumeration order is fixed: the face row-major, then the sides
//! North, East, South, West.

use vstd::prelude::*;
use vstd::arithmetic::div_mod::lemma_fundamental_div_mod_converse;
use crate::geometry::{Face, FaceSide, AdjacentFace, spec_adjacent, spec_opposite};
use crate::tiles::{TilePos, TilePerm, spec_pos_valid, spec_pos_at_index, lemma_index_split, lemma_index_join};

verus! {

/// The tile met at step `index` along the given side of `face`, `depth`
/// layers in from the shared edge, on the neighbouring face.
pub open spec fn spec_ring_pos(face: Face, side: FaceSide, index: int, depth: int, n: int) -> TilePos {
    spec_side_pos(spec_adjacent(face, side), index, depth, n)
}

/// The tile met at step `index` along a shared edge, `depth` layers in from
/// that edge of the neighbouring face.
pub open spec fn spec_side_pos(adj: AdjacentFace, index: int, depth: int, n: int) -> TilePos {
    match adj.side {
        FaceSide::North => TilePos { face: adj.face, row: depth as usize, col: index as usize },
        FaceSide::East => TilePos { face: adj.face, row: index as usize, col: (n - 1 - depth) as usize },
        FaceSide::South => TilePos { face: adj.face, row: (n - 1 - depth) as usize, col: (n - 1 - index) as usize },
        FaceSide::West => TilePos { face: adj.face, row: (n - 1 - index) as usize, col: depth as usize },
    }
}

impl AdjacentFace {
    /// The tile met at step `index` along the shared edge, `depth` layers in
    /// from that edge of the neighbouring face.
    pub fn side_pos_at_depth(&self, index: usize, depth: usize, n: usize) -> (r: TilePos)
        requires
            index < n,
            depth < n,
        ensures
            r == spec_side_pos(*self, index as int, depth as int, n as int),
            spec_pos_valid(r, n as int),
    {
        match self.side {
            FaceSide::North => TilePos { face: self.face, row: depth, col: index },
            FaceSide::East => TilePos { face: self.face, row: index, col: n - 1 - depth },
            FaceSide::South => TilePos { face: self.face, row: n - 1 - depth, col: n - 1 - index },
            FaceSide::West => TilePos { face: self.face, row: n - 1 - index, col: depth },
        }
    }
}

/// The n² tiles of one face, in row-major order.
pub open spec fn spec_face_tiles(face: Face, n: int) -> Seq<TilePos> {
    Seq::new((n * n) as nat, |k: int| spec_pos_at_index(face, k, n))
}

/// The n tiles along one side of a slice, in index order.
pub open spec fn spec_side_seq(face: Face, side: FaceSide, depth: int, n: int) -> Seq<TilePos> {
    Seq::new(n as nat, |j: int| spec_ring_pos(face, side, j, depth, n))
}

/// The 4·n ring tiles of a slice: North, then East, South, West.
pub open spec fn spec_ring_seq(face: Face, depth: int, n: int) -> Seq<TilePos> {
    spec_side_seq(face, FaceSide::North, depth, n) + spec_side_seq(face, FaceSide::East, depth, n)
        + spec_side_seq(face, FaceSide::South, depth, n) + spec_side_seq(face, FaceSide::West, depth, n)
}

/// All tiles of the slice at the given depth from `face`: an end cap for
/// depth 0 (or the opposite end cap for depth n−1), a bare ring in between,
/// and nothing at all for a depth outside the cube.
pub open spec fn spec_slice_positions(face: Face, idx: int, n: int) -> Seq<TilePos> {
    if !(0 <= idx < n) {
        Seq::empty()
    } else if idx == 0 {
        spec_face_tiles(face, n) + spec_ring_seq(face, 0, n)
    } else if idx == n - 1 {
        spec_face_tiles(spec_opposite(face), n) + spec_ring_seq(spec_opposite(face), 0, n)
    } else {
        spec_ring_seq(face, idx, n)
    }
}

/// A subset of the cube's tile positions, enumerable as a sequence.
pub trait Restriction {
    /// The positions of this restriction, in enumeration order, on an
    /// n×n×n cube.
    spec fn spec_positions(&self, n: int) -> Seq<TilePos>;

    /// Enumerates the positions of this restriction on an n×n×n cube.
    fn restricted_positions(&self, n: usize) -> (r: Vec<TilePos>)
        ensures
            r@ == self.spec_positions(n as int),
    ;
}

/// A slice: the set of tiles at depth `slice_index` from `face`.
#[derive(Clone, Copy, Debug, PartialEq, Eq, Structural)]
pub struct Slice {
    /// The reference face from which the depth is measured.
    pub face: Face,
    /// The depth: 0 is the face itself, n−1 the opposite face.
    pub slice_index: usize,
}

/// Appends the n tiles along one side of a slice to a vector.
fn push_side(out: &mut Vec<TilePos>, face: Face, side: FaceSide, depth: usize, n: usize)
    requires
        depth < n,
    ensures
        final(out)@ == old(out)@ + spec_side_seq(face, side, depth as int, n as int),
        forall|k: int|
            old(out)@.len() <= k < final(out)@.len()
                ==> spec_pos_valid(#[trigger] final(out)@[k], n as int),
{
    let adjacent = face.adjacent(side);
    let ghost side_seq = spec_side_seq(face, side, depth as int, n as int);
    let mut j: usize = 0;
    while j < n
        invariant
            depth < n,
            j <= n,
            adjacent == spec_adjacent(face, side),
            side_seq == spec_side_seq(face, side, depth as int, n as int),
            out@ == old(out)@ + side_seq.take(j as int),
            forall|k: int| old(out)@.len() <= k < out@.len() ==> spec_pos_valid(#[trigger] out@[k], n as int),
        decreases n - j,
    {
        let p = adjacent.side_pos_at_depth(j, depth, n);
        out.push(p);
        proof {
            assert(side_seq.take(j + 1) =~= side_seq.take(j as int).push(side_seq[j as int]));
            assert(out@ =~= old(out)@ + side_seq.take(j + 1));
        }
        j += 1;
    }
    proof {
        assert(side_seq.take(n as int) =~= side_seq);
    }
}

/// Appends the n² tiles of one face, in row-major order, to a vector.
fn push_face_tiles(out: &mut Vec<TilePos>, face: Face, n: usize)
    ensures
        final(out)@ == old(out)@ + spec_face_tiles(face, n as int),
        forall|k: int|
            old(out)@.len() <= k < final(out)@.len()
                ==> spec_pos_valid(#[trigger] final(out)@[k], n as int),
{
    let ghost tiles = spec_face_tiles(face, n as int);
    let mut row: usize = 0;
    while row < n
        invariant
            row <= n,
            tiles == spec_face_tiles(face, n as int),
            out@ == old(out)@ + tiles.take(row * n),
            forall|j: int| old(out)@.len() <= j < out@.len() ==> spec_pos_valid(#[trigger] out@[j], n as int),
        decreases n - row,
    {
        let mut col: usize = 0;
        while col < n
            invariant
                row < n,
                col <= n,
                tiles == spec_face_tiles(face, n as int),
                out@ == old(out)@ + tiles.take(row * n + col),
                forall|j: int| old(out)@.len() <= j < out@.len() ==> spec_pos_valid(#[trigger] out@[j], n as int),
            decreases n - col,
        {
            proof {
                lemma_index_join(row as int, col as int, n as int);
            }
            out.push(TilePos { face, row, col });
            proof {
                let k = row * n + col;
                assert(tiles.take(k + 1) =~= tiles.take(k).push(tiles[k]));
                assert(out@ =~= old(out)@ + tiles.take(k + 1));
            }
            col += 1;
        }
        proof {
            assert((row + 1) * n == row * n + n) by (nonlinear_arith);
        }
        row += 1;
    }
    proof {
        assert(tiles.take(n * n) =~= tiles);
    }
}

impl Restriction for Slice {
    open spec fn spec_positions(&self, n: int) -> Seq<TilePos> {
        spec_slice_positions(self.face, self.slice_index as int, n)
    }

    fn restricted_positions(&self, n: usize) -> (r: Vec<TilePos>)
    {
        let mut out: Vec<TilePos> = Vec::new();
        if self.slice_index >= n {
            return out;
        }
        if self.slice_index == 0 {
            push_face_tiles(&mut out, self.face, n);
            push_side(&mut out, self.face, FaceSide::North, 0, n);
            push_side(&mut out, self.face, FaceSide::East, 0, n);
            push_side(&mut out, self.face, FaceSide::South, 0, n);
            push_side(&mut out, self.face, FaceSide::West, 0, n);
            proof {
                assert(out@ =~= self.spec_positions(n as int));
            }
        } else if self.slice_index == n - 1 {
            let face = self.face.opposite();
            push_face_tiles(&mut out, face, n);
            push_side(&mut out, face, FaceSide::North, 0, n);
            push_side(&mut out, face, FaceSide::East, 0, n);
            push_side(&mut out, face, FaceSide::South, 0, n);
            push_side(&mut out, face, FaceSide::West, 0, n);
            proof {
                assert(out@ =~= self.spec_positions(n as int));
            }
        } else {
            push_side(&mut out, self.face, FaceSide::North, self.slice_index, n);
            push_side(&mut out, self.face, FaceSide::East, self.slice_index, n);
            push_side(&mut out, self.face, FaceSide::South, self.slice_index, n);
            push_side(&mut out, self.face, FaceSide::West, self.slice_index, n);
            proof {
                assert(out@ =~= self.spec_positions(n as int));
            }
        }
        out
    }
}

/// The union of two restrictions, enumerated one after the other.
pub struct CombinedRestriction<'a, 'b, First: Restriction, Second: Restriction> {
    /// The restriction enumerated first.
    pub first: &'a First,
    /// The restriction enumerated second.
    pub second: &'b Second,
}

impl<'a, 'b, First: Restriction, Second: Restriction> Restriction for CombinedRestriction<'a, 'b, First, Second> {
    open spec fn spec_positions(&self, n: int) -> Seq<TilePos> {
        self.first.spec_positions(n) + self.second.spec_positions(n)
    }

    fn restricted_positions(&self, n: usize) -> (r: Vec<TilePos>)
    {
        let mut out = self.first.restricted_positions(n);
        let mut rest = self.second.restricted_positions(n);
        out.append(&mut rest);
        out
    }
}

/// The tiles of the consecutive slices `[s, e]` from `face`, slice by slice.
pub open spec fn spec_range_positions(face: Face, s: int, e: int, n: int) -> Seq<TilePos>
    decreases e + 1 - s,
{
    if s > e {
        Seq::empty()
    } else {
        spec_range_positions(face, s, e - 1, n) + spec_slice_positions(face, e, n)
    }
}

/// Slices past the end of the cube contribute nothing to a range.
proof fn lemma_range_tail_empty(face: Face, s: int, e: int, m: int, n: int)
    requires
        m >= n,
        m >= s,
        m <= e + 1,
    ensures
        spec_range_positions(face, s, e, n) == spec_range_positions(face, s, m - 1, n),
    decreases e + 1 - m,
{
    if e >= m {
        lemma_range_tail_empty(face, s, e - 1, m, n);
        assert(spec_slice_positions(face, e, n) == Seq::<TilePos>::empty());
        assert(spec_range_positions(face, s, e, n) =~= spec_range_positions(face, s, e - 1, n));
    }
}

/// A contiguous range of slices from a reference face, both ends inclusive.
#[derive(Clone, Copy, Debug, PartialEq, Eq, Structural)]
pub struct SliceRange {
    /// The reference face from which depths are measured.
    pub face: Face,
    /// The first slice of the range.
    pub start_slice_index: usize,
    /// The last slice of the range.
    pub end_slice_index: usize,
}

impl Restriction for SliceRange {
    open spec fn spec_positions(&self, n: int) -> Seq<TilePos> {
        spec_range_positions(self.face, self.start_slice_index as int, self.end_slice_index as int, n)
    }

    fn restricted_positions(&self, n: usize) -> (r: Vec<TilePos>)
    {
        let start = self.start_slice_index;
        let end = self.end_slice_index;
        let mut out: Vec<TilePos> = Vec::new();
        if start > end {
            return out;
        }
        let mut i = start;
        while i <= end && i < n
            invariant
                start <= i,
                i <= end + 1,
                out@ == spec_range_positions(self.face, start as int, i - 1, n as int),
            decreases end + 1 - i,
        {
            let slice = Slice { face: self.face, slice_index: i };
            let mut chunk = slice.restricted_positions(n);
            out.append(&mut chunk);
            i += 1;
        }
        proof {
            if i <= end {
                lemma_range_tail_empty(self.face, start as int, end as int, i as int, n as int);
            }
        }
        out
    }
}

/// An end slice holds n² + 4·n positions, an inner slice 4·n.
pub proof fn lemma_slice_positions_count(face: Face, idx: int, n: int)
    requires
        0 <= idx < n,
    ensures
        (idx == 0 || idx == n - 1) ==> spec_slice_positions(face, idx, n).len() == n * n + 4 * n,
        !(idx == 0 || idx == n - 1) ==> spec_slice_positions(face, idx, n).len() == 4 * n,
{
}

/// The enumeration position a slice tile is read back from: face tiles by
/// their row-major index, ring tiles by their side and step.
pub open spec fn spec_slice_index_of(face: Face, idx: int, n: int, p: TilePos) -> int {
    let cap = if idx == 0 { face } else { spec_opposite(face) };
    let ring_face = if idx == 0 || idx == n - 1 { cap } else { face };
    let ring_depth_offset = if idx == 0 || idx == n - 1 { n * n } else { 0 };
    if (idx == 0 || idx == n - 1) && p.face == cap {
        p.row * n + p.col
    } else {
        match crate::partial::spec_ring_decode(ring_face, p, n) {
            Some(sjd) => ring_depth_offset + crate::geometry::spec_side_index(sjd.0) * n + sjd.1,
            None => -1,
        }
    }
}

/// Every slice tile is read back from its own enumeration position, and is a
/// valid position: the enumeration has no duplicates.
pub proof fn lemma_slice_element_index(face: Face, idx: int, n: int, k: int)
    requires
        0 <= idx < n,
        n <= usize::MAX,
        0 <= k < spec_slice_positions(face, idx, n).len(),
    ensures
        spec_pos_valid(spec_slice_positions(face, idx, n)[k], n),
        spec_slice_index_of(face, idx, n, spec_slice_positions(face, idx, n)[k]) == k,
{
    let s = spec_slice_positions(face, idx, n);
    let nn = n * n;
    if (idx == 0 || idx == n - 1) && k < nn {
        let cap = if idx == 0 { face } else { spec_opposite(face) };
        lemma_index_split(k, n);
        assert(s[k] == spec_pos_at_index(cap, k, n));
        lemma_index_join(k / n, k % n, n);
    } else {
        let cap = if idx == 0 { face }
            else if idx == n - 1 { spec_opposite(face) }
            else { face };
        let depth = if idx == 0 || idx == n - 1 { 0 } else { idx };
        let r = if idx == 0 || idx == n - 1 { k - nn } else { k };
        if r < n {
            lemma_fundamental_div_mod_converse(r, n, 0, r);
        } else if r < 2 * n {
            lemma_fundamental_div_mod_converse(r, n, 1, r - n);
        } else if r < 3 * n {
            lemma_fundamental_div_mod_converse(r, n, 2, r - 2 * n);
        } else {
            lemma_fundamental_div_mod_converse(r, n, 3, r - 3 * n);
        }
        let side = crate::geometry::spec_side_from_index(r / n);
        let j = r % n;
        assert(s[k] == spec_ring_pos(cap, side, j, depth, n));
        crate::partial::lemma_ring_roundtrip(cap, side, j, depth, n);
        crate::geometry::lemma_adjacent_faces_distinct(cap, side, side);
    }
}

/// A slice enumerates distinct positions: no tile appears twice.
pub proof fn lemma_slice_positions_distinct(face: Face, idx: int, n: int)
    requires
        0 <= idx < n,
        n <= usize::MAX,
    ensures
        forall|k1: int, k2: int|
            0 <= k1 < k2 < spec_slice_positions(face, idx, n).len()
                ==> spec_slice_positions(face, idx, n)[k1] != spec_slice_positions(face, idx, n)[k2],
{
    let s = spec_slice_positions(face, idx, n);
    assert forall|k1: int, k2: int| 0 <= k1 < k2 < s.len() implies s[k1] != s[k2] by {
        lemma_slice_element_index(face, idx, n, k1);
        lemma_slice_element_index(face, idx, n, k2);
    }
}

/// Whether two permutations send every position of a sequence to the same
/// destination.
pub open spec fn spec_agree_on(a: TilePerm, b: TilePerm, positions: Seq<TilePos>) -> bool {
    forall|k: int| 0 <= k < positions.len() ==> a.spec_at(#[trigger] positions[k]) == b.spec_at(positions[k])
}

impl TilePerm {
    /// Whether this permutation and `other` agree on every position of the
    /// given restriction.
    pub fn agree_on<T: Restriction>(&self, other: &TilePerm, restriction: &T) -> (r: bool)
        requires
            self.wf(),
            other.wf(),
            other.n == self.n,
            forall|k: int|
                0 <= k < restriction.spec_positions(self.n as int).len()
                    ==> spec_pos_valid(#[trigger] restriction.spec_positions(self.n as int)[k], self.n as int),
        ensures
            r == spec_agree_on(*self, *other, restriction.spec_positions(self.n as int)),
    {
        let positions = restriction.restricted_positions(self.n);
        let mut k: usize = 0;
        while k < positions.len()
            invariant
                self.wf(),
                other.wf(),
                other.n == self.n,
                positions@ == restriction.spec_positions(self.n as int),
                forall|j: int| 0 <= j < positions@.len() ==> spec_pos_valid(#[trigger] positions@[j], self.n as int),
                k <= positions@.len(),
                forall|j: int|
                    0 <= j < k ==> self.spec_at(#[trigger] positions@[j]) == other.spec_at(positions@[j]),
            decreases positions@.len() - k,
        {
            let p = positions[k];
            if self.apply(p) != other.apply(p) {
                return false;
            }
            k += 1;
        }
        true
    }
}

/// An iterator over the positions of one slice, in enumeration order.
pub struct SliceIter {
    /// The positions of the slice, in order.
    pub items: Vec<TilePos>,
    /// How many positions have been handed out.
    pub pos: usize,
}

impl SliceIter {
    /// A fresh iterator over the positions of a slice.
    pub fn new(slice: &Slice, n: usize) -> (r: SliceIter)
        ensures
            r.items@ == slice.spec_positions(n as int),
            r.pos == 0,
    {
        SliceIter { items: slice.restricted_positions(n), pos: 0 }
    }

    /// The next position, or `None` once the slice is exhausted.
    pub fn next(&mut self) -> (r: Option<TilePos>)
        ensures
            final(self).items == old(self).items,
            old(self).pos < old(self).items@.len() ==> (
                r == Some(old(self).items@[old(self).pos as int])
                && final(self).pos == old(self).pos + 1
            ),
            old(self).pos >= old(self).items@.len() ==> (
                r is None && final(self).pos == old(self).pos
            ),
    {
        if self.pos < self.items.len() {
            let out = self.items[self.pos];
            self.pos = self.pos + 1;
            Some(out)
        } else {
            None
        }
    }
}

/// An iterator over the positions of a range of consecutive slices.
pub struct SliceRangeIter {
    /// The positions of the range, slice by slice.
    pub items: Vec<TilePos>,
    /// How many positions have been handed out.
    pub pos: usize,
}

/// A fresh iterator over the slices `[first_slice_index, second_slice_index]`
/// of `face`.
pub fn slice_range(face: Face, first_slice_index: usize, second_slice_index: usize, n: usize) -> (r: SliceRangeIter)
    ensures
        r.items@ == spec_range_positions(face, first_slice_index as int, second_slice_index as int, n as int),
        r.pos == 0,
{
    let range = SliceRange { face, start_slice_index: first_slice_index, end_slice_index: second_slice_index };
    SliceRangeIter { items: range.restricted_positions(n), pos: 0 }
}

impl SliceRangeIter {
    /// The next position, or `None` once the range is exhausted.
    pub fn next(&mut self) -> (r: Option<TilePos>)
        ensures
            final(self).items == old(self).items,
            old(self).pos < old(self).items@.len() ==> (
                r == Some(old(self).items@[old(self).pos as int])
                && final(self).pos == old(self).pos + 1
            ),
            old(self).pos >= old(self).items@.len() ==> (
                r is None && final(self).pos == old(self).pos
            ),
    {
        if self.pos < self.items.len() {
            let out = self.items[self.pos];
            self.pos = self.pos + 1;
            Some(out)
        } else {
            None
        }
    }
}

/// Advances a `(minor, major)` position pair one step in the grid walk that
/// the slice enumeration uses: the minor coordinate runs to n−1 and then
/// wraps, carrying into the major coordinate.
pub fn increment_pos(pos: &mut (usize, usize), n: usize)
    requires
        1 <= n,
        old(pos).0 < n,
        old(pos).1 < usize::MAX,
    ensures
        old(pos).0 + 1 < n ==> final(pos).0 == old(pos).0 + 1 && final(pos).1 == old(pos).1,
        old(pos).0 + 1 >= n ==> final(pos).0 == 0 && final(pos).1 == old(pos).1 + 1,
{
    if pos.0 < n - 1 {
        pos.0 = pos.0 + 1;
    } else {
        pos.0 = 0;
        pos.1 = pos.1 + 1;
    }
}

} // verus!
