//! Geometric primitives: corners, diagonals, faces and face adjacencies.
//!
//! Every geometric algorithm in the crate reduces to lookups against the
//! hand-authored tables in this module: each face's canonical ordering of the
//! four main diagonals, its principal diagonal and corner, and the adjacency
//! table saying which face (and which of its sides) borders each side of each
//! face.

use vstd::prelude::*;
use crate::Angle;

verus! {

/// The six faces of a cube.
#[derive(Clone, Copy, Debug, PartialEq, Eq, Structural)]
pub enum Face {
    Up,
    Down,
    Left,
    Right,
    Front,
    Back,
}

/// A cube corner, named by which half-space it lies in along each axis.
#[derive(Clone, Copy, Debug, PartialEq, Eq, Structural)]
pub struct CubeCorner {
    /// True if the corner is in the upper half of the cube.
    pub up: bool,
    /// True if the corner is in the left half of the cube.
    pub left: bool,
    /// True if the corner is in the front half of the cube.
    pub front: bool,
}

/// The four main diagonals of the cube, each named by its upper corner.
#[derive(Clone, Copy, Debug, PartialEq, Eq, Structural)]
pub enum CubeDiag {
    /// The diagonal through the Up-Right-Front corner.
    URF,
    /// The diagonal through the Up-Left-Front corner.
    ULF,
    /// The diagonal through the Up-Right-Back corner.
    URB,
    /// The diagonal through the Up-Left-Back corner.
    ULB,
}

/// Cardinal directions naming the four sides of a face, in the face's own
/// coordinate frame.
#[derive(Clone, Copy, Debug, PartialEq, Eq, Structural)]
pub enum FaceSide {
    North,
    East,
    South,
    West,
}

/// A neighbouring face together with the side of that face along which the
/// two faces share an edge.
#[derive(Clone, Copy, Debug, PartialEq, Eq, Structural)]
pub struct AdjacentFace {
    /// The neighbouring face.
    pub face: Face,
    /// The side of the neighbouring face on which the shared edge lies.
    pub side: FaceSide,
}

/// The four neighbours of a face, one per side.
#[derive(Clone, Copy, Debug, PartialEq, Eq, Structural)]
pub struct Adjacencies {
    /// The neighbour across the north side.
    pub north: AdjacentFace,
    /// The neighbour across the east side.
    pub east: AdjacentFace,
    /// The neighbour across the south side.
    pub south: AdjacentFace,
    /// The neighbour across the west side.
    pub west: AdjacentFace,
}

/// The face opposite to `f`.
pub open spec fn spec_opposite(f: Face) -> Face {
    match f {
        Face::Up => Face::Down,
        Face::Down => Face::Up,
        Face::Left => Face::Right,
        Face::Right => Face::Left,
        Face::Front => Face::Back,
        Face::Back => Face::Front,
    }
}

/// A fixed numbering of the faces, in declaration order.
pub open spec fn spec_face_index(f: Face) -> int {
    match f {
        Face::Up => 0,
        Face::Down => 1,
        Face::Left => 2,
        Face::Right => 3,
        Face::Front => 4,
        Face::Back => 5,
    }
}

/// The face with the given number, inverse of [`spec_face_index`].
pub open spec fn spec_face_from_index(i: int) -> Face {
    if i == 0 {
        Face::Up
    } else if i == 1 {
        Face::Down
    } else if i == 2 {
        Face::Left
    } else if i == 3 {
        Face::Right
    } else if i == 4 {
        Face::Front
    } else {
        Face::Back
    }
}

/// A fixed numbering of the sides, in the order they are walked:
/// North, East, South, West.
pub open spec fn spec_side_index(s: FaceSide) -> int {
    match s {
        FaceSide::North => 0,
        FaceSide::East => 1,
        FaceSide::South => 2,
        FaceSide::West => 3,
    }
}

/// The side with the given number, inverse of [`spec_side_index`].
pub open spec fn spec_side_from_index(i: int) -> FaceSide {
    if i == 0 {
        FaceSide::North
    } else if i == 1 {
        FaceSide::East
    } else if i == 2 {
        FaceSide::South
    } else {
        FaceSide::West
    }
}

/// The side reached from `s` by stepping `a` quarter turns clockwise
/// (North → East → South → West → North).
pub open spec fn spec_side_rotated(s: FaceSide, a: Angle) -> FaceSide {
    match a {
        Angle::Zero => s,
        Angle::CWQuarter => match s {
            FaceSide::North => FaceSide::East,
            FaceSide::East => FaceSide::South,
            FaceSide::South => FaceSide::West,
            FaceSide::West => FaceSide::North,
        },
        Angle::Half => match s {
            FaceSide::North => FaceSide::South,
            FaceSide::East => FaceSide::West,
            FaceSide::South => FaceSide::North,
            FaceSide::West => FaceSide::East,
        },
        Angle::ACWQuarter => match s {
            FaceSide::North => FaceSide::West,
            FaceSide::East => FaceSide::North,
            FaceSide::South => FaceSide::East,
            FaceSide::West => FaceSide::South,
        },
    }
}

/// The main diagonal a corner lies on: a corner and its antipode name the
/// same diagonal, so lower corners are first reflected to their upper mates.
pub open spec fn spec_diag_of_corner(c: CubeCorner) -> CubeDiag {
    let left = if c.up { c.left } else { !c.left };
    let front = if c.up { c.front } else { !c.front };
    match (front, left) {
        (true, true) => CubeDiag::ULF,
        (true, false) => CubeDiag::URF,
        (false, true) => CubeDiag::ULB,
        (false, false) => CubeDiag::URB,
    }
}

/// Whether a corner lies on the given face.
pub open spec fn spec_touching(c: CubeCorner, f: Face) -> bool {
    match f {
        Face::Up => c.up,
        Face::Down => !c.up,
        Face::Left => c.left,
        Face::Right => !c.left,
        Face::Front => c.front,
        Face::Back => !c.front,
    }
}

/// The canonical ordering of the three main diagonals other than ULF, as
/// they follow ULF clockwise when the given face is viewed straight on.
pub open spec fn spec_diag_orientation(f: Face) -> (CubeDiag, CubeDiag, CubeDiag) {
    match f {
        Face::Up => (CubeDiag::ULB, CubeDiag::URB, CubeDiag::URF),
        Face::Down => (CubeDiag::URF, CubeDiag::URB, CubeDiag::ULB),
        Face::Left => (CubeDiag::URB, CubeDiag::URF, CubeDiag::ULB),
        Face::Right => (CubeDiag::ULB, CubeDiag::URF, CubeDiag::URB),
        Face::Front => (CubeDiag::URF, CubeDiag::ULB, CubeDiag::URB),
        Face::Back => (CubeDiag::URB, CubeDiag::ULB, CubeDiag::URF),
    }
}

/// The principal diagonal of a face: the one through the face's top-left
/// corner when the face is viewed straight on.
pub open spec fn spec_principal_diag(f: Face) -> CubeDiag {
    match f {
        Face::Up => CubeDiag::ULB,
        Face::Down => CubeDiag::URB,
        Face::Left => CubeDiag::ULB,
        Face::Right => CubeDiag::URF,
        Face::Front => CubeDiag::ULF,
        Face::Back => CubeDiag::URF,
    }
}

/// The principal corner of a face: the corner at the face's top-left when
/// the face is viewed straight on. It lies on the principal diagonal.
pub open spec fn spec_principal_corner(f: Face) -> CubeCorner {
    match f {
        Face::Up => CubeCorner { up: true, left: true, front: false },
        Face::Down => CubeCorner { up: false, left: true, front: true },
        Face::Left => CubeCorner { up: true, left: true, front: false },
        Face::Right => CubeCorner { up: true, left: false, front: true },
        Face::Front => CubeCorner { up: true, left: true, front: true },
        Face::Back => CubeCorner { up: false, left: true, front: false },
    }
}

/// The full adjacency table: which face borders each side of `f`, and along
/// which of its own sides. The table is symmetric: if `f`'s side `s` touches
/// `g`'s side `t`, then `g`'s side `t` touches `f`'s side `s`.
pub open spec fn spec_adjacencies(f: Face) -> Adjacencies {
    match f {
        Face::Up => Adjacencies {
            north: AdjacentFace { face: Face::Back, side: FaceSide::South },
            east: AdjacentFace { face: Face::Right, side: FaceSide::North },
            south: AdjacentFace { face: Face::Front, side: FaceSide::North },
            west: AdjacentFace { face: Face::Left, side: FaceSide::North },
        },
        Face::Down => Adjacencies {
            north: AdjacentFace { face: Face::Front, side: FaceSide::South },
            east: AdjacentFace { face: Face::Right, side: FaceSide::South },
            south: AdjacentFace { face: Face::Back, side: FaceSide::North },
            west: AdjacentFace { face: Face::Left, side: FaceSide::South },
        },
        Face::Left => Adjacencies {
            north: AdjacentFace { face: Face::Up, side: FaceSide::West },
            east: AdjacentFace { face: Face::Front, side: FaceSide::West },
            south: AdjacentFace { face: Face::Down, side: FaceSide::West },
            west: AdjacentFace { face: Face::Back, side: FaceSide::West },
        },
        Face::Right => Adjacencies {
            north: AdjacentFace { face: Face::Up, side: FaceSide::East },
            east: AdjacentFace { face: Face::Back, side: FaceSide::East },
            south: AdjacentFace { face: Face::Down, side: FaceSide::East },
            west: AdjacentFace { face: Face::Front, side: FaceSide::East },
        },
        Face::Front => Adjacencies {
            north: AdjacentFace { face: Face::Up, side: FaceSide::South },
            east: AdjacentFace { face: Face::Right, side: FaceSide::West },
            south: AdjacentFace { face: Face::Down, side: FaceSide::North },
            west: AdjacentFace { face: Face::Left, side: FaceSide::East },
        },
        Face::Back => Adjacencies {
            north: AdjacentFace { face: Face::Down, side: FaceSide::South },
            east: AdjacentFace { face: Face::Right, side: FaceSide::East },
            south: AdjacentFace { face: Face::Up, side: FaceSide::North },
            west: AdjacentFace { face: Face::Left, side: FaceSide::West },
        },
    }
}

/// One entry of the adjacency table, selected by side.
pub open spec fn spec_adjacent(f: Face, s: FaceSide) -> AdjacentFace {
    let a = spec_adjacencies(f);
    match s {
        FaceSide::North => a.north,
        FaceSide::East => a.east,
        FaceSide::South => a.south,
        FaceSide::West => a.west,
    }
}

impl CubeCorner {
    /// Whether this corner lies on the given face.
    pub fn touching(self, face: Face) -> (r: bool)
        ensures
            r == spec_touching(self, face),
    {
        match face {
            Face::Up => self.up,
            Face::Down => !self.up,
            Face::Left => self.left,
            Face::Right => !self.left,
            Face::Front => self.front,
            Face::Back => !self.front,
        }
    }
}

impl CubeDiag {
    /// The main diagonal a corner lies on.
    pub fn from_corner(corner: CubeCorner) -> (r: CubeDiag)
        ensures
            r == spec_diag_of_corner(corner),
    {
        let left = if corner.up { corner.left } else { !corner.left };
        let front = if corner.up { corner.front } else { !corner.front };
        match (front, left) {
            (true, true) => CubeDiag::ULF,
            (true, false) => CubeDiag::URF,
            (false, true) => CubeDiag::ULB,
            (false, false) => CubeDiag::URB,
        }
    }
}

impl FaceSide {
    /// The side reached from this one by stepping `a` quarter turns
    /// clockwise.
    pub fn rotated(self, a: Angle) -> (r: FaceSide)
        ensures
            r == spec_side_rotated(self, a),
    {
        match a {
            Angle::Zero => self,
            Angle::CWQuarter => match self {
                FaceSide::North => FaceSide::East,
                FaceSide::East => FaceSide::South,
                FaceSide::South => FaceSide::West,
                FaceSide::West => FaceSide::North,
            },
            Angle::Half => match self {
                FaceSide::North => FaceSide::South,
                FaceSide::East => FaceSide::West,
                FaceSide::South => FaceSide::North,
                FaceSide::West => FaceSide::East,
            },
            Angle::ACWQuarter => match self {
                FaceSide::North => FaceSide::West,
                FaceSide::East => FaceSide::North,
                FaceSide::South => FaceSide::East,
                FaceSide::West => FaceSide::South,
            },
        }
    }

    /// The side with the given number (0 North, 1 East, 2 South, 3 West).
    pub fn from_index(i: usize) -> (r: FaceSide)
        requires
            i < 4,
        ensures
            r == spec_side_from_index(i as int),
    {
        if i == 0 {
            FaceSide::North
        } else if i == 1 {
            FaceSide::East
        } else if i == 2 {
            FaceSide::South
        } else {
            FaceSide::West
        }
    }
}

impl Adjacencies {
    /// The neighbour on the given side.
    pub fn on_side(&self, s: FaceSide) -> (r: AdjacentFace)
        ensures
            r == (match s {
                FaceSide::North => self.north,
                FaceSide::East => self.east,
                FaceSide::South => self.south,
                FaceSide::West => self.west,
            }),
    {
        match s {
            FaceSide::North => self.north,
            FaceSide::East => self.east,
            FaceSide::South => self.south,
            FaceSide::West => self.west,
        }
    }
}

impl Face {
    /// The face opposite to this one.
    pub fn opposite(self) -> (r: Face)
        ensures
            r == spec_opposite(self),
    {
        match self {
            Face::Up => Face::Down,
            Face::Down => Face::Up,
            Face::Left => Face::Right,
            Face::Right => Face::Left,
            Face::Front => Face::Back,
            Face::Back => Face::Front,
        }
    }

    /// A fixed numbering of the faces, in declaration order.
    pub fn index(self) -> (r: usize)
        ensures
            r == spec_face_index(self),
            r < 6,
    {
        match self {
            Face::Up => 0,
            Face::Down => 1,
            Face::Left => 2,
            Face::Right => 3,
            Face::Front => 4,
            Face::Back => 5,
        }
    }

    /// The face with the given number, inverse of [`Face::index`].
    pub fn from_index(i: usize) -> (r: Face)
        requires
            i < 6,
        ensures
            r == spec_face_from_index(i as int),
    {
        if i == 0 {
            Face::Up
        } else if i == 1 {
            Face::Down
        } else if i == 2 {
            Face::Left
        } else if i == 3 {
            Face::Right
        } else if i == 4 {
            Face::Front
        } else {
            Face::Back
        }
    }

    /// The canonical ordering of the three main diagonals other than ULF,
    /// as they follow ULF clockwise when this face is viewed straight on.
    pub fn diag_orientation_following_ulf(&self) -> (r: (CubeDiag, CubeDiag, CubeDiag))
        ensures
            r == spec_diag_orientation(*self),
    {
        match self {
            Face::Up => (CubeDiag::ULB, CubeDiag::URB, CubeDiag::URF),
            Face::Down => (CubeDiag::URF, CubeDiag::URB, CubeDiag::ULB),
            Face::Left => (CubeDiag::URB, CubeDiag::URF, CubeDiag::ULB),
            Face::Right => (CubeDiag::ULB, CubeDiag::URF, CubeDiag::URB),
            Face::Front => (CubeDiag::URF, CubeDiag::ULB, CubeDiag::URB),
            Face::Back => (CubeDiag::URB, CubeDiag::ULB, CubeDiag::URF),
        }
    }

    /// The principal diagonal of this face.
    pub fn principal_diag(&self) -> (r: CubeDiag)
        ensures
            r == spec_principal_diag(*self),
    {
        match self {
            Face::Up => CubeDiag::ULB,
            Face::Down => CubeDiag::URB,
            Face::Left => CubeDiag::ULB,
            Face::Right => CubeDiag::URF,
            Face::Front => CubeDiag::ULF,
            Face::Back => CubeDiag::URF,
        }
    }

    /// The principal corner of this face: the corner at the face's top-left
    /// when viewed straight on.
    pub fn principal_corner(&self) -> (r: CubeCorner)
        ensures
            r == spec_principal_corner(*self),
    {
        match self {
            Face::Up => CubeCorner { up: true, left: true, front: false },
            Face::Down => CubeCorner { up: false, left: true, front: true },
            Face::Left => CubeCorner { up: true, left: true, front: false },
            Face::Right => CubeCorner { up: true, left: false, front: true },
            Face::Front => CubeCorner { up: true, left: true, front: true },
            Face::Back => CubeCorner { up: false, left: true, front: false },
        }
    }

    /// The full adjacency table for this face.
    pub fn adjacencies(self) -> (r: Adjacencies)
        ensures
            r == spec_adjacencies(self),
    {
        match self {
            Face::Up => Adjacencies {
                north: AdjacentFace { face: Face::Back, side: FaceSide::South },
                east: AdjacentFace { face: Face::Right, side: FaceSide::North },
                south: AdjacentFace { face: Face::Front, side: FaceSide::North },
                west: AdjacentFace { face: Face::Left, side: FaceSide::North },
            },
            Face::Down => Adjacencies {
                north: AdjacentFace { face: Face::Front, side: FaceSide::South },
                east: AdjacentFace { face: Face::Right, side: FaceSide::South },
                south: AdjacentFace { face: Face::Back, side: FaceSide::North },
                west: AdjacentFace { face: Face::Left, side: FaceSide::South },
            },
            Face::Left => Adjacencies {
                north: AdjacentFace { face: Face::Up, side: FaceSide::West },
                east: AdjacentFace { face: Face::Front, side: FaceSide::West },
                south: AdjacentFace { face: Face::Down, side: FaceSide::West },
                west: AdjacentFace { face: Face::Back, side: FaceSide::West },
            },
            Face::Right => Adjacencies {
                north: AdjacentFace { face: Face::Up, side: FaceSide::East },
                east: AdjacentFace { face: Face::Back, side: FaceSide::East },
                south: AdjacentFace { face: Face::Down, side: FaceSide::East },
                west: AdjacentFace { face: Face::Front, side: FaceSide::East },
            },
            Face::Front => Adjacencies {
                north: AdjacentFace { face: Face::Up, side: FaceSide::South },
                east: AdjacentFace { face: Face::Right, side: FaceSide::West },
                south: AdjacentFace { face: Face::Down, side: FaceSide::North },
                west: AdjacentFace { face: Face::Left, side: FaceSide::East },
            },
            Face::Back => Adjacencies {
                north: AdjacentFace { face: Face::Down, side: FaceSide::South },
                east: AdjacentFace { face: Face::Right, side: FaceSide::East },
                south: AdjacentFace { face: Face::Up, side: FaceSide::North },
                west: AdjacentFace { face: Face::Left, side: FaceSide::West },
            },
        }
    }

    /// The neighbour of this face across the given side.
    pub fn adjacent(self, side: FaceSide) -> (r: AdjacentFace)
        ensures
            r == spec_adjacent(self, side),
    {
        let adjacencies = self.adjacencies();
        match side {
            FaceSide::North => adjacencies.north,
            FaceSide::East => adjacencies.east,
            FaceSide::South => adjacencies.south,
            FaceSide::West => adjacencies.west,
        }
    }
}

/// Adjacency is symmetric: if `f`'s side `s` touches `g`'s side `t`, then
/// `g`'s side `t` touches `f`'s side `s`.
pub proof fn lemma_adjacency_bidirectional(f: Face, s: FaceSide)
    ensures
        spec_adjacent(spec_adjacent(f, s).face, spec_adjacent(f, s).side).face == f,
        spec_adjacent(spec_adjacent(f, s).face, spec_adjacent(f, s).side).side == s,
{
}

/// The four neighbours of a face are pairwise distinct, and none of them is
/// the face itself or its opposite.
pub proof fn lemma_adjacent_faces_distinct(f: Face, s1: FaceSide, s2: FaceSide)
    ensures
        spec_adjacent(f, s1).face != f,
        spec_adjacent(f, s1).face != spec_opposite(f),
        s1 != s2 ==> spec_adjacent(f, s1).face != spec_adjacent(f, s2).face,
{
}

/// The principal corner of a face lies on its principal diagonal, and
/// touches the face itself and its north and west neighbours.
pub proof fn lemma_principal_corner_consistent(f: Face)
    ensures
        spec_diag_of_corner(spec_principal_corner(f)) == spec_principal_diag(f),
        spec_touching(spec_principal_corner(f), f),
        spec_touching(spec_principal_corner(f), spec_adjacent(f, FaceSide::North).face),
        spec_touching(spec_principal_corner(f), spec_adjacent(f, FaceSide::West).face),
{
}

} // verus!
