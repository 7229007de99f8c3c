//! Colour schemes: assignments of a colour to each face, and how they
//! transform under whole-cube rotations.

use vstd::prelude::*;
use crate::Colour;
use crate::geometry::Face;
use crate::rotations::{
    CubeRotation, FacePerm, spec_rot_wf, spec_rot_inverse, spec_face_perm, spec_fp_apply,
};

verus! {

/// A concrete assignment of one colour to each face.
#[derive(Clone, Copy, Debug, PartialEq, Eq, Structural)]
pub struct ColourPerm {
    /// Colour of the Up face.
    pub up: Colour,
    /// Colour of the Down face.
    pub down: Colour,
    /// Colour of the Left face.
    pub left: Colour,
    /// Colour of the Right face.
    pub right: Colour,
    /// Colour of the Front face.
    pub front: Colour,
    /// Colour of the Back face.
    pub back: Colour,
}

/// Marker type for the Western colour scheme: white up, yellow down, orange
/// left, red right, green front, blue back.
#[derive(Clone, Copy, Debug)]
pub struct Western;

/// Marker type for the Japanese colour scheme: it differs from the Western
/// one by swapping yellow and blue.
#[derive(Clone, Copy, Debug)]
pub struct Japanese;

/// The colour a scheme assigns to a face.
pub open spec fn spec_scheme_face(cp: ColourPerm, f: Face) -> Colour {
    match f {
        Face::Up => cp.up,
        Face::Down => cp.down,
        Face::Left => cp.left,
        Face::Right => cp.right,
        Face::Front => cp.front,
        Face::Back => cp.back,
    }
}

/// A scheme after a whole-cube rotation: each face shows the colour of the
/// face the rotation moved onto it, found through the inverse rotation.
pub open spec fn spec_scheme_rotated(cp: ColourPerm, rotation: CubeRotation) -> ColourPerm {
    let fp = spec_face_perm(spec_rot_inverse(rotation));
    ColourPerm {
        up: spec_scheme_face(cp, spec_fp_apply(fp, Face::Up)),
        down: spec_scheme_face(cp, spec_fp_apply(fp, Face::Down)),
        left: spec_scheme_face(cp, spec_fp_apply(fp, Face::Left)),
        right: spec_scheme_face(cp, spec_fp_apply(fp, Face::Right)),
        front: spec_scheme_face(cp, spec_fp_apply(fp, Face::Front)),
        back: spec_scheme_face(cp, spec_fp_apply(fp, Face::Back)),
    }
}

/// The first face (in the order Up, Down, Left, Right, Front, Back) carrying
/// the given colour, if any.
pub open spec fn spec_scheme_get_face(cp: ColourPerm, colour: Colour) -> Option<Face> {
    if cp.up == colour {
        Some(Face::Up)
    } else if cp.down == colour {
        Some(Face::Down)
    } else if cp.left == colour {
        Some(Face::Left)
    } else if cp.right == colour {
        Some(Face::Right)
    } else if cp.front == colour {
        Some(Face::Front)
    } else if cp.back == colour {
        Some(Face::Back)
    } else {
        None
    }
}

/// The Western colour assignment.
pub open spec fn spec_western() -> ColourPerm {
    ColourPerm {
        up: Colour::White,
        down: Colour::Yellow,
        left: Colour::Orange,
        right: Colour::Red,
        front: Colour::Green,
        back: Colour::Blue,
    }
}

/// The Japanese colour assignment.
pub open spec fn spec_japanese() -> ColourPerm {
    ColourPerm {
        up: Colour::White,
        down: Colour::Blue,
        left: Colour::Orange,
        right: Colour::Red,
        front: Colour::Green,
        back: Colour::Yellow,
    }
}

/// A colour scheme: six face colours, looked up by face, and transformable
/// by whole-cube rotations.
pub trait ColourScheme: Sized {
    /// The scheme's colour assignment, as a mathematical value.
    spec fn model(&self) -> ColourPerm;

    /// The colour of the Up face.
    fn up(&self) -> (c: Colour)
        ensures
            c == self.model().up,
    ;

    /// The colour of the Down face.
    fn down(&self) -> (c: Colour)
        ensures
            c == self.model().down,
    ;

    /// The colour of the Left face.
    fn left(&self) -> (c: Colour)
        ensures
            c == self.model().left,
    ;

    /// The colour of the Right face.
    fn right(&self) -> (c: Colour)
        ensures
            c == self.model().right,
    ;

    /// The colour of the Front face.
    fn front(&self) -> (c: Colour)
        ensures
            c == self.model().front,
    ;

    /// The colour of the Back face.
    fn back(&self) -> (c: Colour)
        ensures
            c == self.model().back,
    ;

    /// The colour this scheme assigns to the given face.
    fn from_face(&self, face: Face) -> (c: Colour)
        ensures
            c == spec_scheme_face(self.model(), face),
    {
        match face {
            Face::Up => self.up(),
            Face::Down => self.down(),
            Face::Left => self.left(),
            Face::Right => self.right(),
            Face::Front => self.front(),
            Face::Back => self.back(),
        }
    }

    /// This scheme after a whole-cube rotation: the inverse rotation says,
    /// for each face, where its colour comes from.
    fn rotated(&self, rotation: CubeRotation) -> (r: ColourPerm)
        requires
            spec_rot_wf(rotation),
        ensures
            r == spec_scheme_rotated(self.model(), rotation),
    {
        let inv_rotation = rotation.inverse();
        let face_perm = FacePerm::from_rotation(inv_rotation);
        ColourPerm {
            up: self.from_face(face_perm.apply(Face::Up)),
            down: self.from_face(face_perm.apply(Face::Down)),
            left: self.from_face(face_perm.apply(Face::Left)),
            right: self.from_face(face_perm.apply(Face::Right)),
            front: self.from_face(face_perm.apply(Face::Front)),
            back: self.from_face(face_perm.apply(Face::Back)),
        }
    }

    /// The first face (in the order Up, Down, Left, Right, Front, Back)
    /// carrying the given colour, or `None` when the colour is not in the
    /// scheme.
    fn get_face(&self, colour: Colour) -> (r: Option<Face>)
        ensures
            r == spec_scheme_get_face(self.model(), colour),
    {
        if self.up() == colour {
            Some(Face::Up)
        } else if self.down() == colour {
            Some(Face::Down)
        } else if self.left() == colour {
            Some(Face::Left)
        } else if self.right() == colour {
            Some(Face::Right)
        } else if self.front() == colour {
            Some(Face::Front)
        } else if self.back() == colour {
            Some(Face::Back)
        } else {
            None
        }
    }
}

impl ColourScheme for Western {
    open spec fn model(&self) -> ColourPerm {
        spec_western()
    }

    fn up(&self) -> Colour {
        Colour::White
    }

    fn down(&self) -> Colour {
        Colour::Yellow
    }

    fn left(&self) -> Colour {
        Colour::Orange
    }

    fn right(&self) -> Colour {
        Colour::Red
    }

    fn front(&self) -> Colour {
        Colour::Green
    }

    fn back(&self) -> Colour {
        Colour::Blue
    }
}

impl ColourScheme for Japanese {
    open spec fn model(&self) -> ColourPerm {
        spec_japanese()
    }

    fn up(&self) -> Colour {
        Colour::White
    }

    fn down(&self) -> Colour {
        Colour::Blue
    }

    fn left(&self) -> Colour {
        Colour::Orange
    }

    fn right(&self) -> Colour {
        Colour::Red
    }

    fn front(&self) -> Colour {
        Colour::Green
    }

    fn back(&self) -> Colour {
        Colour::Yellow
    }
}

impl ColourScheme for ColourPerm {
    open spec fn model(&self) -> ColourPerm {
        *self
    }

    fn up(&self) -> Colour {
        self.up
    }

    fn down(&self) -> Colour {
        self.down
    }

    fn left(&self) -> Colour {
        self.left
    }

    fn right(&self) -> Colour {
        self.right
    }

    fn front(&self) -> Colour {
        self.front
    }

    fn back(&self) -> Colour {
        self.back
    }
}

} // verus!
