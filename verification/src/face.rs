//! The six faces of a cubemap and their canonical order.

use vstd::prelude::*;

verus! {

/// Number of faces of a cubemap.
pub const FACE_COUNT: usize = 6;

/// Native enumerant of the cubemap slot that faces the positive X axis. The
/// five other slots follow it without gaps.
pub const TEXTURE_CUBE_MAP_POSITIVE_X: u32 = 0x8515;

/// One face of a cubemap. The variants are declared in the canonical order,
/// which is both the order in which the face files are read and the order of
/// the native slots they are uploaded to.
#[derive(Clone, Copy, Debug, PartialEq, Eq, Structural)]
pub enum Face {
    Right,
    Left,
    Bottom,
    Top,
    Back,
    Front,
}

/// The canonical face order.
pub open spec fn face_order() -> Seq<Face> {
    seq![Face::Right, Face::Left, Face::Bottom, Face::Top, Face::Back, Face::Front]
}

impl Face {
    /// Position of the face in the canonical order.
    pub open spec fn position(self) -> nat {
        match self {
            Face::Right => 0,
            Face::Left => 1,
            Face::Bottom => 2,
            Face::Top => 3,
            Face::Back => 4,
            Face::Front => 5,
        }
    }

    /// File stem of the face's image.
    pub open spec fn stem(self) -> Seq<char> {
        match self {
            Face::Right => "right"@,
            Face::Left => "left"@,
            Face::Bottom => "bottom"@,
            Face::Top => "top"@,
            Face::Back => "back"@,
            Face::Front => "front"@,
        }
    }

    /// Native slot the face is uploaded to.
    pub open spec fn slot(self) -> nat {
        TEXTURE_CUBE_MAP_POSITIVE_X as nat + self.position()
    }

    /// Position of the face in the canonical order.
    pub fn index(self) -> (i: usize)
        ensures
            i == self.position(),
            i < FACE_COUNT,
            face_order()[i as int] == self,
    {
        match self {
            Face::Right => 0,
            Face::Left => 1,
            Face::Bottom => 2,
            Face::Top => 3,
            Face::Back => 4,
            Face::Front => 5,
        }
    }

    /// The face at position `i` of the canonical order, if there is one.
    pub fn from_index(i: usize) -> (face: Option<Face>)
        ensures
            i < FACE_COUNT ==> face == Some(face_order()[i as int]),
            i >= FACE_COUNT ==> face is None,
    {
        match i {
            0 => Some(Face::Right),
            1 => Some(Face::Left),
            2 => Some(Face::Bottom),
            3 => Some(Face::Top),
            4 => Some(Face::Back),
            5 => Some(Face::Front),
            _ => None,
        }
    }

    /// The face at position `i` of the canonical order.
    pub fn nth(i: usize) -> (face: Face)
        requires
            i < FACE_COUNT,
        ensures
            face == face_order()[i as int],
            face.position() == i,
    {
        if i == 0 {
            Face::Right
        } else if i == 1 {
            Face::Left
        } else if i == 2 {
            Face::Bottom
        } else if i == 3 {
            Face::Top
        } else if i == 4 {
            Face::Back
        } else {
            Face::Front
        }
    }

    /// File stem of the face's image.
    pub fn name(self) -> (s: &'static str)
        ensures
            s@ == self.stem(),
    {
        match self {
            Face::Right => "right",
            Face::Left => "left",
            Face::Bottom => "bottom",
            Face::Top => "top",
            Face::Back => "back",
            Face::Front => "front",
        }
    }

    /// Native slot that the face is uploaded to.
    pub fn target(self) -> (t: u32)
        ensures
            t == self.slot(),
    {
        TEXTURE_CUBE_MAP_POSITIVE_X + self.index() as u32
    }
}

/// The canonical order lists every face exactly once, at its own position.
pub proof fn lemma_face_order_is_a_bijection(face: Face, i: int)
    ensures
        face_order().len() == FACE_COUNT,
        face_order()[face.position() as int] == face,
        0 <= i < FACE_COUNT ==> face_order()[i].position() == i,
{
}

} // verus!
