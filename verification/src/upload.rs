//! The native calls that build a cubemap texture.
//!
//! The calls are data: a caller with a current graphics context issues them
//! one by one, in order. The sequence allocates one texture, binds it,
//! uploads the six faces to their slots in the canonical order, sets the
//! sampling parameters and leaves no texture bound.

use crate::face::{face_order, Face, FACE_COUNT, TEXTURE_CUBE_MAP_POSITIVE_X};
use vstd::prelude::*;

verus! {

/// Native enumerant of the cubemap texture target.
pub const TEXTURE_CUBE_MAP: u32 = 0x8513;

/// Native enumerant of the RGBA pixel format.
pub const RGBA: u32 = 0x1908;

/// Native enumerant of the unsigned byte component type.
pub const UNSIGNED_BYTE: u32 = 0x1401;

/// Native enumerant of the magnification filter parameter.
pub const TEXTURE_MAG_FILTER: u32 = 0x2800;

/// Native enumerant of the minification filter parameter.
pub const TEXTURE_MIN_FILTER: u32 = 0x2801;

/// Native enumerant of the wrap mode along the first axis.
pub const TEXTURE_WRAP_S: u32 = 0x2802;

/// Native enumerant of the wrap mode along the second axis.
pub const TEXTURE_WRAP_T: u32 = 0x2803;

/// Native enumerant of the wrap mode along the third axis.
pub const TEXTURE_WRAP_R: u32 = 0x8072;

/// Native enumerant of linear filtering.
pub const LINEAR: u32 = 0x2601;

/// Native enumerant of the clamp-to-edge wrap mode.
pub const CLAMP_TO_EDGE: u32 = 0x812F;

/// Number of calls in the sequence that builds a cubemap.
pub const CALL_COUNT: usize = 14;

/// Which texture a bind call names.
#[derive(Clone, Copy, Debug, PartialEq, Eq, Structural)]
pub enum Binding {
    /// The texture that the sequence allocated.
    Allocated,
    /// No texture: the target is left unbound.
    Unbound,
}

/// One native call.
#[derive(Clone, Copy, Debug, PartialEq, Eq, Structural)]
pub enum GlCall {
    /// Allocate one texture name.
    GenTexture,
    /// Bind a texture to a target.
    BindTexture { target: u32, texture: Binding },
    /// Upload the pixels of `face` to the slot `target`.
    TexImage2D {
        target: u32,
        level: i32,
        internal_format: i32,
        width: i32,
        height: i32,
        border: i32,
        format: u32,
        kind: u32,
        face: Face,
    },
    /// Set an integer parameter of the texture bound to `target`.
    TexParameteri { target: u32, pname: u32, param: i32 },
}

/// The call that uploads one face of a cubemap of the given size: mip level
/// zero, RGBA bytes, no border, into the slot of the face.
pub open spec fn face_upload(face: Face, size: int) -> GlCall {
    GlCall::TexImage2D {
        target: face.slot() as u32,
        level: 0,
        internal_format: RGBA as i32,
        width: size as i32,
        height: size as i32,
        border: 0,
        format: RGBA,
        kind: UNSIGNED_BYTE,
        face,
    }
}

/// The calls that set the sampling parameters: linear filtering both ways
/// and clamping to the edge along all three axes.
pub open spec fn sampling_calls() -> Seq<GlCall> {
    seq![
        GlCall::TexParameteri {
            target: TEXTURE_CUBE_MAP,
            pname: TEXTURE_MAG_FILTER,
            param: LINEAR as i32,
        },
        GlCall::TexParameteri {
            target: TEXTURE_CUBE_MAP,
            pname: TEXTURE_MIN_FILTER,
            param: LINEAR as i32,
        },
        GlCall::TexParameteri {
            target: TEXTURE_CUBE_MAP,
            pname: TEXTURE_WRAP_S,
            param: CLAMP_TO_EDGE as i32,
        },
        GlCall::TexParameteri {
            target: TEXTURE_CUBE_MAP,
            pname: TEXTURE_WRAP_T,
            param: CLAMP_TO_EDGE as i32,
        },
        GlCall::TexParameteri {
            target: TEXTURE_CUBE_MAP,
            pname: TEXTURE_WRAP_R,
            param: CLAMP_TO_EDGE as i32,
        },
    ]
}

/// The whole sequence for a cubemap of the given size.
pub open spec fn upload_calls(size: int) -> Seq<GlCall> {
    seq![
        GlCall::GenTexture,
        GlCall::BindTexture { target: TEXTURE_CUBE_MAP, texture: Binding::Allocated },
    ] + Seq::new(FACE_COUNT as nat, |i: int| face_upload(face_order()[i], size))
        + sampling_calls() + seq![
        GlCall::BindTexture { target: TEXTURE_CUBE_MAP, texture: Binding::Unbound },
    ]
}

/// Builds the sequence of native calls for a cubemap whose faces are
/// squares of `size` pixels.
pub fn cubemap_calls(size: u32) -> (calls: Vec<GlCall>)
    requires
        size <= i32::MAX,
    ensures
        calls@ == upload_calls(size as int),
        calls@.len() == CALL_COUNT,
{
    let side: i32 = size as i32;
    let mut calls: Vec<GlCall> = Vec::with_capacity(CALL_COUNT);
    calls.push(GlCall::GenTexture);
    calls.push(GlCall::BindTexture { target: TEXTURE_CUBE_MAP, texture: Binding::Allocated });
    let mut i: usize = 0;
    while i < FACE_COUNT
        invariant
            i <= FACE_COUNT,
            side == size,
            calls@.len() == 2 + i,
            calls@[0] == GlCall::GenTexture,
            calls@[1] == (GlCall::BindTexture {
                target: TEXTURE_CUBE_MAP,
                texture: Binding::Allocated,
            }),
            forall|j: int|
                0 <= j < i ==> calls@[2 + j] == face_upload(
                    #[trigger] face_order()[j],
                    size as int,
                ),
        decreases FACE_COUNT - i,
    {
        let face = Face::nth(i);
        calls.push(
            GlCall::TexImage2D {
                target: face.target(),
                level: 0,
                internal_format: RGBA as i32,
                width: side,
                height: side,
                border: 0,
                format: RGBA,
                kind: UNSIGNED_BYTE,
                face,
            },
        );
        i = i + 1;
    }
    calls.push(
        GlCall::TexParameteri {
            target: TEXTURE_CUBE_MAP,
            pname: TEXTURE_MAG_FILTER,
            param: LINEAR as i32,
        },
    );
    calls.push(
        GlCall::TexParameteri {
            target: TEXTURE_CUBE_MAP,
            pname: TEXTURE_MIN_FILTER,
            param: LINEAR as i32,
        },
    );
    calls.push(
        GlCall::TexParameteri {
            target: TEXTURE_CUBE_MAP,
            pname: TEXTURE_WRAP_S,
            param: CLAMP_TO_EDGE as i32,
        },
    );
    calls.push(
        GlCall::TexParameteri {
            target: TEXTURE_CUBE_MAP,
            pname: TEXTURE_WRAP_T,
            param: CLAMP_TO_EDGE as i32,
        },
    );
    calls.push(
        GlCall::TexParameteri {
            target: TEXTURE_CUBE_MAP,
            pname: TEXTURE_WRAP_R,
            param: CLAMP_TO_EDGE as i32,
        },
    );
    calls.push(GlCall::BindTexture { target: TEXTURE_CUBE_MAP, texture: Binding::Unbound });
    calls
}

/// The faces are uploaded in the canonical order, each to its own slot:
/// call `2 + i` of the sequence uploads face `i` of the order to the slot
/// that lies `i` after the first.
pub proof fn lemma_faces_are_uploaded_in_canonical_order(size: int, i: int)
    requires
        0 <= i < FACE_COUNT,
    ensures
        upload_calls(size)[2 + i] == face_upload(face_order()[i], size),
        face_upload(face_order()[i], size) matches GlCall::TexImage2D { target, face, .. }
            && target == TEXTURE_CUBE_MAP_POSITIVE_X + i && face == face_order()[i],
{
}

/// The sequence allocates exactly one texture, first of all; binds it
/// before anything is uploaded; and ends by leaving the target unbound.
pub proof fn lemma_upload_is_bracketed(size: int)
    ensures
        upload_calls(size).len() == CALL_COUNT,
        upload_calls(size)[0] == GlCall::GenTexture,
        upload_calls(size)[1] == (GlCall::BindTexture {
            target: TEXTURE_CUBE_MAP,
            texture: Binding::Allocated,
        }),
        upload_calls(size)[CALL_COUNT - 1] == (GlCall::BindTexture {
            target: TEXTURE_CUBE_MAP,
            texture: Binding::Unbound,
        }),
        forall|k: int|
            0 < k < CALL_COUNT ==> #[trigger] upload_calls(size)[k] != GlCall::GenTexture,
{
    assert forall|k: int| 0 < k < CALL_COUNT implies #[trigger] upload_calls(size)[k]
        != GlCall::GenTexture by {
        if 2 <= k < 8 {
            assert(upload_calls(size)[k] == face_upload(face_order()[k - 2], size));
        } else if 8 <= k < 13 {
            assert(upload_calls(size)[k] == sampling_calls()[k - 8]);
        }
    }
}

} // verus!
