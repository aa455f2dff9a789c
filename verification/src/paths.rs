//! Where assets live on disk.
//!
//! The layout is a fixed convention: shader sources are found under the
//! shader root by their relative name, and the six faces of a cubemap are
//! JPEG files named after the faces in a directory named after the cubemap
//! under the texture root.

use crate::face::Face;
use vstd::prelude::*;
use vstd::string::*;

verus! {

/// Directory that holds the shader sources.
pub open spec fn shader_root() -> Seq<char> {
    "./assets/shaders/"@
}

/// Directory that holds the textures.
pub open spec fn texture_root() -> Seq<char> {
    "./assets/textures/"@
}

/// Path of the shader source with the relative name `name`.
pub open spec fn shader_path_of(name: Seq<char>) -> Seq<char> {
    shader_root() + name
}

/// Path of the image of one face of the cubemap `name`.
pub open spec fn face_path_of(name: Seq<char>, face: Face) -> Seq<char> {
    texture_root() + name + "/"@ + face.stem() + ".jpg"@
}

/// Resolves the relative name of a shader source to its path.
pub fn shader_path(name: &str) -> (path: String)
    ensures
        path@ == shader_path_of(name@),
{
    String::from_str("./assets/shaders/").concat(name)
}

/// Resolves the name of a cubemap and one of its faces to the path of the
/// face's image.
pub fn cubemap_face_path(name: &str, face: Face) -> (path: String)
    ensures
        path@ == face_path_of(name@, face),
{
    let mut path = String::from_str("./assets/textures/");
    path.append(name);
    path.append("/");
    path.append(face.name());
    path.append(".jpg");
    path
}

/// The paths of two faces of one cubemap differ, so no file is read for two
/// faces.
pub proof fn lemma_face_paths_are_distinct(name: Seq<char>, a: Face, b: Face)
    requires
        a != b,
    ensures
        face_path_of(name, a) != face_path_of(name, b),
{
    reveal_strlit("./assets/textures/");
    reveal_strlit("/");
    reveal_strlit(".jpg");
    reveal_strlit("right");
    reveal_strlit("left");
    reveal_strlit("bottom");
    reveal_strlit("top");
    reveal_strlit("back");
    reveal_strlit("front");
    let head = texture_root() + name + "/"@;
    let pa = face_path_of(name, a);
    let pb = face_path_of(name, b);
    assert(pa == head + a.stem() + ".jpg"@);
    assert(pb == head + b.stem() + ".jpg"@);
    if a.stem().len() == b.stem().len() {
        // Stems of one length differ in their first or second letter.
        assert(pa[head.len() as int] == a.stem()[0]);
        assert(pb[head.len() as int] == b.stem()[0]);
        assert(pa[head.len() as int + 1] == a.stem()[1]);
        assert(pb[head.len() as int + 1] == b.stem()[1]);
    } else {
        assert(pa.len() == head.len() + a.stem().len() + 4);
        assert(pb.len() == head.len() + b.stem().len() + 4);
    }
}

} // verus!
