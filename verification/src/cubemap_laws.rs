//! What holds of every cubemap load.
//!
//! The statements here are about [`cubemap_of`], the step that the loader
//! reaches when the outcomes of reading the six face files are reported to
//! it in the canonical order.

use crate::cubemap::{
    cubemap_of, cubemap_start, face_loaded, read_from, CubemapStepModel, FacesModel, UploadModel,
};
use crate::error::ErrorModel;
use crate::face::{face_order, FACE_COUNT, TEXTURE_CUBE_MAP_POSITIVE_X};
use crate::paths::face_path_of;
use crate::raw_image::ImageModel;
use crate::upload::{face_upload, GlCall};
use vstd::prelude::*;

verus! {

/// The first `images.len()` files loaded to `images`, and these are all
/// squares of the size of the first.
pub open spec fn accepted(
    name: Seq<char>,
    outcomes: Seq<Result<Seq<u8>, Seq<char>>>,
    images: Seq<ImageModel>,
) -> bool {
    &&& images.len() <= outcomes.len()
    &&& forall|j: int|
        0 <= j < images.len() ==> #[trigger] face_loaded(name, outcomes, j) == Ok::<
            ImageModel,
            ErrorModel,
        >(images[j])
    &&& forall|j: int|
        0 <= j < images.len() ==> (#[trigger] images[j]).is_square_of(images[0].width)
}

/// Face `k` is the first whose image is not a square of the width of the
/// first image.
pub open spec fn is_first_offender(images: Seq<ImageModel>, k: int) -> bool {
    &&& 0 <= k < images.len()
    &&& !images[k].is_square_of(images[0].width)
    &&& forall|j: int| 0 <= j < k ==> (#[trigger] images[j]).is_square_of(images[0].width)
}

/// The failure reported for face `k` when its image is not a square of the
/// size that the first image set.
pub open spec fn size_mismatch(images: Seq<ImageModel>, k: int) -> ErrorModel {
    ErrorModel::SizeMismatch {
        expected: images[0].width,
        width: images[k].width,
        height: images[k].height,
        face: face_order()[k],
    }
}

/// While the faces load and have the size of the first, the loader asks
/// for the next file of the canonical order: after the first `k` files it
/// holds their `k` images and waits for face `k`.
pub proof fn lemma_accepted_faces_are_kept(
    name: Seq<char>,
    outcomes: Seq<Result<Seq<u8>, Seq<char>>>,
    images: Seq<ImageModel>,
)
    requires
        images.len() < FACE_COUNT,
        accepted(name, outcomes, images),
    ensures
        cubemap_of(name, outcomes) == read_from(
            FacesModel { name, faces: images },
            outcomes,
            images.len() as int,
        ),
        (FacesModel { name, faces: images }).wf(),
        (FacesModel { name, faces: images }).pending_path() == face_path_of(
            name,
            face_order()[images.len() as int],
        ),
    decreases images.len(),
{
    if images.len() == 0 {
        assert(images =~= Seq::empty());
    } else {
        let k = images.len() - 1;
        let before = images.drop_last();
        assert forall|j: int| 0 <= j < before.len() implies #[trigger] face_loaded(
            name,
            outcomes,
            j,
        ) == Ok::<ImageModel, ErrorModel>(before[j]) by {}
        assert forall|j: int| 0 <= j < before.len() implies (#[trigger] before[j]).is_square_of(
            before[0].width,
        ) by {}
        lemma_accepted_faces_are_kept(name, outcomes, before);
        let loader = FacesModel { name, faces: before };
        assert(before.push(images[k]) =~= images);
        assert(face_loaded(name, outcomes, k) == Ok::<ImageModel, ErrorModel>(images[k]));
        assert(loader.file_read(outcomes[k]) == CubemapStepModel::Read(
            FacesModel { name, faces: images },
        ));
    }
}

/// The load goes through the faces that load and fit, and is then decided
/// by the next face: the step is what that face gives to the loader that
/// holds the faces before it.
pub proof fn lemma_next_face_decides(
    name: Seq<char>,
    outcomes: Seq<Result<Seq<u8>, Seq<char>>>,
    images: Seq<ImageModel>,
)
    requires
        outcomes.len() == FACE_COUNT,
        images.len() < FACE_COUNT,
        accepted(name, outcomes, images),
        !((FacesModel { name, faces: images }).offer(
            face_loaded(name, outcomes, images.len() as int),
        ) is Read),
    ensures
        cubemap_of(name, outcomes) == (FacesModel { name, faces: images }).offer(
            face_loaded(name, outcomes, images.len() as int),
        ),
{
    lemma_accepted_faces_are_kept(name, outcomes, images);
}

/// Six faces that all load as squares of one size make a cubemap of that
/// size, whose faces are the six images in the canonical order.
pub proof fn lemma_equal_square_faces_make_a_cubemap(
    name: Seq<char>,
    outcomes: Seq<Result<Seq<u8>, Seq<char>>>,
    images: Seq<ImageModel>,
    size: nat,
)
    requires
        outcomes.len() == FACE_COUNT,
        images.len() == FACE_COUNT,
        forall|j: int|
            0 <= j < FACE_COUNT ==> #[trigger] face_loaded(name, outcomes, j) == Ok::<
                ImageModel,
                ErrorModel,
            >(images[j]),
        forall|j: int| 0 <= j < FACE_COUNT ==> (#[trigger] images[j]).is_square_of(size),
    ensures
        cubemap_of(name, outcomes) == CubemapStepModel::Upload(UploadModel { size, faces: images }),
        (UploadModel { size, faces: images }).wf(),
{
    let before = images.drop_last();
    assert forall|j: int| 0 <= j < before.len() implies #[trigger] face_loaded(name, outcomes, j)
        == Ok::<ImageModel, ErrorModel>(before[j]) by {}
    assert forall|j: int| 0 <= j < before.len() implies (#[trigger] before[j]).is_square_of(
        before[0].width,
    ) by {}
    lemma_accepted_faces_are_kept(name, outcomes, before);
    let loader = FacesModel { name, faces: before };
    assert(before.push(images[5]) =~= images);
    assert(face_loaded(name, outcomes, 5) == Ok::<ImageModel, ErrorModel>(images[5]));
    assert(loader.file_read(outcomes[5]) == CubemapStepModel::Upload(
        UploadModel { size, faces: images },
    ));
}

/// A face that cannot be read or decoded, after faces that load and fit,
/// ends the load with its own failure.
pub proof fn lemma_unloadable_face_ends_the_load(
    name: Seq<char>,
    outcomes: Seq<Result<Seq<u8>, Seq<char>>>,
    images: Seq<ImageModel>,
    e: ErrorModel,
)
    requires
        outcomes.len() == FACE_COUNT,
        images.len() < FACE_COUNT,
        accepted(name, outcomes, images),
        face_loaded(name, outcomes, images.len() as int) == Err::<ImageModel, ErrorModel>(e),
    ensures
        cubemap_of(name, outcomes) == CubemapStepModel::Failed(e),
        e.path() == Some(face_path_of(name, face_order()[images.len() as int])),
{
    lemma_next_face_decides(name, outcomes, images);
}

/// When all six faces load and `k` is the first whose image is not a
/// square of the width of the first image, the load fails with a size
/// mismatch that names face `k` of the canonical order, the size that was
/// expected and the dimensions that were found. No cubemap comes out, and
/// with it no native call.
pub proof fn lemma_first_offender_is_reported(
    name: Seq<char>,
    outcomes: Seq<Result<Seq<u8>, Seq<char>>>,
    images: Seq<ImageModel>,
    k: int,
)
    requires
        outcomes.len() == FACE_COUNT,
        images.len() == FACE_COUNT,
        forall|j: int|
            0 <= j < FACE_COUNT ==> #[trigger] face_loaded(name, outcomes, j) == Ok::<
                ImageModel,
                ErrorModel,
            >(images[j]),
        is_first_offender(images, k),
    ensures
        cubemap_of(name, outcomes) == CubemapStepModel::Failed(size_mismatch(images, k)),
        !(cubemap_of(name, outcomes) is Upload),
{
    let before = images.take(k);
    assert forall|j: int| 0 <= j < before.len() implies #[trigger] face_loaded(name, outcomes, j)
        == Ok::<ImageModel, ErrorModel>(before[j]) by {}
    assert forall|j: int| 0 <= j < before.len() implies (#[trigger] before[j]).is_square_of(
        before[0].width,
    ) by {}
    lemma_next_face_decides(name, outcomes, before);
}

/// Six faces that all load, of which at least one differs in width or in
/// height from another, never make a cubemap: the load fails with a size
/// mismatch that names the first face that is not a square of the width of
/// the first image.
pub proof fn lemma_differing_faces_are_refused(
    name: Seq<char>,
    outcomes: Seq<Result<Seq<u8>, Seq<char>>>,
    images: Seq<ImageModel>,
    a: int,
    b: int,
)
    requires
        outcomes.len() == FACE_COUNT,
        images.len() == FACE_COUNT,
        forall|j: int|
            0 <= j < FACE_COUNT ==> #[trigger] face_loaded(name, outcomes, j) == Ok::<
                ImageModel,
                ErrorModel,
            >(images[j]),
        0 <= a < FACE_COUNT,
        0 <= b < FACE_COUNT,
        images[a].width != images[b].width || images[a].height != images[b].height,
    ensures
        exists|k: int|
            #[trigger] is_first_offender(images, k) && cubemap_of(name, outcomes)
                == CubemapStepModel::Failed(size_mismatch(images, k)),
        !(cubemap_of(name, outcomes) is Upload),
{
    let size = images[0].width;
    let k: int = if !images[0].is_square_of(size) {
        0
    } else if !images[1].is_square_of(size) {
        1
    } else if !images[2].is_square_of(size) {
        2
    } else if !images[3].is_square_of(size) {
        3
    } else if !images[4].is_square_of(size) {
        4
    } else {
        5
    };
    assert(is_first_offender(images, k));
    lemma_first_offender_is_reported(name, outcomes, images, k);
}

/// A load that is still going after `images.len()` faces and ends in a
/// cubemap has loaded every face from its own file, as a square of the
/// size of the cubemap.
proof fn lemma_upload_holds_what_was_loaded(
    name: Seq<char>,
    outcomes: Seq<Result<Seq<u8>, Seq<char>>>,
    images: Seq<ImageModel>,
    upload: UploadModel,
)
    requires
        outcomes.len() == FACE_COUNT,
        images.len() < FACE_COUNT,
        accepted(name, outcomes, images),
        read_from(FacesModel { name, faces: images }, outcomes, images.len() as int)
            == CubemapStepModel::Upload(upload),
    ensures
        upload.wf(),
        upload.size == upload.faces[0].width,
        forall|j: int|
            0 <= j < FACE_COUNT ==> #[trigger] face_loaded(name, outcomes, j) == Ok::<
                ImageModel,
                ErrorModel,
            >(upload.faces[j]),
    decreases FACE_COUNT - images.len(),
{
    let k = images.len() as int;
    let loader = FacesModel { name, faces: images };
    match face_loaded(name, outcomes, k) {
        Ok(image) => {
            let next = images.push(image);
            if image.is_square_of(loader.reference(image)) {
                assert forall|j: int| 0 <= j < next.len() implies #[trigger] face_loaded(
                    name,
                    outcomes,
                    j,
                ) == Ok::<ImageModel, ErrorModel>(next[j]) by {}
                assert forall|j: int| 0 <= j < next.len() implies (#[trigger] next[j]).is_square_of(
                    next[0].width,
                ) by {}
                if k + 1 < FACE_COUNT {
                    assert(loader.file_read(outcomes[k]) == CubemapStepModel::Read(
                        FacesModel { name, faces: next },
                    ));
                    lemma_upload_holds_what_was_loaded(name, outcomes, next, upload);
                }
            }
        },
        Err(e) => {},
    }
}

/// In every cubemap that a load gives, face `i` of the canonical order is
/// the image that was loaded from the file of that face, and the native
/// call that uploads it is call `2 + i`, into the slot that lies `i` after
/// the first: which file reaches which slot does not depend on anything
/// but the canonical order.
pub proof fn lemma_faces_reach_their_slots(
    name: Seq<char>,
    outcomes: Seq<Result<Seq<u8>, Seq<char>>>,
    upload: UploadModel,
    i: int,
)
    requires
        outcomes.len() == FACE_COUNT,
        cubemap_of(name, outcomes) == CubemapStepModel::Upload(upload),
        0 <= i < FACE_COUNT,
    ensures
        upload.wf(),
        face_loaded(name, outcomes, i) == Ok::<ImageModel, ErrorModel>(upload.faces[i]),
        upload.calls()[2 + i] == face_upload(face_order()[i], upload.size as int),
        upload.calls()[2 + i] matches GlCall::TexImage2D { target, face, .. } && target
            == TEXTURE_CUBE_MAP_POSITIVE_X + i && face == face_order()[i],
{
    let none = Seq::<ImageModel>::empty();
    lemma_upload_holds_what_was_loaded(name, outcomes, none, upload);
    crate::upload::lemma_faces_are_uploaded_in_canonical_order(upload.size as int, i);
}

/// Reporting six outcomes always settles the load: the step that is
/// reached is a cubemap or a failure, never a request for another file.
pub proof fn lemma_six_outcomes_settle_the_load(
    name: Seq<char>,
    outcomes: Seq<Result<Seq<u8>, Seq<char>>>,
)
    requires
        outcomes.len() == FACE_COUNT,
    ensures
        !(cubemap_of(name, outcomes) is Read),
{
    lemma_load_settles_after(name, outcomes, Seq::<ImageModel>::empty());
}

/// A load that has gone through `images.len()` faces is settled by the
/// outcomes that are left.
proof fn lemma_load_settles_after(
    name: Seq<char>,
    outcomes: Seq<Result<Seq<u8>, Seq<char>>>,
    images: Seq<ImageModel>,
)
    requires
        outcomes.len() == FACE_COUNT,
        images.len() < FACE_COUNT,
        accepted(name, outcomes, images),
    ensures
        !(cubemap_of(name, outcomes) is Read),
    decreases FACE_COUNT - images.len(),
{
    let k = images.len() as int;
    let loader = FacesModel { name, faces: images };
    lemma_accepted_faces_are_kept(name, outcomes, images);
    match face_loaded(name, outcomes, k) {
        Ok(image) => {
            let next = images.push(image);
            if image.is_square_of(loader.reference(image)) && k + 1 < FACE_COUNT {
                assert forall|j: int| 0 <= j < next.len() implies #[trigger] face_loaded(
                    name,
                    outcomes,
                    j,
                ) == Ok::<ImageModel, ErrorModel>(next[j]) by {}
                assert forall|j: int| 0 <= j < next.len() implies (#[trigger] next[j]).is_square_of(
                    next[0].width,
                ) by {}
                lemma_load_settles_after(name, outcomes, next);
            }
        },
        Err(e) => {},
    }
}

} // verus!
