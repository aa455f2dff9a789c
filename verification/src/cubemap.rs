//! Loading the six faces of a cubemap.
//!
//! The faces are JPEG files named after the faces, read and decoded in the
//! canonical order. The first face sets the size of the cubemap: every face,
//! the first included, has to be a square of that size. The first face that
//! cannot be read, cannot be decoded or has another size ends the load; no
//! native call is issued for a cubemap that is not complete.
//!
//! The loader reads no file itself. It says which file it needs next, is
//! told what reading that file produced, and answers with the next step.
//! Once all six faces are in, the step carries the faces together with the
//! native calls that upload them.

use crate::decoder::{load_image, loaded_image, ImageKind};
use crate::error::{AssetError, ErrorModel};
use crate::face::{face_order, Face, FACE_COUNT};
use crate::paths::{cubemap_face_path, face_path_of};
use crate::raw_image::{ImageModel, RawImage};
use crate::reader::{outcome_model, ReadOutcome};
use crate::upload::{cubemap_calls, upload_calls, GlCall};
use vstd::prelude::*;
use vstd::string::*;

verus! {

/// Mathematical model of a [`CubemapLoader`]: the name of the cubemap and
/// the faces accepted so far, in the canonical order.
pub struct FacesModel {
    pub name: Seq<char>,
    pub faces: Seq<ImageModel>,
}

/// Mathematical model of a [`CubemapUpload`].
pub struct UploadModel {
    pub size: nat,
    pub faces: Seq<ImageModel>,
}

/// Mathematical model of a [`CubemapStep`].
pub enum CubemapStepModel {
    Read(FacesModel),
    Upload(UploadModel),
    Failed(ErrorModel),
}

impl FacesModel {
    /// Fewer than six faces, all of them squares of the size of the first.
    pub open spec fn wf(self) -> bool {
        &&& self.faces.len() < FACE_COUNT
        &&& forall|i: int|
            0 <= i < self.faces.len() ==> (#[trigger] self.faces[i]).is_square_of(
                self.faces[0].width,
            )
    }

    /// The face whose image is read next.
    pub open spec fn pending_face(self) -> Face {
        face_order()[self.faces.len() as int]
    }

    /// The path of the file that is read next.
    pub open spec fn pending_path(self) -> Seq<char> {
        face_path_of(self.name, self.pending_face())
    }

    /// The size that `image` is held to: its own width if it is the first
    /// face, the size of the first face otherwise.
    pub open spec fn reference(self, image: ImageModel) -> nat {
        if self.faces.len() == 0 {
            image.width
        } else {
            self.faces[0].width
        }
    }

    /// The step that follows when the pending face decoded to `image`.
    pub open spec fn accept(self, image: ImageModel) -> CubemapStepModel {
        let expected = self.reference(image);
        if !image.is_square_of(expected) {
            CubemapStepModel::Failed(
                ErrorModel::SizeMismatch {
                    expected,
                    width: image.width,
                    height: image.height,
                    face: self.pending_face(),
                },
            )
        } else if self.faces.len() + 1 == FACE_COUNT {
            CubemapStepModel::Upload(UploadModel { size: expected, faces: self.faces.push(image) })
        } else {
            CubemapStepModel::Read(FacesModel { name: self.name, faces: self.faces.push(image) })
        }
    }

    /// The step that follows when loading the pending face gave `loaded`.
    pub open spec fn offer(self, loaded: Result<ImageModel, ErrorModel>) -> CubemapStepModel {
        match loaded {
            Ok(image) => self.accept(image),
            Err(e) => CubemapStepModel::Failed(e),
        }
    }

    /// The step that follows when reading the pending file gave `outcome`.
    pub open spec fn file_read(self, outcome: Result<Seq<u8>, Seq<char>>) -> CubemapStepModel {
        self.offer(loaded_image(self.pending_path(), outcome, ImageKind::Jpeg))
    }
}

impl UploadModel {
    /// Six faces, all of them squares of the size of the cubemap.
    pub open spec fn wf(self) -> bool {
        &&& self.faces.len() == FACE_COUNT
        &&& forall|i: int|
            0 <= i < self.faces.len() ==> (#[trigger] self.faces[i]).is_square_of(self.size)
    }

    /// The native calls that upload the faces.
    pub open spec fn calls(self) -> Seq<GlCall> {
        upload_calls(self.size as int)
    }
}

/// The loader that a cubemap starts with: no face read yet.
pub open spec fn cubemap_start(name: Seq<char>) -> FacesModel {
    FacesModel { name, faces: Seq::empty() }
}

/// What loading face `i` of the cubemap `name` gives when reading the six
/// files gave `outcomes`, in the canonical order.
pub open spec fn face_loaded(
    name: Seq<char>,
    outcomes: Seq<Result<Seq<u8>, Seq<char>>>,
    i: int,
) -> Result<ImageModel, ErrorModel> {
    loaded_image(face_path_of(name, face_order()[i]), outcomes[i], ImageKind::Jpeg)
}

/// The step reached from `loader` when the outcomes from position `i` on
/// are reported one by one, until a step asks for no further file.
pub open spec fn read_from(
    loader: FacesModel,
    outcomes: Seq<Result<Seq<u8>, Seq<char>>>,
    i: int,
) -> CubemapStepModel
    decreases outcomes.len() - i,
{
    if i < 0 || i >= outcomes.len() {
        CubemapStepModel::Read(loader)
    } else {
        match loader.file_read(outcomes[i]) {
            CubemapStepModel::Read(next) => read_from(next, outcomes, i + 1),
            other => other,
        }
    }
}

/// The step reached for the cubemap `name` when reading its files gives
/// `outcomes`, in the canonical order.
pub open spec fn cubemap_of(
    name: Seq<char>,
    outcomes: Seq<Result<Seq<u8>, Seq<char>>>,
) -> CubemapStepModel {
    read_from(cubemap_start(name), outcomes, 0)
}

/// The models of a sequence of read outcomes.
pub open spec fn outcome_models(outcomes: Seq<ReadOutcome>) -> Seq<Result<Seq<u8>, Seq<char>>> {
    Seq::new(outcomes.len(), |i: int| outcome_model(outcomes[i]))
}

/// The models of a sequence of images.
pub open spec fn models(faces: Seq<RawImage>) -> Seq<ImageModel> {
    Seq::new(faces.len(), |i: int| faces[i]@)
}

/// A cubemap whose faces are still being read.
#[derive(Debug)]
pub struct CubemapLoader {
    name: String,
    faces: Vec<RawImage>,
}

/// The six faces of a cubemap, validated and ready to be uploaded.
#[derive(Debug)]
pub struct CubemapUpload {
    size: u32,
    faces: Vec<RawImage>,
}

/// What is to be done next for a cubemap.
#[derive(Debug)]
pub enum CubemapStep {
    /// Read the file that the loader is waiting for and report the outcome.
    Read(CubemapLoader),
    /// Issue the native calls that upload the six faces.
    Upload(CubemapUpload),
    /// Give up: nothing is uploaded.
    Failed(AssetError),
}

/// What is handed to the graphics API to wrap the native texture of a
/// cubemap: the texture name, the size of a face, the number of mip levels
/// beyond the base, and whether the handle owns the texture.
#[derive(Clone, Copy, Debug, PartialEq, Eq, Structural)]
pub struct CubemapDescriptor {
    pub id: u32,
    pub size: u32,
    pub extra_mip_levels: u32,
    pub owned: bool,
}

impl View for CubemapLoader {
    type V = FacesModel;

    closed spec fn view(&self) -> FacesModel {
        FacesModel { name: self.name@, faces: models(self.faces@) }
    }
}

impl View for CubemapUpload {
    type V = UploadModel;

    closed spec fn view(&self) -> UploadModel {
        UploadModel { size: self.size as nat, faces: models(self.faces@) }
    }
}

impl View for CubemapStep {
    type V = CubemapStepModel;

    open spec fn view(&self) -> CubemapStepModel {
        match *self {
            CubemapStep::Read(loader) => CubemapStepModel::Read(loader@),
            CubemapStep::Upload(upload) => CubemapStepModel::Upload(upload@),
            CubemapStep::Failed(e) => CubemapStepModel::Failed(e@),
        }
    }
}

/// Starts loading the cubemap with the given name. The loader that comes
/// back waits for the first face of the canonical order.
pub fn load_cubemap(texture_src: &str) -> (loader: CubemapLoader)
    ensures
        loader@ == cubemap_start(texture_src@),
        loader@.wf(),
{
    let loader = CubemapLoader { name: String::from_str(texture_src), faces: Vec::new() };
    assert(loader@.faces =~= Seq::empty());
    loader
}

/// Loads the faces of the cubemap with the given name from the outcomes of
/// reading its files, taken in the canonical order. The outcomes are looked
/// at one by one and only as far as the load goes: nothing after the first
/// fault is decoded. With fewer than six outcomes and no fault the step
/// that comes back asks for the next file.
pub fn load_cubemap_faces(texture_src: &str, outcomes: Vec<ReadOutcome>) -> (step: CubemapStep)
    ensures
        step@ == cubemap_of(texture_src@, outcome_models(outcomes@)),
        step matches CubemapStep::Read(next) ==> next@.wf(),
        step matches CubemapStep::Upload(upload) ==> upload@.wf(),
{
    let ghost all = outcome_models(outcomes@);
    let ghost mut done: int = 0;
    let mut rest = outcomes;
    let mut loader = load_cubemap(texture_src);
    while rest.len() > 0
        invariant
            0 <= done,
            all == outcome_models(outcomes@),
            all.len() == done + rest@.len(),
            forall|j: int|
                0 <= j < rest@.len() ==> outcome_model(#[trigger] rest@[j]) == all[done + j],
            cubemap_of(texture_src@, all) == read_from(loader@, all, done),
            loader@.wf(),
        decreases rest@.len(),
    {
        let outcome = rest.remove(0);
        match loader.file_read(outcome) {
            CubemapStep::Read(next) => {
                loader = next;
                proof {
                    done = done + 1;
                }
            },
            settled => {
                return settled;
            },
        }
    }
    CubemapStep::Read(loader)
}

impl CubemapLoader {
    #[verifier::type_invariant]
    spec fn well_formed(self) -> bool {
        self@.wf()
    }

    /// The face whose image the loader waits for.
    pub fn pending_face(&self) -> (face: Face)
        ensures
            face == self@.pending_face(),
            self@.wf(),
    {
        proof {
            use_type_invariant(self);
        }
        Face::nth(self.faces.len())
    }

    /// The path of the file that the loader waits for.
    pub fn pending_path(&self) -> (path: String)
        ensures
            path@ == self@.pending_path(),
    {
        cubemap_face_path(self.name.as_str(), self.pending_face())
    }

    /// Takes the decoded image of the pending face and gives the next step.
    /// An image that is not a square of the size set by the first face ends
    /// the load; the sixth accepted face completes the cubemap.
    pub fn accept_face(self, image: RawImage) -> (step: CubemapStep)
        ensures
            step@ == self@.accept(image@),
            step matches CubemapStep::Read(next) ==> next@.wf(),
            step matches CubemapStep::Upload(upload) ==> upload@.wf(),
    {
        proof {
            use_type_invariant(&self);
        }
        let face = self.pending_face();
        let CubemapLoader { name, faces } = self;
        let mut faces = faces;
        let ghost before = models(faces@);
        let expected: u32 = if faces.len() == 0 {
            image.width()
        } else {
            faces[0].width()
        };
        if !image.is_square_of(expected) {
            return CubemapStep::Failed(
                AssetError::SizeMismatch {
                    expected,
                    width: image.width(),
                    height: image.height(),
                    face,
                },
            );
        }
        faces.push(image);
        assert(models(faces@) =~= before.push(image@));
        if faces.len() == FACE_COUNT {
            CubemapStep::Upload(CubemapUpload { size: expected, faces })
        } else {
            CubemapStep::Read(CubemapLoader { name, faces })
        }
    }

    /// Takes the outcome of reading the pending file and gives the next
    /// step. A file that could not be read, or that does not decode as a
    /// JPEG image, ends the load with a failure that names the file.
    pub fn file_read(self, outcome: ReadOutcome) -> (step: CubemapStep)
        ensures
            step@ == self@.file_read(outcome_model(outcome)),
            step matches CubemapStep::Read(next) ==> next@.wf(),
            step matches CubemapStep::Upload(upload) ==> upload@.wf(),
    {
        let path = self.pending_path();
        match load_image(path.as_str(), outcome, ImageKind::Jpeg) {
            Ok(image) => self.accept_face(image),
            Err(e) => CubemapStep::Failed(e),
        }
    }
}

impl CubemapUpload {
    #[verifier::type_invariant]
    spec fn well_formed(self) -> bool {
        self@.wf()
    }

    /// The size of a face, in pixels along either side.
    pub fn size(&self) -> (size: u32)
        ensures
            size == self@.size,
            self@.wf(),
    {
        proof {
            use_type_invariant(self);
        }
        self.size
    }

    /// The six faces, in the canonical order.
    pub fn faces(&self) -> (faces: &Vec<RawImage>)
        ensures
            models(faces@) == self@.faces,
            faces@.len() == FACE_COUNT,
    {
        proof {
            use_type_invariant(self);
        }
        &self.faces
    }

    /// The image of one face.
    pub fn face(&self, face: Face) -> (image: &RawImage)
        ensures
            image@ == self@.faces[face.position() as int],
            image@.is_square_of(self@.size),
    {
        proof {
            use_type_invariant(self);
        }
        let image = &self.faces[face.index()];
        assert(self@.faces[face.position() as int] == image@);
        image
    }

    /// The native calls that build the cubemap, in the order in which they
    /// are to be issued. The call that uploads a face names the face whose
    /// pixels it takes.
    pub fn calls(&self) -> (calls: Vec<GlCall>)
        ensures
            calls@ == self@.calls(),
            self@.size <= i32::MAX,
    {
        proof {
            use_type_invariant(self);
        }
        // The pixels of a face fill a buffer that fits in memory, so the
        // side of a face fits the signed integer that the native calls take.
        let first = &self.faces[0];
        let pixels = first.pixels();
        let length: usize = pixels.len();
        proof {
            let size = self.size as int;
            assert(models(self.faces@)[0] == first@);
            assert(pixels@.len() == 4 * size * size) by (nonlinear_arith)
                requires
                    pixels@.len() == 4 * first@.width * first@.height,
                    first@.width == size,
                    first@.height == size,
            ;
            assert(size <= i32::MAX) by (nonlinear_arith)
                requires
                    0 <= size,
                    4 * size * size <= 0xffff_ffff_ffff_ffff,
            ;
        }
        cubemap_calls(self.size)
    }

    /// Takes the name of the texture that the native calls allocated and
    /// gives what is needed to wrap it: the size of the faces, no mip level
    /// beyond the base, and ownership of the texture.
    pub fn finish(self, id: u32) -> (descriptor: CubemapDescriptor)
        ensures
            descriptor == (CubemapDescriptor {
                id,
                size: self@.size as u32,
                extra_mip_levels: 0,
                owned: true,
            }),
    {
        CubemapDescriptor { id, size: self.size, extra_mip_levels: 0, owned: true }
    }
}

} // verus!
