//! Decoding compressed images into raw RGBA images.
//!
//! The format of an image is chosen by the caller, who knows what kind of
//! asset a file holds; it is never guessed from the bytes. Every decoded
//! image has its rows reversed, so that textures and cubemap faces all reach
//! the graphics API bottom row first.

use crate::error::{AssetError, ErrorModel};
use crate::raw_image::{reversed_image, ImageModel, RawImage};
use crate::reader::{outcome_model, slurp_bytes, ReadOutcome};
use vstd::prelude::*;
use vstd::string::*;

verus! {

/// The compressed formats that assets come in.
#[derive(Clone, Copy, Debug, PartialEq, Eq, Structural)]
pub enum ImageKind {
    Png,
    Jpeg,
}

/// What the image decoder makes of `bytes` read as an image of the given
/// kind: the width, the height and the interleaved RGBA bytes, top row
/// first, or the text of the decoder's complaint.
pub uninterp spec fn rgba_decoding(kind: ImageKind, bytes: Seq<u8>) -> Result<
    (u32, u32, Seq<u8>),
    Seq<char>,
>;

/// Cause reported for a decoded buffer whose length does not fit its
/// dimensions.
pub open spec fn layout_fault() -> Seq<char> {
    "decoded pixel buffer does not match the image dimensions"@
}

/// The image, or the cause of the failure, that a decoder's result stands
/// for.
pub open spec fn image_of(decoding: Result<(u32, u32, Seq<u8>), Seq<char>>) -> Result<
    ImageModel,
    Seq<char>,
> {
    match decoding {
        Ok((width, height, data)) => if data.len() == 4 * width * height {
            Ok(reversed_image(width as nat, height as nat, data))
        } else {
            Err(layout_fault())
        },
        Err(cause) => Err(cause),
    }
}

/// What loading the image at `path` gives, from the outcome of reading the
/// file and the kind of the image.
pub open spec fn loaded_image(
    path: Seq<char>,
    outcome: Result<Seq<u8>, Seq<char>>,
    kind: ImageKind,
) -> Result<ImageModel, ErrorModel> {
    match outcome {
        Ok(bytes) => match image_of(rgba_decoding(kind, bytes)) {
            Ok(image) => Ok(image),
            Err(cause) => Err(ErrorModel::Decode { path, cause }),
        },
        Err(cause) => Err(ErrorModel::Io { path, cause }),
    }
}

/// The model of a decoder's result.
pub open spec fn decoding_model(decoding: Result<(u32, u32, Vec<u8>), String>) -> Result<
    (u32, u32, Seq<u8>),
    Seq<char>,
> {
    match decoding {
        Ok((width, height, data)) => Ok((width, height, data@)),
        Err(cause) => Err(cause@),
    }
}

/// `image::load` on the bytes, followed by `DynamicImage::to_rgba8`; the
/// decoder's error is kept as its text. Taken on trust: the result depends
/// on the kind and the bytes alone, since the decoder is handed the format,
/// reads nothing but the bytes and works under its built-in limits. Nothing
/// is claimed about which bytes decode, nor about the dimensions or the
/// length of the buffer that comes back.
#[verifier::external_body]
fn decode_rgba(bytes: &Vec<u8>, kind: ImageKind) -> (decoding: Result<
    (u32, u32, Vec<u8>),
    String,
>)
    ensures
        decoding_model(decoding) == rgba_decoding(kind, bytes@),
{
    let format = match kind {
        ImageKind::Png => image::ImageFormat::Png,
        ImageKind::Jpeg => image::ImageFormat::Jpeg,
    };
    match image::load(std::io::Cursor::new(bytes.as_slice()), format) {
        Ok(decoded) => {
            let rgba = decoded.to_rgba8();
            let dimensions: (u32, u32) = rgba.dimensions();
            Ok((dimensions.0, dimensions.1, rgba.into_raw()))
        },
        Err(e) => Err(e.to_string()),
    }
}

/// Turns the result of the decoder into a raw image with reversed rows. A
/// buffer that does not hold exactly `width * height` pixels is refused.
pub fn image_from_decoding(decoding: Result<(u32, u32, Vec<u8>), String>) -> (r: Result<
    RawImage,
    String,
>)
    ensures
        match (r, image_of(decoding_model(decoding))) {
            (Ok(image), Ok(expected)) => image@ == expected && image@.wf(),
            (Err(cause), Err(expected)) => cause@ == expected,
            _ => false,
        },
{
    match decoding {
        Ok((width, height, data)) => {
            match RawImage::from_raw_rgba_reversed(data, (width, height)) {
                Some(image) => Ok(image),
                None => Err(
                    String::from_str("decoded pixel buffer does not match the image dimensions"),
                ),
            }
        },
        Err(cause) => Err(cause),
    }
}

/// Decodes `bytes` as an image of the given kind into a raw RGBA image whose
/// rows run from the bottom of the picture to its top.
pub fn decode(bytes: &Vec<u8>, kind: ImageKind) -> (r: Result<RawImage, String>)
    ensures
        match (r, image_of(rgba_decoding(kind, bytes@))) {
            (Ok(image), Ok(expected)) => image@ == expected && image@.wf(),
            (Err(cause), Err(expected)) => cause@ == expected,
            _ => false,
        },
{
    image_from_decoding(decode_rgba(bytes, kind))
}

/// Loads the image at `path` from the outcome of reading the file.
pub fn load_image(path: &str, outcome: ReadOutcome, kind: ImageKind) -> (r: Result<
    RawImage,
    AssetError,
>)
    ensures
        match (r, loaded_image(path@, outcome_model(outcome), kind)) {
            (Ok(image), Ok(expected)) => image@ == expected && image@.wf(),
            (Err(e), Err(expected)) => e@ == expected,
            _ => false,
        },
{
    match slurp_bytes(path, outcome) {
        Ok(bytes) => match decode(&bytes, kind) {
            Ok(image) => Ok(image),
            Err(cause) => Err(AssetError::Decode { path: String::from_str(path), cause }),
        },
        Err(e) => Err(e),
    }
}

/// Loads the PNG texture at `path` from the outcome of reading the file.
pub fn load_texture(path: &str, outcome: ReadOutcome) -> (r: Result<RawImage, AssetError>)
    ensures
        match (r, loaded_image(path@, outcome_model(outcome), ImageKind::Png)) {
            (Ok(image), Ok(expected)) => image@ == expected && image@.wf(),
            (Err(e), Err(expected)) => e@ == expected,
            _ => false,
        },
{
    load_image(path, outcome, ImageKind::Png)
}

/// A decoded picture of `width` by `height` pixels becomes an image of the
/// same dimensions that holds four bytes for each pixel, and whose row `y`
/// is row `height - 1 - y` of the decoder's output.
pub proof fn lemma_decoded_rows_are_reversed(width: u32, height: u32, data: Seq<u8>, y: int)
    requires
        data.len() == 4 * width * height,
        0 <= y < height,
    ensures
        image_of(Ok((width, height, data))) matches Ok(image) && image.width == width
            && image.height == height && image.pixels.len() == width * height * 4 && image.row(y)
            == data.subrange((height - 1 - y) * (4 * width), (height - y) * (4 * width)),
{
    let row_len = 4 * (width as int);
    assert(data.len() == (height as int) * row_len) by (nonlinear_arith)
        requires
            data.len() == 4 * width * height,
            row_len == 4 * (width as int),
    ;
    assert(width * height * 4 == 4 * width * height) by (nonlinear_arith);
    crate::raw_image::lemma_flip_rows_reverses_rows(data, height as int, row_len, y);
}

} // verus!
