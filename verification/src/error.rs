//! What can go wrong while an asset is loaded.

use crate::face::Face;
use vstd::prelude::*;

verus! {

/// The stage of a shader program.
#[derive(Clone, Copy, Debug, PartialEq, Eq, Structural)]
pub enum ShaderStage {
    Vertex,
    Fragment,
}

/// A failure to load an asset. Every variant names the file, stage or face
/// that is at fault.
#[derive(Clone, Debug, PartialEq, Eq)]
pub enum AssetError {
    /// The file at `path` could not be read.
    Io { path: String, cause: String },
    /// The file at `path` was read but does not hold a valid image.
    Decode { path: String, cause: String },
    /// The file at `path` was read but is not valid UTF-8.
    Utf8 { path: String },
    /// A shader stage did not compile.
    Compile { stage: ShaderStage, diagnostic: String },
    /// The compiled stages did not link.
    Link { diagnostic: String },
    /// A cubemap face is not a square of the size that the first face set.
    SizeMismatch { expected: u32, width: u32, height: u32, face: Face },
}

/// Mathematical model of an [`AssetError`].
pub enum ErrorModel {
    Io { path: Seq<char>, cause: Seq<char> },
    Decode { path: Seq<char>, cause: Seq<char> },
    Utf8 { path: Seq<char> },
    Compile { stage: ShaderStage, diagnostic: Seq<char> },
    Link { diagnostic: Seq<char> },
    SizeMismatch { expected: nat, width: nat, height: nat, face: Face },
}

impl View for AssetError {
    type V = ErrorModel;

    open spec fn view(&self) -> ErrorModel {
        match *self {
            AssetError::Io { path, cause } => ErrorModel::Io { path: path@, cause: cause@ },
            AssetError::Decode { path, cause } => ErrorModel::Decode {
                path: path@,
                cause: cause@,
            },
            AssetError::Utf8 { path } => ErrorModel::Utf8 { path: path@ },
            AssetError::Compile { stage, diagnostic } => ErrorModel::Compile {
                stage,
                diagnostic: diagnostic@,
            },
            AssetError::Link { diagnostic } => ErrorModel::Link { diagnostic: diagnostic@ },
            AssetError::SizeMismatch { expected, width, height, face } => ErrorModel::SizeMismatch {
                expected: expected as nat,
                width: width as nat,
                height: height as nat,
                face,
            },
        }
    }
}

impl ErrorModel {
    /// The path of the file at fault, for the failures that have one.
    pub open spec fn path(self) -> Option<Seq<char>> {
        match self {
            ErrorModel::Io { path, .. } => Some(path),
            ErrorModel::Decode { path, .. } => Some(path),
            ErrorModel::Utf8 { path } => Some(path),
            _ => None,
        }
    }
}

impl AssetError {
    /// The path of the file at fault, for the failures that have one.
    pub fn path(&self) -> (p: Option<&str>)
        ensures
            match p {
                Some(s) => self@.path() == Some(s@),
                None => self@.path() is None,
            },
    {
        match self {
            AssetError::Io { path, .. } => Some(path.as_str()),
            AssetError::Decode { path, .. } => Some(path.as_str()),
            AssetError::Utf8 { path } => Some(path.as_str()),
            _ => None,
        }
    }
}

} // verus!
