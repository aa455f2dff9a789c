//! Asset loading for a small real-time renderer.
//!
//! The library turns the bytes of shader sources and texture images into
//! values that are ready to be handed to the graphics context: resolved asset
//! paths, validated shader sources, bottom-up RGBA images and the exact
//! sequence of native calls that builds a cubemap texture. It performs no
//! file-system or graphics work itself. A caller reads the files and issues
//! the native calls; every decision in between is made here.

pub mod cubemap;
pub mod cubemap_laws;
pub mod decoder;
pub mod error;
pub mod face;
pub mod paths;
pub mod program;
pub mod raw_image;
pub mod reader;
pub mod upload;
pub mod vertex;

pub use cubemap::{
    load_cubemap, load_cubemap_faces, CubemapDescriptor, CubemapLoader, CubemapStep, CubemapUpload,
};
pub use decoder::{decode, load_texture, ImageKind};
pub use error::{AssetError, ShaderStage};
pub use face::Face;
pub use program::{load_program, ProgramLoader, ProgramStep, ShaderSources};
pub use raw_image::RawImage;
pub use reader::{slurp, slurp_bytes, ReadOutcome};
pub use upload::{Binding, GlCall};
