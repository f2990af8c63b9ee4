//! Conversion of textures between raster images, DDS files and the nutexb and
//! bntx files of Smash Ultimate: the model of a loaded texture, the
//! correspondence between the pixel formats of the containers, the decision
//! between copying and encoding anew, the resolution of settings, and the
//! export of many files at once.
//!
//! The library touches no disk. A file comes in as its path and its bytes, and
//! goes out as the bytes to write. Paths are texts with `/` between their
//! components.

// The block compression kernels that `image_dds` links hold objects compiled
// from C++; this brings in the runtime that they need.
use link_cplusplus as _;

pub mod app;
pub mod cli;
pub mod codec;
pub mod error;
pub mod formats;
pub mod image_file;
pub mod mipmaps;
pub mod paths;
pub mod settings;
pub mod surface;
pub mod text;
pub mod texture;

pub use app::{load_files, optimize_nutexb_files, App, ExportReport, Exported};
pub use error::{Error, FormatMappingError};
pub use formats::{ImageFormat, Mipmaps, NutexbFormat, Quality, SurfaceFormat};
pub use image_file::{
    convert_to_bntx, convert_to_dds, convert_to_image, convert_to_nutexb, Container, ImageFile,
    Output,
};
pub use settings::{AppSettings, FileSettingsOverrides, ImageFileSettings, ImageFileType};
pub use texture::{Bntx, Dds, NutexbFile, RgbaImage};
