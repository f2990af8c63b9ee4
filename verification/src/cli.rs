//! The conversion of a single file, as a command line asks for it: an input,
//! an output whose extension picks the kind of file, a pixel format by name
//! and a switch for mip levels.

use crate::error::{Error, ErrorView, FormatMappingError, FormatMappingErrorView};
use crate::formats::{ImageFormat, Mipmaps, Quality};
use crate::image_file::{
    output_result_view, spec_container_of, ImageFile, ImageFileView, Output, OutputView,
};
use vstd::prelude::*;
use vstd::string::*;

verus! {

/// The pixel format that is asked for by `name`, or the one that is used where
/// none is asked for.
pub open spec fn spec_requested_format(name: Option<Seq<char>>) -> Option<ImageFormat> {
    match name {
        None => Some(ImageFormat::BC7RgbaUnorm),
        Some(name) => ImageFormat::spec_from_name(name),
    }
}

/// The mip policy that the switch for mip levels stands for.
pub open spec fn spec_requested_mipmaps(no_mipmaps: bool) -> Mipmaps {
    if no_mipmaps {
        Mipmaps::Disabled
    } else {
        Mipmaps::GeneratedAutomatic
    }
}

/// The model of a name that may be absent.
pub open spec fn name_view(name: Option<&str>) -> Option<Seq<char>> {
    match name {
        Some(name) => Some(name@),
        None => None,
    }
}

/// Whether `written` is what the conversion of `input` to `output` comes to.
/// A name that is no pixel format's fails at once; the quality is the fastest.
pub open spec fn spec_converted(
    input: ImageFileView,
    output: Seq<char>,
    format: Option<Seq<char>>,
    no_mipmaps: bool,
    written: Result<OutputView, ErrorView>,
) -> bool {
    match spec_requested_format(format) {
        None => written == Err::<OutputView, ErrorView>(
            ErrorView::FormatMapping(FormatMappingErrorView::Name(format.unwrap())),
        ),
        Some(image_format) => input.written_as(
            spec_container_of(output),
            output,
            image_format,
            Quality::Fast,
            spec_requested_mipmaps(no_mipmaps),
            written,
        ),
    }
}

/// Converts `input` to what the file at `output` is to hold. `format` names
/// the pixel format for the kinds of file that have one; without it, files
/// are compressed as BC7. `no_mipmaps` keeps the base level only.
pub fn convert(input: &ImageFile, output: &str, format: Option<&str>, no_mipmaps: bool) -> (written:
    Result<Output, Error>)
    ensures
        spec_converted(input@, output@, name_view(format), no_mipmaps, output_result_view(written)),
{
    let image_format = match format {
        None => ImageFormat::BC7RgbaUnorm,
        Some(name) => match ImageFormat::from_name(name) {
            Some(image_format) => image_format,
            None => {
                return Err(Error::FormatMapping(FormatMappingError::Name(String::from_str(name))));
            },
        },
    };
    let mipmaps = if no_mipmaps {
        Mipmaps::Disabled
    } else {
        Mipmaps::GeneratedAutomatic
    };
    input.save(output, image_format, Quality::Fast, mipmaps)
}

} // verus!
