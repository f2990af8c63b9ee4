//! A loaded texture of any of the four kinds, and the conversions between
//! them. Nothing here touches a disk: a file comes in as its path and its
//! bytes, and goes out as the bytes to write.

use crate::codec::{
    decode_raster, encode_raster, nutexb_footer_of, raster_decoder_answers, raster_file_of,
    raster_view,
};
use crate::error::{Error, ErrorView};
use crate::formats::{
    spec_bntx_image_format, spec_nutexb_image_format, ImageFormat, Mipmaps, NutexbFormat, Quality,
};
use crate::mipmaps::{lemma_corrected_mipmap_count_is_min, spec_corrected_mipmap_count};
use crate::paths::{
    eq_ignore_ascii_case, extension, file_name, file_stem, spec_extension, spec_file_name,
    spec_file_stem, spec_lowercase,
};
use crate::surface::{
    dds_from_image, dds_result_view, encode_dds, file_result_view, image_from_dds,
    image_result_view, nutexb_from_dds, nutexb_to_dds, spec_dds_from_image, spec_image_from_dds,
    spec_normalized, spec_nutexb_from_dds, spec_nutexb_to_dds, spec_untiled_as_declared,
};
use crate::texture::{
    spec_dds_dimensions, spec_dds_format, spec_dds_layers, spec_dds_rejection, spec_is_rgba8,
    spec_nutexb_dimensions, spec_nutexb_format, spec_nutexb_layers, spec_nutexb_mipmaps,
    spec_nutexb_name, spec_nutexb_rejection, Bntx, BntxView, Dds, NutexbFile, RgbaImage,
};
use vstd::prelude::*;
use vstd::string::*;

verus! {

/// The four kinds of file that hold a texture.
#[derive(Clone, Copy, Debug, PartialEq, Eq, Structural)]
pub enum Container {
    /// Any raster image format: PNG, TIFF, JPEG and the like.
    Image,
    Dds,
    Nutexb,
    Bntx,
}

/// The kind of file that a path names. Only the extension counts, in any
/// case; whatever is no container's extension is taken for a raster image.
pub open spec fn spec_container_of(path: Seq<char>) -> Container {
    let extension = spec_lowercase(spec_extension(spec_file_name(path)));
    if extension == "nutexb"@ {
        Container::Nutexb
    } else if extension == "bntx"@ {
        Container::Bntx
    } else if extension == "dds"@ {
        Container::Dds
    } else {
        Container::Image
    }
}

impl Container {
    /// The kind of file that `path` names.
    pub fn of_path(path: &str) -> (container: Container)
        ensures
            container == spec_container_of(path@),
    {
        let name = file_name(path);
        let extension = extension(name.as_str());
        if eq_ignore_ascii_case(extension.as_str(), "nutexb") {
            Container::Nutexb
        } else if eq_ignore_ascii_case(extension.as_str(), "bntx") {
            Container::Bntx
        } else if eq_ignore_ascii_case(extension.as_str(), "dds") {
            Container::Dds
        } else {
            Container::Image
        }
    }
}

/// A loaded texture.
pub enum ImageFile {
    Image(RgbaImage),
    Dds(Dds),
    Nutexb(NutexbFile),
    Bntx(Bntx),
}

/// The model of an [`ImageFile`]: an image as width, height and pixels, a
/// DDS or nutexb file as its bytes, a bntx surface as its own model.
pub enum ImageFileView {
    Image((u32, u32, Seq<u8>)),
    Dds(Seq<u8>),
    Nutexb(Seq<u8>),
    Bntx(BntxView),
}

impl View for ImageFile {
    type V = ImageFileView;

    open spec fn view(&self) -> ImageFileView {
        match self {
            ImageFile::Image(image) => ImageFileView::Image(image@),
            ImageFile::Dds(dds) => ImageFileView::Dds(dds@),
            ImageFile::Nutexb(nutexb) => ImageFileView::Nutexb(nutexb@),
            ImageFile::Bntx(bntx) => ImageFileView::Bntx(bntx@),
        }
    }
}

/// What a loaded texture or an error looks like in contracts.
pub open spec fn image_file_result_view(outcome: Result<ImageFile, Error>) -> Result<
    ImageFileView,
    ErrorView,
> {
    match outcome {
        Ok(file) => Ok(file@),
        Err(e) => Err(e@),
    }
}

impl ImageFileView {
    /// Whether this is the model of a texture that can be held: an image with
    /// four bytes for each pixel, a container whose file is kept.
    pub open spec fn well_formed(self) -> bool {
        match self {
            ImageFileView::Image(image) => spec_is_rgba8(image.0, image.1, image.2),
            ImageFileView::Dds(dds) => spec_dds_rejection(dds) is None,
            ImageFileView::Nutexb(nutexb) => spec_nutexb_rejection(nutexb) is None,
            ImageFileView::Bntx(bntx) => bntx.well_formed(),
        }
    }

    /// The pixel format of the texture's data, in the interchange vocabulary.
    pub open spec fn image_format(self) -> ImageFormat {
        match self {
            ImageFileView::Image(_) => ImageFormat::Rgba8Unorm,
            ImageFileView::Dds(dds) => spec_dds_format(dds).unwrap(),
            ImageFileView::Nutexb(nutexb) => spec_nutexb_image_format(
                spec_nutexb_format(nutexb).unwrap(),
            ),
            ImageFileView::Bntx(bntx) => spec_bntx_image_format(bntx.image_format),
        }
    }

    /// Width, height and depth in pixels. An image has depth one.
    pub open spec fn dimensions(self) -> (u32, u32, u32) {
        match self {
            ImageFileView::Image(image) => (image.0, image.1, 1),
            ImageFileView::Dds(dds) => spec_dds_dimensions(dds),
            ImageFileView::Nutexb(nutexb) => spec_nutexb_dimensions(nutexb),
            ImageFileView::Bntx(bntx) => (bntx.width, bntx.height, bntx.depth),
        }
    }

    /// The texture as one RGBA8 image of a single level: an image as it is, a
    /// container's surface decoded from the DDS file that it is handed on as.
    pub open spec fn to_image(self) -> Result<(u32, u32, Seq<u8>), ErrorView> {
        match self {
            ImageFileView::Image(image) => Ok(image),
            ImageFileView::Dds(dds) => spec_image_from_dds(dds),
            ImageFileView::Nutexb(nutexb) => match spec_nutexb_to_dds(nutexb) {
                Err(e) => Err(e),
                Ok(dds) => spec_image_from_dds(dds),
            },
            ImageFileView::Bntx(bntx) => spec_image_from_dds(bntx.dds),
        }
    }

    /// The DDS file that a container's surface is handed on as, or why there
    /// is none. `None` for an image, which is no container.
    pub open spec fn source_dds(self) -> Option<Result<Seq<u8>, ErrorView>> {
        match self {
            ImageFileView::Image(_) => None,
            ImageFileView::Dds(dds) => Some(Ok(dds)),
            ImageFileView::Nutexb(nutexb) => Some(spec_nutexb_to_dds(nutexb)),
            ImageFileView::Bntx(bntx) => Some(Ok(bntx.dds)),
        }
    }

    /// Whether `dds` is what bringing the texture to a DDS file of
    /// `image_format` comes to. An image is encoded; a container's surface
    /// goes through the normalizer as the DDS file that it is handed on as.
    pub open spec fn converts_to(
        self,
        image_format: ImageFormat,
        quality: Quality,
        mipmaps: Mipmaps,
        dds: Result<Seq<u8>, ErrorView>,
    ) -> bool {
        match self {
            ImageFileView::Image(image) => spec_dds_from_image(
                image,
                image_format,
                quality,
                mipmaps,
                dds,
            ),
            _ => match self.source_dds().unwrap() {
                Err(e) => dds == Err::<Seq<u8>, ErrorView>(e),
                Ok(source) => spec_normalized(source, image_format, quality, mipmaps, dds),
            },
        }
    }

    /// The bytes of the raster file at `output` that holds the texture. The
    /// extension of `output` picks the format.
    pub open spec fn to_raster_file(self, output: Seq<char>) -> Result<Seq<u8>, ErrorView> {
        match self.to_image() {
            Err(e) => Err(e),
            Ok(image) => spec_raster_file(image, spec_extension(spec_file_name(output))),
        }
    }

    /// Whether `written` is what writing the texture to `output` as a file of
    /// kind `container` comes to. A raster file takes the texture as one image
    /// and has no use for format, quality or mip policy; the others take the
    /// DDS file that the texture converts to. A nutexb or bntx file carries the
    /// stem of `output` as its name, whatever the texture comes from.
    pub open spec fn written_as(
        self,
        container: Container,
        output: Seq<char>,
        image_format: ImageFormat,
        quality: Quality,
        mipmaps: Mipmaps,
        written: Result<OutputView, ErrorView>,
    ) -> bool {
        match container {
            Container::Image => written == spec_file_output(self.to_raster_file(output)),
            Container::Dds => exists|dds: Result<Seq<u8>, ErrorView>| #[trigger]
                self.converts_to(image_format, quality, mipmaps, dds) && written
                    == spec_file_output(dds),
            Container::Nutexb => exists|dds: Result<Seq<u8>, ErrorView>| #[trigger]
                self.converts_to(image_format, quality, mipmaps, dds) && written
                    == spec_file_output(
                    match dds {
                        Err(e) => Err(e),
                        Ok(d) => spec_nutexb_from_dds(d, spec_file_stem(spec_file_name(output))),
                    },
                ),
            Container::Bntx => exists|dds: Result<Seq<u8>, ErrorView>| #[trigger]
                self.converts_to(image_format, quality, mipmaps, dds) && written == match dds {
                    Err(e) => Err::<OutputView, ErrorView>(e),
                    Ok(d) => Ok(
                        OutputView::Bntx { name: spec_file_stem(spec_file_name(output)), dds: d },
                    ),
                },
        }
    }
}

/// A container's surface that is already of the format asked for is not
/// encoded anew: for every quality and mip policy it converts to the very DDS
/// file that it is handed on as. That file is of the surface's format and
/// dimensions, with the layers and mip levels of a nutexb file's footer, and
/// shows the same image as the source.
pub proof fn lemma_conversion_passthrough(
    file: ImageFileView,
    source: Seq<u8>,
    quality: Quality,
    mipmaps: Mipmaps,
    dds: Result<Seq<u8>, ErrorView>,
)
    requires
        file.well_formed(),
        file.source_dds() == Some(Ok::<Seq<u8>, ErrorView>(source)),
        file.converts_to(file.image_format(), quality, mipmaps, dds),
    ensures
        dds == Ok::<Seq<u8>, ErrorView>(source),
        spec_dds_format(source) == Some(file.image_format()),
        spec_dds_dimensions(source) == file.dimensions(),
        ImageFileView::Dds(source).to_image() == file.to_image(),
        file matches ImageFileView::Nutexb(nutexb) ==> spec_untiled_as_declared(nutexb, source),
{
}

/// A conversion that succeeds gives a DDS file of the format asked for, with
/// the dimensions of the source.
pub proof fn lemma_converted_as_asked(
    file: ImageFileView,
    image_format: ImageFormat,
    quality: Quality,
    mipmaps: Mipmaps,
    dds: Seq<u8>,
)
    requires
        file.well_formed(),
        file.converts_to(image_format, quality, mipmaps, Ok::<Seq<u8>, ErrorView>(dds)),
    ensures
        spec_dds_rejection(dds) is None,
        spec_dds_format(dds) == Some(image_format),
        spec_dds_dimensions(dds) == file.dimensions(),
{
}

/// A nutexb file that was made carries the stem of the output's name as its
/// own, whatever the source and whatever name the source carried, and declares
/// the format asked for and the dimensions of the source.
pub proof fn lemma_nutexb_written_as_asked(
    file: ImageFileView,
    output: Seq<char>,
    image_format: ImageFormat,
    quality: Quality,
    mipmaps: Mipmaps,
    written: Seq<u8>,
)
    requires
        file.well_formed(),
        file.written_as(
            Container::Nutexb,
            output,
            image_format,
            quality,
            mipmaps,
            Ok::<OutputView, ErrorView>(OutputView::File(written)),
        ),
    ensures
        spec_nutexb_rejection(written) is None,
        spec_nutexb_name(written) == spec_file_stem(spec_file_name(output)),
        ImageFileView::Nutexb(written).image_format() == image_format,
        ImageFileView::Nutexb(written).dimensions() == file.dimensions(),
{
    let dds = choose|dds: Result<Seq<u8>, ErrorView>| #[trigger]
        file.converts_to(image_format, quality, mipmaps, dds) && Ok::<OutputView, ErrorView>(
            OutputView::File(written),
        ) == spec_file_output(
            match dds {
                Err(e) => Err(e),
                Ok(d) => spec_nutexb_from_dds(d, spec_file_stem(spec_file_name(output))),
            },
        );
    lemma_converted_as_asked(file, image_format, quality, mipmaps, dds->Ok_0);
}

/// The image that a texture is shown as has the texture's width. An image
/// has its own height; a container's image is as high as all the layers and
/// depth slices of the surface together, so a surface of one layer and depth
/// one is shown at its own height.
pub proof fn lemma_image_as_declared(file: ImageFileView, image: (u32, u32, Seq<u8>))
    requires
        file.well_formed(),
        file.to_image() == Ok::<(u32, u32, Seq<u8>), ErrorView>(image),
    ensures
        spec_is_rgba8(image.0, image.1, image.2),
        image.0 == file.dimensions().0,
        file is Image ==> image.1 == file.dimensions().1,
        file.source_dds() matches Some(Ok(source)) ==> spec_dds_layers(source) matches Some(
            layers,
        ) && image.1 == file.dimensions().1 * file.dimensions().2 * layers,
        file matches ImageFileView::Nutexb(nutexb) ==> image.1 == file.dimensions().1
            * file.dimensions().2 * spec_nutexb_layers(nutexb),
{
}

/// Whatever is written to a raster file is one RGBA8 image of a single level:
/// there are a width, a height and four bytes for each pixel of which the file
/// is the encoding.
pub proof fn lemma_raster_is_one_image(file: ImageFileView, output: Seq<char>, bytes: Seq<u8>)
    requires
        file.well_formed(),
        file.to_raster_file(output) == Ok::<Seq<u8>, ErrorView>(bytes),
    ensures
        exists|width: u32, height: u32, pixels: Seq<u8>|
            spec_is_rgba8(width, height, pixels) && #[trigger] raster_file_of(
                spec_extension(spec_file_name(output)),
                width,
                height,
                pixels,
            ) == Some(Ok::<Seq<u8>, Seq<char>>(bytes)),
{
}

/// The bytes of a file as what is handed back for writing.
pub open spec fn spec_file_output(file: Result<Seq<u8>, ErrorView>) -> Result<
    OutputView,
    ErrorView,
> {
    match file {
        Ok(bytes) => Ok(OutputView::File(bytes)),
        Err(e) => Err(e),
    }
}

/// What an output or an error looks like in contracts.
pub open spec fn output_result_view(outcome: Result<Output, Error>) -> Result<
    OutputView,
    ErrorView,
> {
    match outcome {
        Ok(output) => Ok(output@),
        Err(e) => Err(e@),
    }
}

/// The bytes of an image written in the raster format that `extension` names.
pub open spec fn spec_raster_file(image: (u32, u32, Seq<u8>), extension: Seq<char>) -> Result<
    Seq<u8>,
    ErrorView,
> {
    match raster_file_of(extension, image.0, image.1, image.2) {
        None => Err(ErrorView::UnsupportedExtension(extension)),
        Some(Err(text)) => Err(ErrorView::EncodeFailure(text)),
        Some(Ok(bytes)) => Ok(bytes),
    }
}

/// What is made of a raster decoder's answer for a file with `extension`: an
/// extension it does not know is unsupported, its refusal means corrupt data,
/// and so does an answer that is no RGBA8 image.
pub open spec fn spec_from_raster(
    extension: Seq<char>,
    decoded: Option<Result<(u32, u32, Seq<u8>), Seq<char>>>,
) -> Result<ImageFileView, ErrorView> {
    match decoded {
        None => Err(ErrorView::UnsupportedExtension(extension)),
        Some(Err(text)) => Err(ErrorView::CorruptData(text)),
        Some(Ok(image)) => if spec_is_rgba8(image.0, image.1, image.2) {
            Ok(ImageFileView::Image(image))
        } else {
            Err(ErrorView::CorruptData("the decoded image is incomplete"@))
        },
    }
}

/// Whether `file` is what reading `bytes` as the file at `path` comes to. The
/// extension alone decides which codec reads the bytes. No codec here reads
/// bntx: such a surface is built by whoever has one.
pub open spec fn spec_read(
    path: Seq<char>,
    bytes: Seq<u8>,
    file: Result<ImageFileView, ErrorView>,
) -> bool {
    let extension = spec_extension(spec_file_name(path));
    match spec_container_of(path) {
        Container::Nutexb => file == match spec_nutexb_rejection(bytes) {
            Some(e) => Err::<ImageFileView, ErrorView>(e),
            None => Ok(ImageFileView::Nutexb(bytes)),
        },
        Container::Dds => file == match spec_dds_rejection(bytes) {
            Some(e) => Err::<ImageFileView, ErrorView>(e),
            None => Ok(ImageFileView::Dds(bytes)),
        },
        Container::Bntx => file == Err::<ImageFileView, ErrorView>(
            ErrorView::UnsupportedExtension(extension),
        ),
        Container::Image => exists|decoded: Option<Result<(u32, u32, Seq<u8>), Seq<char>>>|
            #[trigger] raster_decoder_answers(extension, bytes, decoded) && file
                == spec_from_raster(extension, decoded),
    }
}

/// The DDS file among the parts of a bntx file still to be made, or the error
/// in their place.
pub open spec fn bntx_parts_view(parts: Result<(String, Vec<u8>), Error>) -> Result<
    Seq<u8>,
    ErrorView,
> {
    match parts {
        Ok(parts) => Ok(parts.1@),
        Err(e) => Err(e@),
    }
}

/// A nutexb file is read whatever mip count its footer declares, and is then
/// taken at the corrected count: reading it fails only where the footer cannot
/// be read or its format number is not in the table.
pub proof fn lemma_nutexb_read_at_corrected_count(
    path: Seq<char>,
    bytes: Seq<u8>,
    footer: (Seq<char>, u32, u32, u32, u32, u32, u32),
    file: Result<ImageFileView, ErrorView>,
)
    requires
        spec_container_of(path) == Container::Nutexb,
        nutexb_footer_of(bytes) == Ok::<_, Seq<char>>(footer),
        NutexbFormat::spec_from_code(footer.4) is Some,
        spec_read(path, bytes, file),
    ensures
        file == Ok::<ImageFileView, ErrorView>(ImageFileView::Nutexb(bytes)),
        spec_nutexb_dimensions(bytes) == (footer.1, footer.2, footer.3),
        spec_nutexb_mipmaps(bytes) == spec_corrected_mipmap_count(
            footer.1,
            footer.2,
            footer.3,
            footer.5,
        ),
        spec_nutexb_mipmaps(bytes) <= footer.5,
{
    lemma_corrected_mipmap_count_is_min(footer.1, footer.2, footer.3, footer.5);
}

/// The file contents that a conversion hands back for writing.
pub enum Output {
    /// The bytes of the file.
    File(Vec<u8>),
    /// A bntx file still to be made, from a name and the bytes of a DDS file.
    Bntx { name: String, dds: Vec<u8> },
}

/// The model of an [`Output`].
pub enum OutputView {
    File(Seq<u8>),
    Bntx { name: Seq<char>, dds: Seq<u8> },
}

impl View for Output {
    type V = OutputView;

    open spec fn view(&self) -> OutputView {
        match self {
            Output::File(bytes) => OutputView::File(bytes@),
            Output::Bntx { name, dds } => OutputView::Bntx { name: name@, dds: dds@ },
        }
    }
}

impl ImageFile {
    /// Takes a raster decoder's answer for a file with `extension` as an
    /// image, or says why not.
    pub fn from_raster(
        extension: &str,
        decoded: Option<Result<(u32, u32, Vec<u8>), String>>,
    ) -> (file: Result<ImageFile, Error>)
        ensures
            image_file_result_view(file) == spec_from_raster(extension@, raster_view(decoded)),
    {
        match decoded {
            None => Err(Error::UnsupportedExtension(String::from_str(extension))),
            Some(Err(text)) => Err(Error::CorruptData(text)),
            Some(Ok((width, height, data))) => match RgbaImage::new(width, height, data) {
                Some(image) => Ok(ImageFile::Image(image)),
                None => Err(Error::CorruptData(String::from_str("the decoded image is incomplete"))),
            },
        }
    }

    /// Reads `bytes` as the file at `path`.
    pub fn from_file(path: &str, bytes: Vec<u8>) -> (file: Result<ImageFile, Error>)
        ensures
            spec_read(path@, bytes@, image_file_result_view(file)),
    {
        let name = file_name(path);
        let extension = extension(name.as_str());
        match Container::of_path(path) {
            Container::Nutexb => match NutexbFile::read(bytes) {
                Ok(nutexb) => Ok(ImageFile::Nutexb(nutexb)),
                Err(e) => Err(e),
            },
            Container::Dds => match Dds::read(bytes) {
                Ok(dds) => Ok(ImageFile::Dds(dds)),
                Err(e) => Err(e),
            },
            Container::Bntx => Err(Error::UnsupportedExtension(extension)),
            Container::Image => {
                let decoded = decode_raster(extension.as_str(), bytes.as_slice());
                Self::from_raster(extension.as_str(), decoded)
            },
        }
    }

    /// Reads `bytes` as the file at `path`: another name for
    /// [`ImageFile::from_file`].
    pub fn read(path: &str, bytes: Vec<u8>) -> (file: Result<ImageFile, Error>)
        ensures
            spec_read(path@, bytes@, image_file_result_view(file)),
    {
        Self::from_file(path, bytes)
    }

    /// The pixel format of the texture's data.
    pub fn image_format(&self) -> (format: ImageFormat)
        ensures
            format == self@.image_format(),
    {
        match self {
            ImageFile::Image(_) => ImageFormat::Rgba8Unorm,
            ImageFile::Dds(dds) => dds.image_format(),
            ImageFile::Nutexb(nutexb) => nutexb_image_format(nutexb),
            ImageFile::Bntx(bntx) => bntx_image_format(bntx),
        }
    }

    /// Width, height and depth in pixels.
    pub fn dimensions(&self) -> (dimensions: (u32, u32, u32))
        ensures
            dimensions == self@.dimensions(),
            self@.well_formed(),
    {
        match self {
            ImageFile::Image(image) => (image.width(), image.height(), 1),
            ImageFile::Dds(dds) => dds.dimensions(),
            ImageFile::Nutexb(nutexb) => nutexb.dimensions(),
            ImageFile::Bntx(bntx) => bntx.dimensions(),
        }
    }

    /// The texture as one RGBA8 image: the first mip level, with layers and
    /// depth slices one below the other.
    pub fn to_image(&self) -> (image: Result<RgbaImage, Error>)
        ensures
            image_result_view(image) == self@.to_image(),
    {
        match self {
            ImageFile::Image(image) => Ok(image.duplicate()),
            ImageFile::Dds(dds) => image_from_dds(dds),
            ImageFile::Nutexb(nutexb) => match nutexb_to_dds(nutexb) {
                Err(e) => Err(e),
                Ok(dds) => image_from_dds(&dds),
            },
            ImageFile::Bntx(bntx) => image_from_dds(bntx.dds()),
        }
    }

    /// Brings the texture to a DDS file of `image_format`.
    pub fn to_dds(&self, image_format: ImageFormat, quality: Quality, mipmaps: Mipmaps) -> (dds:
        Result<Dds, Error>)
        ensures
            self@.converts_to(image_format, quality, mipmaps, dds_result_view(dds)),
    {
        match self {
            ImageFile::Image(image) => dds_from_image(image, image_format, quality, mipmaps),
            ImageFile::Dds(dds) => encode_dds(dds, image_format, quality, mipmaps),
            ImageFile::Nutexb(nutexb) => match nutexb_to_dds(nutexb) {
                Err(e) => Err(e),
                Ok(dds) => encode_dds(&dds, image_format, quality, mipmaps),
            },
            ImageFile::Bntx(bntx) => encode_dds(bntx.dds(), image_format, quality, mipmaps),
        }
    }

    /// The bytes of the raster file at `output` that holds the texture. The
    /// result is always a single level of RGBA8: a raster file holds neither
    /// compressed blocks nor mip levels, so there is nothing to ask for.
    pub fn save_image(&self, output: &str) -> (file: Result<Vec<u8>, Error>)
        ensures
            file_result_view(file) == self@.to_raster_file(output@),
    {
        let image = match self.to_image() {
            Err(e) => {
                return Err(e);
            },
            Ok(image) => image,
        };
        let name = file_name(output);
        let extension = extension(name.as_str());
        match encode_raster(extension.as_str(), image.width(), image.height(), image.as_raw()) {
            None => Err(Error::UnsupportedExtension(extension)),
            Some(Err(text)) => Err(Error::EncodeFailure(text)),
            Some(Ok(bytes)) => Ok(bytes),
        }
    }

    /// The bytes of the nutexb file at `output` that holds the texture in
    /// `image_format`. The file carries the stem of `output` as its name.
    pub fn save_nutexb(
        &self,
        output: &str,
        image_format: ImageFormat,
        quality: Quality,
        mipmaps: Mipmaps,
    ) -> (file: Result<Vec<u8>, Error>)
        ensures
            self@.written_as(
                Container::Nutexb,
                output@,
                image_format,
                quality,
                mipmaps,
                spec_file_output(file_result_view(file)),
            ),
    {
        let stem = file_stem(file_name(output).as_str());
        match self.to_dds(image_format, quality, mipmaps) {
            Err(e) => Err(e),
            Ok(dds) => nutexb_from_dds(&dds, stem.as_str()),
        }
    }

    /// The name and the DDS file from which the bntx file at `output` is made
    /// that holds the texture in `image_format`. The name is the stem of
    /// `output`.
    pub fn save_bntx(
        &self,
        output: &str,
        image_format: ImageFormat,
        quality: Quality,
        mipmaps: Mipmaps,
    ) -> (file: Result<(String, Vec<u8>), Error>)
        ensures
            self@.converts_to(image_format, quality, mipmaps, bntx_parts_view(file)),
            file matches Ok(parts) ==> parts.0@ == spec_file_stem(spec_file_name(output@)),
    {
        let stem = file_stem(file_name(output).as_str());
        match self.to_dds(image_format, quality, mipmaps) {
            Err(e) => Err(e),
            Ok(dds) => Ok((stem, dds.into_bytes())),
        }
    }

    /// The bytes of the DDS file that holds the texture in `image_format`.
    pub fn save_dds(
        &self,
        output: &str,
        image_format: ImageFormat,
        quality: Quality,
        mipmaps: Mipmaps,
    ) -> (file: Result<Vec<u8>, Error>)
        ensures
            self@.converts_to(image_format, quality, mipmaps, file_result_view(file)),
    {
        match self.to_dds(image_format, quality, mipmaps) {
            Err(e) => Err(e),
            Ok(dds) => Ok(dds.into_bytes()),
        }
    }

    /// What to write to `output` so that it holds the texture as a file of
    /// kind `container`.
    pub fn save_as(
        &self,
        container: Container,
        output: &str,
        image_format: ImageFormat,
        quality: Quality,
        mipmaps: Mipmaps,
    ) -> (written: Result<Output, Error>)
        ensures
            self@.written_as(
                container,
                output@,
                image_format,
                quality,
                mipmaps,
                output_result_view(written),
            ),
    {
        match container {
            Container::Image => match self.save_image(output) {
                Ok(bytes) => Ok(Output::File(bytes)),
                Err(e) => Err(e),
            },
            Container::Dds => match self.save_dds(output, image_format, quality, mipmaps) {
                Ok(bytes) => Ok(Output::File(bytes)),
                Err(e) => Err(e),
            },
            Container::Nutexb => match self.save_nutexb(output, image_format, quality, mipmaps) {
                Ok(bytes) => Ok(Output::File(bytes)),
                Err(e) => Err(e),
            },
            Container::Bntx => match self.save_bntx(output, image_format, quality, mipmaps) {
                Ok(parts) => Ok(Output::Bntx { name: parts.0, dds: parts.1 }),
                Err(e) => Err(e),
            },
        }
    }

    /// What to write to `output` so that it holds the texture. The extension
    /// of `output` alone picks the kind of file; whatever is no container's
    /// extension asks for a raster image.
    pub fn save(
        &self,
        output: &str,
        image_format: ImageFormat,
        quality: Quality,
        mipmaps: Mipmaps,
    ) -> (written: Result<Output, Error>)
        ensures
            self@.written_as(
                spec_container_of(output@),
                output@,
                image_format,
                quality,
                mipmaps,
                output_result_view(written),
            ),
    {
        self.save_as(Container::of_path(output), output, image_format, quality, mipmaps)
    }
}

/// The bytes of the raster file at `output` that holds `input_image`: see
/// [`ImageFile::save_image`].
pub fn convert_to_image(input_image: &ImageFile, output: &str) -> (file: Result<Vec<u8>, Error>)
    ensures
        file_result_view(file) == input_image@.to_raster_file(output@),
{
    input_image.save_image(output)
}

/// The bytes of the nutexb file at `output` that holds `input_image` in
/// `image_format`: see [`ImageFile::save_nutexb`].
pub fn convert_to_nutexb(
    input_image: &ImageFile,
    output: &str,
    image_format: ImageFormat,
    quality: Quality,
    mipmaps: Mipmaps,
) -> (file: Result<Vec<u8>, Error>)
    ensures
        input_image@.written_as(
            Container::Nutexb,
            output@,
            image_format,
            quality,
            mipmaps,
            spec_file_output(file_result_view(file)),
        ),
{
    input_image.save_nutexb(output, image_format, quality, mipmaps)
}

/// The name and the DDS file from which the bntx file at `output` is made
/// that holds `input_image` in `image_format`: see [`ImageFile::save_bntx`].
pub fn convert_to_bntx(
    input_image: &ImageFile,
    output: &str,
    image_format: ImageFormat,
    quality: Quality,
    mipmaps: Mipmaps,
) -> (file: Result<(String, Vec<u8>), Error>)
    ensures
        input_image@.converts_to(image_format, quality, mipmaps, bntx_parts_view(file)),
        file matches Ok(parts) ==> parts.0@ == spec_file_stem(spec_file_name(output@)),
{
    input_image.save_bntx(output, image_format, quality, mipmaps)
}

/// The bytes of the DDS file that holds `input_image` in `image_format`: see
/// [`ImageFile::save_dds`].
pub fn convert_to_dds(
    input_image: &ImageFile,
    output: &str,
    image_format: ImageFormat,
    quality: Quality,
    mipmaps: Mipmaps,
) -> (file: Result<Vec<u8>, Error>)
    ensures
        input_image@.converts_to(image_format, quality, mipmaps, file_result_view(file)),
{
    input_image.save_dds(output, image_format, quality, mipmaps)
}

/// The interchange format of a nutexb file's data.
pub fn nutexb_image_format(nutexb: &NutexbFile) -> (format: ImageFormat)
    ensures
        spec_nutexb_format(nutexb@) matches Some(f) && format == spec_nutexb_image_format(f),
{
    nutexb.image_format().image_format()
}

/// The interchange format of a bntx surface's data.
pub fn bntx_image_format(bntx: &Bntx) -> (format: ImageFormat)
    ensures
        format == spec_bntx_image_format(bntx@.image_format),
{
    bntx.image_format().image_format()
}

} // verus!
