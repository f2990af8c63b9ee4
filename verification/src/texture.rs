//! The textures that the library holds: a raster image as its pixels, a DDS or
//! nutexb file as its bytes together with what its header declares, a bntx
//! surface as the DDS file it untiles to. A container is looked into once,
//! when it is read; what is kept is known to declare a pixel format that the
//! tables hold. Whether a surface is within the codecs' limits is asked where
//! a codec is to work on it.

use crate::codec::{
    dds_format_of, dds_header_of, dds_layers_of, nutexb_footer_of, read_dds_format,
    read_dds_header, read_dds_layers, read_nutexb_footer, spec_dds_array_in_limits,
    spec_dds_in_limits, spec_nutexb_in_limits, within_limits, MAX_LAYERS,
};
use crate::error::{Error, ErrorView, FormatMappingError, FormatMappingErrorView};
use crate::formats::{spec_bntx_image_format, ImageFormat, NutexbFormat, SurfaceFormat};
use crate::mipmaps::{corrected_mipmap_count, spec_corrected_mipmap_count};
use vstd::prelude::*;

verus! {

/// A raster image: RGBA8 pixels, row by row, one mip level.
pub struct RgbaImage {
    width: u32,
    height: u32,
    data: Vec<u8>,
}

impl View for RgbaImage {
    type V = (u32, u32, Seq<u8>);

    /// Width, height, pixels.
    closed spec fn view(&self) -> (u32, u32, Seq<u8>) {
        (self.width, self.height, self.data@)
    }
}

/// Whether `pixels` holds four bytes for each pixel of a `width` by `height`
/// image, and nothing more.
pub open spec fn spec_is_rgba8(width: u32, height: u32, pixels: Seq<u8>) -> bool {
    pixels.len() == 4 * width * height
}

fn is_rgba8(width: u32, height: u32, pixels: &Vec<u8>) -> (fits: bool)
    ensures
        fits == spec_is_rgba8(width, height, pixels@),
{
    assert(width * height <= 0xffff_ffff * 0xffff_ffff) by (nonlinear_arith)
        requires
            width <= 0xffff_ffff,
            height <= 0xffff_ffff,
    ;
    assert(4 * width * height == 4 * (width * height)) by (nonlinear_arith);
    let pixel_count: u64 = (width as u64) * (height as u64);
    pixels.len() as u128 == 4 * (pixel_count as u128)
}

impl RgbaImage {
    #[verifier::type_invariant]
    closed spec fn well_formed(self) -> bool {
        spec_is_rgba8(self.width, self.height, self.data@)
    }

    /// An image of `width` by `height` pixels, if `data` holds exactly those.
    pub fn new(width: u32, height: u32, data: Vec<u8>) -> (image: Option<RgbaImage>)
        ensures
            image is Some <==> spec_is_rgba8(width, height, data@),
            image matches Some(i) ==> i@ == (width, height, data@),
    {
        if is_rgba8(width, height, &data) {
            Some(RgbaImage { width, height, data })
        } else {
            None
        }
    }

    pub fn width(&self) -> (width: u32)
        ensures
            width == self@.0,
            spec_is_rgba8(self@.0, self@.1, self@.2),
    {
        proof {
            use_type_invariant(self);
        }
        self.width
    }

    pub fn height(&self) -> (height: u32)
        ensures
            height == self@.1,
    {
        self.height
    }

    /// The pixels, four bytes each.
    pub fn as_raw(&self) -> (pixels: &Vec<u8>)
        ensures
            pixels@ == self@.2,
            spec_is_rgba8(self@.0, self@.1, pixels@),
    {
        proof {
            use_type_invariant(self);
        }
        &self.data
    }

    /// A second image with the same pixels.
    pub fn duplicate(&self) -> (copy: RgbaImage)
        ensures
            copy@ == self@,
    {
        proof {
            use_type_invariant(self);
        }
        RgbaImage { width: self.width, height: self.height, data: self.data.clone() }
    }
}

/// The pixel format that a DDS file declares, where its header can be read
/// and the format is one of the interchange formats.
pub open spec fn spec_dds_format(bytes: Seq<u8>) -> Option<ImageFormat> {
    match dds_format_of(bytes) {
        Some(name) => ImageFormat::spec_from_name(name),
        None => None,
    }
}

/// Width, height and depth that a DDS file declares; zeros where its header
/// cannot be read.
pub open spec fn spec_dds_dimensions(bytes: Seq<u8>) -> (u32, u32, u32) {
    match dds_header_of(bytes) {
        Ok(h) => (h.0, h.1, h.2),
        Err(_) => (0, 0, 0),
    }
}

/// The mip levels that a DDS file declares; zero where its header cannot be
/// read.
pub open spec fn spec_dds_mipmaps(bytes: Seq<u8>) -> u32 {
    match dds_header_of(bytes) {
        Ok(h) => h.3,
        Err(_) => 0,
    }
}

/// The layers that are counted in a DDS file, where its array is no larger
/// than any that the codecs can count.
pub open spec fn spec_dds_counted_layers(bytes: Seq<u8>) -> Option<u32> {
    if spec_dds_array_in_limits(bytes) {
        dds_layers_of(bytes)
    } else {
        None
    }
}

/// The layers that a DDS file holds, where its surface is within the codecs'
/// limits.
pub open spec fn spec_dds_layers(bytes: Seq<u8>) -> Option<u32> {
    if spec_dds_in_limits(bytes) {
        dds_layers_of(bytes)
    } else {
        None
    }
}

/// Why bytes are not kept as a DDS file; `None` for bytes that are kept. The
/// header has to read and its format has to be in the tables.
pub open spec fn spec_dds_rejection(bytes: Seq<u8>) -> Option<ErrorView> {
    match dds_header_of(bytes) {
        Err(text) => Some(ErrorView::CorruptData(text)),
        Ok(_) => match dds_format_of(bytes) {
            None => Some(ErrorView::FormatMapping(FormatMappingErrorView::Dds(None))),
            Some(name) => if ImageFormat::spec_from_name(name) is None {
                Some(ErrorView::FormatMapping(FormatMappingErrorView::Dds(Some(name))))
            } else {
                None
            },
        },
    }
}

/// A DDS file: its bytes, and what its header declares.
pub struct Dds {
    bytes: Vec<u8>,
    width: u32,
    height: u32,
    depth: u32,
    mipmap_count: u32,
    counted_layers: Option<u32>,
    image_format: ImageFormat,
}

impl View for Dds {
    type V = Seq<u8>;

    /// The bytes of the file.
    closed spec fn view(&self) -> Seq<u8> {
        self.bytes@
    }
}

impl Dds {
    #[verifier::type_invariant]
    closed spec fn well_formed(self) -> bool {
        &&& spec_dds_rejection(self.bytes@) is None
        &&& spec_dds_dimensions(self.bytes@) == (self.width, self.height, self.depth)
        &&& spec_dds_mipmaps(self.bytes@) == self.mipmap_count
        &&& self.counted_layers == spec_dds_counted_layers(self.bytes@)
        &&& spec_dds_format(self.bytes@) == Some(self.image_format)
    }

    /// Takes `bytes` as a DDS file, or says why not.
    pub fn read(bytes: Vec<u8>) -> (dds: Result<Dds, Error>)
        ensures
            match dds {
                Ok(d) => d@ == bytes@ && spec_dds_rejection(bytes@) is None,
                Err(e) => spec_dds_rejection(bytes@) == Some(e@),
            },
    {
        let header = match read_dds_header(bytes.as_slice()) {
            Ok(header) => header,
            Err(text) => {
                return Err(Error::CorruptData(text));
            },
        };
        let (width, height, depth, mipmaps, array_size) = header;
        let name = match read_dds_format(bytes.as_slice()) {
            Some(name) => name,
            None => {
                return Err(Error::FormatMapping(FormatMappingError::Dds(None)));
            },
        };
        let image_format = match ImageFormat::from_name(name.as_str()) {
            Some(image_format) => image_format,
            None => {
                return Err(Error::FormatMapping(FormatMappingError::Dds(Some(name))));
            },
        };
        let counted_layers = if array_size <= MAX_LAYERS {
            read_dds_layers(bytes.as_slice())
        } else {
            None
        };
        Ok(Dds { bytes, width, height, depth, mipmap_count: mipmaps, counted_layers, image_format })
    }

    /// The layers that the file holds, a cube map's faces counted each, where
    /// its surface is within the codecs' limits; `None` where it is not.
    pub fn layers(&self) -> (layers: Option<u32>)
        ensures
            layers == spec_dds_layers(self@),
    {
        proof {
            use_type_invariant(self);
        }
        match self.counted_layers {
            Some(layers) => if within_limits(
                self.width,
                self.height,
                self.depth,
                layers,
                self.mipmap_count,
            ) {
                Some(layers)
            } else {
                None
            },
            None => None,
        }
    }

    /// The bytes of the file.
    pub fn as_bytes(&self) -> (bytes: &Vec<u8>)
        ensures
            bytes@ == self@,
            spec_dds_rejection(self@) is None,
    {
        proof {
            use_type_invariant(self);
        }
        &self.bytes
    }

    /// The bytes of the file, given away.
    pub fn into_bytes(self) -> (bytes: Vec<u8>)
        ensures
            bytes@ == self@,
            spec_dds_rejection(self@) is None,
    {
        proof {
            use_type_invariant(&self);
        }
        self.bytes
    }

    /// Width, height and depth in pixels.
    pub fn dimensions(&self) -> (dimensions: (u32, u32, u32))
        ensures
            dimensions == spec_dds_dimensions(self@),
            spec_dds_rejection(self@) is None,
    {
        proof {
            use_type_invariant(self);
        }
        (self.width, self.height, self.depth)
    }

    /// The mip levels that the header declares.
    pub fn mipmap_count(&self) -> (count: u32)
        ensures
            count == spec_dds_mipmaps(self@),
    {
        proof {
            use_type_invariant(self);
        }
        self.mipmap_count
    }

    /// The pixel format of the data.
    pub fn image_format(&self) -> (format: ImageFormat)
        ensures
            spec_dds_format(self@) == Some(format),
    {
        proof {
            use_type_invariant(self);
        }
        self.image_format
    }

    /// A second value that holds the same file.
    pub fn duplicate(&self) -> (copy: Dds)
        ensures
            copy@ == self@,
    {
        proof {
            use_type_invariant(self);
        }
        Dds {
            bytes: self.bytes.clone(),
            width: self.width,
            height: self.height,
            depth: self.depth,
            mipmap_count: self.mipmap_count,
            counted_layers: self.counted_layers,
            image_format: self.image_format,
        }
    }
}

/// The layers of a nutexb file: what its footer declares, none declared being
/// one. Zero where the footer cannot be read.
pub open spec fn spec_nutexb_layers(bytes: Seq<u8>) -> u32 {
    match nutexb_footer_of(bytes) {
        Ok(f) => if f.6 == 0 {
            1
        } else {
            f.6
        },
        Err(_) => 0,
    }
}

/// The mip levels that a nutexb file is taken to have: what its footer
/// declares, corrected for its dimensions. Zero where the footer cannot be
/// read.
pub open spec fn spec_nutexb_mipmaps(bytes: Seq<u8>) -> u32 {
    match nutexb_footer_of(bytes) {
        Ok(f) => spec_corrected_mipmap_count(f.1, f.2, f.3, f.5),
        Err(_) => 0,
    }
}

/// Why bytes are not kept as a nutexb file; `None` for bytes that are kept.
/// The footer has to read and its format number has to be in the table.
pub open spec fn spec_nutexb_rejection(bytes: Seq<u8>) -> Option<ErrorView> {
    match nutexb_footer_of(bytes) {
        Err(text) => Some(ErrorView::CorruptData(text)),
        Ok(f) => if NutexbFormat::spec_from_code(f.4) is None {
            Some(ErrorView::FormatMapping(FormatMappingErrorView::Nutexb(f.4)))
        } else {
            None
        },
    }
}

/// The pixel format that a nutexb file declares, where its footer can be read
/// and the format is in the table.
pub open spec fn spec_nutexb_format(bytes: Seq<u8>) -> Option<NutexbFormat> {
    match nutexb_footer_of(bytes) {
        Ok(f) => NutexbFormat::spec_from_code(f.4),
        Err(_) => None,
    }
}

/// Width, height and depth that a nutexb file declares; zeros where its
/// footer cannot be read.
pub open spec fn spec_nutexb_dimensions(bytes: Seq<u8>) -> (u32, u32, u32) {
    match nutexb_footer_of(bytes) {
        Ok(f) => (f.1, f.2, f.3),
        Err(_) => (0, 0, 0),
    }
}

/// The name that a nutexb file carries in its footer; empty where the footer
/// cannot be read.
pub open spec fn spec_nutexb_name(bytes: Seq<u8>) -> Seq<char> {
    match nutexb_footer_of(bytes) {
        Ok(f) => f.0,
        Err(_) => Seq::empty(),
    }
}

/// A nutexb file: its bytes, and what its footer declares.
pub struct NutexbFile {
    bytes: Vec<u8>,
    name: String,
    width: u32,
    height: u32,
    depth: u32,
    image_format: NutexbFormat,
    mipmap_count: u32,
    layer_count: u32,
}

impl View for NutexbFile {
    type V = Seq<u8>;

    /// The bytes of the file.
    closed spec fn view(&self) -> Seq<u8> {
        self.bytes@
    }
}

impl NutexbFile {
    #[verifier::type_invariant]
    closed spec fn well_formed(self) -> bool {
        &&& spec_nutexb_rejection(self.bytes@) is None
        &&& spec_nutexb_name(self.bytes@) == self.name@
        &&& spec_nutexb_dimensions(self.bytes@) == (self.width, self.height, self.depth)
        &&& spec_nutexb_format(self.bytes@) == Some(self.image_format)
        &&& spec_nutexb_mipmaps(self.bytes@) == self.mipmap_count
        &&& nutexb_footer_of(self.bytes@) matches Ok(f) && f.6 == self.layer_count
    }

    /// Takes `bytes` as a nutexb file, or says why not. A footer that declares
    /// more mip levels than its dimensions allow is taken at the corrected
    /// count.
    pub fn read(bytes: Vec<u8>) -> (file: Result<NutexbFile, Error>)
        ensures
            match file {
                Ok(f) => f@ == bytes@ && spec_nutexb_rejection(bytes@) is None,
                Err(e) => spec_nutexb_rejection(bytes@) == Some(e@),
            },
    {
        let footer = match read_nutexb_footer(bytes.as_slice()) {
            Ok(footer) => footer,
            Err(text) => {
                return Err(Error::CorruptData(text));
            },
        };
        let (name, width, height, depth, code, declared, layer_count) = footer;
        let image_format = match NutexbFormat::from_code(code) {
            Some(image_format) => image_format,
            None => {
                return Err(Error::FormatMapping(FormatMappingError::Nutexb(code)));
            },
        };
        let mipmap_count = corrected_mipmap_count(width, height, depth, declared);
        Ok(
            NutexbFile {
                bytes,
                name,
                width,
                height,
                depth,
                image_format,
                mipmap_count,
                layer_count,
            },
        )
    }

    /// Whether the surface, at its corrected mip count, is within the codecs'
    /// limits.
    pub fn within_limits(&self) -> (within: bool)
        ensures
            within == spec_nutexb_in_limits(self@, spec_nutexb_mipmaps(self@)),
    {
        proof {
            use_type_invariant(self);
        }
        within_limits(self.width, self.height, self.depth, self.layers(), self.mipmap_count)
    }

    /// The layers of the surface: six for a cube map, one where the footer
    /// declares none.
    pub fn layers(&self) -> (layers: u32)
        ensures
            layers == spec_nutexb_layers(self@),
            layers >= 1,
    {
        proof {
            use_type_invariant(self);
        }
        if self.layer_count == 0 {
            1
        } else {
            self.layer_count
        }
    }

    /// The bytes of the file.
    pub fn as_bytes(&self) -> (bytes: &Vec<u8>)
        ensures
            bytes@ == self@,
            spec_nutexb_rejection(self@) is None,
    {
        proof {
            use_type_invariant(self);
        }
        &self.bytes
    }

    /// The bytes of the file, given away.
    pub fn into_bytes(self) -> (bytes: Vec<u8>)
        ensures
            bytes@ == self@,
            spec_nutexb_rejection(self@) is None,
    {
        proof {
            use_type_invariant(&self);
        }
        self.bytes
    }

    /// The name in the footer.
    pub fn name(&self) -> (name: &String)
        ensures
            name@ == spec_nutexb_name(self@),
    {
        proof {
            use_type_invariant(self);
        }
        &self.name
    }

    /// Width, height and depth in pixels.
    pub fn dimensions(&self) -> (dimensions: (u32, u32, u32))
        ensures
            dimensions == spec_nutexb_dimensions(self@),
            spec_nutexb_rejection(self@) is None,
    {
        proof {
            use_type_invariant(self);
        }
        (self.width, self.height, self.depth)
    }

    /// The pixel format of the data.
    pub fn image_format(&self) -> (format: NutexbFormat)
        ensures
            spec_nutexb_format(self@) == Some(format),
    {
        proof {
            use_type_invariant(self);
        }
        self.image_format
    }

    /// The mip levels that the file is taken to have.
    pub fn mipmap_count(&self) -> (count: u32)
        ensures
            count == spec_nutexb_mipmaps(self@),
    {
        proof {
            use_type_invariant(self);
        }
        self.mipmap_count
    }
}

/// Whether a bntx header fits the DDS file that the surface untiles to: the
/// file is kept, it declares the header's dimensions, and its pixel format is
/// the one that the header's format corresponds to.
pub open spec fn spec_bntx_fits(
    width: u32,
    height: u32,
    depth: u32,
    image_format: SurfaceFormat,
    dds: Seq<u8>,
) -> bool {
    &&& spec_dds_rejection(dds) is None
    &&& spec_dds_dimensions(dds) == (width, height, depth)
    &&& spec_dds_format(dds) == Some(spec_bntx_image_format(image_format))
}

/// A bntx surface, as the codec that read it describes it: what its header
/// declares, and the DDS file that it untiles to.
pub struct Bntx {
    width: u32,
    height: u32,
    depth: u32,
    image_format: SurfaceFormat,
    dds: Dds,
}

/// The model of a [`Bntx`].
pub struct BntxView {
    pub width: u32,
    pub height: u32,
    pub depth: u32,
    pub image_format: SurfaceFormat,
    /// The bytes of the DDS file that the surface untiles to.
    pub dds: Seq<u8>,
}

impl BntxView {
    /// Whether the header fits the DDS file.
    pub open spec fn well_formed(self) -> bool {
        spec_bntx_fits(self.width, self.height, self.depth, self.image_format, self.dds)
    }
}

impl View for Bntx {
    type V = BntxView;

    closed spec fn view(&self) -> BntxView {
        BntxView {
            width: self.width,
            height: self.height,
            depth: self.depth,
            image_format: self.image_format,
            dds: self.dds@,
        }
    }
}

impl Bntx {
    #[verifier::type_invariant]
    closed spec fn well_formed(self) -> bool {
        spec_bntx_fits(self.width, self.height, self.depth, self.image_format, self.dds@)
    }

    /// The surface that declares these dimensions and this format and
    /// untiles to `dds`, if `dds` is of those dimensions and of the format
    /// that `image_format` corresponds to.
    pub fn new(width: u32, height: u32, depth: u32, image_format: SurfaceFormat, dds: Dds) -> (bntx:
        Option<Bntx>)
        ensures
            bntx is Some <==> spec_bntx_fits(width, height, depth, image_format, dds@),
            bntx matches Some(b) ==> b@ == (BntxView { width, height, depth, image_format, dds: dds@ }),
    {
        let found = dds.dimensions();
        let format = dds.image_format();
        if found.0 == width && found.1 == height && found.2 == depth && format
            == image_format.image_format() {
            Some(Bntx { width, height, depth, image_format, dds })
        } else {
            None
        }
    }

    /// Width, height and depth in pixels.
    pub fn dimensions(&self) -> (dimensions: (u32, u32, u32))
        ensures
            dimensions == (self@.width, self@.height, self@.depth),
            self@.well_formed(),
    {
        proof {
            use_type_invariant(self);
        }
        (self.width, self.height, self.depth)
    }

    /// The pixel format of the data, as the header declares it.
    pub fn image_format(&self) -> (format: SurfaceFormat)
        ensures
            format == self@.image_format,
    {
        self.image_format
    }

    /// The DDS file that the surface untiles to.
    pub fn dds(&self) -> (dds: &Dds)
        ensures
            dds@ == self@.dds,
            self@.well_formed(),
    {
        proof {
            use_type_invariant(self);
        }
        &self.dds
    }
}

} // verus!
