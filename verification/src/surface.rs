//! Decoded surfaces, and the steps between the containers: decoding a DDS
//! file, encoding pixels to one, untiling a nutexb file and tiling one. Each
//! step says which bytes it hands to the codec, and what it makes of every
//! answer.

use crate::codec::{
    bytes_view, dds_image_of, dds_nutexb_of, dds_surface_of, decode_dds, decode_dds_image,
    encode_surface, encoder_answers, nutexb_dds_of, spec_mip_dimension, spec_nutexb_in_limits,
    spec_slices_len, spec_surface_len, spec_within_limits, within_limits, MAX_DIMENSION,
    MAX_MIPMAPS,
};
use crate::error::{Error, ErrorView};
use crate::formats::{spec_nutexb_image_format, ImageFormat, Mipmaps, Quality};
use crate::mipmaps::{floor_log2, ilog2, max_dimension};
use crate::text::str_eq;
use crate::texture::{
    spec_dds_dimensions, spec_dds_format, spec_dds_layers, spec_dds_mipmaps, spec_dds_rejection,
    spec_is_rgba8, spec_nutexb_dimensions, spec_nutexb_format, spec_nutexb_layers,
    spec_nutexb_mipmaps, spec_nutexb_name, spec_nutexb_rejection, Dds, NutexbFile, RgbaImage,
};
use vstd::prelude::*;
use vstd::string::*;

verus! {

/// The next mip level's size of a dimension: half of it, but never below one.
fn halved(dimension: u32) -> (half: u32)
    ensures
        half == (if dimension / 2 >= 1 {
            dimension / 2
        } else {
            1
        }),
        half <= dimension || dimension == 0,
{
    if dimension / 2 >= 1 {
        dimension / 2
    } else {
        1
    }
}

proof fn lemma_mip_dimension_bound(base: u32, level: nat)
    requires
        base >= 1,
    ensures
        1 <= spec_mip_dimension(base, level) <= base,
    decreases level,
{
    if level > 0 {
        lemma_mip_dimension_bound(base, (level - 1) as nat);
    }
}

/// The bytes of a complete RGBA8 surface of these dimensions.
fn surface_len(width: u32, height: u32, depth: u32, layers: u32, levels: u32) -> (len: u128)
    requires
        1 <= width <= MAX_DIMENSION,
        1 <= height <= MAX_DIMENSION,
        depth <= MAX_DIMENSION,
        levels <= MAX_MIPMAPS,
    ensures
        len == spec_surface_len(width, height, depth, layers, levels),
{
    let mut slices: u128 = 0;
    let mut level: u32 = 0;
    let mut w: u32 = width;
    let mut h: u32 = height;
    while level < levels
        invariant
            level <= levels <= MAX_MIPMAPS,
            1 <= width <= MAX_DIMENSION,
            1 <= height <= MAX_DIMENSION,
            w == spec_mip_dimension(width, level as nat),
            h == spec_mip_dimension(height, level as nat),
            slices == spec_slices_len(width, height, level as nat),
            slices <= level * 0x4_0000_0000,
        decreases levels - level,
    {
        proof {
            lemma_mip_dimension_bound(width, level as nat);
            lemma_mip_dimension_bound(height, level as nat);
            assert(4 * w * h <= 0x4_0000_0000) by (nonlinear_arith)
                requires
                    w <= 0x1_0000,
                    h <= 0x1_0000,
            ;
        }
        slices = slices + 4 * (w as u128) * (h as u128);
        w = halved(w);
        h = halved(h);
        level = level + 1;
    }
    assert(layers * depth <= 0xffff_ffff * 0x1_0000) by (nonlinear_arith)
        requires
            layers <= 0xffff_ffff,
            depth <= 0x1_0000,
    ;
    let slabs: u128 = (layers as u128) * (depth as u128);
    assert(slabs * slices <= 0xffff_ffff * 0x1_0000 * (32 * 0x4_0000_0000)) by (nonlinear_arith)
        requires
            slabs <= 0xffff_ffff * 0x1_0000,
            slices <= 32 * 0x4_0000_0000,
    ;
    slabs * slices
}

/// Whether the parts describe a complete RGBA8 surface that the encoder can
/// take: within the codecs' limits, with a base level, and with every layer,
/// depth slice and mip level present in the pixels.
pub open spec fn spec_is_surface(
    width: u32,
    height: u32,
    depth: u32,
    layers: u32,
    mipmaps: u32,
    pixels: Seq<u8>,
) -> bool {
    &&& spec_within_limits(width, height, depth, layers, mipmaps)
    &&& mipmaps >= 1
    &&& pixels.len() == spec_surface_len(width, height, depth, layers, mipmaps)
}

/// A decoded surface: RGBA8 pixels for every layer, depth slice and mip level.
pub struct SurfaceRgba8 {
    width: u32,
    height: u32,
    depth: u32,
    layers: u32,
    mipmaps: u32,
    data: Vec<u8>,
}

impl View for SurfaceRgba8 {
    type V = (u32, u32, u32, u32, u32, Seq<u8>);

    /// Width, height, depth, layers, mip levels, pixels.
    closed spec fn view(&self) -> (u32, u32, u32, u32, u32, Seq<u8>) {
        (self.width, self.height, self.depth, self.layers, self.mipmaps, self.data@)
    }
}

impl SurfaceRgba8 {
    #[verifier::type_invariant]
    closed spec fn well_formed(self) -> bool {
        spec_is_surface(
            self.width,
            self.height,
            self.depth,
            self.layers,
            self.mipmaps,
            self.data@,
        )
    }

    /// A surface of these parts, if they describe a complete one.
    pub fn new(
        width: u32,
        height: u32,
        depth: u32,
        layers: u32,
        mipmaps: u32,
        data: Vec<u8>,
    ) -> (surface: Option<SurfaceRgba8>)
        ensures
            surface is Some <==> spec_is_surface(width, height, depth, layers, mipmaps, data@),
            surface matches Some(s) ==> s@ == (width, height, depth, layers, mipmaps, data@),
    {
        if !within_limits(width, height, depth, layers, mipmaps) || mipmaps < 1 {
            return None;
        }
        if data.len() as u128 != surface_len(width, height, depth, layers, mipmaps) {
            return None;
        }
        Some(SurfaceRgba8 { width, height, depth, layers, mipmaps, data })
    }

    /// The surface that holds an image as its only layer and level.
    pub fn from_image(image: &RgbaImage) -> (surface: Option<SurfaceRgba8>)
        ensures
            surface is Some <==> spec_within_limits(image@.0, image@.1, 1, 1, 1),
            surface matches Some(s) ==> s@ == (image@.0, image@.1, 1u32, 1u32, 1u32, image@.2),
    {
        let pixels = image.as_raw();
        proof {
            lemma_single_level_len(image@.0, image@.1);
        }
        if !within_limits(image.width(), image.height(), 1, 1, 1) {
            return None;
        }
        let data = pixels.clone();
        Some(
            SurfaceRgba8 {
                width: image.width(),
                height: image.height(),
                depth: 1,
                layers: 1,
                mipmaps: 1,
                data,
            },
        )
    }

    /// Width, height and depth of the base level.
    pub fn dimensions(&self) -> (dimensions: (u32, u32, u32))
        ensures
            dimensions == (self@.0, self@.1, self@.2),
    {
        (self.width, self.height, self.depth)
    }

    pub fn layers(&self) -> (layers: u32)
        ensures
            layers == self@.3,
    {
        self.layers
    }

    pub fn mipmaps(&self) -> (mipmaps: u32)
        ensures
            mipmaps == self@.4,
    {
        self.mipmaps
    }

    /// The pixels: for each layer, for each depth slice, every mip level.
    pub fn data(&self) -> (pixels: &Vec<u8>)
        ensures
            pixels@ == self@.5,
            spec_is_surface(self@.0, self@.1, self@.2, self@.3, self@.4, pixels@),
    {
        proof {
            use_type_invariant(self);
        }
        &self.data
    }
}

/// One layer, one slice and one level take four bytes a pixel.
pub proof fn lemma_single_level_len(width: u32, height: u32)
    ensures
        spec_surface_len(width, height, 1, 1, 1) == 4 * width * height,
{
    reveal_with_fuel(spec_slices_len, 2);
    let slices = spec_slices_len(width, height, 1);
    assert(1nat * 1nat * slices == slices) by (nonlinear_arith);
}

/// What a decoded surface or an error looks like in contracts.
pub open spec fn surface_result_view(outcome: Result<SurfaceRgba8, Error>) -> Result<
    (u32, u32, u32, u32, u32, Seq<u8>),
    ErrorView,
> {
    match outcome {
        Ok(surface) => Ok(surface@),
        Err(e) => Err(e@),
    }
}

/// What a DDS file or an error looks like in contracts.
pub open spec fn dds_result_view(outcome: Result<Dds, Error>) -> Result<Seq<u8>, ErrorView> {
    match outcome {
        Ok(dds) => Ok(dds@),
        Err(e) => Err(e@),
    }
}

/// What an image or an error looks like in contracts.
pub open spec fn image_result_view(outcome: Result<RgbaImage, Error>) -> Result<
    (u32, u32, Seq<u8>),
    ErrorView,
> {
    match outcome {
        Ok(image) => Ok(image@),
        Err(e) => Err(e@),
    }
}

/// What a file's bytes or an error look like in contracts.
pub open spec fn file_result_view(outcome: Result<Vec<u8>, Error>) -> Result<Seq<u8>, ErrorView> {
    match outcome {
        Ok(bytes) => Ok(bytes@),
        Err(e) => Err(e@),
    }
}

/// Every layer and mip level of a DDS file as RGBA8. A surface beyond the
/// codecs' limits is not handed to the decoder. The decoder's refusal is an
/// unsupported source, and so is an answer that is no complete surface of the
/// dimensions, layers and mip levels that the file declares.
pub open spec fn spec_decode_rgba8(dds: Seq<u8>) -> Result<
    (u32, u32, u32, u32, u32, Seq<u8>),
    ErrorView,
> {
    match spec_dds_layers(dds) {
        None => Err(ErrorView::UnsupportedDimensions),
        Some(layers) => match dds_surface_of(dds) {
            Err(text) => Err(ErrorView::UnsupportedSourceFormat(text)),
            Ok(s) => if spec_is_surface(s.0, s.1, s.2, s.3, s.4, s.5) && (s.0, s.1, s.2)
                == spec_dds_dimensions(dds) && s.3 == layers && s.4 == spec_dds_mipmaps(dds) {
                Ok(s)
            } else {
                Err(
                    ErrorView::UnsupportedSourceFormat(
                        "the decoded surface is not what the header declares"@,
                    ),
                )
            },
        },
    }
}

/// Decodes every layer and mip level of `dds` to RGBA8.
pub fn decode_rgba8(dds: &Dds) -> (surface: Result<SurfaceRgba8, Error>)
    ensures
        surface_result_view(surface) == spec_decode_rgba8(dds@),
{
    let layers = match dds.layers() {
        Some(layers) => layers,
        None => {
            return Err(Error::UnsupportedDimensions);
        },
    };
    match decode_dds(dds.as_bytes().as_slice()) {
        Err(text) => Err(Error::UnsupportedSourceFormat(text)),
        Ok((width, height, depth, found, mipmaps, data)) => {
            let declared = dds.dimensions();
            let as_declared = width == declared.0 && height == declared.1 && depth == declared.2
                && found == layers && mipmaps == dds.mipmap_count();
            match SurfaceRgba8::new(width, height, depth, found, mipmaps, data) {
                Some(surface) => if as_declared {
                    Ok(surface)
                } else {
                    Err(not_as_declared("the decoded surface is not what the header declares"))
                },
                None => Err(not_as_declared("the decoded surface is not what the header declares")),
            }
        },
    }
}

fn not_as_declared(text: &str) -> (error: Error)
    ensures
        error@ == ErrorView::UnsupportedSourceFormat(text@),
{
    Error::UnsupportedSourceFormat(String::from_str(text))
}

/// The first mip level of a DDS file as one image, its layers and depth slices
/// one below the other. A surface beyond the codecs' limits is not handed to
/// the decoder. The decoder's refusal is an unsupported source, and so is an
/// answer that is no RGBA8 image as wide as the file declares and as high as
/// all its layers and slices together.
pub open spec fn spec_image_from_dds(dds: Seq<u8>) -> Result<(u32, u32, Seq<u8>), ErrorView> {
    match spec_dds_layers(dds) {
        None => Err(ErrorView::UnsupportedDimensions),
        Some(layers) => match dds_image_of(dds) {
            Err(text) => Err(ErrorView::UnsupportedSourceFormat(text)),
            Ok(i) => if spec_is_rgba8(i.0, i.1, i.2) && i.0 == spec_dds_dimensions(dds).0 && i.1
                == spec_dds_dimensions(dds).1 * spec_dds_dimensions(dds).2 * layers {
                Ok(i)
            } else {
                Err(
                    ErrorView::UnsupportedSourceFormat(
                        "the decoded image is not what the header declares"@,
                    ),
                )
            },
        },
    }
}

/// Decodes the first mip level of `dds` to one image.
pub fn image_from_dds(dds: &Dds) -> (image: Result<RgbaImage, Error>)
    ensures
        image_result_view(image) == spec_image_from_dds(dds@),
{
    let layers = match dds.layers() {
        Some(layers) => layers,
        None => {
            return Err(Error::UnsupportedDimensions);
        },
    };
    match decode_dds_image(dds.as_bytes().as_slice()) {
        Err(text) => Err(Error::UnsupportedSourceFormat(text)),
        Ok((width, height, data)) => {
            let declared = dds.dimensions();
            assert(declared.1 * declared.2 <= 0x1_0000 * 0x1_0000 && declared.1 * declared.2
                * layers <= 0x1_0000 * 0x1_0000 * 0x3000) by (nonlinear_arith)
                requires
                    declared.1 <= 0x1_0000,
                    declared.2 <= 0x1_0000,
                    layers <= 0x3000,
            ;
            let rows: u64 = (declared.1 as u64) * (declared.2 as u64) * (layers as u64);
            let as_declared = width == declared.0 && height as u64 == rows;
            match RgbaImage::new(width, height, data) {
                Some(image) => if as_declared {
                    Ok(image)
                } else {
                    Err(not_as_declared("the decoded image is not what the header declares"))
                },
                None => Err(not_as_declared("the decoded image is not what the header declares")),
            }
        },
    }
}

/// Whether a mip policy asks for no more levels than any surface can have.
pub open spec fn spec_mipmaps_allowed(mipmaps: Mipmaps) -> bool {
    mipmaps matches Mipmaps::GeneratedExact(count) ==> count <= MAX_MIPMAPS
}

/// The mip levels that a surface has after it was encoded under a mip policy:
/// the base level alone, as many as it had, as many as asked for, or a full
/// chain down to one pixel. There is always a base level.
pub open spec fn spec_encoded_mipmaps(
    mipmaps: Mipmaps,
    dimensions: (u32, u32, u32),
    levels: u32,
) -> nat {
    match mipmaps {
        Mipmaps::Disabled => 1,
        Mipmaps::FromSurface => if levels == 0 {
            1
        } else {
            levels as nat
        },
        Mipmaps::GeneratedExact(count) => if count == 0 {
            1
        } else {
            count as nat
        },
        Mipmaps::GeneratedAutomatic => floor_log2(
            max_dimension(dimensions.0, dimensions.1, dimensions.2) as nat,
        ) + 1,
    }
}

fn encoded_mipmaps(mipmaps: Mipmaps, dimensions: (u32, u32, u32), levels: u32) -> (count: u32)
    ensures
        count == spec_encoded_mipmaps(mipmaps, dimensions, levels),
{
    match mipmaps {
        Mipmaps::Disabled => 1,
        Mipmaps::FromSurface => if levels == 0 {
            1
        } else {
            levels
        },
        Mipmaps::GeneratedExact(count) => if count == 0 {
            1
        } else {
            count
        },
        Mipmaps::GeneratedAutomatic => {
            let (width, height, depth) = dimensions;
            let largest = if width >= height && width >= depth {
                width
            } else if height >= depth {
                height
            } else {
                depth
            };
            ilog2(largest) + 1
        },
    }
}

/// What is made of the encoder's answer when a surface of `dimensions` was to
/// be encoded as `image_format` with `mipmaps` mip levels: its refusal is an
/// encode failure, and so is an answer that does not read as a DDS file of that
/// format, those dimensions and that many levels.
pub open spec fn spec_accept_encoded(
    encoded: Result<Seq<u8>, Seq<char>>,
    image_format: ImageFormat,
    dimensions: (u32, u32, u32),
    mipmaps: nat,
) -> Result<Seq<u8>, ErrorView> {
    match encoded {
        Err(text) => Err(ErrorView::EncodeFailure(text)),
        Ok(bytes) => match spec_dds_rejection(bytes) {
            Some(e) => Err(ErrorView::EncodeFailure(e.message())),
            None => if spec_dds_format(bytes) == Some(image_format) && spec_dds_dimensions(bytes)
                == dimensions && spec_dds_mipmaps(bytes) == mipmaps {
                Ok(bytes)
            } else {
                Err(ErrorView::EncodeFailure("the encoder answered with another surface"@))
            },
        },
    }
}

/// Takes the encoder's answer as a DDS file of `image_format`, `dimensions`
/// and `mipmaps` mip levels, or says why not.
pub fn accept_encoded(
    encoded: Result<Vec<u8>, String>,
    image_format: ImageFormat,
    dimensions: (u32, u32, u32),
    mipmaps: u32,
) -> (dds: Result<Dds, Error>)
    ensures
        dds_result_view(dds) == spec_accept_encoded(
            bytes_view(encoded),
            image_format,
            dimensions,
            mipmaps as nat,
        ),
{
    match encoded {
        Err(text) => Err(Error::EncodeFailure(text)),
        Ok(bytes) => match Dds::read(bytes) {
            Err(e) => Err(Error::EncodeFailure(e.message())),
            Ok(dds) => {
                let found = dds.dimensions();
                if dds.image_format() == image_format && found.0 == dimensions.0 && found.1
                    == dimensions.1 && found.2 == dimensions.2 && dds.mipmap_count() == mipmaps {
                    Ok(dds)
                } else {
                    Err(
                        Error::EncodeFailure(
                            String::from_str("the encoder answered with another surface"),
                        ),
                    )
                }
            },
        },
    }
}

/// Whether `dds` is what encoding `surface` as `image_format` comes to. A
/// policy that asks for more mip levels than a surface can have fails before
/// the encoder is asked. Otherwise the encoder is asked for this surface, this
/// format, this quality and this policy, and the result is whatever
/// [`spec_accept_encoded`] makes of its answer.
pub open spec fn spec_encoded(
    surface: (u32, u32, u32, u32, u32, Seq<u8>),
    image_format: ImageFormat,
    quality: Quality,
    mipmaps: Mipmaps,
    dds: Result<Seq<u8>, ErrorView>,
) -> bool {
    if spec_mipmaps_allowed(mipmaps) {
        exists|encoded: Result<Seq<u8>, Seq<char>>| #[trigger]
            encoder_answers(
                surface.0,
                surface.1,
                surface.2,
                surface.3,
                surface.4,
                surface.5,
                image_format.spec_name(),
                quality.spec_name(),
                mipmaps,
                encoded,
            ) && dds == spec_accept_encoded(
                encoded,
                image_format,
                (surface.0, surface.1, surface.2),
                spec_encoded_mipmaps(mipmaps, (surface.0, surface.1, surface.2), surface.4),
            )
    } else {
        dds == Err::<Seq<u8>, ErrorView>(
            ErrorView::EncodeFailure("the mip count is more than a surface can have"@),
        )
    }
}

/// A surface that was encoded is a DDS file of the format asked for, with the
/// dimensions that it had and the mip levels that the policy stands for.
pub proof fn lemma_encoded_as_asked(
    surface: (u32, u32, u32, u32, u32, Seq<u8>),
    image_format: ImageFormat,
    quality: Quality,
    mipmaps: Mipmaps,
    dds: Result<Seq<u8>, ErrorView>,
)
    requires
        spec_encoded(surface, image_format, quality, mipmaps, dds),
    ensures
        dds matches Ok(bytes) ==> spec_dds_rejection(bytes) is None && spec_dds_format(bytes)
            == Some(image_format) && spec_dds_dimensions(bytes) == (surface.0, surface.1, surface.2)
            && spec_dds_mipmaps(bytes) == spec_encoded_mipmaps(
            mipmaps,
            (surface.0, surface.1, surface.2),
            surface.4,
        ),
        dds matches Err(e) ==> e is EncodeFailure,
{
}

/// Encodes `surface` as a DDS file of `image_format`, at `quality`, with the
/// mip levels that `mipmaps` asks for.
pub fn encode(
    surface: &SurfaceRgba8,
    image_format: ImageFormat,
    quality: Quality,
    mipmaps: Mipmaps,
) -> (dds: Result<Dds, Error>)
    ensures
        spec_encoded(surface@, image_format, quality, mipmaps, dds_result_view(dds)),
{
    let allowed = match mipmaps {
        Mipmaps::GeneratedExact(count) => count <= MAX_MIPMAPS,
        _ => true,
    };
    if !allowed {
        return Err(
            Error::EncodeFailure(String::from_str("the mip count is more than a surface can have")),
        );
    }
    let (width, height, depth) = surface.dimensions();
    let levels = surface.mipmaps();
    let encoded = encode_surface(
        width,
        height,
        depth,
        surface.layers(),
        levels,
        surface.data().as_slice(),
        image_format.name(),
        quality.name(),
        mipmaps,
    );
    let expected = encoded_mipmaps(mipmaps, (width, height, depth), levels);
    accept_encoded(encoded, image_format, (width, height, depth), expected)
}

/// Whether `dds` is what the normalizer makes of a DDS file. A file that is
/// already of the format asked for comes back as it is, whatever the quality
/// and the mip policy; any other is decoded and encoded anew.
pub open spec fn spec_normalized(
    source: Seq<u8>,
    image_format: ImageFormat,
    quality: Quality,
    mipmaps: Mipmaps,
    dds: Result<Seq<u8>, ErrorView>,
) -> bool {
    if spec_dds_format(source) == Some(image_format) {
        dds == Ok::<Seq<u8>, ErrorView>(source)
    } else {
        match spec_decode_rgba8(source) {
            Err(e) => dds == Err::<Seq<u8>, ErrorView>(e),
            Ok(surface) => spec_encoded(surface, image_format, quality, mipmaps, dds),
        }
    }
}

/// Brings a DDS file to `image_format`. A file that is already of that format
/// is copied, not decoded: the copy keeps the source's mip levels and
/// compression even where `quality` or `mipmaps` ask for others.
pub fn encode_dds(dds: &Dds, image_format: ImageFormat, quality: Quality, mipmaps: Mipmaps) -> (out:
    Result<Dds, Error>)
    ensures
        spec_normalized(dds@, image_format, quality, mipmaps, dds_result_view(out)),
{
    if dds.image_format() == image_format {
        Ok(dds.duplicate())
    } else {
        match decode_rgba8(dds) {
            Err(e) => Err(e),
            Ok(surface) => encode(&surface, image_format, quality, mipmaps),
        }
    }
}

/// A source that is already of the format asked for passes through the
/// normalizer unchanged, for every quality and mip policy; so it decodes to the
/// same pixels as before, as a surface and as an image.
pub proof fn lemma_passthrough(
    source: Seq<u8>,
    image_format: ImageFormat,
    quality: Quality,
    mipmaps: Mipmaps,
    dds: Result<Seq<u8>, ErrorView>,
)
    requires
        spec_dds_format(source) == Some(image_format),
        spec_normalized(source, image_format, quality, mipmaps, dds),
    ensures
        dds == Ok::<Seq<u8>, ErrorView>(source),
        spec_decode_rgba8(dds->Ok_0) == spec_decode_rgba8(source),
        spec_image_from_dds(dds->Ok_0) == spec_image_from_dds(source),
{
}

/// Whether `dds` is what encoding an image comes to: an image beyond the
/// codecs' limits is refused, any other is encoded as a surface of one layer
/// and one level.
pub open spec fn spec_dds_from_image(
    image: (u32, u32, Seq<u8>),
    image_format: ImageFormat,
    quality: Quality,
    mipmaps: Mipmaps,
    dds: Result<Seq<u8>, ErrorView>,
) -> bool {
    if spec_within_limits(image.0, image.1, 1, 1, 1) {
        spec_encoded((image.0, image.1, 1, 1, 1, image.2), image_format, quality, mipmaps, dds)
    } else {
        dds == Err::<Seq<u8>, ErrorView>(ErrorView::UnsupportedDimensions)
    }
}

/// Encodes `image` as a two-dimensional DDS file of `image_format`.
pub fn dds_from_image(
    image: &RgbaImage,
    image_format: ImageFormat,
    quality: Quality,
    mipmaps: Mipmaps,
) -> (dds: Result<Dds, Error>)
    ensures
        spec_dds_from_image(image@, image_format, quality, mipmaps, dds_result_view(dds)),
{
    match SurfaceRgba8::from_image(image) {
        None => Err(Error::UnsupportedDimensions),
        Some(surface) => encode(&surface, image_format, quality, mipmaps),
    }
}

/// The interchange format of a nutexb file's data; an arbitrary one where the
/// file is not kept.
pub open spec fn spec_nutexb_file_format(nutexb: Seq<u8>) -> ImageFormat {
    spec_nutexb_image_format(spec_nutexb_format(nutexb).unwrap())
}

/// Whether a DDS file holds the surface that a nutexb file declares: its
/// dimensions, its layers, its format, and its corrected mip count, a DDS file
/// having at least the base level.
pub open spec fn spec_untiled_as_declared(nutexb: Seq<u8>, dds: Seq<u8>) -> bool {
    &&& spec_dds_dimensions(dds) == spec_nutexb_dimensions(nutexb)
    &&& spec_dds_layers(dds) == Some(spec_nutexb_layers(nutexb))
    &&& spec_dds_format(dds) == Some(spec_nutexb_file_format(nutexb))
    &&& spec_dds_mipmaps(dds) == (if spec_nutexb_mipmaps(nutexb) == 0 {
        1
    } else {
        spec_nutexb_mipmaps(nutexb)
    })
}

/// The DDS file that a nutexb file untiles to, at its corrected mip count. A
/// surface beyond the codecs' limits is not handed to the codec. The codec's
/// refusal is an unsupported source; a DDS file that cannot be kept is refused
/// for its own reason; one that does not hold the surface that the footer
/// declares is an unsupported source too.
pub open spec fn spec_nutexb_to_dds(nutexb: Seq<u8>) -> Result<Seq<u8>, ErrorView> {
    if !spec_nutexb_in_limits(nutexb, spec_nutexb_mipmaps(nutexb)) {
        Err(ErrorView::UnsupportedDimensions)
    } else {
        match nutexb_dds_of(nutexb, spec_nutexb_mipmaps(nutexb)) {
            Err(text) => Err(ErrorView::UnsupportedSourceFormat(text)),
            Ok(dds) => match spec_dds_rejection(dds) {
                Some(e) => Err(e),
                None => if spec_untiled_as_declared(nutexb, dds) {
                    Ok(dds)
                } else {
                    Err(
                        ErrorView::UnsupportedSourceFormat(
                            "the untiled surface is not what the footer declares"@,
                        ),
                    )
                },
            },
        }
    }
}

/// Untiles `nutexb` to a DDS file with the same layers, mip levels and format.
pub fn nutexb_to_dds(nutexb: &NutexbFile) -> (dds: Result<Dds, Error>)
    ensures
        dds_result_view(dds) == spec_nutexb_to_dds(nutexb@),
{
    if !nutexb.within_limits() {
        return Err(Error::UnsupportedDimensions);
    }
    match crate::codec::nutexb_to_dds(nutexb.as_bytes().as_slice(), nutexb.mipmap_count()) {
        Err(text) => Err(Error::UnsupportedSourceFormat(text)),
        Ok(bytes) => match Dds::read(bytes) {
            Err(e) => Err(e),
            Ok(dds) => {
                let found = dds.dimensions();
                let declared = nutexb.dimensions();
                let levels = if nutexb.mipmap_count() == 0 {
                    1
                } else {
                    nutexb.mipmap_count()
                };
                if found.0 == declared.0 && found.1 == declared.1 && found.2 == declared.2
                    && dds.layers() == Some(nutexb.layers()) && dds.image_format()
                    == nutexb.image_format().image_format() && dds.mipmap_count() == levels {
                    Ok(dds)
                } else {
                    Err(not_as_declared("the untiled surface is not what the footer declares"))
                }
            },
        },
    }
}

/// Whether bytes are a nutexb file that carries `name` and declares the
/// dimensions and the format of a DDS file.
pub open spec fn spec_tiled_as_asked(dds: Seq<u8>, name: Seq<char>, file: Seq<u8>) -> bool {
    &&& spec_nutexb_rejection(file) is None
    &&& spec_nutexb_name(file) == name
    &&& spec_nutexb_dimensions(file) == spec_dds_dimensions(dds)
    &&& spec_dds_format(dds) == Some(spec_nutexb_file_format(file))
}

/// The nutexb file named `name` that a DDS file tiles to. A surface beyond
/// the codecs' limits is not handed to the codec. The codec's refusal is an
/// encode failure, and so is an answer that is no nutexb file of that name
/// with the dimensions and the format of the DDS file.
pub open spec fn spec_nutexb_from_dds(dds: Seq<u8>, name: Seq<char>) -> Result<
    Seq<u8>,
    ErrorView,
> {
    if spec_dds_layers(dds) is None {
        Err(ErrorView::UnsupportedDimensions)
    } else {
        match dds_nutexb_of(dds, name) {
            Err(text) => Err(ErrorView::EncodeFailure(text)),
            Ok(file) => if spec_tiled_as_asked(dds, name, file) {
                Ok(file)
            } else {
                Err(ErrorView::EncodeFailure("the tiled surface is not what was asked for"@))
            },
        }
    }
}

/// Tiles `dds` to the bytes of a nutexb file that carries `name`.
pub fn nutexb_from_dds(dds: &Dds, name: &str) -> (file: Result<Vec<u8>, Error>)
    ensures
        file_result_view(file) == spec_nutexb_from_dds(dds@, name@),
{
    if dds.layers().is_none() {
        return Err(Error::UnsupportedDimensions);
    }
    match crate::codec::nutexb_from_dds(dds.as_bytes().as_slice(), name) {
        Err(text) => Err(Error::EncodeFailure(text)),
        Ok(bytes) => {
            let as_asked = match NutexbFile::read(bytes) {
                Err(_) => None,
                Ok(file) => {
                    let found = file.dimensions();
                    let declared = dds.dimensions();
                    if str_eq(file.name().as_str(), name) && found.0 == declared.0 && found.1
                        == declared.1 && found.2 == declared.2
                        && file.image_format().image_format() == dds.image_format() {
                        Some(file.into_bytes())
                    } else {
                        None
                    }
                },
            };
            match as_asked {
                Some(file) => Ok(file),
                None => Err(
                    Error::EncodeFailure(
                        String::from_str("the tiled surface is not what was asked for"),
                    ),
                ),
            }
        },
    }
}

} // verus!
