//! The boundary to the container codecs: `ddsfile`, `image_dds`, `nutexb` and
//! `image`. Everything here is believed, not proved. A texture crosses the
//! boundary as the bytes of its file. What a codec makes of given bytes has a
//! name where it depends on the bytes alone, so that the rest of the library
//! can say exactly which bytes it hands on. The encoder and the raster
//! decoders may answer differently from machine to machine: of them only a
//! relation is named, between what was asked and what was answered, and
//! nothing is said of the answer.

use crate::formats::Mipmaps;
use image_dds::ddsfile::Dds;
use image_dds::Mipmaps as CodecMipmaps;
use image_dds::{ImageFormat as CodecFormat, Quality as CodecQuality, Surface, SurfaceRgba8};
use std::io::Cursor;
use std::str::FromStr;
use vstd::prelude::*;

verus! {

/// No dimension of a surface that reaches a codec is larger than this.
pub const MAX_DIMENSION: u32 = 0x1_0000;

/// No surface that reaches a codec declares more mip levels than this.
pub const MAX_MIPMAPS: u32 = 32;

/// No surface that reaches a codec has more layers than this: an array of
/// 2048 cube maps.
pub const MAX_LAYERS: u32 = 0x3000;

/// No surface that reaches a codec has more texels than this, all layers
/// counted.
pub const MAX_TEXELS: u64 = 0x800_0000;

/// Whether a surface is one that the codecs can size. They add up buffer sizes
/// in 32 bits, at up to sixteen bytes a texel, with a mip chain that adds a
/// third to the base level and at least sixteen bytes to each level of each
/// layer, and they shift dimensions by the mip level; within these limits none
/// of that leaves its range.
pub open spec fn spec_within_limits(
    width: u32,
    height: u32,
    depth: u32,
    layers: u32,
    mipmaps: u32,
) -> bool {
    &&& 1 <= width <= MAX_DIMENSION
    &&& 1 <= height <= MAX_DIMENSION
    &&& 1 <= depth <= MAX_DIMENSION
    &&& 1 <= layers <= MAX_LAYERS
    &&& mipmaps <= MAX_MIPMAPS
    &&& width * height * depth * layers <= MAX_TEXELS
}

pub fn within_limits(width: u32, height: u32, depth: u32, layers: u32, mipmaps: u32) -> (within:
    bool)
    ensures
        within == spec_within_limits(width, height, depth, layers, mipmaps),
{
    if width < 1 || width > MAX_DIMENSION || height < 1 || height > MAX_DIMENSION || depth < 1
        || depth > MAX_DIMENSION || layers < 1 || layers > MAX_LAYERS || mipmaps > MAX_MIPMAPS {
        return false;
    }
    assert(width * height <= 0x1_0000 * 0x1_0000) by (nonlinear_arith)
        requires
            width <= 0x1_0000,
            height <= 0x1_0000,
    ;
    let plane: u64 = (width as u64) * (height as u64);
    if plane > MAX_TEXELS {
        assert(width * height * depth * layers > MAX_TEXELS) by (nonlinear_arith)
            requires
                width * height > MAX_TEXELS,
                depth >= 1,
                layers >= 1,
        ;
        return false;
    }
    assert(plane * depth <= 0x800_0000 * 0x1_0000) by (nonlinear_arith)
        requires
            plane <= 0x800_0000,
            depth <= 0x1_0000,
    ;
    let volume: u64 = plane * (depth as u64);
    if volume > MAX_TEXELS {
        assert(width * height * depth * layers > MAX_TEXELS) by (nonlinear_arith)
            requires
                width * height * depth > MAX_TEXELS,
                layers >= 1,
        ;
        return false;
    }
    assert(volume * layers <= 0x800_0000 * 0x1_0000_0000) by (nonlinear_arith)
        requires
            volume <= 0x800_0000,
            layers <= 0xffff_ffff,
    ;
    let texels: u64 = volume * (layers as u64);
    texels <= MAX_TEXELS
}

/// What `ddsfile` reads from the head of a DDS file: width, height, depth,
/// mip levels, array size. The error is `ddsfile`'s message.
pub uninterp spec fn dds_header_of(bytes: Seq<u8>) -> Result<(u32, u32, u32, u32, u32), Seq<char>>;

/// The name that `image_dds` has for the pixel format of a DDS file. `None`
/// where it has none, or the file does not read.
pub uninterp spec fn dds_format_of(bytes: Seq<u8>) -> Option<Seq<char>>;

/// The layers that `image_dds` counts in a DDS file: the array size of its
/// header, at least one, and six times that for a cube map. `None` where the
/// file does not read or `image_dds` has no name for its format.
pub uninterp spec fn dds_layers_of(bytes: Seq<u8>) -> Option<u32>;

/// Whether `answer` is what the encoder gave when it was asked to encode this
/// surface, with format and quality by their names. Nothing is claimed of the
/// answer itself: the encoder picks its kernels by the machine it runs on, and
/// may answer otherwise elsewhere.
pub uninterp spec fn encoder_answers(
    width: u32,
    height: u32,
    depth: u32,
    layers: u32,
    levels: u32,
    pixels: Seq<u8>,
    format: Seq<char>,
    quality: Seq<char>,
    mipmaps: Mipmaps,
    answer: Result<Seq<u8>, Seq<char>>,
) -> bool;

/// Whether `answer` is what the raster decoder gave when it was asked to
/// decode `bytes` as a file with `extension`: width, height and RGBA8 pixels,
/// or its message, or `None` where `image` knows no format by that extension.
/// Nothing is claimed of the answer itself: the decoders take different paths
/// on different machines.
pub uninterp spec fn raster_decoder_answers(
    extension: Seq<char>,
    bytes: Seq<u8>,
    answer: Option<Result<(u32, u32, Seq<u8>), Seq<char>>>,
) -> bool;

/// The first mip level of a DDS file as one RGBA8 image, its layers and depth
/// slices one below the other: width, height, pixels. The error is
/// `image_dds`'s message.
pub uninterp spec fn dds_image_of(bytes: Seq<u8>) -> Result<(u32, u32, Seq<u8>), Seq<char>>;

/// What `nutexb` reads from the foot of a nutexb file: name, width, height,
/// depth, format number, mip levels, layers. The error is `binrw`'s message.
pub uninterp spec fn nutexb_footer_of(bytes: Seq<u8>) -> Result<
    (Seq<char>, u32, u32, u32, u32, u32, u32),
    Seq<char>,
>;

/// The DDS file that a nutexb file untiles to when it is taken to have
/// `mipmaps` mip levels. The error is the codec's message.
pub uninterp spec fn nutexb_dds_of(bytes: Seq<u8>, mipmaps: u32) -> Result<Seq<u8>, Seq<char>>;

/// The nutexb file, named `name`, that a DDS file tiles to. The error is the
/// codec's message.
pub uninterp spec fn dds_nutexb_of(dds: Seq<u8>, name: Seq<char>) -> Result<Seq<u8>, Seq<char>>;

/// A nutexb file with its image data cut or padded to the size that its footer
/// implies. The error is the codec's message.
pub uninterp spec fn nutexb_optimized_of(bytes: Seq<u8>) -> Result<Seq<u8>, Seq<char>>;

/// An RGBA8 image written as the raster format that `extension` names. `None`
/// where `image` knows no format by that extension; the error is its message.
pub uninterp spec fn raster_file_of(
    extension: Seq<char>,
    width: u32,
    height: u32,
    pixels: Seq<u8>,
) -> Option<Result<Seq<u8>, Seq<char>>>;

/// Every layer and mip level of a DDS file decoded to RGBA8: width, height,
/// depth, layers, mip levels, pixels. The error is `image_dds`'s message.
pub uninterp spec fn dds_surface_of(bytes: Seq<u8>) -> Result<
    (u32, u32, u32, u32, u32, Seq<u8>),
    Seq<char>,
>;

/// A dimension at a mip level: halved for each level, but never below one.
pub open spec fn spec_mip_dimension(base: u32, level: nat) -> nat
    decreases level,
{
    if level == 0 {
        base as nat
    } else {
        let above = spec_mip_dimension(base, (level - 1) as nat);
        if above / 2 >= 1 {
            above / 2
        } else {
            1
        }
    }
}

/// The bytes of one depth slice of each of the first `levels` mip levels of an
/// RGBA8 surface.
pub open spec fn spec_slices_len(width: u32, height: u32, levels: nat) -> nat
    decreases levels,
{
    if levels == 0 {
        0
    } else {
        let level = (levels - 1) as nat;
        spec_slices_len(width, height, level) + 4 * spec_mip_dimension(width, level)
            * spec_mip_dimension(height, level)
    }
}

/// The bytes of an RGBA8 surface that holds, for each layer and each depth
/// slice of the base level, every mip level: what decoding hands out.
pub open spec fn spec_surface_len(
    width: u32,
    height: u32,
    depth: u32,
    layers: u32,
    levels: u32,
) -> nat {
    layers as nat * depth as nat * spec_slices_len(width, height, levels as nat)
}

/// The model of a text that may be absent.
pub open spec fn text_view(text: Option<String>) -> Option<Seq<char>> {
    match text {
        Some(t) => Some(t@),
        None => None,
    }
}

/// The model of bytes or a message.
pub open spec fn bytes_view(outcome: Result<Vec<u8>, String>) -> Result<Seq<u8>, Seq<char>> {
    match outcome {
        Ok(bytes) => Ok(bytes@),
        Err(message) => Err(message@),
    }
}

/// Whether `bytes` is a DDS file whose array size can be counted as layers.
pub open spec fn spec_dds_array_in_limits(bytes: Seq<u8>) -> bool {
    dds_header_of(bytes) matches Ok(h) && h.4 <= MAX_LAYERS
}

/// Whether `bytes` is a DDS file whose surface is within the codecs' limits.
pub open spec fn spec_dds_in_limits(bytes: Seq<u8>) -> bool {
    match dds_header_of(bytes) {
        Ok(h) => h.4 <= MAX_LAYERS && match dds_layers_of(bytes) {
            Some(layers) => spec_within_limits(h.0, h.1, h.2, layers, h.3),
            None => false,
        },
        Err(_) => false,
    }
}

/// The model of what a raster decoder answers.
pub open spec fn raster_view(decoded: Option<Result<(u32, u32, Vec<u8>), String>>) -> Option<
    Result<(u32, u32, Seq<u8>), Seq<char>>,
> {
    match decoded {
        None => None,
        Some(Ok(image)) => Some(Ok((image.0, image.1, image.2@))),
        Some(Err(text)) => Some(Err(text@)),
    }
}

/// Whether `bytes` is a nutexb file that is within the codecs' limits when
/// taken to have `mipmaps` mip levels.
pub open spec fn spec_nutexb_in_limits(bytes: Seq<u8>, mipmaps: u32) -> bool {
    match nutexb_footer_of(bytes) {
        Ok(f) => spec_within_limits(f.1, f.2, f.3, if f.6 == 0 { 1 } else { f.6 }, mipmaps),
        Err(_) => false,
    }
}

/// `ddsfile::Dds::read` on `bytes`, then the header's `get_width`,
/// `get_height`, `get_depth`, `get_num_mipmap_levels` and
/// `get_num_array_layers`. Claims only that the same bytes always read the
/// same.
#[verifier::external_body]
pub(crate) fn read_dds_header(bytes: &[u8]) -> (header: Result<(u32, u32, u32, u32, u32), String>)
    ensures
        match header {
            Ok(h) => dds_header_of(bytes@) == Ok::<(u32, u32, u32, u32, u32), Seq<char>>(h),
            Err(e) => dds_header_of(bytes@) == Err::<(u32, u32, u32, u32, u32), Seq<char>>(e@),
        },
{
    let dds = Dds::read(bytes).map_err(|e| e.to_string())?;
    let levels = dds.get_num_mipmap_levels();
    Ok((dds.get_width(), dds.get_height(), dds.get_depth(), levels, dds.get_num_array_layers()))
}

/// `image_dds::dds_image_format` on the DDS file in `bytes`, written out by
/// the `Display` that `strum` derives: the variant's name. Claims only that
/// the same bytes always give the same.
#[verifier::external_body]
pub(crate) fn read_dds_format(bytes: &[u8]) -> (name: Option<String>)
    ensures
        text_view(name) == dds_format_of(bytes@),
{
    let dds = Dds::read(bytes).ok()?;
    image_dds::dds_image_format(&dds).ok().map(|format| format.to_string())
}

/// `image_dds::Surface::from_dds` on the DDS file in `bytes`, of which the
/// layers are taken. Claims only that the same bytes always give the same.
/// `image_dds` multiplies the array size by six for a cube map, in 32 bits:
/// the bound on the array size keeps that in range.
#[verifier::external_body]
pub(crate) fn read_dds_layers(bytes: &[u8]) -> (layers: Option<u32>)
    requires
        spec_dds_array_in_limits(bytes@),
    ensures
        layers == dds_layers_of(bytes@),
{
    let dds = Dds::read(bytes).ok()?;
    Surface::from_dds(&dds).ok().map(|surface| surface.layers)
}

/// `image_dds::image_from_dds` on the DDS file in `bytes`, for mip level 0.
/// Claims only that the same bytes always decode the same. The decoder
/// multiplies height, depth and layers in 32 bits: the limits keep that in
/// range.
#[verifier::external_body]
pub(crate) fn decode_dds_image(bytes: &[u8]) -> (image: Result<(u32, u32, Vec<u8>), String>)
    requires
        spec_dds_in_limits(bytes@),
    ensures
        match image {
            Ok(i) => dds_image_of(bytes@) == Ok::<(u32, u32, Seq<u8>), Seq<char>>(
                (i.0, i.1, i.2@),
            ),
            Err(e) => dds_image_of(bytes@) == Err::<(u32, u32, Seq<u8>), Seq<char>>(e@),
        },
{
    let dds = Dds::read(bytes).map_err(|e| e.to_string())?;
    let image = image_dds::image_from_dds(&dds, 0).map_err(|e| e.to_string())?;
    Ok((image.width(), image.height(), image.into_raw()))
}

/// `image_dds::SurfaceRgba8::decode_dds` on the DDS file in `bytes`: every
/// layer and mip level as RGBA8. Width, height, depth, layers, mip levels,
/// pixels. Claims only that the same bytes always decode the same.
#[verifier::external_body]
pub(crate) fn decode_dds(bytes: &[u8]) -> (surface: Result<
    (u32, u32, u32, u32, u32, Vec<u8>),
    String,
>)
    requires
        spec_dds_in_limits(bytes@),
    ensures
        match surface {
            Ok(s) => dds_surface_of(bytes@) == Ok::<
                (u32, u32, u32, u32, u32, Seq<u8>),
                Seq<char>,
            >((s.0, s.1, s.2, s.3, s.4, s.5@)),
            Err(e) => dds_surface_of(bytes@) == Err::<
                (u32, u32, u32, u32, u32, Seq<u8>),
                Seq<char>,
            >(e@),
        },
{
    let dds = Dds::read(bytes).map_err(|e| e.to_string())?;
    let s = SurfaceRgba8::decode_dds(&dds).map_err(|e| e.to_string())?;
    Ok((s.width, s.height, s.depth, s.layers, s.mipmaps, s.data))
}

/// `image_dds::SurfaceRgba8::encode_dds` on an RGBA8 surface, then
/// `Dds::write`. The format and the quality go by their names, through the
/// `FromStr` that `strum` derives for `image_dds::ImageFormat` and
/// `image_dds::Quality`; the mip policy goes variant by variant. The encoder
/// picks its kernels by the machine it runs on, so nothing is claimed of the
/// bytes but that they are its answer to these arguments. It makes
/// `GeneratedExact` levels one at a time, whatever the surface's size, and it
/// takes every layer, depth slice and, for `FromSurface`, mip level from the
/// pixels without looking whether they are there: the count is bounded and the
/// pixels are complete.
#[verifier::external_body]
pub(crate) fn encode_surface(
    width: u32,
    height: u32,
    depth: u32,
    layers: u32,
    levels: u32,
    data: &[u8],
    format: &str,
    quality: &str,
    mipmaps: Mipmaps,
) -> (dds: Result<Vec<u8>, String>)
    requires
        spec_within_limits(width, height, depth, layers, levels),
        levels >= 1,
        data@.len() >= spec_surface_len(width, height, depth, layers, levels),
        mipmaps matches Mipmaps::GeneratedExact(count) ==> count <= MAX_MIPMAPS,
    ensures
        encoder_answers(
            width,
            height,
            depth,
            layers,
            levels,
            data@,
            format@,
            quality@,
            mipmaps,
            bytes_view(dds),
        ),
{
    let surface = SurfaceRgba8 { width, height, depth, layers, mipmaps: levels, data };
    let format = CodecFormat::from_str(format).map_err(|e| e.to_string())?;
    let quality = CodecQuality::from_str(quality).map_err(|e| e.to_string())?;
    let mipmaps = match mipmaps {
        Mipmaps::Disabled => CodecMipmaps::Disabled,
        Mipmaps::FromSurface => CodecMipmaps::FromSurface,
        Mipmaps::GeneratedExact(count) => CodecMipmaps::GeneratedExact(count),
        Mipmaps::GeneratedAutomatic => CodecMipmaps::GeneratedAutomatic,
    };
    let dds = surface.encode_dds(format, quality, mipmaps).map_err(|e| e.to_string())?;
    let mut out = Vec::new();
    dds.write(&mut out).map(|_| out).map_err(|e| e.to_string())
}

/// `nutexb::NutexbFile::read` on `bytes`, then the footer's fields, its name
/// written out by `Display` and its format as the number that stands for it.
/// Claims only that the same bytes always read the same.
#[verifier::external_body]
pub(crate) fn read_nutexb_footer(bytes: &[u8]) -> (footer: Result<
    (String, u32, u32, u32, u32, u32, u32),
    String,
>)
    ensures
        match footer {
            Ok(f) => nutexb_footer_of(bytes@) == Ok::<
                (Seq<char>, u32, u32, u32, u32, u32, u32),
                Seq<char>,
            >((f.0@, f.1, f.2, f.3, f.4, f.5, f.6)),
            Err(e) => nutexb_footer_of(bytes@) == Err::<
                (Seq<char>, u32, u32, u32, u32, u32, u32),
                Seq<char>,
            >(e@),
        },
{
    let file = nutexb::NutexbFile::read(&mut Cursor::new(bytes)).map_err(|e| e.to_string())?;
    let f = file.footer;
    let format = f.image_format as u32;
    Ok((f.string.to_string(), f.width, f.height, f.depth, format, f.mipmap_count, f.layer_count))
}

/// `nutexb::NutexbFile::to_dds` on the file in `bytes` with its footer's mip
/// count set to `mipmaps`, then `Dds::write`. Claims only that the same
/// arguments always give the same. The codec shifts the dimensions by each mip
/// level and sizes the DDS in 32 bits: the limits keep both in range.
#[verifier::external_body]
pub(crate) fn nutexb_to_dds(bytes: &[u8], mipmaps: u32) -> (dds: Result<Vec<u8>, String>)
    requires
        spec_nutexb_in_limits(bytes@, mipmaps),
    ensures
        bytes_view(dds) == nutexb_dds_of(bytes@, mipmaps),
{
    let mut file = nutexb::NutexbFile::read(&mut Cursor::new(bytes)).map_err(|e| e.to_string())?;
    file.footer.mipmap_count = mipmaps;
    let dds = file.to_dds().map_err(|e| e.to_string())?;
    let mut out = Vec::new();
    dds.write(&mut out).map_err(|e| e.to_string())?;
    Ok(out)
}

/// `nutexb::NutexbFile::from_dds` on the DDS file in `dds` and `name`, then
/// `NutexbFile::write`. Claims only that the same arguments always give the
/// same. The codec shifts the dimensions by each mip level and multiplies the
/// array size by six for a cube map: the limits keep both in range.
#[verifier::external_body]
pub(crate) fn nutexb_from_dds(dds: &[u8], name: &str) -> (file: Result<Vec<u8>, String>)
    requires
        spec_dds_in_limits(dds@),
    ensures
        bytes_view(file) == dds_nutexb_of(dds@, name@),
{
    let dds = Dds::read(dds).map_err(|e| e.to_string())?;
    let file = nutexb::NutexbFile::from_dds(&dds, name).map_err(|e| e.to_string())?;
    let mut out = Cursor::new(Vec::new());
    file.write(&mut out).map_err(|e| e.to_string())?;
    Ok(out.into_inner())
}

/// `nutexb::NutexbFile::optimize_size` on the file in `bytes`, then
/// `NutexbFile::write`. Claims only that the same bytes always give the same.
/// The codec shifts the dimensions by each mip level of the footer and resizes
/// the data to the size it computes: the limits keep both in range.
#[verifier::external_body]
pub(crate) fn optimize_nutexb(bytes: &[u8]) -> (file: Result<Vec<u8>, String>)
    requires
        nutexb_footer_of(bytes@) matches Ok(f) && spec_nutexb_in_limits(bytes@, f.5),
    ensures
        bytes_view(file) == nutexb_optimized_of(bytes@),
{
    let mut file = nutexb::NutexbFile::read(&mut Cursor::new(bytes)).map_err(|e| e.to_string())?;
    file.optimize_size();
    let mut out = Cursor::new(Vec::new());
    file.write(&mut out).map_err(|e| e.to_string())?;
    Ok(out.into_inner())
}

/// `image::ImageFormat::from_extension`, then `image::load` on `bytes` in that
/// format, then `into_rgba8`: width, height, pixels. `None` where `image`
/// knows no format by that extension. Nothing is claimed of the pixels but that
/// they are the decoder's answer to these arguments.
#[verifier::external_body]
pub(crate) fn decode_raster(extension: &str, bytes: &[u8]) -> (image: Option<
    Result<(u32, u32, Vec<u8>), String>,
>)
    ensures
        raster_decoder_answers(extension@, bytes@, raster_view(image)),
{
    let format = image::ImageFormat::from_extension(extension)?;
    let decoded = image::load(Cursor::new(bytes), format).map_err(|e| e.to_string());
    Some(decoded.map(|image| image.into_rgba8()).map(|i| (i.width(), i.height(), i.into_raw())))
}

/// `image::ImageFormat::from_extension`, then `write_to` of an
/// `image::RgbaImage` in that format. `None` where `image` knows no format by
/// that extension. Claims only that the same arguments always give the same.
/// `image::RgbaImage::from_raw` takes the pixels as they are; with four bytes
/// a pixel it cannot refuse them.
#[verifier::external_body]
pub(crate) fn encode_raster(extension: &str, width: u32, height: u32, pixels: &Vec<u8>) -> (file:
    Option<Result<Vec<u8>, String>>)
    requires
        pixels@.len() == 4 * width * height,
    ensures
        match file {
            Some(f) => raster_file_of(extension@, width, height, pixels@) == Some(bytes_view(f)),
            None => raster_file_of(extension@, width, height, pixels@) is None,
        },
{
    let format = image::ImageFormat::from_extension(extension)?;
    let image = image::RgbaImage::from_raw(width, height, pixels.clone())?;
    let mut out = Cursor::new(Vec::new());
    Some(image.write_to(&mut out, format).map(|_| out.into_inner()).map_err(|e| e.to_string()))
}

} // verus!
