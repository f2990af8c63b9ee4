use ultimate_tex::error::{Error, FormatMappingError};
use ultimate_tex::formats::{ImageFormat, Mipmaps, NutexbFormat, Quality};
use ultimate_tex::image_file::ImageFile;
use ultimate_tex::surface::{
    decode_rgba8, dds_from_image, encode, encode_dds, image_from_dds, nutexb_from_dds,
    nutexb_to_dds, SurfaceRgba8,
};
use ultimate_tex::texture::{Dds, NutexbFile, RgbaImage};

fn gradient(width: u32, height: u32) -> RgbaImage {
    let mut data = Vec::new();
    for y in 0..height {
        for x in 0..width {
            data.push((x * 7 % 256) as u8);
            data.push((y * 11 % 256) as u8);
            data.push(((x + y) % 256) as u8);
            data.push(255);
        }
    }
    RgbaImage::new(width, height, data).unwrap()
}

fn rgba_dds(width: u32, height: u32, mipmaps: Mipmaps) -> Dds {
    dds_from_image(&gradient(width, height), ImageFormat::Rgba8Unorm, Quality::Fast, mipmaps)
        .unwrap()
}

fn put_u32(bytes: &mut Vec<u8>, at: usize, value: u32) {
    bytes[at..at + 4].copy_from_slice(&value.to_le_bytes());
}

#[test]
fn rgba_image_takes_four_bytes_a_pixel() {
    let image = RgbaImage::new(2, 3, vec![9; 24]).unwrap();
    assert_eq!(image.width(), 2);
    assert_eq!(image.height(), 3);
    assert_eq!(image.as_raw(), &vec![9; 24]);
    assert!(RgbaImage::new(0, 0, Vec::new()).is_some());
    assert!(RgbaImage::new(0, 5, Vec::new()).is_some());
}

#[test]
fn rgba_image_refuses_any_other_length() {
    assert!(RgbaImage::new(2, 3, vec![0; 23]).is_none());
    assert!(RgbaImage::new(2, 3, vec![0; 25]).is_none());
    assert!(RgbaImage::new(1, 1, Vec::new()).is_none());
    assert!(RgbaImage::new(u32::MAX, u32::MAX, vec![0; 4]).is_none());
}

#[test]
fn rgba_image_duplicate_is_equal() {
    let image = gradient(3, 2);
    let copy = image.duplicate();
    assert_eq!(copy.width(), 3);
    assert_eq!(copy.height(), 2);
    assert_eq!(copy.as_raw(), image.as_raw());
}

#[test]
fn dds_header_is_read() {
    let dds = rgba_dds(8, 4, Mipmaps::Disabled);
    assert_eq!(dds.dimensions(), (8, 4, 1));
    assert_eq!(dds.image_format(), ImageFormat::Rgba8Unorm);
    assert_eq!(&dds.as_bytes()[0..4], b"DDS ");
    let again = Dds::read(dds.as_bytes().clone()).unwrap();
    assert_eq!(again.as_bytes(), dds.as_bytes());
    let copy = dds.duplicate();
    assert_eq!(copy.as_bytes(), dds.as_bytes());
    assert_eq!(copy.dimensions(), (8, 4, 1));
}

#[test]
fn dds_that_is_no_dds_is_corrupt() {
    assert!(matches!(Dds::read(Vec::new()), Err(Error::CorruptData(_))));
    assert!(matches!(Dds::read(vec![0; 200]), Err(Error::CorruptData(_))));
    let mut cut = rgba_dds(8, 4, Mipmaps::Disabled).into_bytes();
    cut.truncate(40);
    assert!(matches!(Dds::read(cut), Err(Error::CorruptData(_))));
}

#[test]
fn dds_of_an_unknown_format_is_a_mapping_error() {
    let mut bytes = rgba_dds(8, 4, Mipmaps::Disabled).into_bytes();
    bytes[84..88].copy_from_slice(b"XXXX");
    assert_eq!(
        Dds::read(bytes).err(),
        Some(Error::FormatMapping(FormatMappingError::Dds(None)))
    );
}

fn refused_by_every_codec(dds: &Dds) {
    assert_eq!(dds.layers(), None);
    assert_eq!(image_from_dds(dds).err(), Some(Error::UnsupportedDimensions));
    assert_eq!(decode_rgba8(dds).err(), Some(Error::UnsupportedDimensions));
    assert_eq!(nutexb_from_dds(dds, "n").err(), Some(Error::UnsupportedDimensions));
    assert_eq!(
        encode_dds(dds, ImageFormat::BC1RgbaUnorm, Quality::Fast, Mipmaps::Disabled).err(),
        Some(Error::UnsupportedDimensions)
    );
}

#[test]
fn dds_beyond_the_limits_is_kept_but_not_decoded() {
    let mut wide = rgba_dds(8, 4, Mipmaps::Disabled).into_bytes();
    put_u32(&mut wide, 16, 65537);
    let wide = Dds::read(wide).unwrap();
    assert_eq!(wide.dimensions(), (65537, 4, 1));
    refused_by_every_codec(&wide);
    let mut empty = rgba_dds(8, 4, Mipmaps::Disabled).into_bytes();
    put_u32(&mut empty, 12, 0);
    refused_by_every_codec(&Dds::read(empty).unwrap());
    let mut large = rgba_dds(8, 4, Mipmaps::Disabled).into_bytes();
    put_u32(&mut large, 12, 65536);
    put_u32(&mut large, 16, 65536);
    let large = Dds::read(large).unwrap();
    refused_by_every_codec(&large);
    let copy = encode_dds(&large, ImageFormat::Rgba8Unorm, Quality::Fast, Mipmaps::Disabled)
        .unwrap();
    assert_eq!(copy.as_bytes(), large.as_bytes());
}

#[test]
fn dds_of_a_large_plain_surface_is_within_the_limits() {
    let mut bytes = rgba_dds(8, 4, Mipmaps::Disabled).into_bytes();
    put_u32(&mut bytes, 12, 4096);
    put_u32(&mut bytes, 16, 8192);
    let dds = Dds::read(bytes).unwrap();
    assert_eq!(dds.layers(), Some(1));
    assert!(matches!(image_from_dds(&dds), Err(Error::UnsupportedSourceFormat(_))));
    let mut bytes = dds.into_bytes();
    put_u32(&mut bytes, 12, 8192);
    put_u32(&mut bytes, 16, 16384);
    assert_eq!(Dds::read(bytes.clone()).unwrap().layers(), Some(1));
    put_u32(&mut bytes, 12, 8193);
    assert_eq!(Dds::read(bytes).unwrap().layers(), None);
}

#[test]
fn dds_layers_count_the_faces_of_a_cube() {
    let plain = rgba_dds(8, 4, Mipmaps::Disabled);
    assert_eq!(plain.layers(), Some(1));
    let mut bytes = plain.into_bytes();
    put_u32(&mut bytes, 128 + 12, 5);
    assert_eq!(Dds::read(bytes.clone()).unwrap().layers(), Some(5));
    put_u32(&mut bytes, 128 + 8, 4);
    assert_eq!(Dds::read(bytes.clone()).unwrap().layers(), Some(30));
    put_u32(&mut bytes, 128 + 12, 0);
    assert_eq!(Dds::read(bytes).unwrap().layers(), Some(6));
}

#[test]
fn dds_at_the_limits_is_kept() {
    let mut bytes = rgba_dds(8, 4, Mipmaps::Disabled).into_bytes();
    put_u32(&mut bytes, 12, 4096);
    put_u32(&mut bytes, 16, 4096);
    let dds = Dds::read(bytes).unwrap();
    assert_eq!(dds.dimensions(), (4096, 4096, 1));
    assert!(matches!(image_from_dds(&dds), Err(Error::UnsupportedSourceFormat(_))));
}

#[test]
fn surface_holds_every_level() {
    assert!(SurfaceRgba8::new(4, 4, 1, 1, 1, vec![0; 64]).is_some());
    assert!(SurfaceRgba8::new(4, 4, 1, 1, 3, vec![0; 64 + 16 + 4]).is_some());
    assert!(SurfaceRgba8::new(4, 4, 1, 6, 3, vec![0; 6 * 84]).is_some());
    assert!(SurfaceRgba8::new(4, 2, 2, 1, 2, vec![0; 2 * (32 + 8)]).is_some());
    assert!(SurfaceRgba8::new(1, 1, 1, 1, 2, vec![0; 8]).is_some());
    let surface = SurfaceRgba8::new(4, 2, 3, 5, 1, vec![7; 480]).unwrap();
    assert_eq!(surface.dimensions(), (4, 2, 3));
    assert_eq!(surface.layers(), 5);
    assert_eq!(surface.mipmaps(), 1);
    assert_eq!(surface.data().len(), 480);
}

#[test]
fn surface_refuses_missing_or_spare_pixels() {
    assert!(SurfaceRgba8::new(4, 4, 1, 1, 1, vec![0; 63]).is_none());
    assert!(SurfaceRgba8::new(4, 4, 1, 1, 1, vec![0; 65]).is_none());
    assert!(SurfaceRgba8::new(4, 4, 1, 1, 3, vec![0; 64]).is_none());
    assert!(SurfaceRgba8::new(4, 4, 1, 1, 0, Vec::new()).is_none());
    assert!(SurfaceRgba8::new(0, 4, 1, 1, 1, Vec::new()).is_none());
    assert!(SurfaceRgba8::new(4, 4, 1, 0, 1, Vec::new()).is_none());
    assert!(SurfaceRgba8::new(4, 4, 1, 1, 33, vec![0; 64]).is_none());
    assert!(SurfaceRgba8::new(65537, 1, 1, 1, 1, vec![0; 4 * 65537]).is_none());
}

#[test]
fn surface_from_image_is_one_level() {
    let image = gradient(5, 3);
    let surface = SurfaceRgba8::from_image(&image).unwrap();
    assert_eq!(surface.dimensions(), (5, 3, 1));
    assert_eq!(surface.layers(), 1);
    assert_eq!(surface.mipmaps(), 1);
    assert_eq!(surface.data(), image.as_raw());
    assert!(SurfaceRgba8::from_image(&RgbaImage::new(0, 0, Vec::new()).unwrap()).is_none());
    assert!(SurfaceRgba8::from_image(&RgbaImage::new(65537, 1, vec![0; 4 * 65537]).unwrap())
        .is_none());
}

#[test]
fn decode_gives_every_level() {
    let image = gradient(8, 8);
    let dds = dds_from_image(
        &image,
        ImageFormat::Rgba8Unorm,
        Quality::Fast,
        Mipmaps::GeneratedAutomatic,
    )
    .unwrap();
    let surface = decode_rgba8(&dds).unwrap();
    assert_eq!(surface.dimensions(), (8, 8, 1));
    assert_eq!(surface.layers(), 1);
    assert_eq!(surface.mipmaps(), 4);
    assert_eq!(surface.data().len(), 4 * (64 + 16 + 4 + 1));
    assert_eq!(&surface.data()[0..256], &image.as_raw()[..]);
    let first = image_from_dds(&dds).unwrap();
    assert_eq!(first.width(), 8);
    assert_eq!(first.height(), 8);
    assert_eq!(first.as_raw(), image.as_raw());
}

#[test]
fn encode_follows_the_mip_policy() {
    let image = gradient(16, 8);
    let one = dds_from_image(&image, ImageFormat::Rgba8Unorm, Quality::Fast, Mipmaps::Disabled)
        .unwrap();
    assert_eq!(decode_rgba8(&one).unwrap().mipmaps(), 1);
    let three =
        dds_from_image(&image, ImageFormat::Rgba8Unorm, Quality::Fast, Mipmaps::GeneratedExact(3))
            .unwrap();
    assert_eq!(decode_rgba8(&three).unwrap().mipmaps(), 3);
    let all =
        dds_from_image(&image, ImageFormat::Rgba8Unorm, Quality::Fast, Mipmaps::GeneratedAutomatic)
            .unwrap();
    assert_eq!(decode_rgba8(&all).unwrap().mipmaps(), 5);
    let kept = encode_dds(&three, ImageFormat::Bgra8Unorm, Quality::Fast, Mipmaps::FromSurface)
        .unwrap();
    assert_eq!(kept.image_format(), ImageFormat::Bgra8Unorm);
    assert_eq!(decode_rgba8(&kept).unwrap().mipmaps(), 3);
}

#[test]
fn encode_refuses_too_many_levels() {
    let surface = SurfaceRgba8::from_image(&gradient(4, 4)).unwrap();
    let refused =
        encode(&surface, ImageFormat::Rgba8Unorm, Quality::Fast, Mipmaps::GeneratedExact(33));
    assert_eq!(
        refused.err(),
        Some(Error::EncodeFailure("the mip count is more than a surface can have".to_string()))
    );
    assert!(encode(&surface, ImageFormat::Rgba8Unorm, Quality::Fast, Mipmaps::GeneratedExact(0))
        .is_ok());
}

#[test]
fn encode_refuses_an_image_beyond_the_limits() {
    let empty = RgbaImage::new(0, 0, Vec::new()).unwrap();
    assert_eq!(
        dds_from_image(&empty, ImageFormat::Rgba8Unorm, Quality::Fast, Mipmaps::Disabled).err(),
        Some(Error::UnsupportedDimensions)
    );
}

#[test]
fn normalizer_copies_a_file_of_the_same_format() {
    let dds = dds_from_image(
        &gradient(16, 16),
        ImageFormat::BC1RgbaUnorm,
        Quality::Fast,
        Mipmaps::GeneratedAutomatic,
    )
    .unwrap();
    let same = encode_dds(&dds, ImageFormat::BC1RgbaUnorm, Quality::Slow, Mipmaps::Disabled)
        .unwrap();
    assert_eq!(same.as_bytes(), dds.as_bytes());
    assert_eq!(decode_rgba8(&same).unwrap().data(), decode_rgba8(&dds).unwrap().data());
    assert_eq!(image_from_dds(&same).unwrap().as_raw(), image_from_dds(&dds).unwrap().as_raw());
    assert_eq!(decode_rgba8(&same).unwrap().mipmaps(), 5);
}

#[test]
fn normalizer_encodes_a_file_of_another_format() {
    let dds = rgba_dds(16, 16, Mipmaps::Disabled);
    let other = encode_dds(&dds, ImageFormat::BC3RgbaUnorm, Quality::Fast, Mipmaps::Disabled)
        .unwrap();
    assert_eq!(other.image_format(), ImageFormat::BC3RgbaUnorm);
    assert_eq!(other.dimensions(), (16, 16, 1));
    assert_ne!(other.as_bytes(), dds.as_bytes());
    let back = encode_dds(&other, ImageFormat::Rgba8Unorm, Quality::Fast, Mipmaps::Disabled)
        .unwrap();
    assert_eq!(back.image_format(), ImageFormat::Rgba8Unorm);
    assert_eq!(image_from_dds(&back).unwrap().as_raw().len(), 16 * 16 * 4);
}

#[test]
fn nutexb_is_tiled_and_untiled() {
    let dds = rgba_dds(16, 8, Mipmaps::Disabled);
    let bytes = nutexb_from_dds(&dds, "col_001").unwrap();
    assert_ne!(&bytes, dds.as_bytes());
    assert_eq!(&bytes[bytes.len() - 112..bytes.len() - 108], b" XNT");
    let nutexb = NutexbFile::read(bytes.clone()).unwrap();
    assert_eq!(nutexb.as_bytes(), &bytes);
    assert_eq!(nutexb.name().as_str(), "col_001");
    assert_eq!(nutexb.dimensions(), (16, 8, 1));
    assert_eq!(nutexb.image_format(), NutexbFormat::R8G8B8A8Unorm);
    assert_eq!(nutexb.mipmap_count(), 1);
    let untiled = nutexb_to_dds(&nutexb).unwrap();
    assert_eq!(untiled.dimensions(), (16, 8, 1));
    assert_eq!(untiled.image_format(), ImageFormat::Rgba8Unorm);
    assert_eq!(
        image_from_dds(&untiled).unwrap().as_raw(),
        image_from_dds(&dds).unwrap().as_raw()
    );
}

#[test]
fn nutexb_of_a_format_it_cannot_hold_is_refused() {
    let dds = dds_from_image(&gradient(4, 4), ImageFormat::Rg8Unorm, Quality::Fast, Mipmaps::Disabled)
        .unwrap();
    assert!(matches!(nutexb_from_dds(&dds, "a"), Err(Error::EncodeFailure(_))));
}

#[test]
fn nutexb_that_is_no_nutexb_is_corrupt() {
    assert!(matches!(NutexbFile::read(Vec::new()), Err(Error::CorruptData(_))));
    assert!(matches!(NutexbFile::read(vec![0; 500]), Err(Error::CorruptData(_))));
    assert!(matches!(
        ImageFile::from_file("broken.nutexb", b"not a texture".to_vec()),
        Err(Error::CorruptData(_))
    ));
}

#[test]
fn nutexb_mip_count_is_corrected_on_reading() {
    let dds = dds_from_image(
        &gradient(16, 16),
        ImageFormat::Rgba8Unorm,
        Quality::Fast,
        Mipmaps::GeneratedExact(3),
    )
    .unwrap();
    let mut bytes = nutexb_from_dds(&dds, "mips").unwrap();
    assert_eq!(NutexbFile::read(bytes.clone()).unwrap().mipmap_count(), 3);
    let footer = bytes.len() - 112;
    put_u32(&mut bytes, footer + 88, 9);
    let nutexb = NutexbFile::read(bytes).unwrap();
    assert_eq!(nutexb.mipmap_count(), 4);
    assert_eq!(nutexb.dimensions(), (16, 16, 1));
}

#[test]
fn nutexb_beyond_the_limits_is_kept_but_not_untiled() {
    let mut bytes = nutexb_from_dds(&rgba_dds(16, 8, Mipmaps::Disabled), "big").unwrap();
    let footer = bytes.len() - 112;
    put_u32(&mut bytes, footer + 68, 0);
    let empty = NutexbFile::read(bytes.clone()).unwrap();
    assert_eq!(empty.dimensions(), (0, 8, 1));
    assert!(!empty.within_limits());
    assert_eq!(nutexb_to_dds(&empty).err(), Some(Error::UnsupportedDimensions));
    put_u32(&mut bytes, footer + 68, 65537);
    put_u32(&mut bytes, footer + 88, 40);
    let wide = NutexbFile::read(bytes).unwrap();
    assert_eq!(wide.dimensions(), (65537, 8, 1));
    assert_eq!(wide.mipmap_count(), 16);
    assert!(!wide.within_limits());
    assert_eq!(nutexb_to_dds(&wide).err(), Some(Error::UnsupportedDimensions));
    assert_eq!(
        ImageFile::Nutexb(wide).to_image().err(),
        Some(Error::UnsupportedDimensions)
    );
}

#[test]
fn nutexb_of_an_unknown_format_does_not_read() {
    let mut bytes = nutexb_from_dds(&rgba_dds(16, 8, Mipmaps::Disabled), "fmt").unwrap();
    let footer = bytes.len() - 112;
    put_u32(&mut bytes, footer + 80, 0x0401);
    assert!(matches!(NutexbFile::read(bytes), Err(Error::CorruptData(_))));
}

#[test]
fn dds_with_too_many_layers_is_not_decoded() {
    let mut bytes = rgba_dds(8, 4, Mipmaps::Disabled).into_bytes();
    assert_eq!(&bytes[84..88], b"DX10");
    put_u32(&mut bytes, 128 + 12, 12288);
    assert_eq!(Dds::read(bytes.clone()).unwrap().layers(), Some(12288));
    put_u32(&mut bytes, 128 + 12, 12289);
    refused_by_every_codec(&Dds::read(bytes.clone()).unwrap());
    put_u32(&mut bytes, 128 + 12, u32::MAX);
    refused_by_every_codec(&Dds::read(bytes.clone()).unwrap());
    put_u32(&mut bytes, 128 + 8, 4);
    put_u32(&mut bytes, 128 + 12, 2049);
    refused_by_every_codec(&Dds::read(bytes).unwrap());
}

#[test]
fn every_format_encodes_and_reads_back_as_itself() {
    let image = gradient(8, 8);
    let mut index = 0;
    while let Some(format) = ImageFormat::from_index(index) {
        let dds = dds_from_image(&image, format, Quality::Normal, Mipmaps::GeneratedAutomatic)
            .unwrap();
        assert_eq!(dds.image_format(), format);
        assert_eq!(dds.dimensions(), (8, 8, 1));
        let surface = decode_rgba8(&dds).unwrap();
        assert_eq!(surface.mipmaps(), 4);
        assert_eq!(surface.data().len(), 4 * (64 + 16 + 4 + 1));
        index += 1;
    }
    assert_eq!(index, 39);
}

#[test]
fn nutexb_holds_the_formats_of_its_table() {
    let image = gradient(8, 8);
    let mut held = Vec::new();
    let mut index = 0;
    while let Some(format) = ImageFormat::from_index(index) {
        let dds = dds_from_image(&image, format, Quality::Fast, Mipmaps::Disabled).unwrap();
        if let Ok(bytes) = nutexb_from_dds(&dds, "held") {
            let nutexb = NutexbFile::read(bytes).unwrap();
            assert_eq!(ImageFile::Nutexb(nutexb).image_format(), format);
            held.push(format);
        }
        index += 1;
    }
    assert_eq!(held.len(), 20);
    assert!(held.contains(&ImageFormat::Rgba32Float));
    assert!(!held.contains(&ImageFormat::Rg8Unorm));
}
