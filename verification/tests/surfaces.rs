use ultimate_tex::app::optimize_nutexb;
use ultimate_tex::error::Error;
use ultimate_tex::formats::{ImageFormat, Mipmaps, Quality};
use ultimate_tex::image_file::ImageFile;
use ultimate_tex::surface::{
    dds_from_image, decode_rgba8, encode, encode_dds, image_from_dds, nutexb_from_dds,
    nutexb_to_dds, SurfaceRgba8,
};
use ultimate_tex::texture::{Dds, NutexbFile, RgbaImage};

fn surface(width: u32, height: u32, depth: u32, layers: u32, mipmaps: u32) -> SurfaceRgba8 {
    let mut slices = 0usize;
    let (mut w, mut h) = (width as usize, height as usize);
    for _ in 0..mipmaps {
        slices += 4 * w * h;
        w = (w / 2).max(1);
        h = (h / 2).max(1);
    }
    let len = layers as usize * depth as usize * slices;
    let data = (0..len).map(|i| (i * 31 % 251) as u8).collect();
    SurfaceRgba8::new(width, height, depth, layers, mipmaps, data).unwrap()
}

const POLICIES: [Mipmaps; 6] = [
    Mipmaps::Disabled,
    Mipmaps::FromSurface,
    Mipmaps::GeneratedExact(0),
    Mipmaps::GeneratedExact(2),
    Mipmaps::GeneratedExact(32),
    Mipmaps::GeneratedAutomatic,
];

const FORMATS: [ImageFormat; 5] = [
    ImageFormat::Rgba8Unorm,
    ImageFormat::BC1RgbaUnorm,
    ImageFormat::BC7RgbaUnormSrgb,
    ImageFormat::R8Unorm,
    ImageFormat::Rgba32Float,
];

fn encode_every_way(source: &SurfaceRgba8) {
    for policy in POLICIES {
        for format in FORMATS {
            match encode(source, format, Quality::Fast, policy) {
                Ok(dds) => {
                    assert_eq!(dds.image_format(), format);
                    let (w, h, d) = source.dimensions();
                    assert_eq!(dds.dimensions(), (w, h, d));
                    let expected = match policy {
                        Mipmaps::Disabled => 1,
                        Mipmaps::FromSurface => source.mipmaps(),
                        Mipmaps::GeneratedExact(count) => count.max(1),
                        Mipmaps::GeneratedAutomatic => w.max(h).max(d).ilog2() + 1,
                    };
                    assert_eq!(dds.mipmap_count(), expected);
                    let _ = decode_rgba8(&dds);
                    let _ = image_from_dds(&dds);
                    if let Ok(bytes) = nutexb_from_dds(&dds, "surface") {
                        if let Ok(nutexb) = NutexbFile::read(bytes.clone()) {
                            let _ = nutexb_to_dds(&nutexb);
                            let _ = ImageFile::Nutexb(nutexb).to_image();
                        }
                        let _ = optimize_nutexb(&bytes);
                    }
                }
                Err(e) => panic!("{:?} {:?} {:?}: {}", source.dimensions(), policy, format, e.message()),
            }
        }
    }
}

#[test]
fn flat_surfaces_encode_under_every_policy() {
    encode_every_way(&surface(1, 1, 1, 1, 1));
    encode_every_way(&surface(3, 5, 1, 1, 1));
    encode_every_way(&surface(16, 16, 1, 1, 1));
    encode_every_way(&surface(16, 4, 1, 1, 3));
    encode_every_way(&surface(8, 8, 1, 1, 4));
}

#[test]
fn layered_surfaces_encode_under_every_policy() {
    encode_every_way(&surface(8, 8, 1, 6, 1));
    encode_every_way(&surface(8, 8, 1, 6, 4));
    encode_every_way(&surface(4, 4, 1, 2, 2));
    encode_every_way(&surface(4, 4, 1, 12, 1));
}

#[test]
fn deep_surfaces_encode_under_every_policy() {
    encode_every_way(&surface(4, 4, 4, 1, 1));
    encode_every_way(&surface(4, 4, 4, 1, 3));
    encode_every_way(&surface(8, 4, 2, 1, 2));
    encode_every_way(&surface(5, 3, 3, 1, 2));
}

#[test]
fn cube_map_keeps_its_faces() {
    let source = surface(8, 8, 1, 6, 1);
    let dds = encode(&source, ImageFormat::Rgba8Unorm, Quality::Fast, Mipmaps::Disabled).unwrap();
    let decoded = decode_rgba8(&dds).unwrap();
    assert_eq!(decoded.layers(), 6);
    assert_eq!(decoded.data(), source.data());
    let image = image_from_dds(&dds).unwrap();
    assert_eq!((image.width(), image.height()), (8, 48));
    assert_eq!(image.as_raw(), source.data());
    let mut bytes = dds.into_bytes();
    bytes[128 + 12..128 + 16].copy_from_slice(&1u32.to_le_bytes());
    let one_cube = Dds::read(bytes).unwrap();
    assert_eq!(decode_rgba8(&one_cube).unwrap().data(), source.data());
    let nutexb = NutexbFile::read(nutexb_from_dds(&one_cube, "cube").unwrap()).unwrap();
    let back = nutexb_to_dds(&nutexb).unwrap();
    let decoded = decode_rgba8(&back).unwrap();
    assert_eq!(decoded.layers(), 6);
    assert_eq!(decoded.data(), source.data());
}

#[test]
fn volume_keeps_its_slices() {
    let source = surface(4, 4, 4, 1, 1);
    let dds = encode(&source, ImageFormat::Rgba8Unorm, Quality::Fast, Mipmaps::Disabled).unwrap();
    assert_eq!(dds.dimensions(), (4, 4, 4));
    let decoded = decode_rgba8(&dds).unwrap();
    assert_eq!(decoded.dimensions(), (4, 4, 4));
    assert_eq!(decoded.data(), source.data());
    let again = encode_dds(&dds, ImageFormat::Bgra8Unorm, Quality::Fast, Mipmaps::FromSurface)
        .unwrap();
    assert_eq!(again.dimensions(), (4, 4, 4));
}

#[test]
fn mip_levels_survive_the_nutexb() {
    let source = surface(16, 16, 1, 1, 5);
    let dds =
        encode(&source, ImageFormat::Rgba8Unorm, Quality::Fast, Mipmaps::FromSurface).unwrap();
    assert_eq!(decode_rgba8(&dds).unwrap().data(), source.data());
    let nutexb = NutexbFile::read(nutexb_from_dds(&dds, "mips").unwrap()).unwrap();
    assert_eq!(nutexb.mipmap_count(), 4);
    let back = nutexb_to_dds(&nutexb).unwrap();
    let decoded = decode_rgba8(&back).unwrap();
    assert_eq!(decoded.mipmaps(), 4);
    assert_eq!(decoded.data()[..], source.data()[..4 * (256 + 64 + 16 + 4)]);
}

#[test]
fn untiled_surface_is_what_the_footer_declares() {
    let image = RgbaImage::new(16, 16, vec![200u8; 16 * 16 * 4]).unwrap();
    let dds =
        dds_from_image(&image, ImageFormat::BC3RgbaUnorm, Quality::Fast, Mipmaps::GeneratedAutomatic)
            .unwrap();
    assert_eq!(dds.mipmap_count(), 5);
    let nutexb = NutexbFile::read(nutexb_from_dds(&dds, "n").unwrap()).unwrap();
    assert_eq!(nutexb.mipmap_count(), 4);
    assert_eq!(nutexb.layers(), 1);
    let untiled = nutexb_to_dds(&nutexb).unwrap();
    assert_eq!(untiled.dimensions(), (16, 16, 1));
    assert_eq!(untiled.layers(), Some(1));
    assert_eq!(untiled.mipmap_count(), 4);
    assert_eq!(untiled.image_format(), ImageFormat::BC3RgbaUnorm);
    let shown = image_from_dds(&untiled).unwrap();
    assert_eq!((shown.width(), shown.height()), (16, 16));
}

#[test]
fn untiled_surface_of_one_pixel_declares_a_base_level() {
    let image = RgbaImage::new(1, 1, vec![9u8, 8, 7, 6]).unwrap();
    let dds =
        dds_from_image(&image, ImageFormat::Rgba8Unorm, Quality::Fast, Mipmaps::Disabled).unwrap();
    let nutexb = NutexbFile::read(nutexb_from_dds(&dds, "n").unwrap()).unwrap();
    assert_eq!(nutexb.mipmap_count(), 0);
    let untiled = nutexb_to_dds(&nutexb).unwrap();
    assert_eq!(untiled.mipmap_count(), 1);
    assert_eq!(untiled.dimensions(), (1, 1, 1));
    assert!(matches!(image_from_dds(&untiled), Err(Error::UnsupportedSourceFormat(_))));
}

#[test]
fn tiled_file_carries_the_name_or_is_refused() {
    let image = RgbaImage::new(4, 4, vec![200u8; 64]).unwrap();
    let dds =
        dds_from_image(&image, ImageFormat::BC3RgbaUnorm, Quality::Fast, Mipmaps::Disabled).unwrap();
    for name in ["n".to_string(), "n".repeat(63), "d\u{e9}f".to_string()] {
        let tiled = NutexbFile::read(nutexb_from_dds(&dds, &name).unwrap()).unwrap();
        assert_eq!(tiled.name(), &name);
        assert_eq!(tiled.dimensions(), (4, 4, 1));
        assert_eq!(tiled.image_format().image_format(), ImageFormat::BC3RgbaUnorm);
    }
    for name in ["n".repeat(64), "n".repeat(100)] {
        assert_eq!(
            nutexb_from_dds(&dds, &name).err(),
            Some(Error::EncodeFailure("the tiled surface is not what was asked for".to_string()))
        );
    }
}
