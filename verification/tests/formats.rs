use ultimate_tex::error::{Error, FormatMappingError};
use ultimate_tex::formats::{ImageFormat, Mipmaps, NutexbFormat, Quality};
use ultimate_tex::text::str_eq;

#[test]
fn image_format_names_round_trip() {
    let mut index: u8 = 0;
    while let Some(format) = ImageFormat::from_index(index) {
        assert_eq!(ImageFormat::from_name(format.name()), Some(format));
        assert_eq!(format.index(), index);
        index += 1;
    }
    assert_eq!(index, 39);
}

#[test]
fn image_format_names_are_exact() {
    assert_eq!(ImageFormat::BC7RgbaUnorm.name(), "BC7RgbaUnorm");
    assert_eq!(ImageFormat::Rgba8UnormSrgb.name(), "Rgba8UnormSrgb");
    assert_eq!(ImageFormat::BC6hRgbUfloat.name(), "BC6hRgbUfloat");
    assert_eq!(ImageFormat::from_name("R8Unorm"), Some(ImageFormat::R8Unorm));
    assert_eq!(ImageFormat::from_name("Bgr5A1Unorm"), Some(ImageFormat::Bgr5A1Unorm));
}

#[test]
fn image_format_unknown_names_are_refused() {
    assert_eq!(ImageFormat::from_name("Bc7"), None);
    assert_eq!(ImageFormat::from_name(""), None);
    assert_eq!(ImageFormat::from_name("bc7rgbaunorm"), None);
    assert_eq!(ImageFormat::from_name("BC7RgbaUnorm "), None);
}

#[test]
fn image_format_positions() {
    assert_eq!(ImageFormat::R8Unorm.index(), 0);
    assert_eq!(ImageFormat::BC1RgbaUnorm.index(), 12);
    assert_eq!(ImageFormat::Bgr5A1Unorm.index(), 38);
    assert_eq!(ImageFormat::from_index(24), Some(ImageFormat::BC7RgbaUnorm));
    assert_eq!(ImageFormat::from_index(39), None);
    assert_eq!(ImageFormat::from_index(255), None);
}

#[test]
fn nutexb_format_codes() {
    assert_eq!(NutexbFormat::R8Unorm.code(), 0x0100);
    assert_eq!(NutexbFormat::R8G8B8A8Srgb.code(), 0x0405);
    assert_eq!(NutexbFormat::BC7Srgb.code(), 0x04e5);
    assert_eq!(NutexbFormat::from_code(0x04e0), Some(NutexbFormat::BC7Unorm));
    assert_eq!(NutexbFormat::from_code(0x0434), Some(NutexbFormat::R32G32B32A32Float));
    assert_eq!(NutexbFormat::from_code(0x0180), Some(NutexbFormat::BC4Unorm));
}

#[test]
fn nutexb_format_unknown_codes_are_refused() {
    assert_eq!(NutexbFormat::from_code(0), None);
    assert_eq!(NutexbFormat::from_code(0x0401), None);
    assert_eq!(NutexbFormat::from_code(u32::MAX), None);
}

#[test]
fn nutexb_format_codes_round_trip() {
    let all = [
        NutexbFormat::R8Unorm,
        NutexbFormat::R8G8B8A8Unorm,
        NutexbFormat::R8G8B8A8Srgb,
        NutexbFormat::R32G32B32A32Float,
        NutexbFormat::B8G8R8A8Unorm,
        NutexbFormat::B8G8R8A8Srgb,
        NutexbFormat::BC1Unorm,
        NutexbFormat::BC1Srgb,
        NutexbFormat::BC2Unorm,
        NutexbFormat::BC2Srgb,
        NutexbFormat::BC3Unorm,
        NutexbFormat::BC3Srgb,
        NutexbFormat::BC4Unorm,
        NutexbFormat::BC4Snorm,
        NutexbFormat::BC5Unorm,
        NutexbFormat::BC5Snorm,
        NutexbFormat::BC6Ufloat,
        NutexbFormat::BC6Sfloat,
        NutexbFormat::BC7Unorm,
        NutexbFormat::BC7Srgb,
    ];
    for format in all {
        assert_eq!(NutexbFormat::from_code(format.code()), Some(format));
    }
}

#[test]
fn quality_names() {
    assert_eq!(Quality::Fast.name(), "Fast");
    assert_eq!(Quality::Normal.name(), "Normal");
    assert_eq!(Quality::Slow.name(), "Slow");
}

#[test]
fn mipmaps_compare_by_count() {
    assert_eq!(Mipmaps::GeneratedExact(3), Mipmaps::GeneratedExact(3));
    assert_ne!(Mipmaps::GeneratedExact(3), Mipmaps::GeneratedExact(4));
    assert_ne!(Mipmaps::Disabled, Mipmaps::GeneratedAutomatic);
}

#[test]
fn strings_compare_by_characters() {
    assert!(str_eq("nutexb", "nutexb"));
    assert!(!str_eq("nutexb", "nutex"));
    assert!(!str_eq("", "a"));
    assert!(str_eq("", ""));
}

#[test]
fn error_messages() {
    assert_eq!(
        Error::UnsupportedExtension("bntx".to_string()).message(),
        "no codec for the extension bntx"
    );
    assert_eq!(Error::CorruptData("bad magic".to_string()).message(), "bad magic");
    assert_eq!(
        Error::UnsupportedDimensions.message(),
        "the surface is empty or larger than the codecs can hold"
    );
    assert_eq!(
        Error::FormatMapping(FormatMappingError::Nutexb(1025)).message(),
        "the nutexb format 1025 is no known pixel format"
    );
    assert_eq!(
        Error::FormatMapping(FormatMappingError::Dds(Some("Etc2".to_string()))).message(),
        "the DDS format Etc2 is no known pixel format"
    );
    assert_eq!(
        Error::FormatMapping(FormatMappingError::Dds(None)).message(),
        "the DDS format is not supported"
    );
    assert_eq!(
        Error::FormatMapping(FormatMappingError::Name("Bc9".to_string())).message(),
        "no pixel format is called Bc9"
    );
    assert_eq!(Error::UnsupportedSourceFormat("no".to_string()).message(), "no");
    assert_eq!(Error::EncodeFailure("nope".to_string()).message(), "nope");
    assert_eq!(Error::Io("disk full".to_string()).message(), "disk full");
}
