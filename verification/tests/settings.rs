use ultimate_tex::formats::{ImageFormat, Mipmaps, Quality};
use ultimate_tex::image_file::{Container, ImageFile};
use ultimate_tex::paths::{file_name, file_stem};
use ultimate_tex::settings::{
    is_compressed_type, output_path, AppSettings, EffectiveSettings, FileSettingsOverrides,
    ImageFileSettings, ImageFileType,
};
use ultimate_tex::texture::RgbaImage;

fn settings_for(path: &str) -> ImageFileSettings {
    ImageFileSettings {
        name: file_name(path),
        path: path.to_string(),
        format: ImageFormat::Rgba8Unorm,
        dimensions: (4, 4, 1),
        output_file_type: ImageFileType::Dds,
        output_format: ImageFormat::BC1RgbaUnorm,
        output_quality: Quality::Normal,
        output_mipmaps: Mipmaps::GeneratedExact(2),
    }
}

fn no_overrides() -> FileSettingsOverrides {
    FileSettingsOverrides {
        output_file_type: None,
        output_format: None,
        mipmaps: None,
        output_quality: None,
    }
}

#[test]
fn file_type_extensions() {
    assert_eq!(ImageFileType::Dds.extension(), "dds");
    assert_eq!(ImageFileType::Png.extension(), "png");
    assert_eq!(ImageFileType::Tiff.extension(), "tiff");
    assert_eq!(ImageFileType::Nutexb.extension(), "nutexb");
    assert_eq!(ImageFileType::Bntx.extension(), "bntx");
}

#[test]
fn file_type_containers() {
    assert_eq!(ImageFileType::Dds.container(), Container::Dds);
    assert_eq!(ImageFileType::Png.container(), Container::Image);
    assert_eq!(ImageFileType::Tiff.container(), Container::Image);
    assert_eq!(ImageFileType::Nutexb.container(), Container::Nutexb);
    assert_eq!(ImageFileType::Bntx.container(), Container::Bntx);
    for file_type in [
        ImageFileType::Dds,
        ImageFileType::Png,
        ImageFileType::Tiff,
        ImageFileType::Nutexb,
        ImageFileType::Bntx,
    ] {
        let path = format!("a.{}", file_type.extension());
        assert_eq!(Container::of_path(&path), file_type.container());
    }
}

#[test]
fn file_type_default_and_compression() {
    assert_eq!(ImageFileType::default(), ImageFileType::Png);
    assert!(!is_compressed_type(ImageFileType::Png));
    assert!(!is_compressed_type(ImageFileType::Tiff));
    assert!(is_compressed_type(ImageFileType::Dds));
    assert!(is_compressed_type(ImageFileType::Nutexb));
    assert!(is_compressed_type(ImageFileType::Bntx));
}

#[test]
fn overrides_default_leaves_the_format_alone() {
    let overrides = FileSettingsOverrides::default();
    assert_eq!(overrides.output_file_type, Some(ImageFileType::Png));
    assert_eq!(overrides.output_format, None);
    assert_eq!(overrides.mipmaps, Some(Mipmaps::GeneratedAutomatic));
    assert_eq!(overrides.output_quality, Some(Quality::Fast));
    let settings = AppSettings::default();
    assert_eq!(settings.output_folder, None);
    assert!(!settings.save_in_same_folder);
    assert!(settings.file_settings.is_empty());
    assert_eq!(settings.overrides.output_file_type, Some(ImageFileType::Png));
}

#[test]
fn settings_start_from_the_image() {
    let image = ImageFile::Image(RgbaImage::new(3, 5, vec![0; 60]).unwrap());
    let settings = ImageFileSettings::from_image("textures/a.b.png".to_string(), &image);
    assert_eq!(settings.name, "a.b.png");
    assert_eq!(settings.path, "textures/a.b.png");
    assert_eq!(settings.format, ImageFormat::Rgba8Unorm);
    assert_eq!(settings.dimensions, (3, 5, 1));
    assert_eq!(settings.output_file_type, ImageFileType::Nutexb);
    assert_eq!(settings.output_format, ImageFormat::Rgba8Unorm);
    assert_eq!(settings.output_quality, Quality::Fast);
    assert_eq!(settings.output_mipmaps, Mipmaps::GeneratedAutomatic);
    assert_eq!(settings.file_name_no_extension(), "a.b");
    let copy = settings.clone();
    assert_eq!(copy.name, settings.name);
    assert_eq!(copy.path, settings.path);
    assert_eq!(copy.dimensions, settings.dimensions);
}

#[test]
fn effective_settings_without_overrides_are_the_files() {
    let file = settings_for("a.png");
    assert_eq!(
        no_overrides().effective(&file),
        EffectiveSettings {
            file_type: ImageFileType::Dds,
            format: ImageFormat::BC1RgbaUnorm,
            quality: Quality::Normal,
            mipmaps: Mipmaps::GeneratedExact(2),
        }
    );
}

#[test]
fn effective_settings_take_every_override() {
    let file = settings_for("a.png");
    let overrides = FileSettingsOverrides {
        output_file_type: Some(ImageFileType::Nutexb),
        output_format: Some(ImageFormat::BC7RgbaUnormSrgb),
        mipmaps: Some(Mipmaps::Disabled),
        output_quality: Some(Quality::Fast),
    };
    assert_eq!(
        overrides.effective(&file),
        EffectiveSettings {
            file_type: ImageFileType::Nutexb,
            format: ImageFormat::BC7RgbaUnormSrgb,
            quality: Quality::Fast,
            mipmaps: Mipmaps::Disabled,
        }
    );
}

#[test]
fn effective_settings_resolve_each_by_itself() {
    let file = settings_for("a.png");
    let own = no_overrides().effective(&file);

    let mut overrides = no_overrides();
    overrides.output_file_type = Some(ImageFileType::Tiff);
    assert_eq!(
        overrides.effective(&file),
        EffectiveSettings { file_type: ImageFileType::Tiff, ..own }
    );

    let mut overrides = no_overrides();
    overrides.output_format = Some(ImageFormat::R8Unorm);
    assert_eq!(
        overrides.effective(&file),
        EffectiveSettings { format: ImageFormat::R8Unorm, ..own }
    );

    let mut overrides = no_overrides();
    overrides.output_quality = Some(Quality::Slow);
    assert_eq!(overrides.effective(&file), EffectiveSettings { quality: Quality::Slow, ..own });

    let mut overrides = no_overrides();
    overrides.mipmaps = Some(Mipmaps::FromSurface);
    assert_eq!(
        overrides.effective(&file),
        EffectiveSettings { mipmaps: Mipmaps::FromSurface, ..own }
    );
}

#[test]
fn effective_settings_under_the_default_overrides() {
    let file = settings_for("a.png");
    assert_eq!(
        FileSettingsOverrides::default().effective(&file),
        EffectiveSettings {
            file_type: ImageFileType::Png,
            format: ImageFormat::BC1RgbaUnorm,
            quality: Quality::Fast,
            mipmaps: Mipmaps::GeneratedAutomatic,
        }
    );
}

#[test]
fn output_is_named_after_the_source() {
    let file = settings_for("textures/stage/def_001_col.png");
    assert_eq!(output_path("out", &file, ImageFileType::Nutexb), "out/def_001_col.nutexb");
    assert_eq!(output_path("out/", &file, ImageFileType::Dds), "out/def_001_col.dds");
    assert_eq!(output_path("", &file, ImageFileType::Tiff), "def_001_col.tiff");
    assert_eq!(output_path("textures/stage", &file, ImageFileType::Png), "textures/stage/def_001_col.png");
}

#[test]
fn output_keeps_the_whole_stem() {
    assert_eq!(
        output_path("out", &settings_for("in/a.b.png"), ImageFileType::Nutexb),
        "out/a.b.nutexb"
    );
    assert_eq!(
        output_path("out", &settings_for("in/.hidden"), ImageFileType::Bntx),
        "out/.hidden.bntx"
    );
    assert_eq!(output_path("out", &settings_for("noext"), ImageFileType::Dds), "out/noext.dds");
}

#[test]
fn output_stem_is_the_source_stem_for_every_pair_of_extensions() {
    let sources = ["a.png", "dir/a.dds", "dir.v2/a.nutexb", "a.b.bntx", "a.tiff", "a.jpeg", "a"];
    let types = [
        ImageFileType::Dds,
        ImageFileType::Png,
        ImageFileType::Tiff,
        ImageFileType::Nutexb,
        ImageFileType::Bntx,
    ];
    for source in sources {
        for file_type in types {
            for folder in ["", "out", "out/", "/", "a.b/c.d"] {
                let output = output_path(folder, &settings_for(source), file_type);
                assert_eq!(
                    file_stem(&file_name(&output)),
                    file_stem(&file_name(source)),
                    "{source} -> {output}"
                );
            }
        }
    }
}
