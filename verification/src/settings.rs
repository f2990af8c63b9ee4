//! What is asked of a conversion: the settings that each file carries, the
//! overrides that apply to every file, and how the two are resolved.

use crate::formats::{ImageFormat, Mipmaps, Quality};
use crate::image_file::{Container, ImageFile, ImageFileView};
use crate::paths::{
    file_name, file_stem, has_char, join, last_index_of, lemma_last_index_of,
    lemma_last_index_of_is, spec_file_name, spec_file_stem, spec_join,
};
use vstd::prelude::*;
use vstd::string::*;

verus! {

/// The kinds of file that a texture can be exported to.
#[derive(Clone, Copy, Debug, PartialEq, Eq, Structural)]
pub enum ImageFileType {
    Dds,
    Png,
    Tiff,
    Nutexb,
    Bntx,
}

impl Default for ImageFileType {
    fn default() -> (file_type: ImageFileType)
        ensures
            file_type == ImageFileType::Png,
    {
        ImageFileType::Png
    }
}

impl ImageFileType {
    /// The extension of a file of this kind, without the dot.
    pub open spec fn spec_extension(self) -> Seq<char> {
        match self {
            ImageFileType::Dds => "dds"@,
            ImageFileType::Png => "png"@,
            ImageFileType::Tiff => "tiff"@,
            ImageFileType::Nutexb => "nutexb"@,
            ImageFileType::Bntx => "bntx"@,
        }
    }

    /// The extension of a file of this kind, without the dot.
    pub fn extension(&self) -> (extension: &'static str)
        ensures
            extension@ == self.spec_extension(),
    {
        match self {
            ImageFileType::Dds => "dds",
            ImageFileType::Png => "png",
            ImageFileType::Tiff => "tiff",
            ImageFileType::Nutexb => "nutexb",
            ImageFileType::Bntx => "bntx",
        }
    }

    /// The kind of container that files of this kind are.
    pub open spec fn spec_container(self) -> Container {
        match self {
            ImageFileType::Dds => Container::Dds,
            ImageFileType::Png => Container::Image,
            ImageFileType::Tiff => Container::Image,
            ImageFileType::Nutexb => Container::Nutexb,
            ImageFileType::Bntx => Container::Bntx,
        }
    }

    /// The kind of container that files of this kind are.
    pub fn container(&self) -> (container: Container)
        ensures
            container == self.spec_container(),
    {
        match self {
            ImageFileType::Dds => Container::Dds,
            ImageFileType::Png => Container::Image,
            ImageFileType::Tiff => Container::Image,
            ImageFileType::Nutexb => Container::Nutexb,
            ImageFileType::Bntx => Container::Bntx,
        }
    }

    /// Whether files of this kind hold compressed blocks and mip levels, so
    /// that format, quality and mip policy have a say.
    pub open spec fn spec_is_compressed_type(self) -> bool {
        self != ImageFileType::Png && self != ImageFileType::Tiff
    }

    /// An extension holds neither a dot nor a separator.
    pub proof fn lemma_extension_plain(self)
        ensures
            !has_char(self.spec_extension(), '.'),
            !has_char(self.spec_extension(), '/'),
            self.spec_extension().len() > 0,
    {
        reveal_strlit("dds");
        reveal_strlit("png");
        reveal_strlit("tiff");
        reveal_strlit("nutexb");
        reveal_strlit("bntx");
    }
}

/// Whether files of this kind hold compressed blocks and mip levels.
pub fn is_compressed_type(file_type: ImageFileType) -> (compressed: bool)
    ensures
        compressed == file_type.spec_is_compressed_type(),
{
    match file_type {
        ImageFileType::Png => false,
        ImageFileType::Tiff => false,
        _ => true,
    }
}

/// The settings of one loaded file: where it lies, what it holds, and what it
/// is to be exported as.
#[derive(Debug)]
pub struct ImageFileSettings {
    /// The file's name, extension included.
    pub name: String,
    /// The file's path.
    pub path: String,
    /// The pixel format of the file's data.
    pub format: ImageFormat,
    /// Width, height and depth of the file's surface.
    pub dimensions: (u32, u32, u32),
    pub output_file_type: ImageFileType,
    pub output_format: ImageFormat,
    pub output_quality: Quality,
    pub output_mipmaps: Mipmaps,
}

/// The model of an [`ImageFileSettings`].
pub struct ImageFileSettingsView {
    pub name: Seq<char>,
    pub path: Seq<char>,
    pub format: ImageFormat,
    pub dimensions: (u32, u32, u32),
    pub output_file_type: ImageFileType,
    pub output_format: ImageFormat,
    pub output_quality: Quality,
    pub output_mipmaps: Mipmaps,
}

impl View for ImageFileSettings {
    type V = ImageFileSettingsView;

    open spec fn view(&self) -> ImageFileSettingsView {
        ImageFileSettingsView {
            name: self.name@,
            path: self.path@,
            format: self.format,
            dimensions: self.dimensions,
            output_file_type: self.output_file_type,
            output_format: self.output_format,
            output_quality: self.output_quality,
            output_mipmaps: self.output_mipmaps,
        }
    }
}

impl Clone for ImageFileSettings {
    fn clone(&self) -> (copy: ImageFileSettings)
        ensures
            copy@ == self@,
    {
        ImageFileSettings {
            name: self.name.clone(),
            path: self.path.clone(),
            format: self.format,
            dimensions: self.dimensions,
            output_file_type: self.output_file_type,
            output_format: self.output_format,
            output_quality: self.output_quality,
            output_mipmaps: self.output_mipmaps,
        }
    }
}

/// The settings that the file at `path` starts with. It is exported in the
/// format that it already has, so that nothing is lost unless asked for; as a
/// nutexb file, at the fastest quality, with a full mip chain.
pub open spec fn spec_initial_settings(path: Seq<char>, image: ImageFileView) -> ImageFileSettingsView {
    ImageFileSettingsView {
        name: spec_file_name(path),
        path,
        format: image.image_format(),
        dimensions: image.dimensions(),
        output_file_type: ImageFileType::Nutexb,
        output_format: image.image_format(),
        output_quality: Quality::Fast,
        output_mipmaps: Mipmaps::GeneratedAutomatic,
    }
}

impl ImageFileSettings {
    /// The settings that the file at `path`, loaded as `image`, starts with.
    pub fn from_image(path: String, image: &ImageFile) -> (settings: ImageFileSettings)
        ensures
            settings@ == spec_initial_settings(path@, image@),
    {
        let format = image.image_format();
        ImageFileSettings {
            name: file_name(path.as_str()),
            path,
            format,
            dimensions: image.dimensions(),
            output_file_type: ImageFileType::Nutexb,
            output_format: format,
            output_quality: Quality::Fast,
            output_mipmaps: Mipmaps::GeneratedAutomatic,
        }
    }

    /// The file's name without its extension.
    pub fn file_name_no_extension(&self) -> (stem: String)
        ensures
            stem@ == spec_file_stem(spec_file_name(self.path@)),
    {
        file_stem(file_name(self.path.as_str()).as_str())
    }
}

/// Settings that apply to every file. A field that is `None` leaves the
/// matter to each file's own settings.
#[derive(Clone, Debug)]
pub struct FileSettingsOverrides {
    pub output_file_type: Option<ImageFileType>,
    pub output_format: Option<ImageFormat>,
    pub mipmaps: Option<Mipmaps>,
    pub output_quality: Option<Quality>,
}

impl Default for FileSettingsOverrides {
    /// Everything is overridden but the format: each file keeps the format
    /// that it has, so that nothing is lost unless asked for.
    fn default() -> (overrides: FileSettingsOverrides)
        ensures
            overrides.output_file_type == Some(ImageFileType::Png),
            overrides.output_format is None,
            overrides.mipmaps == Some(Mipmaps::GeneratedAutomatic),
            overrides.output_quality == Some(Quality::Fast),
    {
        FileSettingsOverrides {
            output_file_type: Some(ImageFileType::Png),
            output_format: None,
            mipmaps: Some(Mipmaps::GeneratedAutomatic),
            output_quality: Some(Quality::Fast),
        }
    }
}

/// The settings that a file is exported with, overrides applied.
#[derive(Clone, Copy, Debug, PartialEq, Eq, Structural)]
pub struct EffectiveSettings {
    pub file_type: ImageFileType,
    pub format: ImageFormat,
    pub quality: Quality,
    pub mipmaps: Mipmaps,
}

/// One setting resolved: the override where there is one, else the file's own.
pub open spec fn spec_resolve<T>(overridden: Option<T>, own: T) -> T {
    match overridden {
        Some(value) => value,
        None => own,
    }
}

impl FileSettingsOverrides {
    /// The settings that `file` is exported with under these overrides.
    pub open spec fn spec_effective(self, file: ImageFileSettings) -> EffectiveSettings {
        EffectiveSettings {
            file_type: spec_resolve(self.output_file_type, file.output_file_type),
            format: spec_resolve(self.output_format, file.output_format),
            quality: spec_resolve(self.output_quality, file.output_quality),
            mipmaps: spec_resolve(self.mipmaps, file.output_mipmaps),
        }
    }

    /// The settings that `file` is exported with under these overrides. Each
    /// of the four is resolved by itself.
    pub fn effective(&self, file: &ImageFileSettings) -> (effective: EffectiveSettings)
        ensures
            effective == self.spec_effective(*file),
    {
        EffectiveSettings {
            file_type: match self.output_file_type {
                Some(file_type) => file_type,
                None => file.output_file_type,
            },
            format: match self.output_format {
                Some(format) => format,
                None => file.output_format,
            },
            quality: match self.output_quality {
                Some(quality) => quality,
                None => file.output_quality,
            },
            mipmaps: match self.mipmaps {
                Some(mipmaps) => mipmaps,
                None => file.output_mipmaps,
            },
        }
    }

    /// An override that is present wins over whatever the file says, and one
    /// that is absent leaves the file's own setting in place. This holds of
    /// each of the four settings whatever the other three are.
    pub proof fn lemma_precedence(self, file: ImageFileSettings)
        ensures
            self.output_file_type matches Some(file_type) ==> self.spec_effective(file).file_type
                == file_type,
            self.output_file_type is None ==> self.spec_effective(file).file_type
                == file.output_file_type,
            self.output_format matches Some(format) ==> self.spec_effective(file).format == format,
            self.output_format is None ==> self.spec_effective(file).format == file.output_format,
            self.output_quality matches Some(quality) ==> self.spec_effective(file).quality
                == quality,
            self.output_quality is None ==> self.spec_effective(file).quality
                == file.output_quality,
            self.mipmaps matches Some(mipmaps) ==> self.spec_effective(file).mipmaps == mipmaps,
            self.mipmaps is None ==> self.spec_effective(file).mipmaps == file.output_mipmaps,
    {
    }

    /// Changing one override, or one of the file's settings, changes no
    /// effective setting but its own.
    pub proof fn lemma_no_coupling(
        self,
        other: FileSettingsOverrides,
        file: ImageFileSettings,
        other_file: ImageFileSettings,
    )
        ensures
            self.output_file_type == other.output_file_type && file.output_file_type
                == other_file.output_file_type ==> self.spec_effective(file).file_type
                == other.spec_effective(other_file).file_type,
            self.output_format == other.output_format && file.output_format
                == other_file.output_format ==> self.spec_effective(file).format
                == other.spec_effective(other_file).format,
            self.output_quality == other.output_quality && file.output_quality
                == other_file.output_quality ==> self.spec_effective(file).quality
                == other.spec_effective(other_file).quality,
            self.mipmaps == other.mipmaps && file.output_mipmaps == other_file.output_mipmaps
                ==> self.spec_effective(file).mipmaps == other.spec_effective(other_file).mipmaps,
    {
    }
}

/// The settings of a session: where exports go, the overrides, and the files.
#[derive(Clone, Debug)]
pub struct AppSettings {
    /// The one directory that exports go to, where one is chosen.
    pub output_folder: Option<String>,
    /// Whether each export goes beside its source instead.
    pub save_in_same_folder: bool,
    pub overrides: FileSettingsOverrides,
    pub file_settings: Vec<ImageFileSettings>,
}

impl Default for AppSettings {
    fn default() -> (settings: AppSettings)
        ensures
            settings.output_folder is None,
            !settings.save_in_same_folder,
            settings.file_settings@.len() == 0,
            settings.overrides.output_file_type == Some(ImageFileType::Png),
            settings.overrides.output_format is None,
            settings.overrides.mipmaps == Some(Mipmaps::GeneratedAutomatic),
            settings.overrides.output_quality == Some(Quality::Fast),
    {
        AppSettings {
            output_folder: None,
            save_in_same_folder: false,
            overrides: FileSettingsOverrides::default(),
            file_settings: Vec::new(),
        }
    }
}

/// Where the export of the file at `source` goes: into `folder`, under the
/// source's name with its extension replaced by `extension`.
pub open spec fn spec_output_path(
    folder: Seq<char>,
    source: Seq<char>,
    extension: Seq<char>,
) -> Seq<char> {
    spec_join(folder, spec_file_stem(spec_file_name(source)) + seq!['.'] + extension)
}

/// Where the export of `file` as a file of kind `file_type` goes in `folder`.
pub fn output_path(folder: &str, file: &ImageFileSettings, file_type: ImageFileType) -> (path:
    String)
    ensures
        path@ == spec_output_path(folder@, file.path@, file_type.spec_extension()),
{
    proof {
        reveal_strlit(".");
    }
    let name = file.file_name_no_extension().concat(".").concat(file_type.extension());
    join(folder, name.as_str())
}

proof fn lemma_no_char_last_index(s: Seq<char>, c: char)
    requires
        !has_char(s, c),
    ensures
        last_index_of(s, c) == -1,
{
    lemma_last_index_of(s, c);
}

/// The name of a file is free of separators.
pub proof fn lemma_file_name_plain(path: Seq<char>)
    ensures
        !has_char(spec_file_name(path), '/'),
{
    lemma_last_index_of(path, '/');
}

/// The stem of a name that is free of separators is free of them too.
pub proof fn lemma_file_stem_plain(name: Seq<char>)
    requires
        !has_char(name, '/'),
    ensures
        !has_char(spec_file_stem(name), '/'),
{
    lemma_last_index_of(name, '.');
}

/// A name that is free of separators, placed in a folder, is the name of the
/// path that results.
pub proof fn lemma_join_file_name(folder: Seq<char>, name: Seq<char>)
    requires
        !has_char(name, '/'),
    ensures
        spec_file_name(spec_join(folder, name)) == name,
{
    let path = spec_join(folder, name);
    if folder.len() == 0 {
        lemma_no_char_last_index(name, '/');
    } else {
        let at = path.len() - name.len() - 1;
        lemma_last_index_of_is(path, '/', at);
    }
}

/// A stem that is not empty, followed by a dot and an extension that holds no
/// dot, is the stem of the name that results.
pub proof fn lemma_stem_of_named(stem: Seq<char>, extension: Seq<char>)
    requires
        stem.len() > 0,
        !has_char(extension, '.'),
    ensures
        spec_file_stem(stem + seq!['.'] + extension) == stem,
{
    let name = stem + seq!['.'] + extension;
    let at = stem.len() as int;
    lemma_last_index_of_is(name, '.', at);
}

/// An export is named after its source: whatever the folder, the source's
/// extension and the kind of file exported, the export's name without its
/// extension is the source's name without its extension. A source without a
/// name has no name to keep.
pub proof fn lemma_output_named_after_source(
    folder: Seq<char>,
    source: Seq<char>,
    file_type: ImageFileType,
)
    requires
        spec_file_stem(spec_file_name(source)).len() > 0,
    ensures
        spec_file_stem(
            spec_file_name(spec_output_path(folder, source, file_type.spec_extension())),
        ) == spec_file_stem(spec_file_name(source)),
{
    let stem = spec_file_stem(spec_file_name(source));
    let extension = file_type.spec_extension();
    let name = stem + seq!['.'] + extension;
    file_type.lemma_extension_plain();
    lemma_file_name_plain(source);
    lemma_file_stem_plain(spec_file_name(source));
    lemma_join_file_name(folder, name);
    lemma_stem_of_named(stem, extension);
}

} // verus!
