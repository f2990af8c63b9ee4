//! A session: the loaded files with their settings, and the export of all of
//! them at once. One file's failure costs that file only; the report says how
//! many came through and what went wrong with the others.

use crate::codec::{
    nutexb_footer_of, nutexb_optimized_of, read_nutexb_footer, spec_nutexb_in_limits,
    within_limits,
};
use crate::error::{Error, ErrorView};
use crate::formats::{Mipmaps, Quality};
use crate::image_file::{image_file_result_view, ImageFile, ImageFileView, Output, OutputView};
use crate::paths::{parent, spec_file_name, spec_parent};
use crate::settings::{
    output_path, spec_initial_settings, spec_output_path, AppSettings, FileSettingsOverrides,
    ImageFileSettings, ImageFileSettingsView, ImageFileType,
};
use crate::text::{decimal, spec_decimal, str_eq};
use vstd::prelude::*;
use vstd::string::*;

verus! {

/// What one export comes to: where the file goes and what goes into it, or why
/// there is none.
pub open spec fn saved_view(saved: Result<(String, Output), Error>) -> Result<
    (Seq<char>, OutputView),
    ErrorView,
> {
    match saved {
        Ok(file) => Ok((file.0@, file.1@)),
        Err(e) => Err(e@),
    }
}

/// What an export comes to when `written` is what goes into the file at
/// `path`.
pub open spec fn spec_saved_at(path: Seq<char>, written: Result<OutputView, ErrorView>) -> Result<
    (Seq<char>, OutputView),
    ErrorView,
> {
    match written {
        Ok(output) => Ok((path, output)),
        Err(e) => Err(e),
    }
}

/// Whether `saved` is what exporting `image`, the file of `file`, into
/// `folder` comes to under `overrides`. The kind of file is the effective one;
/// its extension names the export, and it decides what is written.
pub open spec fn spec_saved(
    folder: Seq<char>,
    file: ImageFileSettings,
    image: ImageFileView,
    overrides: FileSettingsOverrides,
    saved: Result<(Seq<char>, OutputView), ErrorView>,
) -> bool {
    let effective = overrides.spec_effective(file);
    let path = spec_output_path(folder, file.path@, effective.file_type.spec_extension());
    exists|written: Result<OutputView, ErrorView>| #[trigger]
        image.written_as(
            effective.file_type.spec_container(),
            path,
            effective.format,
            effective.quality,
            effective.mipmaps,
            written,
        ) && saved == spec_saved_at(path, written)
}

/// Exports `image_file`, the file of `file`, into `output_folder`: resolves
/// the settings, names the export after its source, and converts to the kind
/// of file asked for.
pub fn convert_and_save_file(
    output_folder: &str,
    file: &ImageFileSettings,
    image_file: &ImageFile,
    overrides: &FileSettingsOverrides,
) -> (saved: Result<(String, Output), Error>)
    ensures
        spec_saved(output_folder@, *file, image_file@, *overrides, saved_view(saved)),
{
    let effective = overrides.effective(file);
    let output = output_path(output_folder, file, effective.file_type);
    let written = image_file.save_as(
        effective.file_type.container(),
        output.as_str(),
        effective.format,
        effective.quality,
        effective.mipmaps,
    );
    match written {
        Ok(contents) => Ok((output, contents)),
        Err(e) => Err(e),
    }
}

/// An export to a raster file is the same whatever format, quality and mip
/// policy the settings and the overrides ask for: they are never looked at.
pub proof fn lemma_raster_ignores_settings(
    folder: Seq<char>,
    file: ImageFileSettings,
    other_file: ImageFileSettings,
    image: ImageFileView,
    overrides: FileSettingsOverrides,
    other_overrides: FileSettingsOverrides,
    saved: Result<(Seq<char>, OutputView), ErrorView>,
    other_saved: Result<(Seq<char>, OutputView), ErrorView>,
)
    requires
        file.path@ == other_file.path@,
        !overrides.spec_effective(file).file_type.spec_is_compressed_type(),
        overrides.spec_effective(file).file_type == other_overrides.spec_effective(
            other_file,
        ).file_type,
        spec_saved(folder, file, image, overrides, saved),
        spec_saved(folder, other_file, image, other_overrides, other_saved),
    ensures
        saved == other_saved,
        saved matches Ok(written) ==> written.1 is File,
{
}

/// What exporting one file of a batch came to.
pub enum Exported {
    /// The file was converted: the path of the export, and what goes into it.
    Converted { path: String, output: Output },
    /// There was nowhere to export to. This counts as a failure, without a
    /// message.
    Skipped,
    /// The file could not be read or converted. The message says why.
    Failed(String),
}

/// The model of an [`Exported`].
pub enum ExportedView {
    Converted { path: Seq<char>, output: OutputView },
    Skipped,
    Failed(Seq<char>),
}

impl View for Exported {
    type V = ExportedView;

    open spec fn view(&self) -> ExportedView {
        match self {
            Exported::Converted { path, output } => ExportedView::Converted {
                path: path@,
                output: output@,
            },
            Exported::Skipped => ExportedView::Skipped,
            Exported::Failed(message) => ExportedView::Failed(message@),
        }
    }
}

/// The line that reports a failed file.
pub open spec fn spec_failure_message(name: Seq<char>, reason: Seq<char>) -> Seq<char> {
    "Error converting "@ + name + ": "@ + reason
}

/// The folder that a file's export goes to: the folder of the file itself
/// where exports go beside their sources, else the one folder chosen for all.
pub open spec fn spec_export_folder(settings: AppSettings, file: ImageFileSettings) -> Option<
    Seq<char>,
> {
    if settings.save_in_same_folder {
        spec_parent(file.path@)
    } else {
        match settings.output_folder {
            Some(folder) => Some(folder@),
            None => None,
        }
    }
}

/// The model of a file that was read, or of why it was not.
pub open spec fn source_view(source: Result<ImageFile, Error>) -> Result<ImageFileView, ErrorView> {
    image_file_result_view(source)
}

/// What a finished export stands for in its batch: the file to write, or the
/// line that reports the failure of the file called `name`.
pub open spec fn spec_outcome(
    name: Seq<char>,
    saved: Result<(Seq<char>, OutputView), ErrorView>,
) -> ExportedView {
    match saved {
        Ok(written) => ExportedView::Converted { path: written.0, output: written.1 },
        Err(e) => ExportedView::Failed(spec_failure_message(name, e.message())),
    }
}

/// Whether `exported` is what exporting one file of a batch into `folder`
/// comes to. A file that could not be read fails with the reader's reason, one
/// that could not be converted with the converter's.
pub open spec fn spec_exported_into(
    folder: Seq<char>,
    file: ImageFileSettings,
    source: Result<ImageFileView, ErrorView>,
    overrides: FileSettingsOverrides,
    exported: ExportedView,
) -> bool {
    match source {
        Err(e) => exported == spec_outcome(file.name@, Err(e)),
        Ok(image) => exists|saved: Result<(Seq<char>, OutputView), ErrorView>|
            #![trigger spec_saved(folder, file, image, overrides, saved)]
            spec_saved(folder, file, image, overrides, saved) && exported == spec_outcome(
                file.name@,
                saved,
            ),
    }
}

/// Whether `exported` is what exporting one file of a batch comes to. Without
/// a folder to export to, the file is skipped.
pub open spec fn spec_exported(
    settings: AppSettings,
    file: ImageFileSettings,
    source: Result<ImageFileView, ErrorView>,
    exported: ExportedView,
) -> bool {
    match spec_export_folder(settings, file) {
        None => exported == ExportedView::Skipped,
        Some(folder) => spec_exported_into(folder, file, source, settings.overrides, exported),
    }
}

fn failure_message(name: &str, error: &Error) -> (message: String)
    ensures
        message@ == spec_failure_message(name@, error@.message()),
{
    String::from_str("Error converting ").concat(name).concat(": ").concat(
        error.message().as_str(),
    )
}

/// Exports one file of a batch. `source` is the file as read, or why it could
/// not be read. Nothing that goes wrong here reaches any other file.
pub fn export_file(
    settings: &AppSettings,
    file: &ImageFileSettings,
    source: &Result<ImageFile, Error>,
) -> (exported: Exported)
    ensures
        spec_exported(*settings, *file, source_view(*source), exported@),
{
    let folder = if settings.save_in_same_folder {
        parent(file.path.as_str())
    } else {
        match &settings.output_folder {
            Some(folder) => Some(folder.clone()),
            None => None,
        }
    };
    let folder = match folder {
        Some(folder) => folder,
        None => {
            return Exported::Skipped;
        },
    };
    match source {
        Err(e) => Exported::Failed(failure_message(file.name.as_str(), e)),
        Ok(image) => {
            match convert_and_save_file(folder.as_str(), file, image, &settings.overrides) {
                Ok((path, output)) => Exported::Converted { path, output },
                Err(e) => Exported::Failed(failure_message(file.name.as_str(), &e)),
            }
        },
    }
}

/// What an export stands for once its file was written, or could not be
/// written for the reason given. A file that could not be written has failed
/// like one that could not be converted; anything else stays as it is.
pub open spec fn spec_after_write(
    exported: ExportedView,
    name: Seq<char>,
    written: Result<(), ErrorView>,
) -> ExportedView {
    match (exported, written) {
        (ExportedView::Converted { .. }, Err(e)) => ExportedView::Failed(
            spec_failure_message(name, e.message()),
        ),
        _ => exported,
    }
}

/// The model of what writing a file came to.
pub open spec fn written_view(written: Result<(), Error>) -> Result<(), ErrorView> {
    match written {
        Ok(()) => Ok(()),
        Err(e) => Err(e@),
    }
}

/// Takes note of what writing the export of `file` came to.
pub fn after_write(exported: Exported, file: &ImageFileSettings, written: Result<(), Error>) -> (noted:
    Exported)
    ensures
        noted@ == spec_after_write(exported@, file.name@, written_view(written)),
{
    match exported {
        Exported::Converted { path, output } => match written {
            Ok(()) => Exported::Converted { path, output },
            Err(e) => Exported::Failed(failure_message(file.name.as_str(), &e)),
        },
        Exported::Skipped => Exported::Skipped,
        Exported::Failed(message) => Exported::Failed(message),
    }
}

/// How many files of a batch were converted.
pub open spec fn spec_converted_count(outcomes: Seq<ExportedView>) -> nat
    decreases outcomes.len(),
{
    if outcomes.len() == 0 {
        0
    } else {
        spec_converted_count(outcomes.drop_last()) + (if outcomes.last() is Converted {
            1nat
        } else {
            0nat
        })
    }
}

/// How many files of a batch failed with a message.
pub open spec fn spec_failed_count(outcomes: Seq<ExportedView>) -> nat
    decreases outcomes.len(),
{
    if outcomes.len() == 0 {
        0
    } else {
        spec_failed_count(outcomes.drop_last()) + (if outcomes.last() is Failed {
            1nat
        } else {
            0nat
        })
    }
}

/// How many files of a batch were skipped for want of a folder.
pub open spec fn spec_skipped_count(outcomes: Seq<ExportedView>) -> nat
    decreases outcomes.len(),
{
    if outcomes.len() == 0 {
        0
    } else {
        spec_skipped_count(outcomes.drop_last()) + (if outcomes.last() is Skipped {
            1nat
        } else {
            0nat
        })
    }
}

/// The messages of the files that failed, in the order of the files.
pub open spec fn spec_failure_messages(outcomes: Seq<ExportedView>) -> Seq<Seq<char>>
    decreases outcomes.len(),
{
    if outcomes.len() == 0 {
        Seq::empty()
    } else {
        let before = spec_failure_messages(outcomes.drop_last());
        match outcomes.last() {
            ExportedView::Failed(message) => before.push(message),
            _ => before,
        }
    }
}

/// The exports of the files that were converted, in the order of the files.
pub open spec fn spec_outputs(outcomes: Seq<ExportedView>) -> Seq<(Seq<char>, OutputView)>
    decreases outcomes.len(),
{
    if outcomes.len() == 0 {
        Seq::empty()
    } else {
        let before = spec_outputs(outcomes.drop_last());
        match outcomes.last() {
            ExportedView::Converted { path, output } => before.push((path, output)),
            _ => before,
        }
    }
}

/// The first line of a report.
pub open spec fn spec_summary(converted: nat, total: nat) -> Seq<char> {
    "Successfully converted "@ + spec_decimal(converted) + " of "@ + spec_decimal(total)
        + " file(s)"@
}

/// The lines of a batch's report: the summary first, then one line for each
/// file that failed with a message.
pub open spec fn spec_messages(outcomes: Seq<ExportedView>) -> Seq<Seq<char>> {
    seq![spec_summary(spec_converted_count(outcomes), outcomes.len())] + spec_failure_messages(
        outcomes,
    )
}

/// What a batch came to.
pub struct ExportReport {
    /// The summary, then the failures.
    pub messages: Vec<String>,
    /// The files to write: path and contents.
    pub outputs: Vec<(String, Output)>,
}

/// The model of a list of texts.
pub open spec fn texts(list: Seq<String>) -> Seq<Seq<char>> {
    Seq::new(list.len(), |i: int| list[i]@)
}

/// The model of a list of exports.
pub open spec fn output_views(list: Seq<(String, Output)>) -> Seq<(Seq<char>, OutputView)> {
    Seq::new(list.len(), |i: int| (list[i].0@, list[i].1@))
}

/// The model of a list of outcomes.
pub open spec fn exported_views(list: Seq<Exported>) -> Seq<ExportedView> {
    Seq::new(list.len(), |i: int| list[i]@)
}

/// Gathers the outcomes of a batch into its report, once every file is done.
pub fn summarize(outcomes: Vec<Exported>) -> (report: ExportReport)
    ensures
        texts(report.messages@) == spec_messages(exported_views(outcomes@)),
        output_views(report.outputs@) == spec_outputs(exported_views(outcomes@)),
{
    let ghost all = exported_views(outcomes@);
    let total = outcomes.len();
    let mut failures: Vec<String> = Vec::new();
    let mut outputs: Vec<(String, Output)> = Vec::new();
    for outcome in iter: outcomes
        invariant
            all == exported_views(iter.seq()),
            texts(failures@) == spec_failure_messages(all.take(iter.index())),
            output_views(outputs@) == spec_outputs(all.take(iter.index())),
            outputs@.len() == spec_converted_count(all.take(iter.index())),
            outputs@.len() <= iter.index(),
    {
        let ghost done = all.take(iter.index());
        let ghost next = all.take(iter.index() + 1);
        assert(next.drop_last() =~= done);
        match outcome {
            Exported::Converted { path, output } => {
                outputs.push((path, output));
            },
            Exported::Skipped => {},
            Exported::Failed(message) => {
                failures.push(message);
            },
        }
    }
    assert(all.take(all.len() as int) =~= all);
    let summary = String::from_str("Successfully converted ").concat(
        decimal(outputs.len()).as_str(),
    ).concat(" of ").concat(decimal(total).as_str()).concat(" file(s)");
    let mut messages: Vec<String> = Vec::new();
    messages.push(summary);
    messages.append(&mut failures);
    ExportReport { messages, outputs }
}

/// The counts of a batch add up, and the report has a line for the summary
/// and one for each file that failed with a message, and an export for each
/// file that was converted.
pub proof fn lemma_report_counts(outcomes: Seq<ExportedView>)
    ensures
        spec_converted_count(outcomes) + spec_failed_count(outcomes) + spec_skipped_count(outcomes)
            == outcomes.len(),
        spec_failure_messages(outcomes).len() == spec_failed_count(outcomes),
        spec_outputs(outcomes).len() == spec_converted_count(outcomes),
        spec_messages(outcomes).len() == 1 + spec_failed_count(outcomes),
        spec_messages(outcomes)[0] == spec_summary(spec_converted_count(outcomes), outcomes.len()),
    decreases outcomes.len(),
{
    if outcomes.len() > 0 {
        lemma_report_counts(outcomes.drop_last());
    }
}

/// Failures stay apart: where every file of a batch has a folder to go to
/// and `failed` of them fail, the report holds the summary, which counts the
/// others as converted, and `failed` more lines, and there is one export for
/// each of the others.
pub proof fn lemma_failure_isolation(outcomes: Seq<ExportedView>, failed: nat)
    requires
        spec_skipped_count(outcomes) == 0,
        spec_failed_count(outcomes) == failed,
    ensures
        failed <= outcomes.len(),
        spec_messages(outcomes).len() == 1 + failed,
        spec_messages(outcomes)[0] == spec_summary(
            (outcomes.len() - failed) as nat,
            outcomes.len(),
        ),
        spec_outputs(outcomes).len() == outcomes.len() - failed,
{
    lemma_report_counts(outcomes);
}

/// A session: the settings, and one preview for each loaded file.
pub struct App {
    pub settings: AppSettings,
    /// A preview of each file, in the order of `settings.file_settings`.
    pub png_thumbnails: Vec<String>,
}

/// The model of a list of files as read.
pub open spec fn source_views(list: Seq<Result<ImageFile, Error>>) -> Seq<
    Result<ImageFileView, ErrorView>,
> {
    Seq::new(list.len(), |i: int| source_view(list[i]))
}

/// Whether `outcomes` is what exporting each file of a session comes to, one
/// by one.
pub open spec fn spec_all_exported(
    settings: AppSettings,
    sources: Seq<Result<ImageFileView, ErrorView>>,
    outcomes: Seq<ExportedView>,
) -> bool {
    &&& outcomes.len() == settings.file_settings@.len()
    &&& forall|i: int|
        0 <= i < outcomes.len() ==> #[trigger] spec_exported(
            settings,
            settings.file_settings@[i],
            sources[i],
            outcomes[i],
        )
}

impl App {
    /// Whether each file has its preview.
    pub open spec fn well_formed(self) -> bool {
        self.png_thumbnails@.len() == self.settings.file_settings@.len()
    }

    /// A session without files: no file and no preview, no folder chosen for
    /// the exports and none beside the sources, and the overrides that a
    /// session starts with.
    pub fn new() -> (app: App)
        ensures
            app.well_formed(),
            app.settings.file_settings@.len() == 0,
            app.png_thumbnails@.len() == 0,
            app.settings.output_folder is None,
            !app.settings.save_in_same_folder,
            app.settings.overrides.output_file_type == Some(ImageFileType::Png),
            app.settings.overrides.output_format is None,
            app.settings.overrides.mipmaps == Some(Mipmaps::GeneratedAutomatic),
            app.settings.overrides.output_quality == Some(Quality::Fast),
    {
        App { settings: AppSettings::default(), png_thumbnails: Vec::new() }
    }

    /// Takes the file at `index` out of the session, and its preview with it.
    pub fn remove_file(&mut self, index: usize)
        requires
            index < old(self).settings.file_settings@.len(),
            index < old(self).png_thumbnails@.len(),
        ensures
            final(self).settings.file_settings@ == old(self).settings.file_settings@.remove(
                index as int,
            ),
            final(self).png_thumbnails@ == old(self).png_thumbnails@.remove(index as int),
            final(self).settings.output_folder == old(self).settings.output_folder,
            final(self).settings.save_in_same_folder == old(self).settings.save_in_same_folder,
            final(self).settings.overrides == old(self).settings.overrides,
            old(self).well_formed() ==> final(self).well_formed(),
    {
        self.settings.file_settings.remove(index);
        self.png_thumbnails.remove(index);
    }

    /// Takes every file out of the session.
    pub fn clear_files(&mut self)
        ensures
            final(self).settings.file_settings@.len() == 0,
            final(self).png_thumbnails@.len() == 0,
            final(self).settings.output_folder == old(self).settings.output_folder,
            final(self).settings.save_in_same_folder == old(self).settings.save_in_same_folder,
            final(self).settings.overrides == old(self).settings.overrides,
            final(self).well_formed(),
    {
        self.settings.file_settings = Vec::new();
        self.png_thumbnails = Vec::new();
    }

    /// Exports every file of the session. `sources` holds, for each file in
    /// order, the file as read or why it could not be read. The files are
    /// taken one by one; the report is made when all are done.
    pub fn convert_and_export_files(&self, sources: &Vec<Result<ImageFile, Error>>) -> (report:
        ExportReport)
        requires
            sources@.len() == self.settings.file_settings@.len(),
        ensures
            exists|outcomes: Seq<ExportedView>| #[trigger]
                spec_all_exported(self.settings, source_views(sources@), outcomes) && texts(
                    report.messages@,
                ) == spec_messages(outcomes) && output_views(report.outputs@) == spec_outputs(
                    outcomes,
                ),
    {
        let mut outcomes: Vec<Exported> = Vec::new();
        let mut i: usize = 0;
        while i < self.settings.file_settings.len()
            invariant
                i <= self.settings.file_settings@.len(),
                sources@.len() == self.settings.file_settings@.len(),
                outcomes@.len() == i,
                forall|k: int|
                    0 <= k < i ==> #[trigger] spec_exported(
                        self.settings,
                        self.settings.file_settings@[k],
                        source_views(sources@)[k],
                        exported_views(outcomes@)[k],
                    ),
            decreases self.settings.file_settings@.len() - i,
        {
            let exported = export_file(&self.settings, &self.settings.file_settings[i], &sources[i]);
            let ghost before = outcomes@;
            outcomes.push(exported);
            assert forall|k: int| 0 <= k < i + 1 implies #[trigger] spec_exported(
                self.settings,
                self.settings.file_settings@[k],
                source_views(sources@)[k],
                exported_views(outcomes@)[k],
            ) by {
                if k < i {
                    assert(exported_views(outcomes@)[k] == exported_views(before)[k]);
                }
            }
            i = i + 1;
        }
        let ghost witness = exported_views(outcomes@);
        let report = summarize(outcomes);
        assert(spec_all_exported(self.settings, source_views(sources@), witness));
        report
    }
}

/// The model of a list of settings.
pub open spec fn settings_views(list: Seq<ImageFileSettings>) -> Seq<ImageFileSettingsView> {
    Seq::new(list.len(), |i: int| list[i]@)
}

/// The model of a list of loaded textures.
pub open spec fn image_file_views(list: Seq<ImageFile>) -> Seq<ImageFileView> {
    Seq::new(list.len(), |i: int| list[i]@)
}

/// The model of a list of files as read, each with its path.
pub open spec fn read_views(list: Seq<(String, Result<ImageFile, Error>)>) -> Seq<
    (Seq<char>, Result<ImageFileView, ErrorView>),
> {
    Seq::new(list.len(), |i: int| (list[i].0@, source_view(list[i].1)))
}

/// The textures among files as read, in the order of the files. A file that
/// could not be read is left out.
pub open spec fn spec_loaded_images(
    files: Seq<(Seq<char>, Result<ImageFileView, ErrorView>)>,
) -> Seq<ImageFileView>
    decreases files.len(),
{
    if files.len() == 0 {
        Seq::empty()
    } else {
        let before = spec_loaded_images(files.drop_last());
        match files.last().1 {
            Ok(image) => before.push(image),
            Err(_) => before,
        }
    }
}

/// The settings that the files that could be read start with, in the order of
/// the files.
pub open spec fn spec_loaded_settings(
    files: Seq<(Seq<char>, Result<ImageFileView, ErrorView>)>,
) -> Seq<ImageFileSettingsView>
    decreases files.len(),
{
    if files.len() == 0 {
        Seq::empty()
    } else {
        let before = spec_loaded_settings(files.drop_last());
        match files.last().1 {
            Ok(image) => before.push(spec_initial_settings(files.last().0, image)),
            Err(_) => before,
        }
    }
}

/// Takes files as read, each with its path, into a session's lists: the
/// textures, and for each its first settings. A file that could not be read is
/// left out of both.
pub fn load_files(files: Vec<(String, Result<ImageFile, Error>)>) -> (loaded: (
    Vec<ImageFile>,
    Vec<ImageFileSettings>,
))
    ensures
        image_file_views(loaded.0@) == spec_loaded_images(read_views(files@)),
        settings_views(loaded.1@) == spec_loaded_settings(read_views(files@)),
        loaded.0@.len() == loaded.1@.len(),
{
    let ghost all = read_views(files@);
    let mut images: Vec<ImageFile> = Vec::new();
    let mut settings: Vec<ImageFileSettings> = Vec::new();
    for file in iter: files
        invariant
            all == read_views(iter.seq()),
            image_file_views(images@) == spec_loaded_images(all.take(iter.index())),
            settings_views(settings@) == spec_loaded_settings(all.take(iter.index())),
            images@.len() == settings@.len(),
    {
        let ghost done = all.take(iter.index());
        let ghost next = all.take(iter.index() + 1);
        assert(next.drop_last() =~= done);
        let (path, source) = file;
        match source {
            Ok(image) => {
                settings.push(ImageFileSettings::from_image(path, &image));
                images.push(image);
            },
            Err(_) => {},
        }
    }
    assert(all.take(all.len() as int) =~= all);
    (images, settings)
}

/// The entries of a session after the first `count` of the new ones were
/// offered to it, each a preview with its settings. An entry is taken unless
/// the session already has a file of its name, be it from before or from
/// among the new ones.
pub open spec fn spec_added(
    entries: Seq<(Seq<char>, ImageFileSettingsView)>,
    new_entries: Seq<(Seq<char>, ImageFileSettingsView)>,
    count: nat,
) -> Seq<(Seq<char>, ImageFileSettingsView)>
    decreases count,
{
    if count == 0 {
        entries
    } else {
        let before = spec_added(entries, new_entries, (count - 1) as nat);
        let entry = new_entries[count - 1];
        if exists|i: int| 0 <= i < before.len() && before[i].1.name == entry.1.name {
            before
        } else {
            before.push(entry)
        }
    }
}

/// The entries of a session: each preview with its settings.
pub open spec fn spec_entries(thumbnails: Seq<String>, settings: Seq<ImageFileSettings>) -> Seq<
    (Seq<char>, ImageFileSettingsView),
> {
    Seq::new(settings.len(), |i: int| (thumbnails[i]@, settings[i]@))
}

/// The smaller of two lengths.
pub open spec fn spec_min(a: nat, b: nat) -> nat {
    if a <= b {
        a
    } else {
        b
    }
}

fn has_name(settings: &Vec<ImageFileSettings>, name: &str) -> (found: bool)
    ensures
        found == exists|i: int| 0 <= i < settings@.len() && settings@[i]@.name == name@,
{
    let mut i: usize = 0;
    while i < settings.len()
        invariant
            i <= settings@.len(),
            forall|k: int| 0 <= k < i ==> settings@[k]@.name != name@,
        decreases settings@.len() - i,
    {
        if str_eq(settings[i].name.as_str(), name) {
            return true;
        }
        i = i + 1;
    }
    false
}

impl App {
    /// Adds files to the session, each as a preview with its settings, in
    /// order. A file whose name the session already has is not added again.
    pub fn add_files(&mut self, new_thumbnails: Vec<String>, new_settings: Vec<ImageFileSettings>)
        requires
            old(self).well_formed(),
        ensures
            final(self).well_formed(),
            spec_entries(final(self).png_thumbnails@, final(self).settings.file_settings@)
                == spec_added(
                spec_entries(old(self).png_thumbnails@, old(self).settings.file_settings@),
                spec_entries(new_thumbnails@, new_settings@),
                spec_min(new_thumbnails@.len(), new_settings@.len()),
            ),
            final(self).settings.output_folder == old(self).settings.output_folder,
            final(self).settings.save_in_same_folder == old(self).settings.save_in_same_folder,
            final(self).settings.overrides == old(self).settings.overrides,
    {
        let count = if new_thumbnails.len() <= new_settings.len() {
            new_thumbnails.len()
        } else {
            new_settings.len()
        };
        let ghost entries = spec_entries(self.png_thumbnails@, self.settings.file_settings@);
        let ghost new_entries = spec_entries(new_thumbnails@, new_settings@);
        let mut i: usize = 0;
        while i < count
            invariant
                i <= count,
                count <= new_thumbnails@.len(),
                count <= new_settings@.len(),
                new_entries == spec_entries(new_thumbnails@, new_settings@),
                self.well_formed(),
                spec_entries(self.png_thumbnails@, self.settings.file_settings@) == spec_added(
                    entries,
                    new_entries,
                    i as nat,
                ),
                self.settings.output_folder == old(self).settings.output_folder,
                self.settings.save_in_same_folder == old(self).settings.save_in_same_folder,
                self.settings.overrides == old(self).settings.overrides,
            decreases count - i,
        {
            let ghost before = spec_entries(self.png_thumbnails@, self.settings.file_settings@);
            let found = has_name(&self.settings.file_settings, new_settings[i].name.as_str());
            assert(found == exists|k: int|
                0 <= k < before.len() && before[k].1.name == new_entries[i as int].1.name) by {
                if found {
                    let k = choose|k: int|
                        0 <= k < self.settings.file_settings@.len()
                            && self.settings.file_settings@[k]@.name == new_settings@[i as int].name@;
                    assert(before[k].1.name == new_entries[i as int].1.name);
                }
            }
            if !found {
                let thumbnail = new_thumbnails[i].clone();
                let settings = new_settings[i].clone();
                self.png_thumbnails.push(thumbnail);
                self.settings.file_settings.push(settings);
            }
            i = i + 1;
        }
    }
}

/// Whether `text` ends in `ending`.
pub open spec fn spec_ends_with(text: Seq<char>, ending: Seq<char>) -> bool {
    text.len() >= ending.len() && text.subrange(text.len() - ending.len(), text.len() as int)
        == ending
}

/// Whether `text` ends in `ending`.
pub fn ends_with(text: &str, ending: &str) -> (ends: bool)
    ensures
        ends == spec_ends_with(text@, ending@),
{
    let n = text.unicode_len();
    let m = ending.unicode_len();
    if n < m {
        return false;
    }
    str_eq(text.substring_char(n - m, n), ending)
}

/// What optimizing a nutexb file comes to: the file with its image data cut
/// or padded to the size that its footer implies. `None` for bytes that do
/// not read as a nutexb file, whose footer is beyond the codecs' limits, or
/// that the codec refuses.
pub open spec fn spec_optimized(bytes: Seq<u8>) -> Option<Seq<u8>> {
    match nutexb_footer_of(bytes) {
        Err(_) => None,
        Ok(f) => if spec_nutexb_in_limits(bytes, f.5) {
            match nutexb_optimized_of(bytes) {
                Ok(optimized) => Some(optimized),
                Err(_) => None,
            }
        } else {
            None
        },
    }
}

/// Brings the image data of a nutexb file to the size that its footer
/// implies, without padding.
pub fn optimize_nutexb(bytes: &Vec<u8>) -> (optimized: Option<Vec<u8>>)
    ensures
        match optimized {
            Some(file) => spec_optimized(bytes@) == Some(file@),
            None => spec_optimized(bytes@) is None,
        },
{
    let footer = match read_nutexb_footer(bytes.as_slice()) {
        Ok(footer) => footer,
        Err(_) => {
            return None;
        },
    };
    let layers = if footer.6 == 0 {
        1
    } else {
        footer.6
    };
    if !within_limits(footer.1, footer.2, footer.3, layers, footer.5) {
        return None;
    }
    match crate::codec::optimize_nutexb(bytes.as_slice()) {
        Ok(file) => Some(file),
        Err(_) => None,
    }
}

/// Whether the file at `path` is one to optimize: its name ends in `.nutexb`.
pub open spec fn spec_is_nutexb_path(path: Seq<char>) -> bool {
    spec_ends_with(spec_file_name(path), ".nutexb"@)
}

/// The files to write back after optimizing: each nutexb file among `files`
/// that could be optimized, under its own path, in the order of the files.
pub open spec fn spec_optimized_files(files: Seq<(Seq<char>, Seq<u8>)>) -> Seq<
    (Seq<char>, Seq<u8>),
>
    decreases files.len(),
{
    if files.len() == 0 {
        Seq::empty()
    } else {
        let before = spec_optimized_files(files.drop_last());
        let file = files.last();
        if spec_is_nutexb_path(file.0) && spec_optimized(file.1) is Some {
            before.push((file.0, spec_optimized(file.1).unwrap()))
        } else {
            before
        }
    }
}

/// The model of a list of files, each a path with its bytes.
pub open spec fn file_views(list: Seq<(String, Vec<u8>)>) -> Seq<(Seq<char>, Seq<u8>)> {
    Seq::new(list.len(), |i: int| (list[i].0@, list[i].1@))
}

/// Optimizes every nutexb file among `files`, each a path with its bytes, and
/// hands back what to write where. A file that cannot be optimized is passed
/// over without a word.
pub fn optimize_nutexb_files(files: &Vec<(String, Vec<u8>)>) -> (optimized: Vec<(String, Vec<u8>)>)
    ensures
        file_views(optimized@) == spec_optimized_files(file_views(files@)),
{
    let ghost all = file_views(files@);
    let mut optimized: Vec<(String, Vec<u8>)> = Vec::new();
    let mut i: usize = 0;
    while i < files.len()
        invariant
            i <= files@.len(),
            all == file_views(files@),
            file_views(optimized@) == spec_optimized_files(all.take(i as int)),
        decreases files@.len() - i,
    {
        let ghost done = all.take(i as int);
        let ghost next = all.take(i + 1);
        assert(next.drop_last() =~= done);
        let name = crate::paths::file_name(files[i].0.as_str());
        if ends_with(name.as_str(), ".nutexb") {
            match optimize_nutexb(&files[i].1) {
                Some(file) => {
                    optimized.push((files[i].0.clone(), file));
                },
                None => {},
            }
        }
        i = i + 1;
    }
    assert(all.take(all.len() as int) =~= all);
    optimized
}

} // verus!
