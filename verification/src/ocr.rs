//! Reading a recipe off a picture: which pictures have to be converted
//! first, what the conversion service is asked to do, and where the
//! converted picture is found in what the service answers.

use vstd::prelude::*;
use vstd::string::StringExecFns;

use crate::chars::{ends_with, has_suffix};

verus! {

/// The ending of the address of a picture in the HEIC format.
pub const HEIC_SUFFIX: &'static str = ".heic";

/// The name of the task that fetches the picture.
pub const IMPORT_TASK: &'static str = "convert_heic";

/// The name of the task that converts the picture.
pub const CONVERT_TASK: &'static str = "to_png";

/// The name of the task that publishes the converted picture.
pub const EXPORT_TASK: &'static str = "recipe-image";

/// Whether the address names a picture in the HEIC format, which the text
/// recognition service cannot read.
pub fn is_heic_url(url: &str) -> (heic: bool)
    ensures
        heic == ends_with(url@, HEIC_SUFFIX@),
{
    has_suffix(url, HEIC_SUFFIX)
}

/// The task that fetches the picture from `url`.
#[derive(Clone, Debug, PartialEq, Eq)]
pub struct ImportTask {
    pub name: String,
    pub operation: String,
    pub url: String,
}

/// The task that converts what the task `input` gave.
#[derive(Clone, Debug, PartialEq, Eq)]
pub struct ConvertTask {
    pub name: String,
    pub operation: String,
    pub input: String,
    pub input_format: String,
    pub output_format: String,
    /// The image library that the service converts with.
    pub engine: String,
    /// How the picture is fitted to its frame.
    pub fit: String,
    /// Whether the picture's metadata is removed.
    pub strip: bool,
    pub quality: u8,
}

/// The task that publishes under an address what the task `input` gave.
#[derive(Clone, Debug, PartialEq, Eq)]
pub struct ExportTask {
    pub name: String,
    pub operation: String,
    pub input: String,
    /// Whether the result is shown in the browser instead of downloaded.
    pub inline: bool,
    pub archive_multiple_files: bool,
}

/// A job for the conversion service, in three tasks, each fed by the one
/// before it.
#[derive(Clone, Debug, PartialEq, Eq)]
pub struct ConversionJob {
    pub import: ImportTask,
    pub convert: ConvertTask,
    pub export: ExportTask,
    pub tag: String,
}

/// A task of a job that the conversion service has worked off: its name and
/// the addresses of the files that it gave.
#[derive(Clone, Debug, PartialEq, Eq)]
pub struct FinishedTask {
    pub name: String,
    pub files: Vec<String>,
}

pub struct ImportTaskView {
    pub name: Seq<char>,
    pub operation: Seq<char>,
    pub url: Seq<char>,
}

pub struct ConvertTaskView {
    pub name: Seq<char>,
    pub operation: Seq<char>,
    pub input: Seq<char>,
    pub input_format: Seq<char>,
    pub output_format: Seq<char>,
    pub engine: Seq<char>,
    pub fit: Seq<char>,
    pub strip: bool,
    pub quality: u8,
}

pub struct ExportTaskView {
    pub name: Seq<char>,
    pub operation: Seq<char>,
    pub input: Seq<char>,
    pub inline: bool,
    pub archive_multiple_files: bool,
}

pub struct ConversionJobView {
    pub import: ImportTaskView,
    pub convert: ConvertTaskView,
    pub export: ExportTaskView,
    pub tag: Seq<char>,
}

pub struct FinishedTaskView {
    pub name: Seq<char>,
    pub files: Seq<Seq<char>>,
}

impl View for ImportTask {
    type V = ImportTaskView;

    open spec fn view(&self) -> ImportTaskView {
        ImportTaskView { name: self.name@, operation: self.operation@, url: self.url@ }
    }
}

impl View for ConvertTask {
    type V = ConvertTaskView;

    open spec fn view(&self) -> ConvertTaskView {
        ConvertTaskView {
            name: self.name@,
            operation: self.operation@,
            input: self.input@,
            input_format: self.input_format@,
            output_format: self.output_format@,
            engine: self.engine@,
            fit: self.fit@,
            strip: self.strip,
            quality: self.quality,
        }
    }
}

impl View for ExportTask {
    type V = ExportTaskView;

    open spec fn view(&self) -> ExportTaskView {
        ExportTaskView {
            name: self.name@,
            operation: self.operation@,
            input: self.input@,
            inline: self.inline,
            archive_multiple_files: self.archive_multiple_files,
        }
    }
}

impl View for ConversionJob {
    type V = ConversionJobView;

    open spec fn view(&self) -> ConversionJobView {
        ConversionJobView {
            import: self.import@,
            convert: self.convert@,
            export: self.export@,
            tag: self.tag@,
        }
    }
}

impl View for FinishedTask {
    type V = FinishedTaskView;

    open spec fn view(&self) -> FinishedTaskView {
        FinishedTaskView { name: self.name@, files: self.files.deep_view() }
    }
}

impl DeepView for FinishedTask {
    type V = FinishedTaskView;

    open spec fn deep_view(&self) -> FinishedTaskView {
        self@
    }
}

/// The job that turns the HEIC picture at `url` into a PNG picture: the
/// picture is fetched, what was fetched is converted, and what was
/// converted is published.
pub open spec fn heic_to_png(url: Seq<char>) -> ConversionJobView {
    ConversionJobView {
        import: ImportTaskView { name: IMPORT_TASK@, operation: "import/url"@, url },
        convert: ConvertTaskView {
            name: CONVERT_TASK@,
            operation: "convert"@,
            input: IMPORT_TASK@,
            input_format: "heic"@,
            output_format: "png"@,
            engine: "imagemagick"@,
            fit: "max"@,
            strip: false,
            quality: 75,
        },
        export: ExportTaskView {
            name: EXPORT_TASK@,
            operation: "export/url"@,
            input: CONVERT_TASK@,
            inline: false,
            archive_multiple_files: false,
        },
        tag: "jobbuilder"@,
    }
}

impl ConversionJobView {
    /// Whether each task of the job is fed by the one before it.
    pub open spec fn chained(self) -> bool {
        self.convert.input == self.import.name && self.export.input == self.convert.name
    }
}

/// The address of the converted picture in what the service answers: the
/// first file of the first task that has the name of the publishing task.
/// There is none where no task has that name or the task gave no file.
pub open spec fn exported(tasks: Seq<FinishedTaskView>) -> Option<Seq<char>>
    decreases tasks.len(),
{
    if tasks.len() == 0 {
        None
    } else if tasks[0].name == EXPORT_TASK@ {
        if tasks[0].files.len() > 0 {
            Some(tasks[0].files[0])
        } else {
            None
        }
    } else {
        exported(tasks.drop_first())
    }
}

impl ConversionJob {
    /// The job that turns the HEIC picture at `url` into a PNG picture: see
    /// [`heic_to_png`].
    pub fn new(url: &str) -> (job: ConversionJob)
        ensures
            job@ == heic_to_png(url@),
            job@.chained(),
    {
        ConversionJob {
            import: ImportTask {
                name: String::from_str(IMPORT_TASK),
                operation: String::from_str("import/url"),
                url: String::from_str(url),
            },
            convert: ConvertTask {
                name: String::from_str(CONVERT_TASK),
                operation: String::from_str("convert"),
                input: String::from_str(IMPORT_TASK),
                input_format: String::from_str("heic"),
                output_format: String::from_str("png"),
                engine: String::from_str("imagemagick"),
                fit: String::from_str("max"),
                strip: false,
                quality: 75,
            },
            export: ExportTask {
                name: String::from_str(EXPORT_TASK),
                operation: String::from_str("export/url"),
                input: String::from_str(CONVERT_TASK),
                inline: false,
                archive_multiple_files: false,
            },
            tag: String::from_str("jobbuilder"),
        }
    }
}

/// The address of the converted picture in what the service answers: see
/// [`exported`].
pub fn converted_address(tasks: &Vec<FinishedTask>) -> (address: Option<String>)
    ensures
        address.deep_view() == exported(tasks.deep_view()),
{
    let wanted = String::from_str(EXPORT_TASK);
    let ghost all = tasks.deep_view();
    let mut i: usize = 0;
    assert(all.skip(0) == all);
    while i < tasks.len()
        invariant
            i <= tasks.len(),
            all == tasks.deep_view(),
            wanted@ == EXPORT_TASK@,
            exported(all) == exported(all.skip(i as int)),
        decreases tasks.len() - i,
    {
        let ghost rest = all.skip(i as int);
        assert(rest[0] == tasks[i as int]@);
        assert(rest.drop_first() == all.skip(i + 1));
        if tasks[i].name == wanted {
            if tasks[i].files.len() > 0 {
                return Some(tasks[i].files[0].clone());
            } else {
                return None;
            }
        }
        i += 1;
    }
    None
}

} // verus!
