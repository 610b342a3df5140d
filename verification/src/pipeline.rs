//! One request on its way from source to stored recipe.
//!
//! The worker's decisions are a state machine. A [`Run`] knows which answer
//! from outside it waits for; [`Run::step`] takes that answer as an
//! [`Event`] and says, as an [`Action`], what has to be done outside next:
//! fetch a page, ask the model, write a record, send the report. Whoever
//! drives the machine performs the action and comes back with the event.
//!
//! A request passes through resolving its source to a text, extracting a
//! recipe from the text, getting a picture, and storing the record. A
//! failure while resolving, extracting or storing ends the run with a
//! report of the failure. No failure on the way to a picture ends the run:
//! the recipe is stored with a placeholder instead. Each run reports once.

use vstd::prelude::*;
use vstd::string::StringExecFns;

use crate::chars::{concat, ends_with};
use crate::extract::{
    accept, accepted, compose_message, message, object_of_reply, reply_object,
    ExtractionError, ExtractionErrorView,
};
use crate::imaging::{
    chosen_image, fallback_prompt, file_name, generate_uuid, image_file_name, image_or_placeholder,
    image_url, is_hyphenated, prepare_upload, primary_prompt, public_url, title_prompt, transfer,
    ImagingError,
    PLACEHOLDER_IMAGE,
};
use crate::model::{
    response_of, ContentType, FailureResponse, Recipe, RecipeView, SqsResponse, SqsResponseView,
    SuccessResponse, TesseractRequest, TesseractResponse, WorkerRequest, WorkerRequestView,
};
use crate::ocr::{
    converted_address, exported, heic_to_png, is_heic_url, ConversionJob, ConversionJobView,
    FinishedTask, FinishedTaskView, HEIC_SUFFIX,
};
use crate::scrape::{scrape, scraped};
use crate::settings::{Config, ConfigView};
use crate::store::{
    key_of, lemma_record_lookup, lookup, recipe_record, record, AttributeValueView, AttributeView,
    Item,
};

verus! {

/// The body of the report on a request that went through.
pub const SUCCESS: &'static str = "Success";

/// The status of the report on a request that went through.
pub const STATUS_OK: u16 = 200;

/// The status of the report on a request that failed.
pub const STATUS_FAILED: u16 = 500;

/// What the report on a failed extraction begins with.
pub const PARSE_FAILURE: &'static str = "Error parsing recipe: ";

/// What the report on a failed write begins with.
pub const STORE_FAILURE: &'static str = "Failed! ";

/// The report on a page that came back empty.
pub const EMPTY_PAGE: &'static str = "Error reading URL contents: empty body";

/// The report on a page that is too long to be parsed or that nothing could
/// be picked out of.
pub const UNREADABLE_PAGE: &'static str = "Error reading URL contents: unreadable page";

/// The report on a conversion that gave no converted picture.
pub const NO_CONVERTED_PICTURE: &'static str = "Error converting image: no converted picture";

/// The report on a request for an image or a text that brings no key.
pub const MISSING_KEY: &'static str = "Request has no uuid";

/// The cause that is reported where the answer from outside is not of the
/// kind that the run waits for.
pub const UNEXPECTED: &'static str = "Unexpected reply";

/// Why a request failed. Nothing that goes wrong on the way to a picture is
/// among the reasons: see [`ImagingError`].
#[derive(Clone, Debug, PartialEq, Eq)]
pub enum PipelineError {
    /// The source could not be resolved to a text; the cause, in words.
    Resolution(String),
    /// No recipe could be taken from the model.
    Extraction(ExtractionError),
    /// The record could not be written; the cause, in words.
    Store(String),
}

pub enum PipelineErrorView {
    Resolution(Seq<char>),
    Extraction(ExtractionErrorView),
    Store(Seq<char>),
}

impl View for PipelineError {
    type V = PipelineErrorView;

    open spec fn view(&self) -> PipelineErrorView {
        match self {
            PipelineError::Resolution(cause) => PipelineErrorView::Resolution(cause@),
            PipelineError::Extraction(error) => PipelineErrorView::Extraction(error@),
            PipelineError::Store(cause) => PipelineErrorView::Store(cause@),
        }
    }
}

impl PipelineErrorView {
    /// The body of the report on the failure.
    pub open spec fn description(self) -> Seq<char> {
        match self {
            PipelineErrorView::Resolution(cause) => cause,
            PipelineErrorView::Extraction(error) => PARSE_FAILURE@ + error.description(),
            PipelineErrorView::Store(cause) => STORE_FAILURE@ + cause,
        }
    }
}

impl PipelineError {
    /// The body of the report on the failure.
    pub fn description(&self) -> (text: String)
        ensures
            text@ == self@.description(),
    {
        match self {
            PipelineError::Resolution(cause) => cause.clone(),
            PipelineError::Extraction(error) => {
                let words = error.description();
                concat(PARSE_FAILURE, words.as_str())
            },
            PipelineError::Store(cause) => concat(STORE_FAILURE, cause.as_str()),
        }
    }
}

/// What came back from outside.
#[derive(Clone, Debug, PartialEq, Eq)]
pub enum Event {
    /// The page was fetched; its body.
    PageFetched { body: String },
    /// The conversion job was worked off; its tasks, with what they gave.
    ImageConverted { tasks: Vec<FinishedTask> },
    /// The picture was read.
    ImageRead { response: TesseractResponse },
    /// The model replied; the content of its reply, if it has any.
    Completed { content: Option<String> },
    /// The JSON text was decoded.
    RecipeDecoded { recipe: Recipe },
    /// A picture was generated; where it is.
    ImageGenerated { url: String },
    /// The picture was downloaded.
    ImageDownloaded { bytes: Vec<u8> },
    /// The picture was uploaded.
    ImageUploaded,
    /// The record was written.
    Stored,
    /// The report was handed to the queue, or could not be: either way the
    /// request is done with.
    Sent,
    /// What was asked for could not be done; the cause, in words.
    Failed { reason: String },
}

/// What is to be done outside.
#[derive(Clone, Debug, PartialEq, Eq)]
pub enum Action {
    /// Fetch the page at `url`.
    FetchPage { url: String },
    /// Have the picture converted.
    ConvertImage { job: ConversionJob },
    /// Have the picture read.
    ReadImage { request: TesseractRequest },
    /// Send `message` to the model as the one message of a user.
    Complete { message: String },
    /// Decode `json` as a recipe.
    Decode { json: String },
    /// Have a picture generated for `prompt`.
    GenerateImage { prompt: String },
    /// Download the picture at `url`.
    DownloadImage { url: String },
    /// Upload `bytes` to the bucket under the name `file_name`.
    UploadImage { file_name: String, bytes: Vec<u8> },
    /// Write `item` to the table, replacing what is stored under its key.
    Store { item: Item },
    /// Send `response` to the queue at `queue_url`.
    Notify { queue_url: String, response: SqsResponse },
    /// Nothing is left to do.
    Rest,
}

/// Which answer a run waits for.
#[derive(Clone, Debug, PartialEq, Eq)]
pub enum Phase {
    /// The page is being fetched.
    AwaitPage,
    /// The picture is being converted.
    AwaitConversion,
    /// The picture is being read.
    AwaitText,
    /// The model is being asked.
    AwaitCompletion,
    /// The model's JSON text is being decoded.
    AwaitDecode,
    /// A picture is being generated; `fallback` says that it is the second
    /// request, by the recipe's name.
    AwaitImage { recipe: Recipe, fallback: bool },
    /// The generated picture is being downloaded.
    AwaitDownload { recipe: Recipe },
    /// The picture is being uploaded as `file_name`.
    AwaitUpload { recipe: Recipe, file_name: String },
    /// The record is being written.
    AwaitStore,
    /// The report was handed over for sending: the run is over.
    Notified { response: SqsResponse },
}

/// The stage that a run is in.
#[derive(Clone, Copy, Debug, PartialEq, Eq, Structural)]
pub enum Stage {
    Resolving,
    Extracting,
    Imaging,
    Persisting,
    /// The run ended with a report of a failure.
    Failed,
    /// The run ended with a report of success.
    Notified,
}

/// One request and how far it has come.
#[derive(Clone, Debug, PartialEq, Eq)]
pub struct Run {
    pub request: WorkerRequest,
    pub phase: Phase,
}

pub enum EventView {
    PageFetched { body: Seq<char> },
    ImageConverted { tasks: Seq<FinishedTaskView> },
    ImageRead { response: Seq<char> },
    Completed { content: Option<Seq<char>> },
    RecipeDecoded { recipe: RecipeView },
    ImageGenerated { url: Seq<char> },
    ImageDownloaded { bytes: Seq<u8> },
    ImageUploaded,
    Stored,
    Sent,
    Failed { reason: Seq<char> },
}

pub enum ActionView {
    FetchPage { url: Seq<char> },
    ConvertImage { job: ConversionJobView },
    ReadImage { request: Seq<char> },
    Complete { message: Seq<char> },
    Decode { json: Seq<char> },
    GenerateImage { prompt: Seq<char> },
    DownloadImage { url: Seq<char> },
    UploadImage { file_name: Seq<char>, bytes: Seq<u8> },
    Store { item: Seq<AttributeView> },
    Notify { queue_url: Seq<char>, response: SqsResponseView },
    Rest,
}

pub enum PhaseView {
    AwaitPage,
    AwaitConversion,
    AwaitText,
    AwaitCompletion,
    AwaitDecode,
    AwaitImage { recipe: RecipeView, fallback: bool },
    AwaitDownload { recipe: RecipeView },
    AwaitUpload { recipe: RecipeView, file_name: Seq<char> },
    AwaitStore,
    Notified { response: SqsResponseView },
}

pub struct RunView {
    pub request: WorkerRequestView,
    pub phase: PhaseView,
}

impl View for Event {
    type V = EventView;

    open spec fn view(&self) -> EventView {
        match self {
            Event::PageFetched { body } => EventView::PageFetched { body: body@ },
            Event::ImageConverted { tasks } => EventView::ImageConverted {
                tasks: tasks.deep_view(),
            },
            Event::ImageRead { response } => EventView::ImageRead { response: response@ },
            Event::Completed { content } => EventView::Completed { content: content.deep_view() },
            Event::RecipeDecoded { recipe } => EventView::RecipeDecoded { recipe: recipe@ },
            Event::ImageGenerated { url } => EventView::ImageGenerated { url: url@ },
            Event::ImageDownloaded { bytes } => EventView::ImageDownloaded { bytes: bytes@ },
            Event::ImageUploaded => EventView::ImageUploaded,
            Event::Stored => EventView::Stored,
            Event::Sent => EventView::Sent,
            Event::Failed { reason } => EventView::Failed { reason: reason@ },
        }
    }
}

impl View for Action {
    type V = ActionView;

    open spec fn view(&self) -> ActionView {
        match self {
            Action::FetchPage { url } => ActionView::FetchPage { url: url@ },
            Action::ConvertImage { job } => ActionView::ConvertImage { job: job@ },
            Action::ReadImage { request } => ActionView::ReadImage { request: request@ },
            Action::Complete { message } => ActionView::Complete { message: message@ },
            Action::Decode { json } => ActionView::Decode { json: json@ },
            Action::GenerateImage { prompt } => ActionView::GenerateImage { prompt: prompt@ },
            Action::DownloadImage { url } => ActionView::DownloadImage { url: url@ },
            Action::UploadImage { file_name, bytes } => ActionView::UploadImage {
                file_name: file_name@,
                bytes: bytes@,
            },
            Action::Store { item } => ActionView::Store { item: item@ },
            Action::Notify { queue_url, response } => ActionView::Notify {
                queue_url: queue_url@,
                response: response@,
            },
            Action::Rest => ActionView::Rest,
        }
    }
}

impl View for Phase {
    type V = PhaseView;

    open spec fn view(&self) -> PhaseView {
        match self {
            Phase::AwaitPage => PhaseView::AwaitPage,
            Phase::AwaitConversion => PhaseView::AwaitConversion,
            Phase::AwaitText => PhaseView::AwaitText,
            Phase::AwaitCompletion => PhaseView::AwaitCompletion,
            Phase::AwaitDecode => PhaseView::AwaitDecode,
            Phase::AwaitImage { recipe, fallback } => PhaseView::AwaitImage {
                recipe: recipe@,
                fallback: *fallback,
            },
            Phase::AwaitDownload { recipe } => PhaseView::AwaitDownload { recipe: recipe@ },
            Phase::AwaitUpload { recipe, file_name } => PhaseView::AwaitUpload {
                recipe: recipe@,
                file_name: file_name@,
            },
            Phase::AwaitStore => PhaseView::AwaitStore,
            Phase::Notified { response } => PhaseView::Notified { response: response@ },
        }
    }
}

impl View for Run {
    type V = RunView;

    open spec fn view(&self) -> RunView {
        RunView { request: self.request@, phase: self.phase@ }
    }
}

impl DeepView for Run {
    type V = RunView;

    open spec fn deep_view(&self) -> RunView {
        self@
    }
}

impl PhaseView {
    /// The stage that a run in this phase is in.
    pub open spec fn stage(self) -> Stage {
        match self {
            PhaseView::AwaitPage => Stage::Resolving,
            PhaseView::AwaitConversion => Stage::Resolving,
            PhaseView::AwaitText => Stage::Resolving,
            PhaseView::AwaitCompletion => Stage::Extracting,
            PhaseView::AwaitDecode => Stage::Extracting,
            PhaseView::AwaitImage { .. } => Stage::Imaging,
            PhaseView::AwaitDownload { .. } => Stage::Imaging,
            PhaseView::AwaitUpload { .. } => Stage::Imaging,
            PhaseView::AwaitStore => Stage::Persisting,
            PhaseView::Notified { response } => if response.status_code == STATUS_OK {
                Stage::Notified
            } else {
                Stage::Failed
            },
        }
    }

    /// How many answers, at most, a run in this phase still takes before it
    /// reports.
    pub open spec fn distance(self) -> nat {
        match self {
            PhaseView::AwaitConversion => 9,
            PhaseView::AwaitPage => 8,
            PhaseView::AwaitText => 8,
            PhaseView::AwaitCompletion => 7,
            PhaseView::AwaitDecode => 6,
            PhaseView::AwaitImage { fallback, .. } => if fallback {
                4
            } else {
                5
            },
            PhaseView::AwaitDownload { .. } => 3,
            PhaseView::AwaitUpload { .. } => 2,
            PhaseView::AwaitStore => 1,
            PhaseView::Notified { .. } => 0,
        }
    }
}

impl RunView {
    /// Whether the run is over: its report was handed over for sending.
    pub open spec fn over(self) -> bool {
        self.phase is Notified
    }
}

/// The cause that an answer gives for a failure: its own words where it is
/// a failure, [`UNEXPECTED`] where it is an answer of another kind.
pub open spec fn cause(event: EventView) -> Seq<char> {
    match event {
        EventView::Failed { reason } => reason,
        _ => UNEXPECTED@,
    }
}

/// The run ends: the report on `result` goes to the request's queue.
pub open spec fn report(request: WorkerRequestView, result: Result<Seq<char>, Seq<char>>) -> (
    RunView,
    ActionView,
) {
    let response = response_of(result);
    (
        RunView { request, phase: PhaseView::Notified { response } },
        ActionView::Notify { queue_url: request.sqs_url, response },
    )
}

/// The run ends with a report of the failure `error`.
pub open spec fn fail(request: WorkerRequestView, error: PipelineErrorView) -> (RunView, ActionView) {
    report(request, Err(error.description()))
}

/// The failure of a request that brings no key.
pub open spec fn missing_key() -> PipelineErrorView {
    PipelineErrorView::Resolution(MISSING_KEY@)
}

/// The run ends with the report of success.
pub open spec fn succeed(request: WorkerRequestView) -> (RunView, ActionView) {
    report(request, Ok(SUCCESS@))
}

/// The source is resolved to `text`: the model is asked.
pub open spec fn ask_model(request: WorkerRequestView, text: Seq<char>) -> (RunView, ActionView) {
    (
        RunView { request, phase: PhaseView::AwaitCompletion },
        ActionView::Complete { message: message(text) },
    )
}

/// The picture at `url` can be read.
pub open spec fn read_image(request: WorkerRequestView, url: Seq<char>) -> (RunView, ActionView) {
    (RunView { request, phase: PhaseView::AwaitText }, ActionView::ReadImage { request: url })
}

/// The recipe is stored with the picture address `image`, under the
/// request's key.
pub open spec fn persist(request: WorkerRequestView, recipe: RecipeView, image: Seq<char>) -> (
    RunView,
    ActionView,
) {
    match request.identity() {
        Some(key) => (
            RunView { request, phase: PhaseView::AwaitStore },
            ActionView::Store { item: record(recipe, key, image, request.credit) },
        ),
        None => fail(request, missing_key()),
    }
}

/// The first action for a request: what resolves its source. A page is
/// fetched; a picture is read, after it was converted if its format asks for
/// that; a text needs nothing and goes to the model as it is. A request
/// without a key fails at once.
pub open spec fn begin(request: WorkerRequestView) -> (RunView, ActionView) {
    if request.identity() is None {
        fail(request, missing_key())
    } else {
        match request.content_type {
            ContentType::URL => (
                RunView { request, phase: PhaseView::AwaitPage },
                ActionView::FetchPage { url: request.url },
            ),
            ContentType::IMAGE => if ends_with(request.url, HEIC_SUFFIX@) {
                (
                    RunView { request, phase: PhaseView::AwaitConversion },
                    ActionView::ConvertImage { job: heic_to_png(request.url) },
                )
            } else {
                read_image(request, request.url)
            },
            ContentType::BULK => ask_model(request, request.url),
        }
    }
}

/// What a fetched page resolves to: the text that is made of it, or the
/// failure to report.
pub open spec fn page_result(event: EventView) -> Result<Seq<char>, Seq<char>> {
    match event {
        EventView::PageFetched { body } => if body.len() == 0 {
            Err(EMPTY_PAGE@)
        } else {
            match scraped(body) {
                Some(text) => Ok(text),
                None => Err(UNREADABLE_PAGE@),
            }
        },
        _ => Err(cause(event)),
    }
}

/// What a conversion resolves to: the address of the converted picture, or
/// the failure to report. The job is waited for; one that ends without a
/// converted picture has failed.
pub open spec fn conversion_result(event: EventView) -> Result<Seq<char>, Seq<char>> {
    match event {
        EventView::ImageConverted { tasks } => match exported(tasks) {
            Some(url) => Ok(url),
            None => Err(NO_CONVERTED_PICTURE@),
        },
        _ => Err(cause(event)),
    }
}

/// What the model's answer gives: the JSON text to decode, or the failure.
pub open spec fn completion_result(event: EventView) -> Result<Seq<char>, ExtractionErrorView> {
    match event {
        EventView::Completed { content } => reply_object(content),
        _ => Err(ExtractionErrorView::Transport(cause(event))),
    }
}

/// What the decoding gives: the recipe, or the failure.
pub open spec fn decode_result(event: EventView) -> Result<RecipeView, ExtractionErrorView> {
    match event {
        EventView::RecipeDecoded { recipe } => accepted(recipe),
        _ => Err(ExtractionErrorView::Shape(cause(event))),
    }
}

/// The run after the answer `event`, and what is to be done next. `fresh`
/// is the identifier that names the picture if one is uploaded now.
pub open spec fn next(run: RunView, event: EventView, config: ConfigView, fresh: Seq<char>) -> (
    RunView,
    ActionView,
) {
    let request = run.request;
    match run.phase {
        PhaseView::AwaitPage => match page_result(event) {
            Ok(text) => ask_model(request, text),
            Err(cause) => fail(request, PipelineErrorView::Resolution(cause)),
        },
        PhaseView::AwaitConversion => match conversion_result(event) {
            Ok(url) => read_image(request, url),
            Err(cause) => fail(request, PipelineErrorView::Resolution(cause)),
        },
        PhaseView::AwaitText => match event {
            EventView::ImageRead { response } => ask_model(request, response),
            _ => fail(request, PipelineErrorView::Resolution(cause(event))),
        },
        PhaseView::AwaitCompletion => match completion_result(event) {
            Ok(json) => (
                RunView { request, phase: PhaseView::AwaitDecode },
                ActionView::Decode { json },
            ),
            Err(error) => fail(request, PipelineErrorView::Extraction(error)),
        },
        PhaseView::AwaitDecode => match decode_result(event) {
            Ok(recipe) => (
                RunView { request, phase: PhaseView::AwaitImage { recipe, fallback: false } },
                ActionView::GenerateImage { prompt: primary_prompt(recipe.summary) },
            ),
            Err(error) => fail(request, PipelineErrorView::Extraction(error)),
        },
        PhaseView::AwaitImage { recipe, fallback } => match event {
            EventView::ImageGenerated { url } => (
                RunView { request, phase: PhaseView::AwaitDownload { recipe } },
                ActionView::DownloadImage { url },
            ),
            _ => if fallback {
                persist(request, recipe, image_or_placeholder(Err(ImagingError::Generation)))
            } else {
                (
                    RunView { request, phase: PhaseView::AwaitImage { recipe, fallback: true } },
                    ActionView::GenerateImage { prompt: fallback_prompt(recipe.name) },
                )
            },
        },
        PhaseView::AwaitDownload { recipe } => match event {
            EventView::ImageDownloaded { bytes } => match transfer(bytes) {
                Some(bytes) => (
                    RunView {
                        request,
                        phase: PhaseView::AwaitUpload { recipe, file_name: file_name(fresh) },
                    },
                    ActionView::UploadImage { file_name: file_name(fresh), bytes },
                ),
                None => persist(request, recipe, image_or_placeholder(Err(ImagingError::Transfer))),
            },
            _ => persist(request, recipe, image_or_placeholder(Err(ImagingError::Download))),
        },
        PhaseView::AwaitUpload { recipe, file_name } => match event {
            EventView::ImageUploaded => persist(
                request,
                recipe,
                image_or_placeholder(Ok(public_url(config.bucket_name, config.region, file_name))),
            ),
            _ => persist(request, recipe, image_or_placeholder(Err(ImagingError::Upload))),
        },
        PhaseView::AwaitStore => match event {
            EventView::Stored => succeed(request),
            _ => fail(request, PipelineErrorView::Store(cause(event))),
        },
        PhaseView::Notified { .. } => (run, ActionView::Rest),
    }
}

/// Whether the answer `event` makes the stage that `run` is in fail. No
/// answer makes the way to a picture fail, and a run that is over takes no
/// answer.
pub open spec fn fails(run: RunView, event: EventView) -> bool {
    match run.phase {
        PhaseView::AwaitPage => page_result(event) is Err,
        PhaseView::AwaitConversion => conversion_result(event) is Err,
        PhaseView::AwaitText => !(event is ImageRead),
        PhaseView::AwaitCompletion => completion_result(event) is Err,
        PhaseView::AwaitDecode => decode_result(event) is Err,
        PhaseView::AwaitStore => !(event is Stored),
        _ => false,
    }
}

/// Which kind of source an action resolves, if it resolves one.
pub open spec fn resolves(action: ActionView) -> Option<ContentType> {
    match action {
        ActionView::FetchPage { .. } => Some(ContentType::URL),
        ActionView::ConvertImage { .. } => Some(ContentType::IMAGE),
        ActionView::ReadImage { .. } => Some(ContentType::IMAGE),
        _ => None,
    }
}

impl RunView {
    /// What holds of every run that [`begin`] made and [`next`] took
    /// further: while it is not over its request has a key, and it waits
    /// for a page only for a page request, for a picture's text only for a
    /// picture request.
    pub open spec fn sound(self) -> bool {
        &&& !self.over() ==> self.request.identity() is Some
        &&& self.phase is AwaitPage ==> self.request.content_type == ContentType::URL
        &&& self.phase is AwaitConversion || self.phase is AwaitText ==> self.request.content_type
            == ContentType::IMAGE
    }
}

/// The source of a request is resolved by the action for its kind and by
/// no other: a page is fetched, a picture is read, converted first if it is
/// in the HEIC format, and a text goes to the model as it stands. The run
/// that begins is sound.
pub proof fn lemma_begin_resolves(request: WorkerRequestView)
    ensures
        begin(request).0.sound(),
        begin(request).0.request == request,
        request.identity() is None ==> begin(request) == fail(request, missing_key()),
        request.identity() is Some ==> match request.content_type {
            ContentType::URL => begin(request).1 == (ActionView::FetchPage { url: request.url }),
            ContentType::IMAGE => begin(request).1 == if ends_with(request.url, HEIC_SUFFIX@) {
                ActionView::ConvertImage { job: heic_to_png(request.url) }
            } else {
                ActionView::ReadImage { request: request.url }
            },
            ContentType::BULK => begin(request).1 == (ActionView::Complete {
                message: message(request.url),
            }),
        },
        resolves(begin(request).1) is Some ==> resolves(begin(request).1) == Some(
            request.content_type,
        ),
{
}

/// A sound run stays sound and keeps its request; whatever it does to
/// resolve a source is what the kind of its request asks for.
pub proof fn lemma_next_resolves(
    run: RunView,
    event: EventView,
    config: ConfigView,
    fresh: Seq<char>,
)
    requires
        run.sound(),
    ensures
        next(run, event, config, fresh).0.sound(),
        next(run, event, config, fresh).0.request == run.request,
        resolves(next(run, event, config, fresh).1) is Some ==> resolves(
            next(run, event, config, fresh).1,
        ) == Some(run.request.content_type),
{
}

/// Every answer brings a run that is not over nearer to its report.
pub proof fn lemma_next_advances(
    run: RunView,
    event: EventView,
    config: ConfigView,
    fresh: Seq<char>,
)
    requires
        !run.over(),
    ensures
        next(run, event, config, fresh).0.phase.distance() < run.phase.distance(),
{
}

/// A run reports when it ends and at no other time: an answer makes a run
/// report exactly when it ends the run. The report is one of failure
/// exactly when the answer made the run's stage fail; otherwise it is the
/// report of success, which only a written record brings.
pub proof fn lemma_next_reports(
    run: RunView,
    event: EventView,
    config: ConfigView,
    fresh: Seq<char>,
)
    requires
        run.sound(),
    ensures
        ({
            let (after, action) = next(run, event, config, fresh);
            &&& action is Notify <==> !run.over() && after.over()
            &&& action is Notify ==> action->queue_url == run.request.sqs_url && after.phase
                == (PhaseView::Notified { response: action->response })
            &&& fails(run, event) <==> action is Notify && action->response.status_code
                == STATUS_FAILED
            &&& action is Notify && !fails(run, event) ==> run.phase is AwaitStore && event is Stored
                && action->response == (SqsResponseView { status_code: STATUS_OK, body: SUCCESS@ })
        }),
{
}

/// On the way to a picture nothing ends a sound run: whatever comes back,
/// the run goes on to another request for a picture or to the writing of
/// its record.
pub proof fn lemma_imaging_goes_on(
    run: RunView,
    event: EventView,
    config: ConfigView,
    fresh: Seq<char>,
)
    requires
        run.sound(),
        run.phase.stage() == Stage::Imaging,
    ensures
        ({
            let after = next(run, event, config, fresh).0;
            after.phase.stage() == Stage::Imaging || after.phase.stage() == Stage::Persisting
        }),
{
}

/// When the request for a picture by the summary fails and the request by
/// the name fails too, the recipe is stored with the placeholder as its
/// picture.
pub proof fn lemma_placeholder_after_two_failures(
    request: WorkerRequestView,
    recipe: RecipeView,
    first: EventView,
    second: EventView,
    config: ConfigView,
    fresh: Seq<char>,
)
    requires
        request.identity() is Some,
        !(first is ImageGenerated),
        !(second is ImageGenerated),
    ensures
        ({
            let run = RunView { request, phase: PhaseView::AwaitImage { recipe, fallback: false } };
            let (again, retry) = next(run, first, config, fresh);
            let (after, write) = next(again, second, config, fresh);
            &&& retry == (ActionView::GenerateImage { prompt: fallback_prompt(recipe.name) })
            &&& write == (ActionView::Store {
                item: record(recipe, request.identity()->Some_0, PLACEHOLDER_IMAGE@, request.credit),
            })
            &&& lookup(write->item, "image"@) == Some(AttributeValueView::S(PLACEHOLDER_IMAGE@))
            &&& after.phase is AwaitStore
        }),
{
    lemma_record_lookup(recipe, request.identity()->Some_0, PLACEHOLDER_IMAGE@, request.credit);
}

/// Whatever record a sound run writes stands under the key of its request:
/// for a page request, under the page's address, whatever was extracted.
pub proof fn lemma_record_key(run: RunView, event: EventView, config: ConfigView, fresh: Seq<char>)
    requires
        run.sound(),
        next(run, event, config, fresh).1 is Store,
    ensures
        Some(key_of(next(run, event, config, fresh).1->item)) == run.request.identity(),
        run.request.content_type == ContentType::URL ==> key_of(
            next(run, event, config, fresh).1->item,
        ) == run.request.url,
{
    let key = run.request.identity()->Some_0;
    match run.phase {
        PhaseView::AwaitImage { recipe, .. } => {
            lemma_record_lookup(recipe, key, PLACEHOLDER_IMAGE@, run.request.credit);
        },
        PhaseView::AwaitDownload { recipe } => {
            lemma_record_lookup(recipe, key, PLACEHOLDER_IMAGE@, run.request.credit);
        },
        PhaseView::AwaitUpload { recipe, file_name } => {
            lemma_record_lookup(recipe, key, PLACEHOLDER_IMAGE@, run.request.credit);
            lemma_record_lookup(
                recipe,
                key,
                public_url(config.bucket_name, config.region, file_name),
                run.request.credit,
            );
        },
        _ => {},
    }
}

/// The cause that an answer gives for a failure: see [`cause`].
fn cause_of(event: Event) -> (reason: String)
    ensures
        reason@ == cause(event@),
{
    match event {
        Event::Failed { reason } => reason,
        _ => String::from_str(UNEXPECTED),
    }
}

/// The run ends with a report of the failure `error`: see [`fail`].
fn end(request: WorkerRequest, error: PipelineError) -> (out: (Run, Action))
    ensures
        (out.0@, out.1@) == fail(request@, error@),
{
    let queue_url = request.sqs_url.clone();
    let kept = SqsResponse::new(Err(FailureResponse { body: error.description() }));
    let response = SqsResponse::new(Err(FailureResponse { body: error.description() }));
    (
        Run { request, phase: Phase::Notified { response: kept } },
        Action::Notify { queue_url, response },
    )
}

/// The run ends with the report of success: see [`succeed`].
fn finish(request: WorkerRequest) -> (out: (Run, Action))
    ensures
        (out.0@, out.1@) == succeed(request@),
{
    let queue_url = request.sqs_url.clone();
    let kept = SqsResponse::new(Ok(SuccessResponse { body: String::from_str(SUCCESS) }));
    let response = SqsResponse::new(Ok(SuccessResponse { body: String::from_str(SUCCESS) }));
    (
        Run { request, phase: Phase::Notified { response: kept } },
        Action::Notify { queue_url, response },
    )
}

/// The model is asked: see [`ask_model`].
fn ask(request: WorkerRequest, text: &str) -> (out: (Run, Action))
    ensures
        (out.0@, out.1@) == ask_model(request@, text@),
{
    let message = compose_message(text);
    (Run { request, phase: Phase::AwaitCompletion }, Action::Complete { message })
}

/// The picture is read: see [`read_image`].
fn read(request: WorkerRequest, url: String) -> (out: (Run, Action))
    ensures
        (out.0@, out.1@) == read_image(request@, url@),
{
    (Run { request, phase: Phase::AwaitText }, Action::ReadImage { request: TesseractRequest { url } })
}

/// The recipe is stored: see [`persist`].
fn store(request: WorkerRequest, recipe: Recipe, image: &str) -> (out: (Run, Action))
    ensures
        (out.0@, out.1@) == persist(request@, recipe@, image@),
{
    match request.identity() {
        Some(key) => {
            let credit = crate::model::copy_option(&request.credit);
            let item = recipe_record(recipe, key.as_str(), image, credit);
            (Run { request, phase: Phase::AwaitStore }, Action::Store { item })
        },
        None => end(request, PipelineError::Resolution(String::from_str(MISSING_KEY))),
    }
}

/// The answer to a page request: see [`next`].
fn on_page(request: WorkerRequest, event: Event) -> (out: (Run, Action))
    ensures
        (out.0@, out.1@) == match page_result(event@) {
            Ok(text) => ask_model(request@, text),
            Err(cause) => fail(request@, PipelineErrorView::Resolution(cause)),
        },
{
    match event {
        Event::PageFetched { body } => {
            if body.as_str().is_empty() {
                end(request, PipelineError::Resolution(String::from_str(EMPTY_PAGE)))
            } else {
                match scrape(body.as_str()) {
                    Some(text) => ask(request, text.as_str()),
                    None => end(request, PipelineError::Resolution(String::from_str(UNREADABLE_PAGE))),
                }
            }
        },
        other => {
            let reason = cause_of(other);
            end(request, PipelineError::Resolution(reason))
        },
    }
}

/// The answer to a request to the model: see [`next`].
fn on_completion(request: WorkerRequest, event: Event) -> (out: (Run, Action))
    ensures
        (out.0@, out.1@) == match completion_result(event@) {
            Ok(json) => (
                RunView { request: request@, phase: PhaseView::AwaitDecode },
                ActionView::Decode { json },
            ),
            Err(error) => fail(request@, PipelineErrorView::Extraction(error)),
        },
{
    let result = match event {
        Event::Completed { content } => object_of_reply(content),
        other => Err(ExtractionError::Transport(cause_of(other))),
    };
    match result {
        Ok(json) => (Run { request, phase: Phase::AwaitDecode }, Action::Decode { json }),
        Err(error) => end(request, PipelineError::Extraction(error)),
    }
}

/// The answer to a request for decoding: see [`next`].
fn on_decode(request: WorkerRequest, event: Event) -> (out: (Run, Action))
    ensures
        (out.0@, out.1@) == match decode_result(event@) {
            Ok(recipe) => (
                RunView {
                    request: request@,
                    phase: PhaseView::AwaitImage { recipe, fallback: false },
                },
                ActionView::GenerateImage { prompt: primary_prompt(recipe.summary) },
            ),
            Err(error) => fail(request@, PipelineErrorView::Extraction(error)),
        },
{
    let result = match event {
        Event::RecipeDecoded { recipe } => accept(recipe),
        other => Err(ExtractionError::Shape(cause_of(other))),
    };
    match result {
        Ok(recipe) => {
            let prompt = recipe.summary.clone();
            (
                Run { request, phase: Phase::AwaitImage { recipe, fallback: false } },
                Action::GenerateImage { prompt },
            )
        },
        Err(error) => end(request, PipelineError::Extraction(error)),
    }
}

/// The answer to a request for a picture: see [`next`].
fn on_image(request: WorkerRequest, recipe: Recipe, fallback: bool, event: Event) -> (out: (
    Run,
    Action,
))
    ensures
        (out.0@, out.1@) == match event@ {
            EventView::ImageGenerated { url } => (
                RunView { request: request@, phase: PhaseView::AwaitDownload { recipe: recipe@ } },
                ActionView::DownloadImage { url },
            ),
            _ => if fallback {
                persist(request@, recipe@, image_or_placeholder(Err(ImagingError::Generation)))
            } else {
                (
                    RunView {
                        request: request@,
                        phase: PhaseView::AwaitImage { recipe: recipe@, fallback: true },
                    },
                    ActionView::GenerateImage { prompt: fallback_prompt(recipe@.name) },
                )
            },
        },
{
    match event {
        Event::ImageGenerated { url } => (
            Run { request, phase: Phase::AwaitDownload { recipe } },
            Action::DownloadImage { url },
        ),
        _ => {
            if fallback {
                store(request, recipe, chosen_image(Err(ImagingError::Generation)).as_str())
            } else {
                let prompt = title_prompt(recipe.name.as_str());
                (
                    Run { request, phase: Phase::AwaitImage { recipe, fallback: true } },
                    Action::GenerateImage { prompt },
                )
            }
        },
    }
}

/// The answer to a download: see [`next`].
fn on_download(request: WorkerRequest, recipe: Recipe, event: Event, fresh: &str) -> (out: (
    Run,
    Action,
))
    ensures
        (out.0@, out.1@) == match event@ {
            EventView::ImageDownloaded { bytes } => match transfer(bytes) {
                Some(bytes) => (
                    RunView {
                        request: request@,
                        phase: PhaseView::AwaitUpload {
                            recipe: recipe@,
                            file_name: file_name(fresh@),
                        },
                    },
                    ActionView::UploadImage { file_name: file_name(fresh@), bytes },
                ),
                None => persist(request@, recipe@, image_or_placeholder(Err(ImagingError::Transfer))),
            },
            _ => persist(request@, recipe@, image_or_placeholder(Err(ImagingError::Download))),
        },
{
    match event {
        Event::ImageDownloaded { bytes } => match prepare_upload(&bytes) {
            Some(bytes) => {
                let file_name = image_file_name(fresh);
                let name = file_name.clone();
                (
                    Run { request, phase: Phase::AwaitUpload { recipe, file_name } },
                    Action::UploadImage { file_name: name, bytes },
                )
            },
            None => store(request, recipe, chosen_image(Err(ImagingError::Transfer)).as_str()),
        },
        _ => store(request, recipe, chosen_image(Err(ImagingError::Download)).as_str()),
    }
}

/// The answer to an upload: see [`next`].
fn on_upload(
    request: WorkerRequest,
    recipe: Recipe,
    file_name: String,
    event: Event,
    config: &Config,
) -> (out: (Run, Action))
    ensures
        (out.0@, out.1@) == match event@ {
            EventView::ImageUploaded => persist(
                request@,
                recipe@,
                image_or_placeholder(
                    Ok(public_url(config@.bucket_name, config@.region, file_name@)),
                ),
            ),
            _ => persist(request@, recipe@, image_or_placeholder(Err(ImagingError::Upload))),
        },
{
    match event {
        Event::ImageUploaded => {
            let url = chosen_image(
                Ok(
                    image_url(
                        config.bucket_name.as_str(),
                        config.region.as_str(),
                        file_name.as_str(),
                    ),
                ),
            );
            store(request, recipe, url.as_str())
        },
        _ => store(request, recipe, chosen_image(Err(ImagingError::Upload)).as_str()),
    }
}

/// The answer to a write: see [`next`].
fn on_store(request: WorkerRequest, event: Event) -> (out: (Run, Action))
    ensures
        (out.0@, out.1@) == match event@ {
            EventView::Stored => succeed(request@),
            _ => fail(request@, PipelineErrorView::Store(cause(event@))),
        },
{
    match event {
        Event::Stored => finish(request),
        other => {
            let reason = cause_of(other);
            end(request, PipelineError::Store(reason))
        },
    }
}

/// The answer to a conversion: see [`next`].
fn on_conversion(request: WorkerRequest, event: Event) -> (out: (Run, Action))
    ensures
        (out.0@, out.1@) == match conversion_result(event@) {
            Ok(url) => read_image(request@, url),
            Err(cause) => fail(request@, PipelineErrorView::Resolution(cause)),
        },
{
    match event {
        Event::ImageConverted { tasks } => match converted_address(&tasks) {
            Some(url) => read(request, url),
            None => end(
                request,
                PipelineError::Resolution(String::from_str(NO_CONVERTED_PICTURE)),
            ),
        },
        other => {
            let reason = cause_of(other);
            end(request, PipelineError::Resolution(reason))
        },
    }
}

/// The answer to a reading: see [`next`].
fn on_text(request: WorkerRequest, event: Event) -> (out: (Run, Action))
    ensures
        (out.0@, out.1@) == match event@ {
            EventView::ImageRead { response } => ask_model(request@, response),
            _ => fail(request@, PipelineErrorView::Resolution(cause(event@))),
        },
{
    match event {
        Event::ImageRead { response } => ask(request, response.contents.as_str()),
        other => {
            let reason = cause_of(other);
            end(request, PipelineError::Resolution(reason))
        },
    }
}

impl Run {
    /// The stage that the run is in.
    pub fn stage(&self) -> (stage: Stage)
        ensures
            stage == self@.phase.stage(),
    {
        match &self.phase {
            Phase::AwaitPage => Stage::Resolving,
            Phase::AwaitConversion => Stage::Resolving,
            Phase::AwaitText => Stage::Resolving,
            Phase::AwaitCompletion => Stage::Extracting,
            Phase::AwaitDecode => Stage::Extracting,
            Phase::AwaitImage { .. } => Stage::Imaging,
            Phase::AwaitDownload { .. } => Stage::Imaging,
            Phase::AwaitUpload { .. } => Stage::Imaging,
            Phase::AwaitStore => Stage::Persisting,
            Phase::Notified { response } => if response.status_code == STATUS_OK {
                Stage::Notified
            } else {
                Stage::Failed
            },
        }
    }

    /// Whether the run waits for a picture's download: the answer to that
    /// may call for a name for the picture.
    pub fn awaits_download(&self) -> (waits: bool)
        ensures
            waits == self@.phase is AwaitDownload,
    {
        match &self.phase {
            Phase::AwaitDownload { .. } => true,
            _ => false,
        }
    }

    /// Whether the run is over.
    pub fn is_over(&self) -> (over: bool)
        ensures
            over == self@.over(),
    {
        match &self.phase {
            Phase::Notified { .. } => true,
            _ => false,
        }
    }

    /// Takes up a request: see [`begin`].
    pub fn start(request: WorkerRequest) -> (out: (Run, Action))
        ensures
            (out.0@, out.1@) == begin(request@),
    {
        if request.identity().is_none() {
            return end(request, PipelineError::Resolution(String::from_str(MISSING_KEY)));
        }
        match request.content_type {
            ContentType::URL => {
                let url = request.url.clone();
                (Run { request, phase: Phase::AwaitPage }, Action::FetchPage { url })
            },
            ContentType::IMAGE => {
                if is_heic_url(request.url.as_str()) {
                    let job = ConversionJob::new(request.url.as_str());
                    (Run { request, phase: Phase::AwaitConversion }, Action::ConvertImage { job })
                } else {
                    let url = request.url.clone();
                    read(request, url)
                }
            },
            ContentType::BULK => {
                let text = request.url.clone();
                ask(request, text.as_str())
            },
        }
    }

    /// Takes the answer `event`: see [`next`]. `fresh` names the picture if
    /// one is uploaded now.
    pub fn step_with(self, event: Event, config: &Config, fresh: &str) -> (out: (Run, Action))
        ensures
            (out.0@, out.1@) == next(self@, event@, config@, fresh@),
    {
        let request = self.request;
        match self.phase {
            Phase::AwaitPage => on_page(request, event),
            Phase::AwaitConversion => on_conversion(request, event),
            Phase::AwaitText => on_text(request, event),
            Phase::AwaitCompletion => on_completion(request, event),
            Phase::AwaitDecode => on_decode(request, event),
            Phase::AwaitImage { recipe, fallback } => on_image(request, recipe, fallback, event),
            Phase::AwaitDownload { recipe } => on_download(request, recipe, event, fresh),
            Phase::AwaitUpload { recipe, file_name } => on_upload(
                request,
                recipe,
                file_name,
                event,
                config,
            ),
            Phase::AwaitStore => on_store(request, event),
            Phase::Notified { response } => (
                Run { request, phase: Phase::Notified { response } },
                Action::Rest,
            ),
        }
    }

    /// Takes the answer `event`: see [`next`]. A picture that is uploaded now
    /// gets a fresh random identifier for its name.
    pub fn step(self, event: Event, config: &Config) -> (out: (Run, Action))
        ensures
            exists|fresh: Seq<char>| #[trigger]
                is_hyphenated(fresh) == (self@.phase is AwaitDownload) && (out.0@, out.1@) == next(
                    self@,
                    event@,
                    config@,
                    fresh,
                ),
    {
        let fresh = if self.awaits_download() {
            generate_uuid()
        } else {
            String::new()
        };
        assert(is_hyphenated(fresh@) == (self@.phase is AwaitDownload));
        self.step_with(event, config, fresh.as_str())
    }
}

} // verus!
