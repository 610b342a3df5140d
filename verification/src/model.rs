//! The values that travel through the service: what a client asks for, what
//! the worker is handed, what the model returns and what is reported back.

use vstd::prelude::*;

verus! {

/// What kind of source a request names.
#[derive(Clone, Copy, Debug, PartialEq, Eq, Structural)]
pub enum ContentType {
    /// The address of a web page that holds a recipe.
    URL,
    /// The address of a photograph or scan of a recipe.
    IMAGE,
    /// The recipe's text itself.
    BULK,
}

/// A client's request to add a recipe.
#[derive(Clone, Debug, PartialEq, Eq)]
pub struct URLRequest {
    /// The page address, the image address or the text, by `content_type`.
    pub url: String,
    pub content_type: ContentType,
    /// Whom the recipe is credited to, where that is not the source itself.
    pub credit: Option<String>,
    /// The key to store the recipe under where the source is no page.
    pub uuid: Option<String>,
}

/// A request as the worker receives it: the client's request and the queue
/// that waits for the worker's report.
#[derive(Clone, Debug, PartialEq, Eq)]
pub struct WorkerRequest {
    pub url: String,
    pub content_type: ContentType,
    pub credit: Option<String>,
    pub uuid: Option<String>,
    /// The queue to report to.
    pub sqs_url: String,
}

/// A recipe as the model structures it.
#[derive(Clone, Debug, PartialEq, Eq)]
pub struct Recipe {
    pub name: String,
    /// The ingredient lines, section headers among them, in order.
    pub ingredients: Vec<String>,
    /// The steps, section headers among them, in order.
    pub instructions: Vec<String>,
    pub notes: String,
    pub summary: String,
}

/// What a stage hands on when it succeeds.
#[derive(Clone, Debug, PartialEq, Eq)]
pub struct SuccessResponse {
    pub body: String,
}

/// What a stage hands on when it fails: the cause, in words.
#[derive(Clone, Debug, PartialEq, Eq)]
pub struct FailureResponse {
    pub body: String,
}

/// The report on one request, as it is sent to the request's queue.
#[derive(Clone, Debug, PartialEq, Eq)]
pub struct SqsResponse {
    pub status_code: u16,
    pub body: String,
}

/// What the text recognition service is asked: the image to read.
#[derive(Clone, Debug, PartialEq, Eq)]
pub struct TesseractRequest {
    pub url: String,
}

/// What the text recognition service answers: the text it read.
#[derive(Clone, Debug, PartialEq, Eq)]
pub struct TesseractResponse {
    pub contents: String,
}

pub struct URLRequestView {
    pub url: Seq<char>,
    pub content_type: ContentType,
    pub credit: Option<Seq<char>>,
    pub uuid: Option<Seq<char>>,
}

pub struct WorkerRequestView {
    pub url: Seq<char>,
    pub content_type: ContentType,
    pub credit: Option<Seq<char>>,
    pub uuid: Option<Seq<char>>,
    pub sqs_url: Seq<char>,
}

pub struct RecipeView {
    pub name: Seq<char>,
    pub ingredients: Seq<Seq<char>>,
    pub instructions: Seq<Seq<char>>,
    pub notes: Seq<char>,
    pub summary: Seq<char>,
}

pub struct SqsResponseView {
    pub status_code: u16,
    pub body: Seq<char>,
}

impl View for URLRequest {
    type V = URLRequestView;

    open spec fn view(&self) -> URLRequestView {
        URLRequestView {
            url: self.url@,
            content_type: self.content_type,
            credit: self.credit.deep_view(),
            uuid: self.uuid.deep_view(),
        }
    }
}

impl View for WorkerRequest {
    type V = WorkerRequestView;

    open spec fn view(&self) -> WorkerRequestView {
        WorkerRequestView {
            url: self.url@,
            content_type: self.content_type,
            credit: self.credit.deep_view(),
            uuid: self.uuid.deep_view(),
            sqs_url: self.sqs_url@,
        }
    }
}

impl DeepView for WorkerRequest {
    type V = WorkerRequestView;

    open spec fn deep_view(&self) -> WorkerRequestView {
        self@
    }
}

impl View for Recipe {
    type V = RecipeView;

    open spec fn view(&self) -> RecipeView {
        RecipeView {
            name: self.name@,
            ingredients: self.ingredients.deep_view(),
            instructions: self.instructions.deep_view(),
            notes: self.notes@,
            summary: self.summary@,
        }
    }
}

impl View for SqsResponse {
    type V = SqsResponseView;

    open spec fn view(&self) -> SqsResponseView {
        SqsResponseView { status_code: self.status_code, body: self.body@ }
    }
}

impl View for SuccessResponse {
    type V = Seq<char>;

    open spec fn view(&self) -> Seq<char> {
        self.body@
    }
}

impl View for FailureResponse {
    type V = Seq<char>;

    open spec fn view(&self) -> Seq<char> {
        self.body@
    }
}

impl View for TesseractRequest {
    type V = Seq<char>;

    open spec fn view(&self) -> Seq<char> {
        self.url@
    }
}

impl View for TesseractResponse {
    type V = Seq<char>;

    open spec fn view(&self) -> Seq<char> {
        self.contents@
    }
}

/// The key that a request's recipe is stored under: the page address for a
/// page, the request's own key for an image or a text. A request for an
/// image or a text that brings no key has none.
pub open spec fn identity(
    url: Seq<char>,
    content_type: ContentType,
    uuid: Option<Seq<char>>,
) -> Option<Seq<char>> {
    match content_type {
        ContentType::URL => Some(url),
        ContentType::IMAGE => uuid,
        ContentType::BULK => uuid,
    }
}

impl RecipeView {
    /// A structured recipe lists at least one ingredient and one step.
    pub open spec fn complete(self) -> bool {
        self.ingredients.len() > 0 && self.instructions.len() > 0
    }
}

impl URLRequestView {
    /// The key that the recipe is stored under: see [`identity`].
    pub open spec fn identity(self) -> Option<Seq<char>> {
        identity(self.url, self.content_type, self.uuid)
    }

    /// The request as the worker receives it.
    pub open spec fn for_worker(self, sqs_url: Seq<char>) -> WorkerRequestView {
        WorkerRequestView {
            url: self.url,
            content_type: self.content_type,
            credit: self.credit,
            uuid: self.uuid,
            sqs_url,
        }
    }
}

impl WorkerRequestView {
    /// The key that the recipe is stored under: see [`identity`].
    pub open spec fn identity(self) -> Option<Seq<char>> {
        identity(self.url, self.content_type, self.uuid)
    }
}

/// The report on a request whose work ended as `result` says: a success
/// is reported with the status 200, a failure with the status 500, each
/// with its body.
pub open spec fn response_of(result: Result<Seq<char>, Seq<char>>) -> SqsResponseView {
    match result {
        Ok(body) => SqsResponseView { status_code: 200, body },
        Err(body) => SqsResponseView { status_code: 500, body },
    }
}

impl SqsResponse {
    /// The report on a request whose work ended as `result` says: see
    /// [`response_of`].
    pub fn new(result: Result<SuccessResponse, FailureResponse>) -> (response: SqsResponse)
        ensures
            response@ == response_of(
                match result {
                    Ok(success) => Ok(success@),
                    Err(failure) => Err(failure@),
                },
            ),
    {
        match result {
            Ok(s) => SqsResponse { status_code: 200, body: s.body },
            Err(e) => SqsResponse { status_code: 500, body: e.body },
        }
    }
}

impl FailureResponse {
    /// The cause of the failure, in words.
    pub fn message(&self) -> (text: String)
        ensures
            text@ == self@,
    {
        self.body.clone()
    }
}

/// A copy of an optional string.
pub fn copy_option(text: &Option<String>) -> (copy: Option<String>)
    ensures
        copy.deep_view() == text.deep_view(),
{
    match text {
        Some(s) => Some(s.clone()),
        None => None,
    }
}

impl URLRequest {
    /// The key that the recipe is stored under, if the request has one.
    pub fn identity(&self) -> (key: Option<String>)
        ensures
            key.deep_view() == self@.identity(),
    {
        match self.content_type {
            ContentType::URL => Some(self.url.clone()),
            ContentType::IMAGE => copy_option(&self.uuid),
            ContentType::BULK => copy_option(&self.uuid),
        }
    }
}

impl WorkerRequest {
    /// The request to hand to the worker: the client's request and the queue
    /// on which the client waits for the report.
    pub fn new(request: URLRequest, sqs_url: String) -> (message: WorkerRequest)
        ensures
            message@ == request@.for_worker(sqs_url@),
    {
        WorkerRequest {
            url: request.url,
            content_type: request.content_type,
            credit: request.credit,
            uuid: request.uuid,
            sqs_url,
        }
    }

    /// The key that the recipe is stored under, if the request has one.
    pub fn identity(&self) -> (key: Option<String>)
        ensures
            key.deep_view() == self@.identity(),
    {
        match self.content_type {
            ContentType::URL => Some(self.url.clone()),
            ContentType::IMAGE => copy_option(&self.uuid),
            ContentType::BULK => copy_option(&self.uuid),
        }
    }
}

impl Recipe {
    /// Whether the recipe lists at least one ingredient and one step.
    pub fn is_complete(&self) -> (complete: bool)
        ensures
            complete == self@.complete(),
    {
        self.ingredients.len() > 0 && self.instructions.len() > 0
    }
}

} // verus!
