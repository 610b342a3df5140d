//! The text recognition service: what it tells browsers about who may call
//! it, and where it keeps the picture that it reads.

use vstd::prelude::*;
use vstd::string::{StrSliceExecFns, StringExecFns};

use crate::chars::{concat, to_chars};

verus! {

/// The headers that let any page call the service.
#[derive(Clone, Copy, Debug, PartialEq, Eq, Structural)]
pub struct CORS;

/// What [`CORS`] does, in words.
pub const CORS_NAME: &'static str = "Attaching CORS headers to responses";

/// One header of a response.
#[derive(Clone, Debug, PartialEq, Eq)]
pub struct Header {
    pub name: String,
    pub value: String,
}

pub struct HeaderView {
    pub name: Seq<char>,
    pub value: Seq<char>,
}

impl View for Header {
    type V = HeaderView;

    open spec fn view(&self) -> HeaderView {
        HeaderView { name: self.name@, value: self.value@ }
    }
}

impl DeepView for Header {
    type V = HeaderView;

    open spec fn deep_view(&self) -> HeaderView {
        self@
    }
}

/// The headers that are set on every response.
pub open spec fn cors_headers() -> Seq<HeaderView> {
    seq![
        HeaderView { name: "Access-Control-Allow-Origin"@, value: "*"@ },
        HeaderView { name: "Access-Control-Allow-Methods"@, value: "POST, GET, PATCH, OPTIONS"@ },
        HeaderView { name: "Access-Control-Allow-Headers"@, value: "*"@ },
        HeaderView { name: "Access-Control-Allow-Credentials"@, value: "true"@ },
    ]
}

/// A header.
fn header(name: &str, value: &str) -> (header: Header)
    ensures
        header@ == (HeaderView { name: name@, value: value@ }),
{
    Header { name: String::from_str(name), value: String::from_str(value) }
}

impl CORS {
    /// The headers that are set on every response: see [`cors_headers`].
    pub fn headers(&self) -> (headers: Vec<Header>)
        ensures
            headers.deep_view() == cors_headers(),
    {
        let mut headers: Vec<Header> = Vec::new();
        headers.push(header("Access-Control-Allow-Origin", "*"));
        headers.push(header("Access-Control-Allow-Methods", "POST, GET, PATCH, OPTIONS"));
        headers.push(header("Access-Control-Allow-Headers", "*"));
        headers.push(header("Access-Control-Allow-Credentials", "true"));
        assert(headers.deep_view() =~= cors_headers());
        headers
    }
}

/// Why a picture could not be read.
#[derive(Clone, Debug, PartialEq, Eq)]
pub struct ImageError {
    pub message: String,
}

impl View for ImageError {
    type V = Seq<char>;

    open spec fn view(&self) -> Seq<char> {
        self.message@
    }
}

impl ImageError {
    /// The error in words.
    pub fn message(&self) -> (text: String)
        ensures
            text@ == self@,
    {
        self.message.clone()
    }
}

/// What follows the last `mark` in `text`; all of `text` if it holds no
/// `mark`.
pub open spec fn after_last(text: Seq<char>, mark: char) -> Seq<char>
    decreases text.len(),
{
    if text.len() == 0 || text.last() == mark {
        Seq::empty()
    } else {
        after_last(text.drop_last(), mark).push(text.last())
    }
}

/// The extension of the file that an address names: what follows the last
/// `.` in what follows the last `/`. An address whose last part holds no
/// `.` has that whole part as its extension.
pub open spec fn extension(url: Seq<char>) -> Seq<char> {
    after_last(after_last(url, '/'), '.')
}

/// Where the picture is kept while it is read.
pub open spec fn image_path(extension: Seq<char>) -> Seq<char> {
    "/tmp/image."@ + extension
}

/// What follows the last `mark` is what follows the last `mark` of any
/// beginning of the text after which no `mark` comes, and the rest.
pub proof fn lemma_after_last(text: Seq<char>, mark: char, from: int)
    requires
        0 <= from <= text.len(),
        forall|i: int| from <= i < text.len() ==> text[i] != mark,
    ensures
        after_last(text, mark) == after_last(text.take(from), mark) + text.skip(from),
    decreases text.len() - from,
{
    if from == text.len() {
        assert(text.take(from) == text);
        assert(text.skip(from) == Seq::<char>::empty());
        assert(after_last(text, mark) + Seq::<char>::empty() == after_last(text, mark));
    } else {
        let front = text.drop_last();
        lemma_after_last(front, mark, from);
        assert(front.take(from) == text.take(from));
        assert(front.skip(from).push(text.last()) == text.skip(from));
        assert((after_last(front.take(from), mark) + front.skip(from)).push(text.last())
            == after_last(text.take(from), mark) + text.skip(from));
    }
}

/// Where what follows the last `mark` begins, looking no further back than
/// `floor`.
fn start_after_last(text: &Vec<char>, floor: usize, mark: char) -> (start: usize)
    requires
        floor <= text.len(),
    ensures
        floor <= start <= text.len(),
        after_last(text@.skip(floor as int), mark) == text@.skip(start as int),
{
    let ghost part = text@.skip(floor as int);
    let mut start = text.len();
    while start > floor && text[start - 1] != mark
        invariant
            floor <= start <= text.len(),
            part == text@.skip(floor as int),
            forall|i: int| start - floor <= i < part.len() ==> part[i] != mark,
        decreases start,
    {
        start -= 1;
    }
    proof {
        let cut = start - floor;
        lemma_after_last(part, mark, cut);
        assert(part.skip(cut) == text@.skip(start as int));
        if cut > 0 {
            assert(part.take(cut).last() == text[start - 1]);
        }
        assert(after_last(part.take(cut), mark) == Seq::<char>::empty());
        assert(Seq::<char>::empty() + part.skip(cut) == part.skip(cut));
    }
    start
}

/// The extension of the file that an address names: see [`extension`].
/// Every address has one.
pub fn get_image_extension(url: &str) -> (found: Option<&str>)
    ensures
        found is Some,
        found->Some_0@ == extension(url@),
{
    let text = to_chars(url);
    let name = start_after_last(&text, 0, '/');
    assert(text@.skip(0) == text@);
    let dot = start_after_last(&text, name, '.');
    assert(text@.skip(dot as int) == text@.subrange(dot as int, text.len() as int));
    Some(url.substring_char(dot, text.len()))
}

/// Whether to go on waiting for a file: `Some(true)` says that the file
/// is there, `Some(false)` that it was looked for `max_retries` times in
/// vain, and `None` that it is to be looked for once more.
pub open spec fn waiting(found: bool, retries: nat, max_retries: nat) -> Option<bool> {
    if found {
        Some(true)
    } else if retries >= max_retries {
        Some(false)
    } else {
        None
    }
}

/// Whether to go on waiting for a file, after it was looked for `retries`
/// times before and `found` says what the last look gave: see [`waiting`].
pub fn keep_waiting(found: bool, retries: usize, max_retries: usize) -> (answer: Option<bool>)
    ensures
        answer == waiting(found, retries as nat, max_retries as nat),
{
    if found {
        Some(true)
    } else if retries >= max_retries {
        Some(false)
    } else {
        None
    }
}

/// Where the picture with the given extension is kept while it is read.
pub fn image_file(extension: &str) -> (path: String)
    ensures
        path@ == image_path(extension@),
{
    concat("/tmp/image.", extension)
}

} // verus!
