//! The picture of a recipe: what the image model is asked for, how the
//! generated picture is named and addressed once it is uploaded, and what
//! stands in for it when no picture could be made.

use vstd::prelude::*;
use vstd::string::StringExecFns;

use crate::chars::concat;

verus! {

/// The address that is stored as a recipe's image when none could be
/// generated or uploaded.
pub const PLACEHOLDER_IMAGE: &'static str =
    "https://arweave.net/imiGGOP3GIoPcVUJAoZIaBI7DqQRZ7nPSiqunzMIMxQ";

/// What the second request for a picture puts before the recipe's name.
pub const TITLE_PROMPT: &'static str = "A realistic photo of ";

/// The ending of the name of an uploaded picture.
pub const IMAGE_SUFFIX: &'static str = ".jpg";

/// What went wrong on the way to a picture. None of it makes a request
/// fail: the recipe is stored with the placeholder instead.
#[derive(Clone, Copy, Debug, PartialEq, Eq, Structural)]
pub enum ImagingError {
    /// The image model gave no picture, asked by the summary and by the name.
    Generation,
    /// The generated picture could not be downloaded.
    Download,
    /// The downloaded picture did not come through its base64 text.
    Transfer,
    /// The picture could not be uploaded.
    Upload,
}

/// The address that is stored as a recipe's picture: that of the uploaded
/// picture where there is one, the placeholder where anything went wrong.
pub open spec fn image_or_placeholder(outcome: Result<Seq<char>, ImagingError>) -> Seq<char> {
    match outcome {
        Ok(url) => url,
        Err(_) => PLACEHOLDER_IMAGE@,
    }
}

/// The address that is stored as a recipe's picture: see
/// [`image_or_placeholder`].
pub fn chosen_image(outcome: Result<String, ImagingError>) -> (url: String)
    ensures
        url@ == image_or_placeholder(
            match outcome {
                Ok(url) => Ok(url@),
                Err(error) => Err(error),
            },
        ),
{
    match outcome {
        Ok(url) => url,
        Err(_) => String::from_str(PLACEHOLDER_IMAGE),
    }
}

/// What the image model is asked for first: the recipe's summary.
pub open spec fn primary_prompt(summary: Seq<char>) -> Seq<char> {
    summary
}

/// What the image model is asked for after the first request failed.
pub open spec fn fallback_prompt(name: Seq<char>) -> Seq<char> {
    TITLE_PROMPT@ + name
}

/// The name under which a picture is uploaded.
pub open spec fn file_name(id: Seq<char>) -> Seq<char> {
    id + IMAGE_SUFFIX@
}

/// The public address of the object `file_name` in `bucket`.
pub open spec fn public_url(bucket: Seq<char>, region: Seq<char>, file_name: Seq<char>) -> Seq<
    char,
> {
    "https://"@ + bucket + ".s3."@ + region + ".amazonaws.com/"@ + file_name
}

/// What the image model is asked for after the first request failed: see
/// [`fallback_prompt`].
pub fn title_prompt(name: &str) -> (prompt: String)
    ensures
        prompt@ == fallback_prompt(name@),
{
    concat(TITLE_PROMPT, name)
}

/// The name under which the picture with the identifier `id` is uploaded.
pub fn image_file_name(id: &str) -> (name: String)
    ensures
        name@ == file_name(id@),
{
    concat(id, IMAGE_SUFFIX)
}

/// The public address of the object `file_name` in `bucket`: see
/// [`public_url`].
pub fn image_url(bucket: &str, region: &str, file_name: &str) -> (url: String)
    ensures
        url@ == public_url(bucket@, region@, file_name@),
{
    let url = concat("https://", bucket);
    let url = concat(url.as_str(), ".s3.");
    let url = concat(url.as_str(), region);
    let url = concat(url.as_str(), ".amazonaws.com/");
    concat(url.as_str(), file_name)
}

/// The standard base64 text of `bytes`, with padding.
pub uninterp spec fn base64_text(bytes: Seq<u8>) -> Seq<char>;

/// The bytes that the standard base64 text `text` stands for; `None` where
/// `text` is no such text.
pub uninterp spec fn base64_bytes(text: Seq<char>) -> Option<Seq<u8>>;

/// Whether the base64 text of so many bytes has a length that fits the
/// machine.
pub open spec fn encodable(length: nat) -> bool {
    length <= usize::MAX / 4 * 3
}

/// `base64::encode`: the text of `bytes` under the crate's standard engine.
/// The crate computes the text's length first and panics where it does not
/// fit in `usize`, which [`encodable`] rules out. The result depends on the
/// bytes alone: it is what [`base64_text`] names.
#[allow(deprecated)]
#[verifier::external_body]
pub(crate) fn encode(bytes: &Vec<u8>) -> (text: String)
    requires
        encodable(bytes.len() as nat),
    ensures
        text@ == base64_text(bytes@),
{
    base64::encode(bytes)
}

/// `base64::decode`: the bytes of `text` under the crate's standard engine,
/// `None` where the crate reports an error. The result depends on the text
/// alone: it is what [`base64_bytes`] names.
#[allow(deprecated)]
#[verifier::external_body]
pub(crate) fn decode(text: &str) -> (bytes: Option<Vec<u8>>)
    ensures
        match base64_bytes(text@) {
            Some(decoded) => bytes is Some && bytes->Some_0@ == decoded,
            None => bytes is None,
        },
{
    base64::decode(text).ok()
}

/// The bytes that are uploaded for a picture that was downloaded as
/// `downloaded`: the picture goes through its base64 text and back. There
/// are none where the picture is too long to have such a text or the text
/// does not read back.
pub open spec fn transfer(downloaded: Seq<u8>) -> Option<Seq<u8>> {
    if encodable(downloaded.len()) {
        base64_bytes(base64_text(downloaded))
    } else {
        None
    }
}

/// The base64 text of a downloaded picture, where it has one.
pub fn encode_image(downloaded: &Vec<u8>) -> (text: Option<String>)
    ensures
        text.deep_view() == if encodable(downloaded@.len()) {
            Some(base64_text(downloaded@))
        } else {
            None
        },
{
    if downloaded.len() <= usize::MAX / 4 * 3 {
        Some(encode(downloaded))
    } else {
        None
    }
}

/// The picture that a base64 text stands for, where it stands for one.
pub fn decode_image(text: &str) -> (bytes: Option<Vec<u8>>)
    ensures
        match base64_bytes(text@) {
            Some(decoded) => bytes is Some && bytes->Some_0@ == decoded,
            None => bytes is None,
        },
{
    decode(text)
}

/// The bytes to upload for a downloaded picture: see [`transfer`].
pub fn prepare_upload(downloaded: &Vec<u8>) -> (bytes: Option<Vec<u8>>)
    ensures
        match transfer(downloaded@) {
            Some(sent) => bytes is Some && bytes->Some_0@ == sent,
            None => bytes is None,
        },
{
    match encode_image(downloaded) {
        Some(text) => decode_image(text.as_str()),
        None => None,
    }
}

/// Whether `c` is a digit of lower-case hexadecimal.
pub open spec fn is_hex_digit(c: char) -> bool {
    ('0' <= c <= '9') || ('a' <= c <= 'f')
}

/// Whether `id` has the shape of a hyphenated identifier: 32 hexadecimal
/// digits in groups of 8, 4, 4, 4 and 12 with a hyphen between neighbours.
pub open spec fn is_hyphenated(id: Seq<char>) -> bool {
    &&& id.len() == 36
    &&& forall|i: int|
        0 <= i < 36 ==> if i == 8 || i == 13 || i == 18 || i == 23 {
            id[i] == '-'
        } else {
            is_hex_digit(#[trigger] id[i])
        }
}

/// `uuid::Uuid::new_v4` and the identifier's `to_string`: a fresh random
/// identifier in hyphenated lower-case form. Which one is left open: two
/// calls differ. The crate takes its random bytes from the system and
/// panics where the system gives none.
#[verifier::external_body]
pub(crate) fn generate_uuid() -> (id: String)
    ensures
        is_hyphenated(id@),
{
    uuid::Uuid::new_v4().to_string()
}

/// A fresh random identifier in hyphenated form.
pub fn fresh_id() -> (id: String)
    ensures
        is_hyphenated(id@),
{
    generate_uuid()
}

/// A name for a picture that is about to be uploaded: a fresh identifier
/// and the picture suffix.
pub fn fresh_file_name() -> (name: String)
    ensures
        exists|id: Seq<char>| is_hyphenated(id) && name@ == file_name(id),
{
    let id = generate_uuid();
    image_file_name(id.as_str())
}

} // verus!
