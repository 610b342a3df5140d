//! From a model's reply to the text of the JSON object in it.

use vstd::prelude::*;

use vstd::string::StringExecFns;

use crate::chars::{concat, find, lemma_position_is, position, substring, to_chars};
use crate::model::{Recipe, RecipeView};

verus! {

/// The instruction that precedes the page text in the request to the model.
pub const PROMPT: &'static str =
    "Parse the recipe from the web page content and format it in JSON with the following structure: {name: <str>, ingredients: [], instructions: [], notes: <str>, summary: <str>}. If the words don't have spaces, add spaces so it's readable. Ensure the ingredients and instructions are a list of strings, if they have sections, just add the header as an item in the list.";

/// What the model is sent for a text: the instruction, a space and the
/// text.
pub open spec fn message(contents: Seq<char>) -> Seq<char> {
    PROMPT@ + seq![' '] + contents
}

/// What the model is sent for a text: see [`message`].
pub fn compose_message(contents: &str) -> (text: String)
    ensures
        text@ == message(contents@),
{
    let head = concat(PROMPT, " ");
    proof {
        reveal_strlit(" ");
        assert(" "@ =~= seq![' ']);
    }
    concat(head.as_str(), contents)
}

/// Why no recipe could be taken from the model.
#[derive(Clone, Debug, PartialEq, Eq)]
pub enum ExtractionError {
    /// The request to the model failed; the cause, in words.
    Transport(String),
    /// The model replied without content.
    NoContent,
    /// The reply holds no span that could be a JSON object.
    NoObject,
    /// The span is no recipe; what is wrong with it, in words.
    Shape(String),
}

pub enum ExtractionErrorView {
    Transport(Seq<char>),
    NoContent,
    NoObject,
    Shape(Seq<char>),
}

impl View for ExtractionError {
    type V = ExtractionErrorView;

    open spec fn view(&self) -> ExtractionErrorView {
        match self {
            ExtractionError::Transport(cause) => ExtractionErrorView::Transport(cause@),
            ExtractionError::NoContent => ExtractionErrorView::NoContent,
            ExtractionError::NoObject => ExtractionErrorView::NoObject,
            ExtractionError::Shape(cause) => ExtractionErrorView::Shape(cause@),
        }
    }
}

/// What is wrong with a recipe that lacks ingredients or steps.
pub const INCOMPLETE: &'static str = "ingredients and instructions must not be empty";

impl ExtractionErrorView {
    /// The error in words.
    pub open spec fn description(self) -> Seq<char> {
        match self {
            ExtractionErrorView::Transport(cause) => "Error getting response from OpenAI: "@
                + cause,
            ExtractionErrorView::NoContent => "Could not get message content"@,
            ExtractionErrorView::NoObject => "Error parsing recipe contents!"@,
            ExtractionErrorView::Shape(cause) => "Error parsing JSON "@ + cause,
        }
    }
}

impl ExtractionError {
    /// The error in words.
    pub fn description(&self) -> (text: String)
        ensures
            text@ == self@.description(),
    {
        match self {
            ExtractionError::Transport(cause) => concat(
                "Error getting response from OpenAI: ",
                cause.as_str(),
            ),
            ExtractionError::NoContent => String::from_str("Could not get message content"),
            ExtractionError::NoObject => String::from_str("Error parsing recipe contents!"),
            ExtractionError::Shape(cause) => concat("Error parsing JSON ", cause.as_str()),
        }
    }
}

/// The text of the JSON object in the model's reply, where the reply has
/// content and the content holds such a text.
pub open spec fn reply_object(content: Option<Seq<char>>) -> Result<
    Seq<char>,
    ExtractionErrorView,
> {
    match content {
        None => Err(ExtractionErrorView::NoContent),
        Some(content) => match json_span(content) {
            Some(json) => Ok(json),
            None => Err(ExtractionErrorView::NoObject),
        },
    }
}

/// A decoded recipe is accepted where it lists at least one ingredient and
/// one step.
pub open spec fn accepted(recipe: RecipeView) -> Result<RecipeView, ExtractionErrorView> {
    if recipe.complete() {
        Ok(recipe)
    } else {
        Err(ExtractionErrorView::Shape(INCOMPLETE@))
    }
}

/// The span of `text` that is taken for a JSON object: from the first `{`
/// to the first `}`, both included. There is none when either brace is
/// missing or the first `}` stands before the first `{`.
///
/// The scan does not count braces: an object that holds another object is
/// cut at the inner object's end.
pub open spec fn json_span(text: Seq<char>) -> Option<Seq<char>> {
    let open = position(text, '{');
    let close = position(text, '}');
    if open < close < text.len() {
        Some(text.subrange(open, close + 1))
    } else {
        None
    }
}

/// Whether `text` holds neither brace.
pub open spec fn brace_free(text: Seq<char>) -> bool {
    forall|i: int| 0 <= i < text.len() ==> text[i] != '{' && text[i] != '}'
}

/// A reply that holds one object without braces inside it, after text
/// without braces, gives exactly that object, whatever follows it.
pub proof fn lemma_flat_object_is_found(before: Seq<char>, inside: Seq<char>, after: Seq<char>)
    requires
        brace_free(before),
        brace_free(inside),
    ensures
        json_span(before + seq!['{'] + inside + seq!['}'] + after) == Some(
            seq!['{'] + inside + seq!['}'],
        ),
{
    let text = before + seq!['{'] + inside + seq!['}'] + after;
    let open = before.len() as int;
    let close = open + 1 + inside.len();
    assert forall|i: int| 0 <= i < close implies text[i] != '}' by {
        if i < open {
            assert(text[i] == before[i]);
        } else if i > open {
            assert(text[i] == inside[i - open - 1]);
        }
    }
    assert forall|i: int| 0 <= i < open implies text[i] != '{' by {
        assert(text[i] == before[i]);
    }
    lemma_position_is(text, '{', open);
    lemma_position_is(text, '}', close);
    assert(text.subrange(open, close + 1) == seq!['{'] + inside + seq!['}']);
}

/// A reply whose object holds another object is cut at the first `}`: the
/// span ends with the inner object and lacks the outer object's end.
pub proof fn lemma_nested_object_is_cut(
    before: Seq<char>,
    head: Seq<char>,
    inner: Seq<char>,
    after: Seq<char>,
)
    requires
        brace_free(before),
        brace_free(head),
        brace_free(inner),
    ensures
        json_span(before + seq!['{'] + head + seq!['{'] + inner + seq!['}'] + after) == Some(
            seq!['{'] + head + seq!['{'] + inner + seq!['}'],
        ),
{
    let text = before + seq!['{'] + head + seq!['{'] + inner + seq!['}'] + after;
    let open = before.len() as int;
    let second = open + 1 + head.len();
    let close = second + 1 + inner.len();
    assert forall|i: int| 0 <= i < close implies text[i] != '}' by {
        if i < open {
            assert(text[i] == before[i]);
        } else if open < i < second {
            assert(text[i] == head[i - open - 1]);
        } else if i > second {
            assert(text[i] == inner[i - second - 1]);
        }
    }
    assert forall|i: int| 0 <= i < open implies text[i] != '{' by {
        assert(text[i] == before[i]);
    }
    lemma_position_is(text, '{', open);
    lemma_position_is(text, '}', close);
    assert(text.subrange(open, close + 1) == seq!['{'] + head + seq!['{'] + inner + seq!['}']);
}

/// The text of the JSON object in a model's reply: see [`json_span`].
pub fn extract_json(json_string: &str) -> (span: Option<String>)
    ensures
        span.deep_view() == json_span(json_string@),
{
    let text = to_chars(json_string);
    let open = find(&text, '{');
    let close = find(&text, '}');
    if open < close && close < text.len() {
        Some(substring(&text, open, close + 1))
    } else {
        None
    }
}

/// The text of the JSON object in the model's reply: see [`reply_object`].
pub fn object_of_reply(content: Option<String>) -> (json: Result<String, ExtractionError>)
    ensures
        match reply_object(content.deep_view()) {
            Ok(span) => json is Ok && json->Ok_0@ == span,
            Err(error) => json is Err && json->Err_0@ == error,
        },
{
    match content {
        None => Err(ExtractionError::NoContent),
        Some(content) => match extract_json(content.as_str()) {
            Some(json) => Ok(json),
            None => Err(ExtractionError::NoObject),
        },
    }
}

/// Whether a decoded recipe is accepted: see [`accepted`].
pub fn accept(recipe: Recipe) -> (checked: Result<Recipe, ExtractionError>)
    ensures
        match accepted(recipe@) {
            Ok(_) => checked == Ok::<Recipe, ExtractionError>(recipe),
            Err(error) => checked is Err && checked->Err_0@ == error,
        },
{
    if recipe.is_complete() {
        Ok(recipe)
    } else {
        Err(ExtractionError::Shape(String::from_str(INCOMPLETE)))
    }
}

} // verus!
