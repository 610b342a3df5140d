//! Reading a picture with a vision model: the request that asks the model
//! for the text in the picture.

use vstd::prelude::*;
use vstd::string::StringExecFns;

verus! {

/// The question that goes with the picture.
pub const PROMPT: &'static str = "What is the text in this image?";

/// The model that is asked.
pub const MODEL: &'static str = "gpt-4-vision-preview";

/// How many tokens the answer may have.
pub const MAX_TOKENS: u16 = 300;

/// Where a picture is.
#[derive(Clone, Debug, PartialEq, Eq)]
pub struct OpenAIImageURL {
    pub url: String,
}

/// A part of a message that is text.
#[derive(Clone, Debug, PartialEq, Eq)]
pub struct OpenAITextContent {
    pub content_type: String,
    pub text: String,
}

/// A part of a message that is a picture.
#[derive(Clone, Debug, PartialEq, Eq)]
pub struct OpenAIImageContent {
    pub content_type: String,
    pub image_url: OpenAIImageURL,
}

/// A part of a message.
#[derive(Clone, Debug, PartialEq, Eq)]
pub enum OpenAIContent {
    TextContent(OpenAITextContent),
    ImageContent(OpenAIImageContent),
}

/// A message: who says it, and its parts.
#[derive(Clone, Debug, PartialEq, Eq)]
pub struct OpenAIMessage {
    pub role: String,
    pub content: Vec<OpenAIContent>,
}

/// A request to the model.
#[derive(Clone, Debug, PartialEq, Eq)]
pub struct OpenAIRequest {
    pub model: String,
    pub messages: Vec<OpenAIMessage>,
    pub max_tokens: u16,
}

/// What the model answers.
#[derive(Clone, Debug, PartialEq, Eq)]
pub struct OpenAIResponse {
    pub json: String,
}

pub enum OpenAIContentView {
    TextContent { content_type: Seq<char>, text: Seq<char> },
    ImageContent { content_type: Seq<char>, url: Seq<char> },
}

pub struct OpenAIMessageView {
    pub role: Seq<char>,
    pub content: Seq<OpenAIContentView>,
}

pub struct OpenAIRequestView {
    pub model: Seq<char>,
    pub messages: Seq<OpenAIMessageView>,
    pub max_tokens: u16,
}

impl View for OpenAIContent {
    type V = OpenAIContentView;

    open spec fn view(&self) -> OpenAIContentView {
        match self {
            OpenAIContent::TextContent(part) => OpenAIContentView::TextContent {
                content_type: part.content_type@,
                text: part.text@,
            },
            OpenAIContent::ImageContent(part) => OpenAIContentView::ImageContent {
                content_type: part.content_type@,
                url: part.image_url.url@,
            },
        }
    }
}

impl DeepView for OpenAIContent {
    type V = OpenAIContentView;

    open spec fn deep_view(&self) -> OpenAIContentView {
        self@
    }
}

impl View for OpenAIMessage {
    type V = OpenAIMessageView;

    open spec fn view(&self) -> OpenAIMessageView {
        OpenAIMessageView { role: self.role@, content: self.content.deep_view() }
    }
}

impl DeepView for OpenAIMessage {
    type V = OpenAIMessageView;

    open spec fn deep_view(&self) -> OpenAIMessageView {
        self@
    }
}

impl View for OpenAIRequest {
    type V = OpenAIRequestView;

    open spec fn view(&self) -> OpenAIRequestView {
        OpenAIRequestView {
            model: self.model@,
            messages: self.messages.deep_view(),
            max_tokens: self.max_tokens,
        }
    }
}

/// The request that asks for the text in the picture at `url`: one message
/// of the user, made of the question and the picture.
pub open spec fn reading_request(url: Seq<char>) -> OpenAIRequestView {
    OpenAIRequestView {
        model: MODEL@,
        messages: seq![
            OpenAIMessageView {
                role: "user"@,
                content: seq![
                    OpenAIContentView::TextContent { content_type: "text"@, text: PROMPT@ },
                    OpenAIContentView::ImageContent { content_type: "image_url"@, url },
                ],
            },
        ],
        max_tokens: MAX_TOKENS,
    }
}

impl OpenAIRequest {
    /// The request that asks for the text in the picture at `url`: see
    /// [`reading_request`].
    pub fn from(url: String) -> (request: OpenAIRequest)
        ensures
            request@ == reading_request(url@),
    {
        let image_url = OpenAIImageURL { url };
        let prompt_content = OpenAITextContent {
            content_type: String::from_str("text"),
            text: String::from_str(PROMPT),
        };
        let image_content = OpenAIImageContent {
            content_type: String::from_str("image_url"),
            image_url,
        };
        let mut content: Vec<OpenAIContent> = Vec::new();
        content.push(OpenAIContent::TextContent(prompt_content));
        content.push(OpenAIContent::ImageContent(image_content));
        let message = OpenAIMessage { role: String::from_str("user"), content };
        let mut messages: Vec<OpenAIMessage> = Vec::new();
        messages.push(message);
        let request = OpenAIRequest {
            model: String::from_str(MODEL),
            messages,
            max_tokens: MAX_TOKENS,
        };
        proof {
            let wanted = reading_request(url@);
            assert(request@.messages[0].content =~= wanted.messages[0].content);
            assert(request@.messages =~= wanted.messages);
        }
        request
    }
}

} // verus!
