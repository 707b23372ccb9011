//! The wire-level data model: messages, content items, request and response
//! bodies, and their mathematical views.
use vstd::prelude::*;

verus! {

/// Who speaks a turn.
#[derive(Clone, Copy, PartialEq, Eq, Structural, Debug)]
pub enum Role {
    System,
    User,
    Assistant,
}

/// The reference to an image: an `http(s)://` URL or a `data:` URI.
#[derive(Clone, Debug)]
pub struct ImageUrl {
    pub url: String,
}

/// One part of a turn's payload.
#[derive(Clone, Debug)]
pub enum ContentItem {
    Text { text: String },
    ImageUrl { image_url: ImageUrl },
}

/// One turn of the conversation.
#[derive(Clone, Debug)]
pub struct Message {
    pub role: Role,
    pub content: Vec<ContentItem>,
}

/// What a content item holds, as plain text.
pub enum ContentView {
    Text(Seq<char>),
    Image(Seq<char>),
}

/// What a message holds.
pub struct MessageView {
    pub role: Role,
    pub content: Seq<ContentView>,
}

impl View for ContentItem {
    type V = ContentView;

    open spec fn view(&self) -> ContentView {
        match self {
            ContentItem::Text { text } => ContentView::Text(text@),
            ContentItem::ImageUrl { image_url } => ContentView::Image(image_url.url@),
        }
    }
}

impl View for Message {
    type V = MessageView;

    open spec fn view(&self) -> MessageView {
        MessageView { role: self.role, content: self.content@.map_values(|c: ContentItem| c@) }
    }
}

/// The views of a sequence of messages, in order.
pub open spec fn messages_view(ms: Seq<Message>) -> Seq<MessageView> {
    ms.map_values(|m: Message| m@)
}

/// A message of a single text part.
pub open spec fn text_message(role: Role, text: Seq<char>) -> MessageView {
    MessageView { role, content: seq![ContentView::Text(text)] }
}

/// A message of a single content part.
pub open spec fn single_message(role: Role, item: ContentView) -> MessageView {
    MessageView { role, content: seq![item] }
}

/// Options of a streamed request.
#[derive(Clone, Copy, Debug)]
pub struct StreamOptions {
    pub include_usage: bool,
}

/// The body of a chat-completion request.
pub struct RequestBody {
    pub model: String,
    pub messages: Vec<Message>,
    pub stream: bool,
    pub stream_options: StreamOptions,
}

/// One incremental fragment of a streamed reply.
#[derive(Debug)]
pub struct Delta {
    pub content: Option<String>,
    pub reasoning_content: Option<String>,
}

/// Why a streamed reply ended; `Unknown` stands for any reason not listed.
#[derive(Clone, Copy, PartialEq, Eq, Structural, Debug)]
pub enum FinishReason {
    Stop,
    Length,
    ContentFilter,
    Unknown,
}

/// Token counts of one part of an exchange.
#[derive(Clone, Copy, Debug)]
pub struct TokenDetails {
    pub text_tokens: u32,
    pub image_tokens: Option<u32>,
}

/// Token counts that the service reports.
#[derive(Clone, Copy, Debug)]
pub struct TokenUsage {
    pub prompt_tokens: u32,
    pub completion_tokens: u32,
    pub total_tokens: u32,
    pub completion_details: Option<TokenDetails>,
    pub prompt_details: Option<TokenDetails>,
}

/// One choice of a streamed chunk.
pub struct Choice {
    pub delta: Delta,
    pub finish_reason: Option<FinishReason>,
    pub index: i32,
    pub logprobs: Option<serde_json::Value>,
}

/// One chunk of a streamed reply.
pub struct ResponseBody {
    pub choices: Vec<Choice>,
    pub object: String,
    pub usage: Option<TokenUsage>,
    pub created: i64,
    pub system_fingerprint: Option<String>,
    pub model: String,
    pub id: String,
}

/// The JSON value of the serde_json crate, carried through unread.
#[verifier::external_type_specification]
#[verifier::external_body]
pub struct ExJsonValue(serde_json::Value);

} // verus!
