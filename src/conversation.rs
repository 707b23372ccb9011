//! The conversation: an ordered history of turns that begins with the system
//! prompt, the request built from it, and the folding of a reply back into it.
use vstd::prelude::*;
use crate::api::{
    messages_view, single_message, text_message, ContentItem, ContentView, Message, MessageView,
    RequestBody, Role, StreamOptions,
};
use crate::encoder::{
    bytes_url, encode, encodes, image_item, is_remote, text_item, ImageSource,
};
use crate::error::ChatError;

verus! {

/// The model asked for when none is configured.
pub const DEFAULT_MODEL: &'static str = "qwen2.5-vl-32b-instruct";

/// The endpoint used when none is configured.
pub const DEFAULT_BASE_URL: &'static str = "https://dashscope.aliyuncs.com/compatible-mode/v1/chat/completions";

/// The system prompt that every conversation starts from.
pub const DEFAULT_SYSTEM_PROMPT: &'static str = "你是一个AI智能助手，请务必根据用户的指令回答";

/// Where and as whom the conversation talks to the service.
pub struct ChatConfig {
    pub base_url: String,
    pub model: String,
    pub api_key: String,
}

impl ChatConfig {
    /// Builds the configuration from optional settings: the key is required,
    /// the model and the endpoint fall back to their defaults.
    pub fn from_settings(
        api_key: Option<String>,
        model: Option<String>,
        base_url: Option<String>,
    ) -> (r: Option<ChatConfig>)
        ensures
            api_key is None <==> r is None,
            r matches Some(c) ==> {
                &&& c.api_key@ == api_key.unwrap()@
                &&& c.model@ == (if model is Some { model.unwrap()@ } else { DEFAULT_MODEL@ })
                &&& c.base_url@ == (if base_url is Some { base_url.unwrap()@ } else {
                    DEFAULT_BASE_URL@
                })
            },
    {
        match api_key {
            None => None,
            Some(key) => {
                let model = match model {
                    Some(m) => m,
                    None => String::from_str(DEFAULT_MODEL),
                };
                let base_url = match base_url {
                    Some(u) => u,
                    None => String::from_str(DEFAULT_BASE_URL),
                };
                Some(ChatConfig { base_url, model, api_key: key })
            },
        }
    }
}

/// What a conversation holds.
pub struct ChatView {
    pub model: Seq<char>,
    pub base_url: Seq<char>,
    pub api_key: Seq<char>,
    pub system_prompt: Seq<char>,
    pub history: Seq<MessageView>,
}

impl ChatView {
    /// The state after the history is reset to the system prompt alone.
    pub open spec fn cleared(self) -> ChatView {
        ChatView { history: seq![text_message(Role::System, self.system_prompt)], ..self }
    }

    /// The state after `m` is appended to the history.
    pub open spec fn pushed(self, m: MessageView) -> ChatView {
        ChatView { history: self.history.push(m), ..self }
    }
}

/// Resetting the history twice leaves it as resetting it once does.
pub proof fn lemma_clear_idempotent(v: ChatView)
    ensures
        v.cleared().cleared() == v.cleared(),
{
}

/// The item that a source encodes to, where it can be encoded.
pub open spec fn encoded_item(source: &ImageSource) -> Option<ContentView> {
    match source {
        ImageSource::Remote(u) => Some(ContentView::Image(u@)),
        ImageSource::File(Err(_)) => None,
        _ => match bytes_url(source.bytes().unwrap()) {
            Some(u) => Some(ContentView::Image(u)),
            None => None,
        },
    }
}

/// The image source that a string names, where it is a remote URL; any
/// other string names a local file, which the caller reads.
pub fn remote_source(source: &str) -> (r: Option<ImageSource>)
    ensures
        is_remote(source@) ==> (r matches Some(ImageSource::Remote(u)) && u@ == source@),
        !is_remote(source@) ==> r is None,
{
    if crate::encoder::is_remote_source(source) {
        Some(ImageSource::Remote(String::from_str(source)))
    } else {
        None
    }
}

/// Whether an HTTP status reports success.
pub open spec fn success_status(status: u16) -> bool {
    200 <= status <= 299
}

/// Whether an HTTP status reports success (200 to 299).
pub fn is_success_status(status: u16) -> (r: bool)
    ensures
        r == success_status(status),
{
    200 <= status && status <= 299
}

/// How a request to the service ended.
pub enum Exchange {
    /// The request did not complete.
    Transport(String),
    /// The service answered with a status. For a successful status `body`
    /// holds the content of each choice's message, in order, or why the
    /// body could not be read; for any other status it is not consulted.
    Http { status: u16, body: Result<Vec<String>, String> },
}

/// A chat with a model: its configuration and its history.
pub struct OpenAiChat {
    model: String,
    base_url: String,
    api_key: String,
    system_prompt: String,
    messages: Vec<Message>,
}

impl View for OpenAiChat {
    type V = ChatView;

    closed spec fn view(&self) -> ChatView {
        ChatView {
            model: self.model@,
            base_url: self.base_url@,
            api_key: self.api_key@,
            system_prompt: self.system_prompt@,
            history: messages_view(self.messages@),
        }
    }
}

fn clone_item(c: &ContentItem) -> (r: ContentItem)
    ensures
        r@ == c@,
{
    match c {
        ContentItem::Text { text } => text_item(text.as_str()),
        ContentItem::ImageUrl { image_url } => image_item(image_url.url.clone()),
    }
}

fn clone_message(m: &Message) -> (r: Message)
    ensures
        r@ == m@,
{
    let mut content: Vec<ContentItem> = Vec::new();
    let mut i: usize = 0;
    while i < m.content.len()
        invariant
            i <= m.content@.len(),
            content@.len() == i,
            forall|j: int| 0 <= j < i ==> content@[j]@ == m.content@[j]@,
        decreases m.content@.len() - i,
    {
        content.push(clone_item(&m.content[i]));
        i = i + 1;
    }
    let r = Message { role: m.role, content };
    assert(r@.content =~= m@.content);
    r
}

fn message_of(role: Role, item: ContentItem) -> (r: Message)
    ensures
        r@ == single_message(role, item@),
{
    let content = vec![item];
    let r = Message { role, content };
    assert(r@.content =~= seq![item@]);
    r
}

impl OpenAiChat {
    /// Whether the history begins with the system prompt.
    pub open spec fn wf(&self) -> bool {
        &&& self@.history.len() >= 1
        &&& self@.history[0] == text_message(Role::System, self@.system_prompt)
    }

    /// A fresh conversation: the history holds the system prompt alone.
    pub fn new(base_url: String, model: String, api_key: String) -> (r: Self)
        ensures
            r.wf(),
            r@.history.len() == 1,
            r@.history[0].role == Role::System,
            r@ == (ChatView {
                model: model@,
                base_url: base_url@,
                api_key: api_key@,
                system_prompt: DEFAULT_SYSTEM_PROMPT@,
                history: seq![text_message(Role::System, DEFAULT_SYSTEM_PROMPT@)],
            }),
    {
        let system_prompt = String::from_str(DEFAULT_SYSTEM_PROMPT);
        let first = message_of(Role::System, text_item(DEFAULT_SYSTEM_PROMPT));
        let messages = vec![first];
        let r = OpenAiChat { model, base_url, api_key, system_prompt, messages };
        assert(r@.history =~= seq![text_message(Role::System, DEFAULT_SYSTEM_PROMPT@)]);
        r
    }

    /// A fresh conversation with the given configuration.
    pub fn from_config(config: ChatConfig) -> (r: Self)
        ensures
            r.wf(),
            r@.model == config.model@,
            r@.base_url == config.base_url@,
            r@.api_key == config.api_key@,
            r@.history == seq![text_message(Role::System, DEFAULT_SYSTEM_PROMPT@)],
    {
        OpenAiChat::new(config.base_url, config.model, config.api_key)
    }

    /// The model that requests name.
    pub fn model(&self) -> (r: &str)
        ensures
            r@ == self@.model,
    {
        self.model.as_str()
    }

    /// The endpoint that requests go to.
    pub fn base_url(&self) -> (r: &str)
        ensures
            r@ == self@.base_url,
    {
        self.base_url.as_str()
    }

    /// The key that authorizes requests.
    pub fn api_key(&self) -> (r: &str)
        ensures
            r@ == self@.api_key,
    {
        self.api_key.as_str()
    }

    /// The number of turns in the history.
    pub fn len(&self) -> (r: usize)
        ensures
            r == self@.history.len(),
    {
        self.messages.len()
    }

    /// The turns of the history, in order.
    pub fn history(&self) -> (r: &Vec<Message>)
        ensures
            messages_view(r@) == self@.history,
    {
        &self.messages
    }

    fn push_message(&mut self, m: Message)
        requires
            old(self).wf(),
        ensures
            final(self).wf(),
            final(self)@ == old(self)@.pushed(m@),
    {
        self.messages.push(m);
        assert(self@.history =~= old(self)@.history.push(m@));
    }

    /// Appends a turn of one text part. The history grows by one and the
    /// earlier turns stay as they were.
    pub fn add_text(&mut self, role: Role, text: &str)
        requires
            old(self).wf(),
        ensures
            final(self).wf(),
            final(self)@ == old(self)@.pushed(text_message(role, text@)),
            final(self)@.history.len() == old(self)@.history.len() + 1,
            forall|i: int|
                0 <= i < old(self)@.history.len() ==> final(self)@.history[i] == old(self)@.history[i],
    {
        let m = message_of(role, text_item(text));
        self.push_message(m);
    }

    /// Appends a turn of one image. Where the source cannot be encoded the
    /// history is left as it was and the encoder's failure is returned.
    pub fn add_image(&mut self, role: Role, source: &ImageSource) -> (r: Result<(), ChatError>)
        requires
            old(self).wf(),
            source.fits(),
        ensures
            final(self).wf(),
            match encoded_item(source) {
                Some(c) => r is Ok && final(self)@ == old(self)@.pushed(single_message(role, c)),
                None => r is Err && final(self)@ == old(self)@,
            },
            r matches Err(e) ==> encodes(source, Err(e)),
    {
        match encode(source) {
            Ok(item) => {
                self.push_message(message_of(role, item));
                Ok(())
            },
            Err(e) => Err(e),
        }
    }

    /// Appends a turn of one image given as the bytes of an image file.
    pub fn add_raw_image(&mut self, role: Role, image_data: Vec<u8>) -> (r: Result<(), ChatError>)
        requires
            old(self).wf(),
            image_data@.len() <= usize::MAX / 4,
        ensures
            final(self).wf(),
            match bytes_url(image_data@) {
                Some(u) => r is Ok && final(self)@ == old(self)@.pushed(
                    single_message(role, ContentView::Image(u)),
                ),
                None => r matches Err(ChatError::UnknownFileType) && final(self)@ == old(self)@,
            },
    {
        let source = ImageSource::Raw(image_data);
        self.add_image(role, &source)
    }

    /// Discards every turn and reseeds the history with the system prompt.
    pub fn clear(&mut self)
        ensures
            final(self).wf(),
            final(self)@ == old(self)@.cleared(),
    {
        self.messages = vec![message_of(Role::System, text_item(self.system_prompt.as_str()))];
        assert(self@.history =~= old(self)@.cleared().history);
    }

    /// The body of a non-streamed request: the model and a copy of the history.
    pub fn request_body(&self) -> (r: RequestBody)
        ensures
            r.model@ == self@.model,
            messages_view(r.messages@) == self@.history,
            !r.stream,
            !r.stream_options.include_usage,
    {
        let mut messages: Vec<Message> = Vec::new();
        let mut i: usize = 0;
        while i < self.messages.len()
            invariant
                i <= self.messages@.len(),
                messages@.len() == i,
                forall|j: int| 0 <= j < i ==> messages@[j]@ == self.messages@[j]@,
            decreases self.messages@.len() - i,
        {
            messages.push(clone_message(&self.messages[i]));
            i = i + 1;
        }
        assert(messages_view(messages@) =~= messages_view(self.messages@));
        RequestBody {
            model: self.model.clone(),
            messages,
            stream: false,
            stream_options: StreamOptions { include_usage: false },
        }
    }

    /// Folds the outcome of a request into the conversation. A successful
    /// answer with at least one choice appends the first choice's text as an
    /// assistant turn and returns it; every other outcome is an error and
    /// leaves the history as it was.
    pub fn receive(&mut self, exchange: Exchange) -> (r: Result<String, ChatError>)
        requires
            old(self).wf(),
        ensures
            final(self).wf(),
            match exchange {
                Exchange::Transport(m) => r matches Err(ChatError::Transport(e)) && e@ == m@,
                Exchange::Http { status, body } => if !success_status(status) {
                    r matches Err(ChatError::Api(s)) && s == status
                } else {
                    match body {
                        Err(m) => r matches Err(ChatError::Malformed(e)) && e@ == m@,
                        Ok(cs) => if cs@.len() == 0 {
                            r matches Err(ChatError::EmptyResponse)
                        } else {
                            r matches Ok(t) && t@ == cs@[0]@
                        },
                    }
                },
            },
            r matches Ok(t) ==> final(self)@ == old(self)@.pushed(text_message(Role::Assistant, t@)),
            r is Err ==> final(self)@ == old(self)@,
    {
        match exchange {
            Exchange::Transport(m) => Err(ChatError::Transport(m)),
            Exchange::Http { status, body } => {
                if !is_success_status(status) {
                    return Err(ChatError::Api(status));
                }
                match body {
                    Err(m) => Err(ChatError::Malformed(m)),
                    Ok(cs) => {
                        if cs.len() == 0 {
                            Err(ChatError::EmptyResponse)
                        } else {
                            let text = cs[0].clone();
                            self.add_text(Role::Assistant, text.as_str());
                            Ok(text)
                        }
                    },
                }
            },
        }
    }
}

} // verus!
