//! Messages, the completion request, and where and how it is sent.
use vstd::prelude::*;
use vstd::string::{StrSliceExecFns, StringExecFns};

verus! {

/// Who authored a message of the conversation.
#[derive(Debug, Clone, Copy, PartialEq, Eq, Structural)]
pub enum Role {
    System,
    User,
    Assistant,
}

/// One role-tagged message of a conversation.
#[derive(Debug, Clone)]
pub struct Message {
    pub content: String,
    pub role: Role,
}

/// The mathematical value of a [`Message`].
pub ghost struct MessageModel {
    pub role: Role,
    pub content: Seq<char>,
}

impl View for Message {
    type V = MessageModel;

    open spec fn view(&self) -> MessageModel {
        MessageModel { role: self.role, content: self.content@ }
    }
}

/// The values of a sequence of messages.
pub open spec fn models(messages: Seq<Message>) -> Seq<MessageModel> {
    messages.map_values(|m: Message| m@)
}

/// A copy of `messages`, message by message.
pub(crate) fn snapshot(messages: &Vec<Message>) -> (r: Vec<Message>)
    ensures
        models(r@) == models(messages@),
{
    let mut r: Vec<Message> = Vec::new();
    let mut i: usize = 0;
    while i < messages.len()
        invariant
            i <= messages@.len(),
            r@.len() == i,
            models(r@) == models(messages@.subrange(0, i as int)),
        decreases messages@.len() - i,
    {
        let m = &messages[i];
        let copy = Message { content: m.content.clone(), role: m.role };
        assert(copy@ == messages@[i as int]@);
        let ghost before = r@;
        r.push(copy);
        assert(messages@.subrange(0, i + 1) == messages@.subrange(0, i as int).push(messages@[i as int]));
        assert(models(r@) =~= models(messages@.subrange(0, i + 1))) by {
            assert forall|j: int| 0 <= j < i implies r@[j]@ == messages@[j]@ by {
                assert(r@[j] == before[j]);
                assert(models(before)[j] == models(messages@.subrange(0, i as int))[j]);
            }
        }
        i = i + 1;
    }
    assert(messages@.subrange(0, i as int) == messages@);
    r
}

/// The body of a streamed chat-completion request.
#[derive(Debug, Clone)]
pub struct CompletionRequest {
    pub messages: Vec<Message>,
    pub model: String,
    pub max_tokens: u32,
    pub stream: bool,
    /// The bit pattern of the `f32` sampling temperature.
    pub temperature_bits: u32,
}

/// The mathematical value of a [`CompletionRequest`].
pub ghost struct RequestModel {
    pub messages: Seq<MessageModel>,
    pub model: Seq<char>,
    pub max_tokens: u32,
    pub stream: bool,
    pub temperature_bits: u32,
}

impl View for CompletionRequest {
    type V = RequestModel;

    open spec fn view(&self) -> RequestModel {
        RequestModel {
            messages: models(self.messages@),
            model: self.model@,
            max_tokens: self.max_tokens,
            stream: self.stream,
            temperature_bits: self.temperature_bits,
        }
    }
}

impl CompletionRequest {
    /// A request for a streamed completion of `messages`; `temperature_bits`
    /// is the bit pattern of the `f32` sampling temperature.
    pub fn new(messages: Vec<Message>, model: String, max_tokens: u32, temperature_bits: u32) -> (r: Self)
        ensures
            r@ == (RequestModel {
                messages: models(messages@),
                model: model@,
                max_tokens,
                stream: true,
                temperature_bits,
            }),
    {
        CompletionRequest { messages, model, max_tokens, stream: true, temperature_bits }
    }
}

/// What a run needs besides the conversation: where to send the request, the
/// credential, and the generation parameters, already resolved by the caller.
#[derive(Debug, Clone)]
pub struct GenerationSettings {
    pub base_url: String,
    pub api_key: String,
    pub model: String,
    pub max_tokens: u32,
    /// The bit pattern of the `f32` sampling temperature.
    pub temperature_bits: u32,
}

/// The path of the chat-completions endpoint, relative to the API's base URL.
pub const COMPLETIONS_PATH: &'static str = "v1/chat/completions";

/// `base` followed by `path`, with one `/` between them unless `base`
/// already ends in one.
pub open spec fn joined_url(base: Seq<char>, path: Seq<char>) -> Seq<char> {
    if base.len() > 0 && base.last() == '/' {
        base + path
    } else {
        base + seq!['/'] + path
    }
}

/// The URL of the chat-completions endpoint of the API at `base_url`.
pub fn completions_url(base_url: &str) -> (r: String)
    ensures
        r@ == joined_url(base_url@, COMPLETIONS_PATH@),
{
    let mut url = String::from_str(base_url);
    let n = base_url.unicode_len();
    if n == 0 || base_url.get_char(n - 1) != '/' {
        url.append("/");
        proof {
            reveal_strlit("/");
        }
    }
    url.append(COMPLETIONS_PATH);
    url
}

/// What precedes the API key in the `Authorization` header.
pub const BEARER_PREFIX: &'static str = "Bearer ";

/// The value of the `Authorization` header that presents `api_key`.
pub fn bearer_credential(api_key: &str) -> (r: String)
    ensures
        r@ == BEARER_PREFIX@ + api_key@,
{
    let mut r = String::from_str(BEARER_PREFIX);
    r.append(api_key);
    r
}

} // verus!
