//! Decoding of a streamed chat completion: what each event of the stream
//! means, and what the stream does with each item its transport hands over.
use vstd::prelude::*;
use vstd::string::StrSliceExecFns;

verus! {

/// Whether serde_json reads `text` as one JSON document.
pub uninterp spec fn is_json(text: Seq<char>) -> bool;

/// The string that serde_json finds in the JSON document `text` at the JSON
/// pointer `pointer`; `None` where nothing, or something other than a string,
/// stands there.
pub uninterp spec fn json_str_at(text: Seq<char>, pointer: Seq<char>) -> Option<Seq<char>>;

/// Relies on `serde_json::from_str::<serde_json::Value>` to read `text`, and on
/// `Value::pointer` and `Value::as_str` to pick the string at `pointer`. The
/// error is serde_json's message.
#[verifier::external_body]
fn read_str_at(text: &str, pointer: &str) -> (r: Result<Option<String>, String>)
    ensures
        r is Ok <==> is_json(text@),
        r matches Ok(found) ==> text_of(found) == json_str_at(text@, pointer@),
{
    match serde_json::from_str::<serde_json::Value>(text) {
        Ok(value) => Ok(value.pointer(pointer).and_then(serde_json::Value::as_str).map(str::to_string)),
        Err(e) => Err(e.to_string()),
    }
}

/// The text held by an optional string.
pub open spec fn text_of(o: Option<String>) -> Option<Seq<char>> {
    match o {
        Some(s) => Some(s@),
        None => None,
    }
}

/// The payload that ends a completion stream.
pub const DONE_SENTINEL: &'static str = "[DONE]";

/// Where a streamed completion chunk carries its text.
pub const DELTA_POINTER: &'static str = "/choices/0/delta/content";

/// A terminal failure of a completion stream: of the transport, or of the
/// payload it delivered.
#[derive(Debug, Clone)]
pub struct StreamError {
    pub message: String,
}

/// What one message event of a completion stream means.
#[derive(Debug, Clone)]
pub enum DeltaEvent {
    /// A non-empty piece of generated text.
    Fragment(String),
    /// The stream has ended normally.
    EndOfStream,
    /// The event carries no text (a role announcement, an empty delta).
    Ignored,
}

/// The meaning of a chunk whose delta content is `content`: a fragment if it
/// is a non-empty string, nothing otherwise.
pub open spec fn delta_of_content(content: Option<Seq<char>>, ev: DeltaEvent) -> bool {
    match content {
        Some(text) if text.len() > 0 => ev matches DeltaEvent::Fragment(f) && f@ == text,
        _ => ev is Ignored,
    }
}

/// Classifies the delta content found in a chunk.
pub fn classify_delta(content: Option<String>) -> (ev: DeltaEvent)
    ensures
        delta_of_content(text_of(content), ev),
{
    match content {
        Some(text) => {
            if text.as_str().is_empty() {
                DeltaEvent::Ignored
            } else {
                DeltaEvent::Fragment(text)
            }
        },
        None => DeltaEvent::Ignored,
    }
}

/// Whether `a` and `b` hold the same characters.
fn same_text(a: &str, b: &str) -> (r: bool)
    ensures
        r == (a@ == b@),
{
    let n = a.unicode_len();
    if n != b.unicode_len() {
        return false;
    }
    let mut i: usize = 0;
    while i < n
        invariant
            n == a@.len() == b@.len(),
            i <= n,
            a@.subrange(0, i as int) == b@.subrange(0, i as int),
        decreases n - i,
    {
        if a.get_char(i) != b.get_char(i) {
            return false;
        }
        assert(a@.subrange(0, i + 1) == a@.subrange(0, i as int).push(a@[i as int]));
        assert(b@.subrange(0, i + 1) == b@.subrange(0, i as int).push(b@[i as int]));
        i = i + 1;
    }
    assert(a@ == a@.subrange(0, n as int));
    assert(b@ == b@.subrange(0, n as int));
    true
}

/// Decodes the data of one message event of a completion stream.
pub fn parse_delta(data: &str) -> (r: Result<DeltaEvent, StreamError>)
    ensures
        data@ == DONE_SENTINEL@ ==> r matches Ok(DeltaEvent::EndOfStream),
        data@ != DONE_SENTINEL@ ==> (r is Err <==> !is_json(data@)),
        data@ != DONE_SENTINEL@ && is_json(data@) ==> (r matches Ok(ev) && delta_of_content(
            json_str_at(data@, DELTA_POINTER@),
            ev,
        )),
{
    if same_text(data, DONE_SENTINEL) {
        return Ok(DeltaEvent::EndOfStream);
    }
    match read_str_at(data, DELTA_POINTER) {
        Ok(content) => Ok(classify_delta(content)),
        Err(message) => Err(StreamError { message }),
    }
}

/// One item handed over by the event-stream transport of a completion.
#[derive(Debug, Clone)]
pub enum StreamInput {
    /// The connection was opened.
    Opened,
    /// A message event with its data payload.
    Message { data: String },
    /// The transport reports that the stream ended normally.
    Ended,
    /// The transport failed, with its message.
    Failed { message: String },
}

/// What the completion stream does with one transport item.
#[derive(Debug, Clone)]
pub enum StreamStep {
    /// Hand this fragment to the consumer.
    Deliver(String),
    /// Hand nothing over and wait for the next item.
    Skip,
    /// End the stream cleanly.
    Finish,
    /// Hand this error to the consumer and end the stream.
    Fail(StreamError),
}

/// The step for a message event whose data is `data`.
pub open spec fn step_of_data(data: Seq<char>, step: StreamStep) -> bool {
    if data == DONE_SENTINEL@ {
        step is Finish
    } else if !is_json(data) {
        step is Fail
    } else {
        match json_str_at(data, DELTA_POINTER@) {
            Some(text) if text.len() > 0 => step matches StreamStep::Deliver(g) && g@ == text,
            _ => step is Skip,
        }
    }
}

/// Decides what the completion stream does with one transport item: text is
/// delivered, contentless events are skipped, the sentinel and the
/// transport's own end finish the stream cleanly, and failures end it with
/// an error.
pub fn next_step(input: StreamInput) -> (step: StreamStep)
    ensures
        input is Opened ==> step is Skip,
        input matches StreamInput::Message { data } ==> step_of_data(data@, step),
        input is Ended ==> step is Finish,
        input matches StreamInput::Failed { message } ==> (step matches StreamStep::Fail(e)
            && e.message@ == message@),
{
    match input {
        StreamInput::Opened => StreamStep::Skip,
        StreamInput::Message { data } => match parse_delta(data.as_str()) {
            Ok(DeltaEvent::Fragment(f)) => StreamStep::Deliver(f),
            Ok(DeltaEvent::EndOfStream) => StreamStep::Finish,
            Ok(DeltaEvent::Ignored) => StreamStep::Skip,
            Err(e) => StreamStep::Fail(e),
        },
        StreamInput::Ended => StreamStep::Finish,
        StreamInput::Failed { message } => StreamStep::Fail(StreamError { message }),
    }
}

} // verus!
