//! The inference session: a conversation, the run that may be generating
//! into it, and how each user action and stream item changes them.
use vstd::prelude::*;
use vstd::string::StringExecFns;

use crate::openai::{
    bearer_credential, completions_url, joined_url, models, snapshot, CompletionRequest,
    GenerationSettings, Message, MessageModel, RequestModel, Role, BEARER_PREFIX,
    COMPLETIONS_PATH,
};

verus! {

/// Whether a completion is being generated into the conversation.
#[derive(Debug, Clone, Copy, PartialEq, Eq, Structural)]
pub enum InferenceStatus {
    Idle,
    /// Run number `run` appends what it generates to message `target`.
    Inferencing { run: u64, target: usize },
}

/// What a session asks its surroundings to do after a transition.
#[derive(Debug, Clone)]
pub enum Command {
    Nothing,
    /// Open a completion stream for run number `run`: POST `request` to `url`
    /// with `authorization` as the `Authorization` header.
    Open { run: u64, url: String, authorization: String, request: CompletionRequest },
    /// Release the stream of run number `run`, whether or not it still runs.
    Cancel { run: u64 },
}

/// An action on the session, from its user or from a completion stream.
#[derive(Debug)]
pub enum ChatViewMsg {
    ChangeRole { index: usize, role: Role },
    EditText { index: usize, text: String },
    AddMessage,
    DeleteMessage { index: usize },
    Run,
    Stop,
    /// An item of the stream of run number `run`: a fragment, or an error message.
    Completion { run: u64, delta: Result<String, String> },
    /// The stream of run number `run` ended without error.
    Finished { run: u64 },
    StickToBottom(bool),
}

/// The text appended to the generated message when its stream fails.
pub const ERROR_PREFIX: &'static str = "\n\nRan into an error:\n";

/// An inference session: the conversation, and the completion that may be
/// generated into it.
pub struct ChatView {
    messages: Vec<Message>,
    inference_status: InferenceStatus,
    stick_to_bottom: bool,
    next_run: u64,
}

/// The mathematical value of a [`ChatView`].
pub ghost struct ChatModel {
    pub messages: Seq<MessageModel>,
    pub status: InferenceStatus,
    pub stick_to_bottom: bool,
    /// The number that the next run will carry.
    pub next_run: u64,
}

impl ChatModel {
    /// A running completion always has a message to append to.
    pub open spec fn wf(self) -> bool {
        self.status matches InferenceStatus::Inferencing { target, .. } ==> target
            < self.messages.len()
    }

    /// Whether the stream of run number `run` is the one being applied.
    pub open spec fn is_current(self, run: u64) -> bool {
        self.status matches InferenceStatus::Inferencing { run: r, .. } && r == run
    }

    /// The message that the running completion appends to.
    pub open spec fn target(self) -> int {
        match self.status {
            InferenceStatus::Inferencing { target, .. } => target as int,
            InferenceStatus::Idle => -1,
        }
    }
}

/// `messages` with `text` appended to the content of message `i`.
pub open spec fn append_to(messages: Seq<MessageModel>, i: int, text: Seq<char>) -> Seq<MessageModel> {
    messages.update(i, MessageModel { role: messages[i].role, content: messages[i].content + text })
}

/// Whether the conversation ends with a message of the assistant.
pub open spec fn ends_with_assistant(messages: Seq<MessageModel>) -> bool {
    messages.len() > 0 && messages.last().role == Role::Assistant
}

/// The session after a fragment of run `run` arrives: appended to the target
/// if `run` is the current run, ignored otherwise.
pub open spec fn after_fragment(s: ChatModel, run: u64, text: Seq<char>) -> ChatModel {
    if s.is_current(run) {
        ChatModel { messages: append_to(s.messages, s.target(), text), ..s }
    } else {
        s
    }
}

/// The session after the fragments `texts` of run `run` arrive in order.
pub open spec fn after_fragments(s: ChatModel, run: u64, texts: Seq<Seq<char>>) -> ChatModel
    decreases texts.len(),
{
    if texts.len() == 0 {
        s
    } else {
        after_fragment(after_fragments(s, run, texts.drop_last()), run, texts.last())
    }
}

/// The concatenation of `texts`, in order.
pub open spec fn concat_all(texts: Seq<Seq<char>>) -> Seq<char>
    decreases texts.len(),
{
    if texts.len() == 0 {
        Seq::empty()
    } else {
        concat_all(texts.drop_last()) + texts.last()
    }
}

/// The note appended to the target when its stream fails with `message`.
pub open spec fn error_note(message: Seq<char>) -> Seq<char> {
    ERROR_PREFIX@ + message
}

/// The session after the stream of run `run` fails with `message`.
pub open spec fn after_error(s: ChatModel, run: u64, message: Seq<char>) -> ChatModel {
    if s.is_current(run) {
        ChatModel {
            messages: append_to(s.messages, s.target(), error_note(message)),
            status: InferenceStatus::Idle,
            ..s
        }
    } else {
        s
    }
}

/// The session after the stream of run `run` ends without error.
pub open spec fn after_finish(s: ChatModel, run: u64) -> ChatModel {
    if s.is_current(run) {
        ChatModel { status: InferenceStatus::Idle, ..s }
    } else {
        s
    }
}

/// The session after the user stops the completion.
pub open spec fn after_stop(s: ChatModel) -> ChatModel {
    ChatModel { status: InferenceStatus::Idle, ..s }
}

/// The number of the run after run number `run`, wrapping after the last.
pub open spec fn run_after(run: u64) -> u64 {
    if run == u64::MAX {
        0
    } else {
        (run + 1) as u64
    }
}

/// The session after the user starts a run: refused while a run is going
/// on; otherwise the trailing assistant message, or a new empty one, becomes
/// the target.
pub open spec fn after_run(s: ChatModel) -> ChatModel {
    if s.status is Inferencing {
        s
    } else if ends_with_assistant(s.messages) {
        ChatModel {
            status: InferenceStatus::Inferencing {
                run: s.next_run,
                target: (s.messages.len() - 1) as usize,
            },
            next_run: run_after(s.next_run),
            ..s
        }
    } else {
        ChatModel {
            messages: s.messages.push(MessageModel { role: Role::Assistant, content: Seq::empty() }),
            status: InferenceStatus::Inferencing { run: s.next_run, target: s.messages.len() as usize },
            next_run: run_after(s.next_run),
            ..s
        }
    }
}

/// The session after the user gives message `index` the role `role`:
/// refused while a completion runs.
pub open spec fn after_change_role(s: ChatModel, index: int, role: Role) -> ChatModel {
    if s.status is Idle {
        ChatModel {
            messages: s.messages.update(index, MessageModel { role, content: s.messages[index].content }),
            ..s
        }
    } else {
        s
    }
}

/// The session after the user sets the text of message `index` to `text`.
pub open spec fn after_edit(s: ChatModel, index: int, text: Seq<char>) -> ChatModel {
    ChatModel {
        messages: s.messages.update(index, MessageModel { role: s.messages[index].role, content: text }),
        ..s
    }
}

/// The session after the user adds an empty user message at the end.
pub open spec fn after_add(s: ChatModel) -> ChatModel {
    ChatModel {
        messages: s.messages.push(MessageModel { role: Role::User, content: Seq::empty() }),
        ..s
    }
}

/// The session after the user deletes message `index`: refused while a
/// completion runs.
pub open spec fn after_delete(s: ChatModel, index: int) -> ChatModel {
    if s.status is Idle {
        ChatModel { messages: s.messages.remove(index), ..s }
    } else {
        s
    }
}

/// The command that releases the stream of the run going on in `s`, if any.
pub open spec fn releases(s: ChatModel, c: Command) -> bool {
    match s.status {
        InferenceStatus::Inferencing { run, .. } => c matches Command::Cancel { run: r } && r == run,
        InferenceStatus::Idle => c is Nothing,
    }
}

/// The command that opens the stream of the run that `s` starts: the
/// conversation as it stands before the run, sent to the completions
/// endpoint under `settings`.
pub open spec fn opens(s: ChatModel, settings: GenerationSettings, c: Command) -> bool {
    c matches Command::Open { run, url, authorization, request } && run == s.next_run && url@
        == joined_url(settings.base_url@, COMPLETIONS_PATH@) && authorization@ == BEARER_PREFIX@
        + settings.api_key@ && request@ == (RequestModel {
        messages: s.messages,
        model: settings.model@,
        max_tokens: settings.max_tokens,
        stream: true,
        temperature_bits: settings.temperature_bits,
    })
}

/// Whether the indices that `msg` names are messages of `s`.
pub open spec fn msg_in_range(s: ChatModel, msg: ChatViewMsg) -> bool {
    match msg {
        ChatViewMsg::ChangeRole { index, .. } => index < s.messages.len(),
        ChatViewMsg::EditText { index, .. } => index < s.messages.len(),
        ChatViewMsg::DeleteMessage { index } => index < s.messages.len(),
        _ => true,
    }
}

/// The session after `msg`.
pub open spec fn after_msg(s: ChatModel, msg: ChatViewMsg) -> ChatModel {
    match msg {
        ChatViewMsg::ChangeRole { index, role } => after_change_role(s, index as int, role),
        ChatViewMsg::EditText { index, text } => after_edit(s, index as int, text@),
        ChatViewMsg::AddMessage => after_add(s),
        ChatViewMsg::DeleteMessage { index } => after_delete(s, index as int),
        ChatViewMsg::Run => after_run(s),
        ChatViewMsg::Stop => after_stop(s),
        ChatViewMsg::Completion { run, delta } => match delta {
            Ok(text) => after_fragment(s, run, text@),
            Err(message) => after_error(s, run, message@),
        },
        ChatViewMsg::Finished { run } => after_finish(s, run),
        ChatViewMsg::StickToBottom(value) => ChatModel { stick_to_bottom: value, ..s },
    }
}

/// The command that `msg` gives in `s`: a stream is opened by a run that is
/// not refused, and released by every transition that leaves a run.
pub open spec fn command_of(s: ChatModel, settings: GenerationSettings, msg: ChatViewMsg, c: Command) -> bool {
    match msg {
        ChatViewMsg::Run => if s.status is Idle {
            opens(s, settings, c)
        } else {
            c is Nothing
        },
        ChatViewMsg::Stop => releases(s, c),
        ChatViewMsg::Completion { run, delta: Err(_) } => if s.is_current(run) {
            releases(s, c)
        } else {
            c is Nothing
        },
        ChatViewMsg::Finished { run } => if s.is_current(run) {
            releases(s, c)
        } else {
            c is Nothing
        },
        _ => c is Nothing,
    }
}

/// Fragments of the current run are appended to its target in the order of
/// arrival: after `texts`, the target holds its former text followed by the
/// concatenation of `texts`, and nothing else has changed.
pub proof fn lemma_fragments_concatenate(s: ChatModel, run: u64, texts: Seq<Seq<char>>)
    requires
        s.wf(),
        s.is_current(run),
    ensures
        after_fragments(s, run, texts) == (ChatModel {
            messages: append_to(s.messages, s.target(), concat_all(texts)),
            ..s
        }),
    decreases texts.len(),
{
    let t = s.target();
    if texts.len() == 0 {
        assert(s.messages[t].content + Seq::<char>::empty() =~= s.messages[t].content);
        assert(append_to(s.messages, t, Seq::empty()) =~= s.messages);
    } else {
        let prefix = texts.drop_last();
        lemma_fragments_concatenate(s, run, prefix);
        let a = concat_all(prefix);
        let b = texts.last();
        assert(s.messages[t].content + a + b =~= s.messages[t].content + (a + b));
        assert(append_to(append_to(s.messages, t, a), t, b) =~= append_to(s.messages, t, a + b));
    }
}

/// Items of a run that is not the current one change nothing.
pub proof fn lemma_stale_fragments_ignored(s: ChatModel, run: u64, texts: Seq<Seq<char>>)
    requires
        !s.is_current(run),
    ensures
        after_fragments(s, run, texts) == s,
    decreases texts.len(),
{
    if texts.len() > 0 {
        lemma_stale_fragments_ignored(s, run, texts.drop_last());
    }
}

/// A run delivers its text in order: started in an idle session and fed the
/// fragments `texts` without error, its target holds what it held when the
/// run started (the continued assistant message, or nothing) followed by the
/// exact concatenation of `texts`, and the run still goes on.
pub proof fn lemma_run_concatenates(s: ChatModel, texts: Seq<Seq<char>>)
    requires
        s.wf(),
        s.messages.len() <= usize::MAX,
        s.status is Idle,
    ensures
        ({
            let started = after_run(s);
            let t = after_fragments(started, s.next_run, texts);
            &&& t.status == started.status
            &&& t.messages.len() == started.messages.len()
            &&& t.messages[started.target()].content == (if ends_with_assistant(s.messages) {
                s.messages.last().content
            } else {
                Seq::empty()
            }) + concat_all(texts)
        }),
{
    let started = after_run(s);
    assert(started.is_current(s.next_run));
    assert(started.wf());
    lemma_fragments_concatenate(started, s.next_run, texts);
    let t = started.target();
    if ends_with_assistant(s.messages) {
        assert(started.messages[t].content == s.messages.last().content);
    } else {
        assert(started.messages[t].content == Seq::<char>::empty());
        assert(Seq::<char>::empty() + concat_all(texts) =~= concat_all(texts));
    }
}

/// Stopping freezes the conversation: after the fragments `applied` and a
/// stop, the session is idle and holds exactly those fragments, and no later
/// fragment, error or end of the stopped run changes it.
pub proof fn lemma_stop_freezes(
    s: ChatModel,
    run: u64,
    applied: Seq<Seq<char>>,
    later: Seq<Seq<char>>,
    message: Seq<char>,
)
    requires
        s.wf(),
        s.is_current(run),
    ensures
        ({
            let stopped = after_stop(after_fragments(s, run, applied));
            &&& stopped.status is Idle
            &&& stopped.messages == append_to(s.messages, s.target(), concat_all(applied))
            &&& after_fragments(stopped, run, later) == stopped
            &&& after_error(stopped, run, message) == stopped
            &&& after_finish(stopped, run) == stopped
        }),
{
    lemma_fragments_concatenate(s, run, applied);
    let stopped = after_stop(after_fragments(s, run, applied));
    lemma_stale_fragments_ignored(stopped, run, later);
}

impl View for ChatView {
    type V = ChatModel;

    closed spec fn view(&self) -> ChatModel {
        ChatModel {
            messages: models(self.messages@),
            status: self.inference_status,
            stick_to_bottom: self.stick_to_bottom,
            next_run: self.next_run,
        }
    }
}

impl ChatView {
    /// A session that is idle, with one empty user message.
    pub fn new() -> (r: Self)
        ensures
            r@ == (ChatModel {
                messages: seq![MessageModel { role: Role::User, content: Seq::empty() }],
                status: InferenceStatus::Idle,
                stick_to_bottom: false,
                next_run: 0,
            }),
            r@.wf(),
    {
        let mut messages: Vec<Message> = Vec::new();
        messages.push(Message { content: String::new(), role: Role::User });
        let r = ChatView {
            messages,
            inference_status: InferenceStatus::Idle,
            stick_to_bottom: false,
            next_run: 0,
        };
        assert(r@.messages =~= seq![MessageModel { role: Role::User, content: Seq::empty() }]);
        r
    }

    /// The conversation.
    pub fn messages(&self) -> (r: &Vec<Message>)
        ensures
            models(r@) == self@.messages,
    {
        &self.messages
    }

    /// Whether a completion runs, and which.
    pub fn inference_status(&self) -> (r: InferenceStatus)
        ensures
            r == self@.status,
    {
        self.inference_status
    }

    /// Whether the conversation's display follows its end.
    pub fn stick_to_bottom(&self) -> (r: bool)
        ensures
            r == self@.stick_to_bottom,
    {
        self.stick_to_bottom
    }

    /// Gives message `index` the role `role`, unless a completion runs.
    pub fn change_role(&mut self, index: usize, role: Role)
        requires
            old(self)@.wf(),
            index < old(self)@.messages.len(),
        ensures
            final(self)@ == after_change_role(old(self)@, index as int, role),
            final(self)@.wf(),
    {
        if self.inference_status == InferenceStatus::Idle {
            self.messages[index].role = role;
            assert(self@.messages =~= after_change_role(old(self)@, index as int, role).messages);
        }
    }

    /// Sets the text of message `index` to `text`.
    pub fn edit_text(&mut self, index: usize, text: String)
        requires
            old(self)@.wf(),
            index < old(self)@.messages.len(),
        ensures
            final(self)@ == after_edit(old(self)@, index as int, text@),
            final(self)@.wf(),
    {
        self.messages[index].content = text;
        assert(self@.messages =~= after_edit(old(self)@, index as int, text@).messages);
    }

    /// Adds an empty user message at the end of the conversation.
    pub fn add_message(&mut self)
        requires
            old(self)@.wf(),
        ensures
            final(self)@ == after_add(old(self)@),
            final(self)@.wf(),
    {
        self.messages.push(Message { content: String::new(), role: Role::User });
        assert(self@.messages =~= after_add(old(self)@).messages);
    }

    /// Deletes message `index`, unless a completion runs.
    pub fn delete_message(&mut self, index: usize)
        requires
            old(self)@.wf(),
            index < old(self)@.messages.len(),
        ensures
            final(self)@ == after_delete(old(self)@, index as int),
            final(self)@.wf(),
    {
        if self.inference_status == InferenceStatus::Idle {
            self.messages.remove(index);
            assert(self@.messages =~= after_delete(old(self)@, index as int).messages);
        }
    }

    /// Starts a run, unless one is going on: the request carries the
    /// conversation as it stands; the trailing assistant message is continued,
    /// or a new empty assistant message is appended to receive the text.
    pub fn run(&mut self, settings: &GenerationSettings) -> (c: Command)
        requires
            old(self)@.wf(),
        ensures
            final(self)@ == after_run(old(self)@),
            final(self)@.wf(),
            old(self)@.status is Idle ==> opens(old(self)@, *settings, c),
            old(self)@.status is Inferencing ==> c is Nothing,
    {
        if self.inference_status != InferenceStatus::Idle {
            return Command::Nothing;
        }
        let request = CompletionRequest::new(
            snapshot(&self.messages),
            settings.model.clone(),
            settings.max_tokens,
            settings.temperature_bits,
        );
        let run = self.next_run;
        let n = self.messages.len();
        let continues = n > 0 && self.messages[n - 1].role == Role::Assistant;
        let target = if continues {
            n - 1
        } else {
            self.messages.push(Message { content: String::new(), role: Role::Assistant });
            n
        };
        self.inference_status = InferenceStatus::Inferencing { run, target };
        self.next_run = if run == u64::MAX {
            0
        } else {
            run + 1
        };
        assert(self@.messages =~= after_run(old(self)@).messages);
        Command::Open {
            run,
            url: completions_url(settings.base_url.as_str()),
            authorization: bearer_credential(settings.api_key.as_str()),
            request,
        }
    }

    /// Stops the run going on, if any, and releases its stream.
    pub fn stop(&mut self) -> (c: Command)
        requires
            old(self)@.wf(),
        ensures
            final(self)@ == after_stop(old(self)@),
            final(self)@.wf(),
            releases(old(self)@, c),
    {
        let c = match self.inference_status {
            InferenceStatus::Inferencing { run, .. } => Command::Cancel { run },
            InferenceStatus::Idle => Command::Nothing,
        };
        self.inference_status = InferenceStatus::Idle;
        c
    }

    /// Appends a fragment of run `run` to its target, if `run` is the
    /// current run.
    pub fn apply_fragment(&mut self, run: u64, text: &str)
        requires
            old(self)@.wf(),
        ensures
            final(self)@ == after_fragment(old(self)@, run, text@),
            final(self)@.wf(),
    {
        if let InferenceStatus::Inferencing { run: current, target } = self.inference_status {
            if current == run {
                self.messages[target].content.append(text);
                assert(self@.messages =~= after_fragment(old(self)@, run, text@).messages);
            }
        }
    }

    /// Ends run `run` on an error, if it is the current run: the error note
    /// is appended to its target and its stream released.
    pub fn apply_error(&mut self, run: u64, message: &str) -> (c: Command)
        requires
            old(self)@.wf(),
        ensures
            final(self)@ == after_error(old(self)@, run, message@),
            final(self)@.wf(),
            old(self)@.is_current(run) ==> releases(old(self)@, c),
            !old(self)@.is_current(run) ==> c is Nothing,
    {
        if let InferenceStatus::Inferencing { run: current, target } = self.inference_status {
            if current == run {
                let ghost before = self.messages@[target as int].content@;
                self.messages[target].content.append(ERROR_PREFIX);
                self.messages[target].content.append(message);
                assert(before + ERROR_PREFIX@ + message@ =~= before + error_note(message@));
                self.inference_status = InferenceStatus::Idle;
                assert(self@.messages =~= after_error(old(self)@, run, message@).messages);
                return Command::Cancel { run };
            }
        }
        Command::Nothing
    }

    /// Ends run `run` cleanly, if it is the current run, and releases its
    /// stream.
    pub fn finish(&mut self, run: u64) -> (c: Command)
        requires
            old(self)@.wf(),
        ensures
            final(self)@ == after_finish(old(self)@, run),
            final(self)@.wf(),
            old(self)@.is_current(run) ==> releases(old(self)@, c),
            !old(self)@.is_current(run) ==> c is Nothing,
    {
        if let InferenceStatus::Inferencing { run: current, .. } = self.inference_status {
            if current == run {
                self.inference_status = InferenceStatus::Idle;
                return Command::Cancel { run };
            }
        }
        Command::Nothing
    }

    /// Sets whether the conversation's display follows its end.
    pub fn set_stick_to_bottom(&mut self, value: bool)
        ensures
            final(self)@ == (ChatModel { stick_to_bottom: value, ..old(self)@ }),
    {
        self.stick_to_bottom = value;
    }

    /// Applies `msg` to the session, and says what its surroundings must do.
    pub fn update(&mut self, settings: &GenerationSettings, msg: ChatViewMsg) -> (c: Command)
        requires
            old(self)@.wf(),
            msg_in_range(old(self)@, msg),
        ensures
            final(self)@ == after_msg(old(self)@, msg),
            final(self)@.wf(),
            command_of(old(self)@, *settings, msg, c),
    {
        match msg {
            ChatViewMsg::ChangeRole { index, role } => {
                self.change_role(index, role);
                Command::Nothing
            },
            ChatViewMsg::EditText { index, text } => {
                self.edit_text(index, text);
                Command::Nothing
            },
            ChatViewMsg::AddMessage => {
                self.add_message();
                Command::Nothing
            },
            ChatViewMsg::DeleteMessage { index } => {
                self.delete_message(index);
                Command::Nothing
            },
            ChatViewMsg::Run => self.run(settings),
            ChatViewMsg::Stop => self.stop(),
            ChatViewMsg::Completion { run, delta } => match delta {
                Ok(text) => {
                    self.apply_fragment(run, text.as_str());
                    Command::Nothing
                },
                Err(message) => self.apply_error(run, message.as_str()),
            },
            ChatViewMsg::Finished { run } => self.finish(run),
            ChatViewMsg::StickToBottom(value) => {
                self.set_stick_to_bottom(value);
                Command::Nothing
            },
        }
    }
}

} // verus!
