use playground::delta::{next_step, StreamInput, StreamStep};
use playground::chat::{ChatView, ChatViewMsg, Command, InferenceStatus};
use playground::openai::{GenerationSettings, Role};

fn settings() -> GenerationSettings {
    GenerationSettings {
        base_url: "https://api.example.com".to_string(),
        api_key: "SECRET-REDACTED".to_string(),
        model: "test-model".to_string(),
        max_tokens: 1000,
        temperature_bits: 0.5f32.to_bits(),
    }
}

fn start(view: &mut ChatView) -> u64 {
    match view.update(&settings(), ChatViewMsg::Run) {
        Command::Open { run, .. } => run,
        other => panic!("expected a stream to open, got {:?}", other),
    }
}

fn fragment(view: &mut ChatView, run: u64, text: &str) -> Command {
    view.update(&settings(), ChatViewMsg::Completion { run, delta: Ok(text.to_string()) })
}

fn last_content(view: &ChatView) -> String {
    view.messages().last().unwrap().content.clone()
}

#[test]
fn new_session_has_one_empty_user_message() {
    let view = ChatView::new();
    assert_eq!(view.messages().len(), 1);
    assert_eq!(view.messages()[0].role, Role::User);
    assert_eq!(view.messages()[0].content, "");
    assert_eq!(view.inference_status(), InferenceStatus::Idle);
    assert!(!view.stick_to_bottom());
}

#[test]
fn fragments_are_concatenated_in_order() {
    let mut view = ChatView::new();
    let run = start(&mut view);
    for f in ["The", " quick", " brown", " fox"] {
        assert!(matches!(fragment(&mut view, run, f), Command::Nothing));
    }
    assert_eq!(last_content(&view), "The quick brown fox");
    assert!(matches!(view.inference_status(), InferenceStatus::Inferencing { .. }));
}

#[test]
fn stop_after_fragments_freezes_content() {
    let mut view = ChatView::new();
    let run = start(&mut view);
    fragment(&mut view, run, "one");
    fragment(&mut view, run, " two");
    match view.update(&settings(), ChatViewMsg::Stop) {
        Command::Cancel { run: r } => assert_eq!(r, run),
        other => panic!("expected a cancel, got {:?}", other),
    }
    assert_eq!(view.inference_status(), InferenceStatus::Idle);
    assert!(matches!(fragment(&mut view, run, " three"), Command::Nothing));
    let c = view.update(&settings(), ChatViewMsg::Completion { run, delta: Err("late".to_string()) });
    assert!(matches!(c, Command::Nothing));
    assert_eq!(last_content(&view), "one two");
    assert_eq!(view.inference_status(), InferenceStatus::Idle);
}

#[test]
fn stop_when_idle_is_a_no_op() {
    let mut view = ChatView::new();
    assert!(matches!(view.update(&settings(), ChatViewMsg::Stop), Command::Nothing));
    assert_eq!(view.inference_status(), InferenceStatus::Idle);
    assert_eq!(view.messages().len(), 1);
}

#[test]
fn stream_error_appends_note_and_goes_idle() {
    let mut view = ChatView::new();
    let run = start(&mut view);
    fragment(&mut view, run, "Hel");
    fragment(&mut view, run, "lo");
    let c = view.update(
        &settings(),
        ChatViewMsg::Completion { run, delta: Err("connection reset".to_string()) },
    );
    assert!(matches!(c, Command::Cancel { run: r } if r == run));
    assert_eq!(last_content(&view), "Hello\n\nRan into an error:\nconnection reset");
    assert_eq!(view.inference_status(), InferenceStatus::Idle);
}

#[test]
fn done_sentinel_ends_run_without_error_text() {
    let mut view = ChatView::new();
    let run = start(&mut view);
    fragment(&mut view, run, "Hi");
    fragment(&mut view, run, " there");
    let step = next_step(StreamInput::Message { data: "[DONE]".to_string() });
    assert!(matches!(step, StreamStep::Finish));
    let c = view.update(&settings(), ChatViewMsg::Finished { run });
    assert!(matches!(c, Command::Cancel { run: r } if r == run));
    assert_eq!(last_content(&view), "Hi there");
    assert_eq!(view.inference_status(), InferenceStatus::Idle);
}

#[test]
fn run_continues_trailing_assistant_message() {
    let mut view = ChatView::new();
    view.update(&settings(), ChatViewMsg::EditText { index: 0, text: "hello".to_string() });
    view.update(&settings(), ChatViewMsg::AddMessage);
    view.update(&settings(), ChatViewMsg::ChangeRole { index: 1, role: Role::Assistant });
    view.update(&settings(), ChatViewMsg::EditText { index: 1, text: "partial".to_string() });
    let run = start(&mut view);
    assert_eq!(view.messages().len(), 2);
    fragment(&mut view, run, " answer");
    assert_eq!(view.messages()[1].role, Role::Assistant);
    assert_eq!(view.messages()[1].content, "partial answer");
    assert_eq!(view.inference_status(), InferenceStatus::Inferencing { run, target: 1 });
}

#[test]
fn run_after_user_message_adds_empty_assistant_message() {
    let mut view = ChatView::new();
    view.update(&settings(), ChatViewMsg::EditText { index: 0, text: "hi".to_string() });
    let run = start(&mut view);
    assert_eq!(view.messages().len(), 2);
    assert_eq!(view.messages()[1].role, Role::Assistant);
    assert_eq!(view.messages()[1].content, "");
    fragment(&mut view, run, "hello");
    assert_eq!(view.messages()[0].content, "hi");
    assert_eq!(view.messages()[1].content, "hello");
}

#[test]
fn run_on_empty_conversation_adds_assistant_message() {
    let mut view = ChatView::new();
    view.update(&settings(), ChatViewMsg::DeleteMessage { index: 0 });
    assert_eq!(view.messages().len(), 0);
    let run = start(&mut view);
    assert_eq!(view.messages().len(), 1);
    assert_eq!(view.messages()[0].role, Role::Assistant);
    assert_eq!(view.inference_status(), InferenceStatus::Inferencing { run, target: 0 });
}

#[test]
fn second_run_while_inferencing_is_rejected() {
    let mut view = ChatView::new();
    let run = start(&mut view);
    fragment(&mut view, run, "abc");
    let c = view.update(&settings(), ChatViewMsg::Run);
    assert!(matches!(c, Command::Nothing));
    assert_eq!(view.messages().len(), 2);
    assert_eq!(view.inference_status(), InferenceStatus::Inferencing { run, target: 1 });
    assert_eq!(last_content(&view), "abc");
}

#[test]
fn run_request_carries_snapshot_and_settings() {
    let mut view = ChatView::new();
    view.update(&settings(), ChatViewMsg::EditText { index: 0, text: "hi".to_string() });
    match view.update(&settings(), ChatViewMsg::Run) {
        Command::Open { run, url, authorization, request } => {
            assert_eq!(run, 0);
            assert_eq!(url, "https://api.example.com/v1/chat/completions");
            assert_eq!(authorization, "Bearer SECRET-REDACTED");
            assert_eq!(request.messages.len(), 1);
            assert_eq!(request.messages[0].role, Role::User);
            assert_eq!(request.messages[0].content, "hi");
            assert_eq!(request.model, "test-model");
            assert_eq!(request.max_tokens, 1000);
            assert!(request.stream);
            assert_eq!(f32::from_bits(request.temperature_bits), 0.5);
        }
        other => panic!("expected a stream to open, got {:?}", other),
    }
}

#[test]
fn runs_are_numbered_and_stale_items_ignored() {
    let mut view = ChatView::new();
    let first = start(&mut view);
    view.update(&settings(), ChatViewMsg::Stop);
    let second = start(&mut view);
    assert_eq!(first, 0);
    assert_eq!(second, 1);
    fragment(&mut view, first, "stale");
    assert!(matches!(view.update(&settings(), ChatViewMsg::Finished { run: first }), Command::Nothing));
    fragment(&mut view, second, "fresh");
    assert_eq!(last_content(&view), "fresh");
    assert_eq!(view.inference_status(), InferenceStatus::Inferencing { run: second, target: 1 });
}

#[test]
fn role_change_and_delete_refused_while_inferencing() {
    let mut view = ChatView::new();
    let run = start(&mut view);
    view.update(&settings(), ChatViewMsg::ChangeRole { index: 0, role: Role::System });
    view.update(&settings(), ChatViewMsg::DeleteMessage { index: 0 });
    assert_eq!(view.messages().len(), 2);
    assert_eq!(view.messages()[0].role, Role::User);
    view.update(&settings(), ChatViewMsg::Finished { run });
    view.update(&settings(), ChatViewMsg::ChangeRole { index: 0, role: Role::System });
    assert_eq!(view.messages()[0].role, Role::System);
    view.update(&settings(), ChatViewMsg::DeleteMessage { index: 0 });
    assert_eq!(view.messages().len(), 1);
    assert_eq!(view.messages()[0].role, Role::Assistant);
}

#[test]
fn edit_and_add_permitted_while_inferencing() {
    let mut view = ChatView::new();
    let run = start(&mut view);
    view.update(&settings(), ChatViewMsg::EditText { index: 0, text: "edited".to_string() });
    view.update(&settings(), ChatViewMsg::AddMessage);
    assert_eq!(view.messages().len(), 3);
    assert_eq!(view.messages()[0].content, "edited");
    assert_eq!(view.messages()[2].role, Role::User);
    fragment(&mut view, run, "reply");
    assert_eq!(view.messages()[1].content, "reply");
    assert_eq!(view.messages()[2].content, "");
}

#[test]
fn stick_to_bottom_is_set() {
    let mut view = ChatView::new();
    view.update(&settings(), ChatViewMsg::StickToBottom(true));
    assert!(view.stick_to_bottom());
    view.update(&settings(), ChatViewMsg::StickToBottom(false));
    assert!(!view.stick_to_bottom());
}
