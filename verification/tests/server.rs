use open_realtime::protocol::{
    ClientEvent, ContentPart, ConversationItem, ResponseConfig, ServerEvent, SessionConfig, Tool,
};
use open_realtime::server::SessionHandler;

fn quiet(_text: &str) -> Vec<u8> {
    vec![1, 2, 3, 4]
}

fn user_item(text: &str) -> ConversationItem {
    ConversationItem {
        id: String::new(),
        item_type: "message".to_string(),
        status: String::new(),
        role: "user".to_string(),
        content: vec![ContentPart::InputText {
            content_type: "input_text".to_string(),
            text: text.to_string(),
        }],
        call_id: None,
        name: None,
        arguments: None,
        output: None,
    }
}

fn say(h: &mut SessionHandler, text: &str) -> Vec<ServerEvent> {
    h.handle_client_event(
        ClientEvent::ConversationItemCreate { item: user_item(text), previous_item_id: None, event_id: None },
        &quiet,
    );
    h.handle_client_event(ClientEvent::ResponseCreate { response: None, event_id: None }, &quiet)
}

fn set_modalities(h: &mut SessionHandler, m: &[&str]) {
    h.handle_client_event(
        ClientEvent::SessionUpdate {
            session: SessionConfig {
                modalities: Some(m.iter().map(|s| s.to_string()).collect()),
                ..Default::default()
            },
            event_id: None,
        },
        &quiet,
    );
}

fn names(events: &[ServerEvent]) -> Vec<&'static str> {
    events.iter().map(|e| e.event_type()).collect()
}

#[test]
fn session_created_carries_defaults() {
    let h = SessionHandler::with_id_suffix("abc");
    match h.session_created() {
        ServerEvent::SessionCreated { session } => {
            assert_eq!(session.id, "sess_abc");
            assert_eq!(session.model, "fake-realtime");
            assert_eq!(session.modalities, vec!["text".to_string(), "audio".to_string()]);
            assert_eq!(session.voice, "alloy");
            assert_eq!(session.tool_choice, "auto");
            assert_eq!(f32::from_bits(session.temperature), 0.8);
            assert_eq!(session.max_response_output_tokens, "\"inf\"");
            assert_eq!(session.object, "realtime.session");
            let td = session.turn_detection.unwrap();
            assert_eq!(td.turn_type, "server_vad");
            assert_eq!(f32::from_bits(td.threshold.unwrap()), 0.5);
        }
        _ => panic!("expected session.created"),
    }
}

#[test]
fn session_update_reports_new_settings() {
    let mut h = SessionHandler::with_id_suffix("x");
    let events = h.handle_client_event(
        ClientEvent::SessionUpdate {
            session: SessionConfig {
                instructions: Some("Be a pirate assistant.".to_string()),
                voice: Some("verse".to_string()),
                temperature: Some(1.2f32.to_bits()),
                max_response_output_tokens: Some(100),
                ..Default::default()
            },
            event_id: None,
        },
        &quiet,
    );
    assert_eq!(events.len(), 1);
    match &events[0] {
        ServerEvent::SessionUpdated { session } => {
            assert_eq!(session.instructions, "Be a pirate assistant.");
            assert_eq!(session.voice, "verse");
            assert_eq!(f32::from_bits(session.temperature), 1.2);
            assert_eq!(session.max_response_output_tokens, "100");
            assert_eq!(session.model, "fake-realtime");
        }
        _ => panic!("expected session.updated"),
    }
}

#[test]
fn item_create_assigns_ids() {
    let mut h = SessionHandler::with_id_suffix("x");
    let events = h.handle_client_event(
        ClientEvent::ConversationItemCreate { item: user_item("Hi"), previous_item_id: None, event_id: None },
        &quiet,
    );
    assert_eq!(names(&events), vec!["conversation.item.added", "conversation.item.done"]);
    match &events[0] {
        ServerEvent::ConversationItemAdded { item } => assert_eq!(item.id, "item_1"),
        _ => panic!(),
    }
    let mut named = user_item("Hi");
    named.id = "mine".to_string();
    let events = h.handle_client_event(
        ClientEvent::ConversationItemCreate { item: named, previous_item_id: None, event_id: None },
        &quiet,
    );
    match &events[1] {
        ServerEvent::ConversationItemDone { item } => assert_eq!(item.id, "mine"),
        _ => panic!(),
    }
}

#[test]
fn text_response_lifecycle() {
    let mut h = SessionHandler::with_id_suffix("x");
    set_modalities(&mut h, &["text"]);
    let events = say(&mut h, "Say hello world");
    assert_eq!(
        names(&events),
        vec![
            "response.created",
            "response.output_item.added",
            "response.content_part.added",
            "response.output_text.delta",
            "response.output_text.delta",
            "response.output_text.done",
            "response.content_part.done",
            "response.output_item.done",
            "response.done",
        ]
    );
    let mut streamed = String::new();
    for e in &events {
        if let ServerEvent::ResponseOutputTextDelta { delta, .. } = e {
            streamed.push_str(delta);
        }
    }
    assert_eq!(streamed, "Hello world!");
    match events.last().unwrap() {
        ServerEvent::ResponseDone { response } => {
            assert_eq!(response.status, "completed");
            assert_eq!(response.id, "resp_2");
            assert_eq!(response.output[0].id, "item_3");
            assert_eq!(response.output[0].phase.as_deref(), Some("final_answer"));
            assert_eq!(response.output[0].content[0].text, "Hello world!");
            let usage = response.usage.as_ref().unwrap();
            assert_eq!(usage.input_tokens, 15);
            assert_eq!(usage.output_tokens, 12);
            assert_eq!(usage.total_tokens, 27);
        }
        _ => panic!("expected response.done"),
    }
}

#[test]
fn audio_response_encodes_speech() {
    let mut h = SessionHandler::with_id_suffix("x");
    set_modalities(&mut h, &["audio"]);
    let events = say(&mut h, "hi");
    assert_eq!(
        names(&events),
        vec![
            "response.created",
            "response.output_item.added",
            "response.content_part.added",
            "response.output_audio.delta",
            "response.output_audio.done",
            "response.output_audio_transcript.done",
            "response.content_part.done",
            "response.output_item.done",
            "response.done",
        ]
    );
    match &events[3] {
        ServerEvent::ResponseOutputAudioDelta { delta, .. } => assert_eq!(delta, "AQIDBA=="),
        _ => panic!(),
    }
    match &events[5] {
        ServerEvent::ResponseOutputAudioTranscriptDone { transcript, .. } => {
            assert_eq!(transcript, "Hello!")
        }
        _ => panic!(),
    }
    match &events[2] {
        ServerEvent::ResponseContentPartAdded { part: Some(ContentPart::OutputText { content_type, .. }), .. } => {
            assert_eq!(content_type, "audio")
        }
        _ => panic!(),
    }
}

#[test]
fn default_answer_and_last_user_text() {
    let mut h = SessionHandler::with_id_suffix("x");
    set_modalities(&mut h, &["text"]);
    let events = say(&mut h, "Tell me a story");
    match events.last().unwrap() {
        ServerEvent::ResponseDone { response } => assert_eq!(
            response.output[0].content[0].text,
            "I received your message. This is the local test server."
        ),
        _ => panic!(),
    }
    // With no user item the model answers the empty text, which every
    // pattern contains loosely.
    let mut fresh = SessionHandler::with_id_suffix("y");
    set_modalities(&mut fresh, &["text"]);
    let events = fresh.handle_client_event(
        ClientEvent::ResponseCreate { response: Some(ResponseConfig {
            modalities: None, instructions: None, voice: None, output_audio_format: None,
            tools: None, tool_choice: None, temperature: None,
            max_response_output_tokens: None, reasoning: None,
        }), event_id: None },
        &quiet,
    );
    assert_eq!(events.last().unwrap().event_type(), "response.done");
}

#[test]
fn tool_call_when_requested() {
    let mut h = SessionHandler::with_id_suffix("x");
    let tool = Tool {
        tool_type: "function".to_string(),
        name: "get_weather".to_string(),
        description: "Get the current weather for a location".to_string(),
        parameters: "{}".to_string(),
    };
    h.handle_client_event(
        ClientEvent::SessionUpdate {
            session: SessionConfig { tools: Some(vec![tool]), ..Default::default() },
            event_id: None,
        },
        &quiet,
    );
    let events = say(&mut h, "What is the weather in Paris?");
    assert_eq!(
        names(&events),
        vec![
            "response.created",
            "response.output_item.added",
            "response.function_call_arguments.delta",
            "response.function_call_arguments.done",
            "response.done",
        ]
    );
    match &events[3] {
        ServerEvent::ResponseFunctionCallArgumentsDone { name, arguments, call_id, .. } => {
            assert_eq!(name, "get_weather");
            assert_eq!(arguments, "{\"location\": \"Paris\"}");
            assert_eq!(call_id, "call_4");
        }
        _ => panic!(),
    }
    match &events[4] {
        ServerEvent::ResponseDone { response } => {
            assert_eq!(response.output[0].item_type, "function_call");
            assert_eq!(response.output[0].phase.as_deref(), Some("commentary"));
        }
        _ => panic!(),
    }
}

#[test]
fn no_tool_call_without_tools() {
    let mut h = SessionHandler::with_id_suffix("x");
    set_modalities(&mut h, &["text"]);
    let events = say(&mut h, "What is the weather in Paris?");
    assert!(names(&events).contains(&"response.output_text.done"));
}

#[test]
fn delete_removes_item() {
    let mut h = SessionHandler::with_id_suffix("x");
    set_modalities(&mut h, &["text"]);
    h.handle_client_event(
        ClientEvent::ConversationItemCreate { item: user_item("hello"), previous_item_id: None, event_id: None },
        &quiet,
    );
    let events = h.handle_client_event(
        ClientEvent::ConversationItemDelete { item_id: "item_1".to_string(), event_id: None },
        &quiet,
    );
    assert!(events.is_empty());
    // The user's item is gone, so the model answers the empty text.
    let events = h.handle_client_event(ClientEvent::ResponseCreate { response: None, event_id: None }, &quiet);
    match &events[5] {
        ServerEvent::ResponseOutputTextDone { .. } | ServerEvent::ResponseOutputTextDelta { .. } => {}
        other => panic!("unexpected {}", other.event_type()),
    }
}

#[test]
fn ignored_events_produce_nothing() {
    let mut h = SessionHandler::with_id_suffix("x");
    for e in [
        ClientEvent::InputAudioBufferAppend { audio: "AAAA".to_string(), event_id: None },
        ClientEvent::InputAudioBufferCommit { event_id: None },
        ClientEvent::InputAudioBufferClear { event_id: None },
        ClientEvent::ResponseCancel { response_id: None, sample_count: None, event_id: None },
        ClientEvent::ConversationItemTruncate {
            item_id: "item_1".to_string(),
            content_index: 0,
            audio_end_ms: 10,
            event_id: None,
        },
    ] {
        assert!(h.handle_client_event(e, &quiet).is_empty());
    }
}

#[test]
fn event_type_names() {
    assert_eq!(ClientEvent::InputAudioBufferCommit { event_id: None }.event_type(), "input_audio_buffer.commit");
    assert_eq!(ServerEvent::Unknown.event_type(), "unknown");
}

#[test]
fn new_session_id_comes_from_the_clock() {
    let h = SessionHandler::new();
    match h.session_created() {
        ServerEvent::SessionCreated { session } => {
            assert!(session.id.starts_with("sess_"));
            let suffix = &session.id["sess_".len()..];
            assert_eq!(suffix.len(), 12);
            assert!(suffix.chars().all(|c| c.is_ascii_hexdigit()));
        }
        _ => panic!("Expected SessionCreated"),
    }
    assert_eq!(h.counter(), 0);
}

#[test]
fn server_event_names_are_distinct() {
    let events = vec![
        ServerEvent::Unknown,
        ServerEvent::RateLimitsUpdated { rate_limits: vec![] },
        ServerEvent::InputAudioBufferSpeechStarted { item_id: None, audio_start_ms: None },
        ServerEvent::InputAudioBufferSpeechStopped { audio_end_ms: 0, item_id: None },
        ServerEvent::InputAudioBufferCommitted { item_id: String::new(), previous_item_id: None },
    ];
    let names: Vec<&str> = events.iter().map(|e| e.event_type()).collect();
    for i in 0..names.len() {
        for j in 0..names.len() {
            assert_eq!(i == j, names[i] == names[j]);
        }
    }
}

#[test]
fn tools_follow_session() {
    let mut h = SessionHandler::with_id_suffix("x");
    let tool = Tool {
        tool_type: "function".into(),
        name: "get_time".into(),
        description: "Current time".into(),
        parameters: "{}".into(),
    };
    h.handle_client_event(
        ClientEvent::SessionUpdate {
            session: SessionConfig { tools: Some(vec![tool]), ..Default::default() },
            event_id: None,
        },
        &quiet,
    );
    let events = say(&mut h, "What time is it?");
    assert!(events.iter().any(|e| matches!(e,
        ServerEvent::ResponseFunctionCallArgumentsDone { name, arguments, .. }
            if name == "get_time" && arguments == r#"{"location": "UTC"}"#)));
}

#[test]
fn parse_failure_answer() {
    match open_realtime::events::parse_failure_event("expected value at line 1 column 1") {
        ServerEvent::Error { error } => {
            assert_eq!(error.error_type, "invalid_request_error");
            assert_eq!(error.message, "Failed to parse event: expected value at line 1 column 1");
            assert!(error.code.is_none() && error.param.is_none() && error.event_id.is_none());
        }
        _ => panic!("Expected Error"),
    }
}
