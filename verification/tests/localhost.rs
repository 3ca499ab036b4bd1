use open_realtime::pipeline::FakeTts;
use open_realtime::protocol::{
    ClientEvent, ContentPart, ConversationItem, ResponseConfig, ResponseState, ServerEvent,
    SessionConfig, Tool,
};
use open_realtime::server::SessionHandler;
use std::collections::VecDeque;

/// A 440 Hz tone lasting the speech stand-in's duration for `text`.
fn speech(text: &str) -> Vec<u8> {
    let ms = FakeTts::new().synthesis_duration_ms(text);
    let n = (24000.0 * ms as f32 / 1000.0) as usize;
    let mut buf = Vec::with_capacity(n * 2);
    for i in 0..n {
        let t = i as f32 / 24000.0;
        let v = ((t * 2.0 * std::f32::consts::PI * 440.0).sin() * 16000.0) as i16;
        buf.extend_from_slice(&v.to_le_bytes());
    }
    buf
}

/// A session with the local server's handler, driven in process: each client
/// event is answered at once and the answers wait in a queue.
struct LocalSession {
    handler: SessionHandler,
    pending: VecDeque<ServerEvent>,
    session_id: Option<String>,
}

fn localhost_connect() -> LocalSession {
    let handler = SessionHandler::with_id_suffix("0123456789ab");
    let mut pending = VecDeque::new();
    pending.push_back(handler.session_created());
    let session_id = match pending.pop_front() {
        Some(ServerEvent::SessionCreated { session }) => Some(session.id),
        _ => None,
    };
    LocalSession { handler, pending, session_id }
}

impl LocalSession {
    fn send(&mut self, event: ClientEvent) {
        for e in self.handler.handle_client_event(event, &speech) {
            self.pending.push_back(e);
        }
    }

    fn recv(&mut self) -> Option<ServerEvent> {
        self.pending.pop_front()
    }

    fn expect_event_type(&mut self, expected: &str) -> ServerEvent {
        loop {
            let event = self.recv().expect("no more events");
            if event.event_type() == expected {
                return event;
            }
            if let ServerEvent::Error { error } = &event {
                panic!("Received error while waiting for {}: {}", expected, error.message);
            }
        }
    }

    fn update_session(&mut self, config: SessionConfig) {
        self.send(ClientEvent::SessionUpdate { session: config, event_id: None });
        self.expect_event_type("session.updated");
    }

    fn send_text(&mut self, text: &str) {
        let item = ConversationItem {
            id: String::new(),
            item_type: "message".to_string(),
            status: String::new(),
            role: "user".to_string(),
            content: vec![ContentPart::InputText {
                content_type: "input_text".to_string(),
                text: text.to_string(),
            }],
            call_id: None,
            name: None,
            arguments: None,
            output: None,
        };
        self.send(ClientEvent::ConversationItemCreate { item, previous_item_id: None, event_id: None });
        self.send(ClientEvent::ResponseCreate {
            response: Some(ResponseConfig {
                modalities: None,
                instructions: None,
                voice: None,
                output_audio_format: None,
                tools: None,
                tool_choice: None,
                temperature: None,
                max_response_output_tokens: None,
                reasoning: None,
            }),
            event_id: None,
        });
    }

    fn wait_for_response_done(&mut self) -> ResponseState {
        match self.expect_event_type("response.done") {
            ServerEvent::ResponseDone { response } => response,
            _ => unreachable!(),
        }
    }
}

fn response_text(response: &ResponseState) -> String {
    response
        .output
        .iter()
        .flat_map(|item| &item.content)
        .filter(|c| c.content_type == "text" || c.content_type == "output_text")
        .map(|c| if !c.text.is_empty() { c.text.clone() } else { c.transcript.clone() })
        .collect::<Vec<_>>()
        .join(" ")
}

fn text_only() -> SessionConfig {
    SessionConfig { modalities: Some(vec!["text".to_string()]), ..Default::default() }
}

#[test]
fn localhost_connection() {
    let session = localhost_connect();
    assert!(session.session_id.is_some());
}

#[test]
fn localhost_text_conversation() {
    let mut session = localhost_connect();
    session.update_session(text_only());
    session.send_text("Hello, how are you?");
    let response = session.wait_for_response_done();
    assert_eq!(response.status, "completed");
    let text = response_text(&response);
    assert!(!text.is_empty(), "Expected non-empty text response");
}

#[test]
fn localhost_audio_response() {
    let mut session = localhost_connect();
    session.update_session(SessionConfig {
        modalities: Some(vec!["audio".to_string(), "text".to_string()]),
        ..Default::default()
    });
    session.send_text("Say hello");
    let mut got_audio = false;
    loop {
        match session.recv() {
            Some(ServerEvent::ResponseOutputAudioDelta { .. }) => got_audio = true,
            Some(ServerEvent::ResponseDone { .. }) => break,
            Some(ServerEvent::Error { error }) => panic!("Error: {}", error.message),
            None => break,
            _ => {}
        }
    }
    assert!(got_audio, "Expected audio deltas in audio+text mode");
}

#[test]
fn localhost_function_calling() {
    let mut session = localhost_connect();
    let weather_tool = Tool {
        tool_type: "function".into(),
        name: "get_weather".into(),
        description: "Get the current weather for a location".into(),
        parameters: r#"{"type":"object","properties":{"location":{"type":"string","description":"The city name"}},"required":["location"]}"#.into(),
    };
    session.update_session(SessionConfig {
        tools: Some(vec![weather_tool]),
        modalities: Some(vec!["text".to_string()]),
        ..Default::default()
    });
    session.send_text("What is the weather in Paris?");

    let mut call_id = String::new();
    let mut tool_name = String::new();
    let mut tool_args = String::new();
    loop {
        match session.recv() {
            Some(ServerEvent::ResponseFunctionCallArgumentsDelta { call_id: cid, delta, .. }) => {
                call_id = cid;
                tool_args.push_str(&delta);
            }
            Some(ServerEvent::ResponseFunctionCallArgumentsDone { call_id: cid, name, arguments, .. }) => {
                call_id = cid;
                tool_name = name;
                tool_args = arguments;
            }
            Some(ServerEvent::ResponseDone { response }) => {
                if response.status == "completed" {
                    break;
                }
            }
            Some(ServerEvent::Error { error }) => panic!("Error: {}", error.message),
            None => break,
            _ => {}
        }
    }
    assert_eq!(tool_name, "get_weather", "Expected get_weather tool call");
    assert!(!call_id.is_empty(), "Expected call_id from tool call");
    assert!(!tool_args.is_empty(), "Expected tool arguments");

    session.send(ClientEvent::ConversationItemCreate {
        item: ConversationItem {
            id: String::new(),
            item_type: "function_call_output".into(),
            status: String::new(),
            role: String::new(),
            content: vec![],
            call_id: Some(call_id.clone()),
            name: None,
            arguments: None,
            output: Some(r#"{"temperature": 22, "condition": "sunny"}"#.into()),
        },
        previous_item_id: None,
        event_id: None,
    });
    session.send(ClientEvent::ResponseCreate { response: None, event_id: None });
    let response = session.wait_for_response_done();
    assert_eq!(response.status, "completed");
}

#[test]
fn localhost_multi_turn() {
    let mut session = localhost_connect();
    session.update_session(text_only());
    session.send_text("My name is Alice.");
    session.wait_for_response_done();
    session.send_text("What is my name?");
    let response = session.wait_for_response_done();
    assert_eq!(response.status, "completed");
    assert_eq!(response_text(&response), "Your name is Alice.");
}

#[test]
fn localhost_session_update() {
    let mut session = localhost_connect();
    session.update_session(SessionConfig {
        instructions: Some("Be a pirate assistant.".into()),
        temperature: Some(0.8f32.to_bits()),
        ..Default::default()
    });
    session.send_text("Hello");
    let response = session.wait_for_response_done();
    assert_eq!(response.status, "completed");
}

#[test]
fn localhost_cancel_response() {
    let mut session = localhost_connect();
    session.update_session(text_only());
    session.send_text("Count from 1 to 100.");
    loop {
        match session.recv() {
            Some(ServerEvent::ResponseCreated { response }) => {
                session.send(ClientEvent::ResponseCancel {
                    response_id: Some(response.id.clone()),
                    sample_count: None,
                    event_id: None,
                });
                break;
            }
            Some(ServerEvent::Error { error }) => panic!("Error: {}", error.message),
            None => panic!("no response.created"),
            _ => {}
        }
    }
    let response = session.wait_for_response_done();
    assert!(response.status == "cancelled" || response.status == "completed");
}

#[test]
fn localhost_streaming_text_deltas() {
    let mut session = localhost_connect();
    session.update_session(text_only());
    session.send_text("Say hello world");
    let mut deltas = Vec::new();
    loop {
        match session.recv() {
            Some(ServerEvent::ResponseOutputTextDelta { delta, .. }) => deltas.push(delta),
            Some(ServerEvent::ResponseDone { .. }) => break,
            Some(ServerEvent::Error { error }) => panic!("Error: {}", error.message),
            None => break,
            _ => {}
        }
    }
    let text: String = deltas.iter().map(|s| s.as_str()).collect();
    assert!(!text.is_empty(), "Expected text deltas in streaming mode");
    assert_eq!(text, "Hello world!");
}

#[test]
fn localhost_text_only_has_no_audio() {
    let mut session = localhost_connect();
    session.update_session(text_only());
    session.send_text("Hello");
    let mut audio = 0;
    let mut text_done = 0;
    loop {
        match session.recv() {
            Some(ServerEvent::ResponseOutputAudioDelta { .. }) => audio += 1,
            Some(ServerEvent::ResponseOutputTextDone { text, .. }) => {
                text_done += 1;
                assert_eq!(text, "Hello! I'm a local test server. How can I help you today?");
            }
            Some(ServerEvent::ResponseDone { .. }) => break,
            None => break,
            _ => {}
        }
    }
    assert_eq!((audio, text_done), (0, 1));
}

#[test]
fn localhost_audio_only_has_no_text_deltas() {
    let mut session = localhost_connect();
    session.update_session(SessionConfig { modalities: Some(vec!["audio".to_string()]), ..Default::default() });
    session.send_text("Hello");
    let mut audio = 0;
    let mut text = 0;
    loop {
        match session.recv() {
            Some(ServerEvent::ResponseOutputAudioDelta { .. }) => audio += 1,
            Some(ServerEvent::ResponseOutputTextDelta { .. }) | Some(ServerEvent::ResponseOutputTextDone { .. }) => {
                text += 1
            }
            Some(ServerEvent::ResponseDone { .. }) => break,
            None => break,
            _ => {}
        }
    }
    assert_eq!((audio, text), (1, 0));
}
