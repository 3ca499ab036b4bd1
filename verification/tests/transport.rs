use open_realtime::protocol::{
    ClientEvent, ContentPart, ConversationItem, ServerEvent, SessionConfig,
};
use open_realtime::transport::fake::FakeTransport;

fn user_item(text: &str) -> ConversationItem {
    ConversationItem {
        id: String::new(),
        item_type: "message".to_string(),
        status: String::new(),
        role: "user".to_string(),
        content: vec![ContentPart::InputText {
            content_type: "input_text".to_string(),
            text: text.to_string(),
        }],
        call_id: None,
        name: None,
        arguments: None,
        output: None,
    }
}

#[test]
fn test_fake_transport_basic() {
    let mut transport = FakeTransport::new();
    transport.setup_session("sess_test");
    transport.enqueue_text_response("Hello", "Hi there!");

    transport.connect();
    assert!(transport.is_connected());

    match transport.recv().unwrap() {
        ServerEvent::SessionCreated { session } => assert_eq!(session.id, "sess_test"),
        _ => panic!("Expected SessionCreated"),
    }

    transport.send(&ClientEvent::ConversationItemCreate {
        item: user_item("Hello"),
        previous_item_id: None,
        event_id: None,
    });
    transport.send(&ClientEvent::ResponseCreate { response: None, event_id: None });

    let mut response_text = String::new();
    loop {
        match transport.recv() {
            Some(ServerEvent::ResponseOutputTextDelta { delta, .. }) => {
                response_text.push_str(&delta);
            }
            Some(ServerEvent::ResponseDone { response }) => {
                assert!(response.status == "completed");
                break;
            }
            Some(_) => {}
            None => break,
        }
    }

    assert_eq!(response_text, "Hi there!");
    transport.close();
    assert!(!transport.is_connected());
}

#[test]
fn test_fake_transport_session_update() {
    let mut transport = FakeTransport::new();
    transport.setup_session("sess_test");
    transport.connect();
    transport.recv();

    transport.send(&ClientEvent::SessionUpdate {
        session: SessionConfig {
            instructions: Some("Be helpful.".into()),
            ..Default::default()
        },
        event_id: None,
    });

    match transport.recv().unwrap() {
        ServerEvent::SessionUpdated { .. } => {}
        _ => panic!("Expected SessionUpdated"),
    }
    transport.close();
}

#[test]
fn session_update_answered_once() {
    let mut transport = FakeTransport::default();
    transport.setup_session("s1");
    transport.enqueue_session_updated();
    transport.send(&ClientEvent::SessionUpdate { session: SessionConfig::default(), event_id: None });
    assert_eq!(transport.recv().unwrap().event_type(), "session.created");
    assert_eq!(transport.recv().unwrap().event_type(), "session.updated");
    assert!(transport.recv().is_none());
}

#[test]
fn scripted_text_response_lifecycle_order() {
    let mut t = FakeTransport::new();
    t.enqueue_text_response("q", "Answer.");
    let mut names = Vec::new();
    while let Some(e) = t.recv() {
        names.push(e.event_type());
    }
    assert_eq!(
        names,
        vec![
            "response.created",
            "response.output_item.added",
            "response.content_part.added",
            "response.output_text.delta",
            "response.output_text.done",
            "response.content_part.done",
            "response.output_item.done",
            "response.done",
        ]
    );
}

#[test]
fn scripted_ids_count_up() {
    let mut t = FakeTransport::new();
    t.enqueue_text_response("q", "a");
    t.enqueue_audio_response("hello", "base64audiodata");
    let mut ids = Vec::new();
    while let Some(e) = t.recv() {
        if let ServerEvent::ResponseCreated { response } = e {
            ids.push(response.id);
        }
    }
    assert_eq!(ids, vec!["resp_2".to_string(), "resp_4".to_string()]);
}

#[test]
fn scripted_function_call() {
    let mut t = FakeTransport::new();
    t.enqueue_function_call("q", "call_9", "get_weather", "{\"location\":\"Paris\"}", "Sunny.");
    match t.recv().unwrap() {
        ServerEvent::ResponseCreated { response } => assert_eq!(response.id, "resp_2"),
        _ => panic!("expected response.created"),
    }
    match t.recv().unwrap() {
        ServerEvent::ResponseFunctionCallArgumentsDone { call_id, name, arguments, item_id, .. } => {
            assert_eq!(call_id, "call_9");
            assert_eq!(name, "get_weather");
            assert_eq!(arguments, "{\"location\":\"Paris\"}");
            assert_eq!(item_id, "item_1");
        }
        _ => panic!("expected arguments.done"),
    }
    match t.recv().unwrap() {
        ServerEvent::ResponseDone { response } => {
            assert_eq!(response.output[0].item_type, "function_call");
            assert_eq!(response.output[0].phase.as_deref(), Some("commentary"));
        }
        _ => panic!("expected response.done"),
    }
    // Then the follow-up text response.
    match t.recv().unwrap() {
        ServerEvent::ResponseCreated { response } => assert_eq!(response.id, "resp_4"),
        _ => panic!("expected response.created"),
    }
}

#[test]
fn scripted_audio_response() {
    let mut t = FakeTransport::new();
    t.enqueue_audio_response("hello", "base64audiodata");
    let events: Vec<ServerEvent> = std::iter::from_fn(|| t.recv()).collect();
    assert_eq!(events.len(), 5);
    match &events[1] {
        ServerEvent::ResponseOutputAudioDelta { delta, .. } => assert_eq!(delta, "base64audiodata"),
        _ => panic!("expected audio delta"),
    }
    match &events[4] {
        ServerEvent::ResponseDone { response } => {
            assert_eq!(response.status, "completed");
            assert_eq!(response.output[0].content[0].transcript, "hello");
            assert_eq!(response.output[0].content[0].content_type, "audio");
        }
        _ => panic!("expected response.done"),
    }
}

#[test]
fn other_client_events_change_nothing() {
    let mut t = FakeTransport::new();
    t.send(&ClientEvent::InputAudioBufferClear { event_id: None });
    t.send(&ClientEvent::ResponseCancel { response_id: None, sample_count: None, event_id: None });
    assert!(t.recv().is_none());
}

#[test]
fn enqueued_events_come_out_in_order() {
    let mut transport = FakeTransport::new();
    transport.enqueue(ServerEvent::Unknown);
    transport.enqueue_session_updated();
    transport.connect();
    assert_eq!(transport.recv().map(|e| e.event_type()), Some("unknown"));
    assert_eq!(transport.recv().map(|e| e.event_type()), Some("session.updated"));
    assert!(transport.recv().is_none());
}
