use open_realtime::protocol::{
    ClientEvent, ContentPart, ConversationItem, ResponseConfig, ResponseState, ServerEvent,
    SessionConfig,
};
use open_realtime::transport::fake::FakeTransport;

/// A session over the scripted transport, opened once `session.created` arrived.
struct TestSession {
    transport: FakeTransport,
    session_id: Option<String>,
}

fn fake_transport() -> FakeTransport {
    let mut fake = FakeTransport::new();
    fake.setup_session("sess_fake_test");
    fake
}

fn connect_with(mut transport: FakeTransport) -> Result<TestSession, String> {
    transport.connect();
    match transport.recv() {
        Some(ServerEvent::SessionCreated { session }) => {
            Ok(TestSession { transport, session_id: Some(session.id) })
        }
        Some(ServerEvent::Error { error }) => Err(format!("Connection error: {}", error.message)),
        Some(other) => Err(format!("Expected session.created, got: {}", other.event_type())),
        None => Err("Transport returned None".to_string()),
    }
}

impl TestSession {
    fn expect_event_type(&mut self, expected: &str) -> Result<ServerEvent, String> {
        loop {
            let event = self.transport.recv().ok_or_else(|| format!("Timed out waiting for event: {}", expected))?;
            if event.event_type() == expected {
                return Ok(event);
            }
            if let ServerEvent::Error { error } = &event {
                return Err(format!("Received error while waiting for {}: {}", expected, error.message));
            }
        }
    }

    fn update_session(&mut self, config: SessionConfig) -> Result<(), String> {
        self.transport.send(&ClientEvent::SessionUpdate { session: config, event_id: None });
        self.expect_event_type("session.updated").map(|_| ())
    }

    fn send_text(&mut self, text: &str) {
        let item = ConversationItem {
            id: String::new(),
            item_type: "message".to_string(),
            status: String::new(),
            role: "user".to_string(),
            content: vec![ContentPart::InputText {
                content_type: "input_text".to_string(),
                text: text.to_string(),
            }],
            call_id: None,
            name: None,
            arguments: None,
            output: None,
        };
        self.transport.send(&ClientEvent::ConversationItemCreate {
            item,
            previous_item_id: None,
            event_id: None,
        });
        self.transport.send(&ClientEvent::ResponseCreate {
            response: Some(ResponseConfig {
                modalities: None,
                instructions: None,
                voice: None,
                output_audio_format: None,
                tools: None,
                tool_choice: None,
                temperature: None,
                max_response_output_tokens: None,
                reasoning: None,
            }),
            event_id: None,
        });
    }

    fn wait_for_response_done(&mut self) -> Result<ResponseState, String> {
        match self.expect_event_type("response.done")? {
            ServerEvent::ResponseDone { response } => Ok(response),
            other => Err(format!("Expected response.done, got: {}", other.event_type())),
        }
    }

    fn close(mut self) {
        self.transport.close();
    }
}

fn response_text(response: &ResponseState) -> String {
    response
        .output
        .iter()
        .flat_map(|item| &item.content)
        .filter(|c| c.content_type == "text" || c.content_type == "output_text")
        .map(|c| if !c.text.is_empty() { c.text.clone() } else { c.transcript.clone() })
        .collect::<Vec<_>>()
        .join(" ")
}

fn text_only() -> SessionConfig {
    SessionConfig { modalities: Some(vec!["text".to_string()]), ..Default::default() }
}

#[test]
fn local_fake_audio_format_works() {
    let mut fake = fake_transport();
    fake.enqueue_session_updated();
    fake.enqueue_audio_response("hello", "base64audiodata");
    let mut session = connect_with(fake).unwrap();
    session
        .update_session(SessionConfig {
            modalities: Some(vec!["audio".to_string(), "text".to_string()]),
            ..Default::default()
        })
        .unwrap();
    session.send_text("Say hello");
    let response = session.wait_for_response_done().unwrap();
    assert_eq!(response.status, "completed");
    session.close();
}

#[test]
fn local_fake_connect_works() {
    let fake = fake_transport();
    let session = connect_with(fake).unwrap();
    assert!(session.session_id.is_some());
    session.close();
}

#[test]
fn local_fake_items_works() {
    let mut fake = fake_transport();
    fake.enqueue_session_updated();
    fake.enqueue_text_response("Hello", "Hi there!");
    let mut session = connect_with(fake).unwrap();
    session.update_session(text_only()).unwrap();
    session.send_text("Hello");
    let response = session.wait_for_response_done().unwrap();
    assert_eq!(response.status, "completed");
    session.close();
}

#[test]
fn local_fake_errors_works() {
    let mut fake = fake_transport();
    fake.enqueue_session_updated();
    let mut session = connect_with(fake).unwrap();
    session.update_session(text_only()).unwrap();
    session.close();
}

#[test]
fn local_fake_interruptions_works() {
    let mut fake = fake_transport();
    fake.enqueue_session_updated();
    fake.enqueue_text_response("Hello", "Hi!");
    let mut session = connect_with(fake).unwrap();
    session.update_session(text_only()).unwrap();
    session.send_text("Hello");
    let response = session.wait_for_response_done().unwrap();
    assert_eq!(response.status, "completed");
    session.close();
}

#[test]
fn local_fake_modalities_works() {
    let mut fake = fake_transport();
    fake.enqueue_session_updated();
    fake.enqueue_text_response("Hello", "Hi!");
    let mut session = connect_with(fake).unwrap();
    session.update_session(text_only()).unwrap();
    session.send_text("Hello");
    let response = session.wait_for_response_done().unwrap();
    assert_eq!(response.status, "completed");
    let text = response_text(&response);
    assert!(!text.is_empty());
    session.close();
}

#[test]
fn local_fake_phases_works() {
    let mut fake = fake_transport();
    fake.enqueue_session_updated();
    fake.enqueue_text_response("Question", "Answer.");
    let mut session = connect_with(fake).unwrap();
    session.update_session(text_only()).unwrap();
    session.send_text("Question");
    let response = session.wait_for_response_done().unwrap();
    assert_eq!(response.status, "completed");
    let text = response_text(&response);
    assert!(!text.is_empty());
    session.close();
}

#[test]
fn local_fake_tools_works() {
    let mut fake = fake_transport();
    fake.enqueue_session_updated();
    fake.enqueue_text_response("Hello", "Hi!");
    let mut session = connect_with(fake).unwrap();
    session.update_session(text_only()).unwrap();
    session.send_text("Hello");
    let response = session.wait_for_response_done().unwrap();
    assert_eq!(response.status, "completed");
    session.close();
}

#[test]
fn fake_session_answers_with_scripted_text() {
    let mut fake = fake_transport();
    fake.enqueue_session_updated();
    fake.enqueue_text_response("Question", "Answer.");
    let mut session = connect_with(fake).unwrap();
    assert_eq!(session.session_id.as_deref(), Some("sess_fake_test"));
    session.update_session(text_only()).unwrap();
    session.send_text("Question");
    let response = session.wait_for_response_done().unwrap();
    assert_eq!(response_text(&response), "Answer.");
    assert!(session.transport.recv().is_none());
    session.close();
}
