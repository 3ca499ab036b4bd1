use open_realtime::pipeline::{stream_tokens, FakeLlm, FakeStt, FakeTts, FakeTurnDetector};
use open_realtime::traits::TurnEvent;

#[test]
fn test_fake_stt() {
    let mut stt = FakeStt::new();
    stt.set_transcriptions(vec!["Hello world".to_string()]);
    let result = stt.end_audio();
    assert_eq!(result, Some("Hello world".to_string()));
}

#[test]
fn fake_stt_falls_back_when_exhausted() {
    let mut stt = FakeStt::default();
    stt.set_transcriptions(vec!["one".to_string(), "two".to_string()]);
    assert_eq!(stt.transcribe(&[1, 2, 3]), None);
    assert_eq!(stt.end_audio(), Some("one".to_string()));
    stt.reset();
    assert_eq!(stt.end_audio(), Some("two".to_string()));
    assert_eq!(stt.end_audio(), Some("I didn't catch that.".to_string()));
    assert_eq!(stt.end_audio(), Some("I didn't catch that.".to_string()));
    stt.set_transcriptions(vec!["again".to_string()]);
    assert_eq!(stt.end_audio(), Some("again".to_string()));
}

#[test]
fn test_fake_llm_match() {
    let mut llm = FakeLlm::new();
    llm.add_response("hello", "Hi there!");
    let result = llm.generate("Hello");
    assert_eq!(result, "Hi there!");
}

#[test]
fn test_fake_llm_default() {
    let mut llm = FakeLlm::new();
    llm.set_default_response("I don't know.");
    let result = llm.generate("unknown query");
    assert_eq!(result, "I don't know.");
}

#[test]
fn fake_llm_initial_default() {
    let llm = FakeLlm::default();
    assert_eq!(llm.generate("anything"), "I'm a fake model response.");
}

#[test]
fn fake_llm_substring_match() {
    let mut llm = FakeLlm::new();
    llm.add_response("weather", "Sunny.");
    // The key contains the pattern.
    assert_eq!(llm.generate("What is the WEATHER like?"), "Sunny.");
    // The pattern contains the key.
    assert_eq!(llm.generate("eat"), "Sunny.");
}

#[test]
fn fake_llm_add_replaces() {
    let mut llm = FakeLlm::new();
    llm.add_response("Hi", "first");
    llm.add_response("HI", "second");
    assert_eq!(llm.generate("hi"), "second");
}

#[test]
fn fake_llm_exact_beats_substring() {
    let mut llm = FakeLlm::new();
    llm.add_response("say", "partial");
    llm.add_response("say hello", "exact");
    assert_eq!(llm.generate("Say Hello"), "exact");
}

#[test]
fn test_fake_tts() {
    let tts = FakeTts::new();
    // Two characters at 50 ms each.
    assert_eq!(tts.synthesis_duration_ms("Hi"), 100);
}

#[test]
fn fake_tts_minimum_duration() {
    let mut tts = FakeTts::default();
    assert_eq!(tts.synthesis_duration_ms(""), 10);
    tts.set_speed(3);
    assert_eq!(tts.synthesis_duration_ms("abc"), 10);
    assert_eq!(tts.synthesis_duration_ms("abcd"), 12);
    // Length is counted in characters, not UTF-8 bytes.
    assert_eq!(tts.synthesis_duration_ms("é"), 10);
    tts.set_speed(100);
    assert_eq!(tts.synthesis_duration_ms("é"), 100);
    assert_eq!(tts.synthesis_duration_ms("héé"), 300);
    tts.set_speed(0);
    assert_eq!(tts.synthesis_duration_ms("anything"), 10);
}

#[test]
fn test_fake_turn_detector() {
    let mut td = FakeTurnDetector::new();
    td.set_event_sequence(vec![
        vec![TurnEvent::SpeechStarted { audio_start_ms: 0 }],
        vec![TurnEvent::SpeechStopped { audio_end_ms: 1000 }],
    ]);

    let events = td.process_audio(&[]);
    assert_eq!(events, vec![TurnEvent::SpeechStarted { audio_start_ms: 0 }]);

    let events = td.process_audio(&[]);
    assert_eq!(events, vec![TurnEvent::SpeechStopped { audio_end_ms: 1000 }]);

    assert_eq!(td.process_audio(&[]), vec![]);
    td.model_started_speaking();
    td.model_stopped_speaking();
    td.reset();
    assert_eq!(td.process_audio(&[]), vec![TurnEvent::SpeechStarted { audio_start_ms: 0 }]);
}

#[test]
fn test_llm_streaming_token_by_token() {
    let mut llm = FakeLlm::new();
    llm.add_response("test", "one two three four five");
    let tokens = stream_tokens(&llm.generate("test"));
    assert_eq!(tokens.len(), 5, "Expected 5 tokens for 5 words");
    assert_eq!(tokens[0], "one ");
    assert_eq!(tokens[4], "five");
}

#[test]
fn stream_tokens_collapses_whitespace() {
    assert_eq!(stream_tokens("  a \t b\n"), vec!["a ".to_string(), "b".to_string()]);
    assert!(stream_tokens("   ").is_empty());
    assert!(stream_tokens("").is_empty());
    assert_eq!(stream_tokens("x\u{3000}y"), vec!["x ".to_string(), "y".to_string()]);
    assert_eq!(stream_tokens("Hi there how are you").concat(), "Hi there how are you");
}
