use open_realtime::pipeline::{stream_tokens, FakeLlm, FakeStt, FakeTts, FakeTurnDetector};
use open_realtime::traits::TurnEvent;
use open_realtime::turn_flow::{StreamedTurn, TurnAction, TurnInput, TurnPhase};
use std::collections::VecDeque;

/// A 440 Hz tone lasting the speech stand-in's duration for `text`.
fn speech(tts: &FakeTts, text: &str) -> Vec<u8> {
    let ms = tts.synthesis_duration_ms(text);
    let n = (24000.0 * ms as f32 / 1000.0) as usize;
    let mut buf = Vec::with_capacity(n * 2);
    for i in 0..n {
        let t = i as f32 / 24000.0;
        let v = ((t * 2.0 * std::f32::consts::PI * 440.0).sin() * 16000.0) as i16;
        buf.extend_from_slice(&v.to_le_bytes());
    }
    buf
}

/// Drive a streamed turn with the stand-ins, as the pipeline does.
fn run_turn(stt: &mut FakeStt, llm: &FakeLlm, tts: &FakeTts, chunks: &mut Vec<Vec<u8>>) -> String {
    let mut turn = StreamedTurn::new();
    let mut pending: VecDeque<TurnAction> = turn.step(TurnInput::Start).into();
    let mut tokens: VecDeque<String> = VecDeque::new();
    while let Some(action) = pending.pop_front() {
        let input = match action {
            TurnAction::EndAudio => TurnInput::Transcript(stt.end_audio()),
            TurnAction::Generate(text) => {
                tokens = stream_tokens(&llm.generate(&text)).into();
                TurnInput::Generated
            }
            TurnAction::NextToken => TurnInput::Token(tokens.pop_front()),
            TurnAction::Synthesize(token) => TurnInput::Audio(speech(tts, &token)),
            TurnAction::Emit(audio) => {
                chunks.push(audio);
                continue;
            }
            TurnAction::Flush => TurnInput::Flushed(Vec::new()),
            TurnAction::Finish(text) => {
                stt.reset();
                assert_eq!(turn.phase(), TurnPhase::Done);
                return text;
            }
        };
        pending.extend(turn.step(input));
    }
    panic!("turn did not finish");
}

#[test]
fn test_pipeline_streaming() {
    let mut stt = FakeStt::new();
    stt.set_transcriptions(vec!["Hello".to_string()]);

    let mut llm = FakeLlm::new();
    llm.add_response("hello", "Hi there how are you");

    let tts = FakeTts::new();

    let mut td = FakeTurnDetector::new();
    td.set_event_sequence(vec![
        vec![TurnEvent::SpeechStarted { audio_start_ms: 0 }],
        vec![TurnEvent::SpeechStopped { audio_end_ms: 1000 }],
    ]);

    assert_eq!(td.process_audio(&[]), vec![TurnEvent::SpeechStarted { audio_start_ms: 0 }]);
    assert_eq!(td.process_audio(&[]), vec![TurnEvent::SpeechStopped { audio_end_ms: 1000 }]);

    let mut audio_chunks = Vec::new();
    let text = run_turn(&mut stt, &llm, &tts, &mut audio_chunks);

    assert!(text.contains("Hi there"), "Expected streaming response, got: {}", text);
    assert_eq!(audio_chunks.len(), 5, "Expected 5 audio chunks for 5 words");
    for chunk in &audio_chunks {
        assert!(!chunk.is_empty());
        assert_eq!(chunk.len() % 2, 0);
    }
}

#[test]
fn streamed_turn_returns_all_tokens_and_skips_empty_audio() {
    let mut turn = StreamedTurn::new();
    assert!(matches!(turn.step(TurnInput::Start).as_slice(), [TurnAction::EndAudio]));
    match turn.step(TurnInput::Transcript(None)).as_slice() {
        [TurnAction::Generate(t)] => assert_eq!(t, ""),
        other => panic!("unexpected {:?}", other),
    }
    assert!(matches!(turn.step(TurnInput::Generated).as_slice(), [TurnAction::NextToken]));
    assert!(matches!(turn.step(TurnInput::Token(Some("a ".into()))).as_slice(), [TurnAction::Synthesize(_)]));
    // Empty audio is not handed out.
    assert!(matches!(turn.step(TurnInput::Audio(vec![])).as_slice(), [TurnAction::NextToken]));
    assert!(matches!(turn.step(TurnInput::Token(Some("b".into()))).as_slice(), [TurnAction::Synthesize(_)]));
    assert!(matches!(turn.step(TurnInput::Audio(vec![1, 2])).as_slice(), [TurnAction::Emit(_), TurnAction::NextToken]));
    assert!(matches!(turn.step(TurnInput::Token(None)).as_slice(), [TurnAction::Flush]));
    match turn.step(TurnInput::Flushed(vec![3, 4])).as_slice() {
        [TurnAction::Emit(a), TurnAction::Finish(t)] => {
            assert_eq!(a, &vec![3u8, 4]);
            assert_eq!(t, "a b");
        }
        other => panic!("unexpected {:?}", other),
    }
    assert_eq!(turn.phase(), TurnPhase::Done);
    // Once done, further reports ask for nothing.
    assert!(turn.step(TurnInput::Generated).is_empty());
}
