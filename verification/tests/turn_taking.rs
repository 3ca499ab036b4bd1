use open_realtime::audio;
use open_realtime::turn_taking::{TurnMachineEvent, TurnState, TurnTakingConfig, TurnTakingMachine};

/// A sine tone at `freq` Hz lasting `duration_ms`, PCM16 at 24000 Hz.
fn tone(freq: f32, duration_ms: u32) -> Vec<u8> {
    let sample_rate: f32 = 24000.0;
    let num_samples = (sample_rate * duration_ms as f32 / 1000.0) as usize;
    let mut buf = Vec::with_capacity(num_samples * 2);
    for i in 0..num_samples {
        let t = i as f32 / sample_rate;
        let sample = (t * 2.0 * std::f32::consts::PI * freq).sin();
        let pcm = (sample * 16000.0) as i16;
        buf.extend_from_slice(&pcm.to_le_bytes());
    }
    buf
}

#[test]
fn test_idle_to_listening_on_speech() {
    let config = TurnTakingConfig::default();
    let mut tm = TurnTakingMachine::new(config);
    assert_eq!(tm.state(), TurnState::Idle);

    let tone = tone(440.0, 200);
    let events = tm.process_chunk(&tone);

    assert_eq!(tm.state(), TurnState::Listening);
    assert!(events.contains(&TurnMachineEvent::SpeechStarted));
}

#[test]
fn test_silence_stays_idle() {
    let config = TurnTakingConfig::default();
    let mut tm = TurnTakingMachine::new(config);
    assert_eq!(tm.state(), TurnState::Idle);

    let silence = audio::generate_silence(200);
    let events = tm.process_chunk(&silence);

    assert_eq!(tm.state(), TurnState::Idle);
    assert!(events.is_empty());
}

#[test]
fn test_endpoint_detection_on_silence() {
    let mut config = TurnTakingConfig::default();
    config.silence_duration_ms = 50;
    let mut tm = TurnTakingMachine::new(config);

    let tone = tone(440.0, 150);
    tm.process_chunk(&tone);
    assert_eq!(tm.state(), TurnState::Listening);

    let silence = audio::generate_silence(200);
    let events = tm.process_chunk(&silence);

    assert_eq!(tm.state(), TurnState::Processing);
    assert!(events.contains(&TurnMachineEvent::SpeechStopped));
}

#[test]
fn test_model_speaking_transition() {
    let config = TurnTakingConfig::default();
    let mut tm = TurnTakingMachine::new(config);

    tm.on_model_start_speaking();
    assert_eq!(tm.state(), TurnState::Speaking);
    assert!(tm.model_speaking());

    tm.on_model_stop_speaking();
    assert_eq!(tm.state(), TurnState::Idle);
    assert!(!tm.model_speaking());
}

#[test]
fn test_interruption_during_model_speech() {
    let mut config = TurnTakingConfig::default();
    config.allow_interruptions = true;
    let mut tm = TurnTakingMachine::new(config);

    tm.on_model_start_speaking();
    assert_eq!(tm.state(), TurnState::Speaking);

    let tone = tone(440.0, 200);
    let events = tm.process_chunk(&tone);

    assert_eq!(tm.state(), TurnState::Listening);
    assert!(events.contains(&TurnMachineEvent::Interrupted));
    assert!(!tm.model_speaking());
}

#[test]
fn test_short_noise_ignored() {
    let mut config = TurnTakingConfig::default();
    config.min_speech_duration_ms = 500;
    config.silence_duration_ms = 10;
    let mut tm = TurnTakingMachine::new(config);

    let tone = tone(440.0, 50);
    tm.process_chunk(&tone);
    assert_eq!(tm.state(), TurnState::Listening);

    let silence = audio::generate_silence(20);
    let events = tm.process_chunk(&silence);

    assert_eq!(tm.state(), TurnState::Idle);
    assert!(!events.contains(&TurnMachineEvent::SpeechStopped));
}

#[test]
fn default_config_values() {
    let c = TurnTakingConfig::default();
    assert_eq!(c.min_speech_duration_ms, 100);
    assert_eq!(c.silence_duration_ms, 200);
    assert_eq!(c.prefix_padding_ms, 100);
    assert_eq!(c.vad_threshold_ppm, 20000);
    assert_eq!(c.sample_rate, 24000);
    assert!(c.allow_interruptions);
}

#[test]
fn interruption_ignored_when_not_allowed() {
    let mut config = TurnTakingConfig::default();
    config.allow_interruptions = false;
    let mut tm = TurnTakingMachine::new(config);
    tm.on_model_start_speaking();
    let events = tm.process_chunk(&tone(440.0, 200));
    assert!(events.is_empty());
    assert_eq!(tm.state(), TurnState::Speaking);
    assert!(tm.model_speaking());
}

#[test]
fn processing_ignores_audio_until_model_speaks() {
    let mut config = TurnTakingConfig::default();
    config.silence_duration_ms = 50;
    let mut tm = TurnTakingMachine::new(config);
    tm.process_chunk(&tone(440.0, 150));
    tm.process_chunk(&audio::generate_silence(200));
    assert_eq!(tm.state(), TurnState::Processing);
    assert!(tm.process_chunk(&tone(440.0, 200)).is_empty());
    assert_eq!(tm.state(), TurnState::Processing);
    tm.on_model_start_speaking();
    assert_eq!(tm.state(), TurnState::Speaking);
}

#[test]
fn reset_returns_to_idle() {
    let mut tm = TurnTakingMachine::new(TurnTakingConfig::default());
    tm.on_model_start_speaking();
    tm.reset();
    assert_eq!(tm.state(), TurnState::Idle);
    assert!(!tm.model_speaking());
}

#[test]
fn threshold_boundary_is_exclusive() {
    // A constant chunk at amplitude 655 has RMS 655/32768 = 0.019989..,
    // just under 0.02; amplitude 656 gives 0.02001.., just over.
    let mut config = TurnTakingConfig::default();
    config.vad_threshold_ppm = 20000;
    let quiet = audio::samples_to_pcm(&vec![655i16; 2400]);
    let loud = audio::samples_to_pcm(&vec![-656i16; 2400]);
    let mut tm = TurnTakingMachine::new(config);
    assert!(tm.process_chunk(&quiet).is_empty());
    assert_eq!(tm.state(), TurnState::Idle);
    assert_eq!(tm.process_chunk(&loud), vec![TurnMachineEvent::SpeechStarted]);
}

#[test]
fn full_scale_threshold_never_triggers() {
    let mut config = TurnTakingConfig::default();
    config.vad_threshold_ppm = 1_000_000;
    let mut tm = TurnTakingMachine::new(config);
    let loudest = audio::samples_to_pcm(&vec![i16::MIN; 480]);
    assert!(tm.process_chunk(&loudest).is_empty());
    assert_eq!(tm.state(), TurnState::Idle);
}

#[test]
fn speech_accumulates_while_listening() {
    let mut config = TurnTakingConfig::default();
    config.min_speech_duration_ms = 250;
    config.silence_duration_ms = 100;
    let mut tm = TurnTakingMachine::new(config);
    tm.process_chunk(&tone(440.0, 150));
    tm.process_chunk(&tone(440.0, 150));
    // 300 ms of speech, then 50 ms of silence: still listening.
    assert!(tm.process_chunk(&audio::generate_silence(50)).is_empty());
    assert_eq!(tm.state(), TurnState::Listening);
    // Another 50 ms reaches the silence threshold.
    let events = tm.process_chunk(&audio::generate_silence(50));
    assert_eq!(events, vec![TurnMachineEvent::SpeechStopped]);
    assert_eq!(tm.state(), TurnState::Processing);
}

#[test]
fn machine_stays_well_formed() {
    let mut m = TurnTakingMachine::new(TurnTakingConfig::default());
    assert!(m.well_formed());
    m.on_model_start_speaking();
    assert!(m.well_formed() && m.model_speaking());
    m.on_model_stop_speaking();
    assert!(m.well_formed() && !m.model_speaking());
}

#[test]
fn speech_accumulates_across_short_pauses() {
    // Minimum speech 100 ms, endpoint after 200 ms of silence.
    let mut tm = TurnTakingMachine::new(TurnTakingConfig::default());
    assert_eq!(tm.process_chunk(&tone(440.0, 60)), vec![TurnMachineEvent::SpeechStarted]);
    assert!(tm.process_chunk(&audio::generate_silence(150)).is_empty());
    assert!(tm.process_chunk(&tone(440.0, 60)).is_empty());
    assert!(tm.process_chunk(&audio::generate_silence(100)).is_empty());
    assert_eq!(tm.state(), TurnState::Listening);
    // 120 ms of speech in all; the silence since the last speech reaches 200 ms.
    assert_eq!(tm.process_chunk(&audio::generate_silence(100)), vec![TurnMachineEvent::SpeechStopped]);
    assert_eq!(tm.state(), TurnState::Processing);
}

#[test]
fn pause_shorter_than_threshold_does_not_end_the_turn() {
    let mut tm = TurnTakingMachine::new(TurnTakingConfig::default());
    tm.process_chunk(&tone(440.0, 150));
    assert!(tm.process_chunk(&audio::generate_silence(150)).is_empty());
    assert!(tm.process_chunk(&tone(440.0, 20)).is_empty());
    // The earlier 150 ms of silence no longer counts after speech.
    assert!(tm.process_chunk(&audio::generate_silence(150)).is_empty());
    assert_eq!(tm.state(), TurnState::Listening);
}
