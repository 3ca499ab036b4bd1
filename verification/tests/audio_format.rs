use open_realtime::audio;

fn tone(freq: f32, duration_ms: u32) -> Vec<u8> {
    let sample_rate: f32 = 24000.0;
    let num_samples = (sample_rate * duration_ms as f32 / 1000.0) as usize;
    let mut buf = Vec::with_capacity(num_samples * 2);
    for i in 0..num_samples {
        let t = i as f32 / sample_rate;
        let sample = (t * 2.0 * std::f32::consts::PI * freq).sin();
        let pcm = (sample * 16000.0) as i16;
        buf.extend_from_slice(&pcm.to_le_bytes());
    }
    buf
}

#[test]
fn af3_audio_encode_decode_roundtrip() {
    let pcm = tone(440.0, 100);

    let b64 = audio::pcm_to_base64(&pcm);
    let decoded = audio::base64_to_pcm(&b64).expect("Should decode");

    assert_eq!(pcm.len(), decoded.len(), "Roundtrip should preserve length");
    for (i, (&o, &d)) in pcm.iter().zip(decoded.iter()).enumerate() {
        assert_eq!(o, d, "Byte {} mismatch in roundtrip", i);
    }

    let samples = audio::base64_to_samples(&b64).expect("Should decode to samples");
    assert_eq!(samples.len(), pcm.len() / 2);
    assert!(audio::validate_pcm16_range(&samples));
}

#[test]
fn af4_generate_silence_valid() {
    let silence = audio::generate_silence(50);
    let expected_samples = (24000 * 50) / 1000;
    assert_eq!(silence.len(), expected_samples * 2);

    let samples = audio::base64_to_samples(&audio::pcm_to_base64(&silence)).unwrap();
    assert!(samples.iter().all(|&s| s == 0), "All samples should be zero for silence");
    assert!(audio::validate_pcm16_range(&samples));
}

#[test]
fn silence_length_rounds_down() {
    assert_eq!(audio::generate_silence(0).len(), 0);
    assert_eq!(audio::generate_silence(1).len(), 48);
    assert_eq!(audio::generate_silence(1000).len(), 48000);
}

#[test]
fn samples_to_pcm_is_little_endian() {
    let bytes = audio::samples_to_pcm(&[0, 1, -1, 256, i16::MIN, i16::MAX]);
    assert_eq!(
        bytes,
        vec![0x00, 0x00, 0x01, 0x00, 0xff, 0xff, 0x00, 0x01, 0x00, 0x80, 0xff, 0x7f]
    );
}

#[test]
fn pcm_to_samples_ignores_trailing_byte() {
    let samples = audio::pcm_to_samples(&[0x01, 0x00, 0xfe, 0xff, 0x07]);
    assert_eq!(samples, vec![1, -2]);
}

#[test]
fn sample_roundtrip_through_bytes() {
    let samples: Vec<i16> = vec![-32768, -12345, -1, 0, 1, 12345, 32767];
    let bytes = audio::samples_to_pcm(&samples);
    assert_eq!(audio::pcm_to_samples(&bytes), samples);
}

#[test]
fn base64_known_encoding() {
    assert_eq!(audio::pcm_to_base64(&[0x00, 0x01, 0x02]), "AAEC");
    assert_eq!(audio::pcm_to_base64(&[0xff]), "/w==");
    assert_eq!(audio::pcm_to_base64(&[]), "");
    assert_eq!(audio::pcm_to_base64(b"Man"), "TWFu");
    assert_eq!(audio::pcm_to_base64(b"fo"), "Zm8=");
    assert_eq!(audio::pcm_to_base64(&[0xfb, 0xef, 0xbe, 0x00]), "++++AA==");
}

#[test]
fn base64_to_samples_rejects_odd_length() {
    // "/w==" decodes to the single byte 0xff.
    let err = audio::base64_to_samples("/w==").unwrap_err();
    assert_eq!(err, "PCM16 data has odd length");
}

#[test]
fn base64_to_samples_rejects_invalid_text() {
    assert!(audio::base64_to_samples("not base64!").is_err());
    assert!(audio::base64_to_pcm("@@@@").is_err());
}

#[test]
fn base64_to_samples_decodes_values() {
    let b64 = audio::pcm_to_base64(&audio::samples_to_pcm(&[1000, -1000]));
    assert_eq!(audio::base64_to_samples(&b64).unwrap(), vec![1000, -1000]);
}

#[test]
fn checked_pcm_to_samples_cases() {
    assert_eq!(audio::checked_pcm_to_samples(&[0x10, 0x00]).unwrap(), vec![16]);
    assert_eq!(
        audio::checked_pcm_to_samples(&[0x10]).unwrap_err(),
        "PCM16 data has odd length"
    );
}

#[test]
fn duration_of_pcm() {
    assert_eq!(audio::pcm_duration_ms(&vec![0u8; 48000]), 1000);
    assert_eq!(audio::pcm_duration_ms(&vec![0u8; 47]), 0);
    assert_eq!(audio::pcm_duration_ms(&vec![0u8; 49]), 1);
    assert_eq!(audio::pcm_duration_ms(&audio::generate_silence(250)), 250);
}

#[test]
fn validate_range_always_true() {
    assert!(audio::validate_pcm16_range(&[]));
    assert!(audio::validate_pcm16_range(&[i16::MIN, 0, i16::MAX]));
}

#[test]
fn silence_lasts_its_duration() {
    for ms in [0u32, 1, 7, 100, 1234, 60_000] {
        assert_eq!(audio::pcm_duration_ms(&audio::generate_silence(ms)), ms);
    }
}
