//! PCM16 (signed 16-bit, little-endian, mono, 24 kHz) audio helpers and the
//! base64 transport encoding of audio payloads.

use base64::Engine;
use vstd::prelude::*;

verus! {

// ------------------------------------------------------------------
// Model of PCM16 little-endian byte streams
// ------------------------------------------------------------------

/// The sample rate, in samples per second, of all PCM16 audio handled here.
pub open spec fn pcm_sample_rate() -> int {
    24000
}

/// The integer value of the little-endian sample made of `lo` and `hi`.
pub open spec fn le_sample_value(lo: u8, hi: u8) -> int {
    if hi < 128 {
        hi * 256 + lo
    } else {
        hi * 256 + lo - 65536
    }
}

/// The sample made of the little-endian byte pair `lo`, `hi`.
pub open spec fn le_sample(lo: u8, hi: u8) -> i16 {
    le_sample_value(lo, hi) as i16
}

/// The samples that a little-endian PCM16 byte stream holds; a trailing odd
/// byte belongs to no sample.
pub open spec fn decode_samples(bytes: Seq<u8>) -> Seq<i16> {
    Seq::new(bytes.len() / 2, |i: int| le_sample(bytes[2 * i], bytes[2 * i + 1]))
}

/// The sample's 16-bit two's-complement pattern, as an unsigned number.
pub open spec fn sample_bits(s: i16) -> int {
    if s >= 0 {
        s as int
    } else {
        s + 65536
    }
}

/// The low (first) byte of a sample in little-endian order.
pub open spec fn sample_lo(s: i16) -> u8 {
    (sample_bits(s) % 256) as u8
}

/// The high (second) byte of a sample in little-endian order.
pub open spec fn sample_hi(s: i16) -> u8 {
    (sample_bits(s) / 256) as u8
}

/// The little-endian PCM16 byte stream of a sequence of samples.
pub open spec fn encode_samples(samples: Seq<i16>) -> Seq<u8> {
    Seq::new(
        2 * samples.len(),
        |i: int|
            if i % 2 == 0 {
                sample_lo(samples[i / 2])
            } else {
                sample_hi(samples[i / 2])
            },
    )
}

/// Number of samples of `duration_ms` milliseconds of audio, rounded down.
pub open spec fn samples_in_ms(duration_ms: int) -> int {
    (pcm_sample_rate() * duration_ms) / 1000
}

/// Whole milliseconds of audio in a PCM16 byte stream of `len` bytes.
pub open spec fn duration_ms_of_len(len: int) -> int {
    ((len / 2) * 1000) / pcm_sample_rate()
}

proof fn lemma_sample_bytes_roundtrip(s: i16)
    ensures
        le_sample(sample_lo(s), sample_hi(s)) == s,
{
    let b = sample_bits(s);
    assert(0 <= b < 65536);
    assert(b == (b / 256) * 256 + b % 256);
}

proof fn lemma_bytes_sample_roundtrip(lo: u8, hi: u8)
    ensures
        sample_lo(le_sample(lo, hi)) == lo,
        sample_hi(le_sample(lo, hi)) == hi,
{
    let v = le_sample_value(lo, hi);
    assert(-32768 <= v < 32768);
    assert(le_sample(lo, hi) as int == v);
    assert(sample_bits(le_sample(lo, hi)) == hi * 256 + lo);
}

/// Decoding the bytes of any sample sequence gives back that sequence.
pub proof fn lemma_decode_encode_samples(samples: Seq<i16>)
    ensures
        decode_samples(encode_samples(samples)) == samples,
{
    let e = encode_samples(samples);
    let d = decode_samples(e);
    assert forall|i: int| 0 <= i < samples.len() implies #[trigger] d[i] == samples[i] by {
        assert(e[2 * i] == sample_lo(samples[i]));
        assert(e[2 * i + 1] == sample_hi(samples[i]));
        lemma_sample_bytes_roundtrip(samples[i]);
    }
    assert(d =~= samples);
}

/// Encoding the samples of an even-length byte stream gives back that stream.
pub proof fn lemma_encode_decode_samples(bytes: Seq<u8>)
    requires
        bytes.len() % 2 == 0,
    ensures
        encode_samples(decode_samples(bytes)) == bytes,
{
    let d = decode_samples(bytes);
    let e = encode_samples(d);
    assert forall|i: int| 0 <= i < bytes.len() implies #[trigger] e[i] == bytes[i] by {
        let k = i / 2;
        assert(0 <= k < d.len());
        lemma_bytes_sample_roundtrip(bytes[2 * k], bytes[2 * k + 1]);
        if i % 2 == 0 {
            assert(i == 2 * k);
        } else {
            assert(i == 2 * k + 1);
        }
    }
    assert(e =~= bytes);
}

/// Silence generated for a whole number of milliseconds lasts exactly that
/// long.
pub proof fn lemma_silence_duration(duration_ms: u32)
    ensures
        duration_ms_of_len(2 * samples_in_ms(duration_ms as int)) == duration_ms,
{
    let d = duration_ms as int;
    assert(samples_in_ms(d) == 24 * d) by (nonlinear_arith)
        requires
            samples_in_ms(d) == (24000 * d) / 1000,
            d >= 0,
    ;
    assert(((2 * (24 * d)) / 2) * 1000 / 24000 == d) by (nonlinear_arith)
        requires
            d >= 0,
    ;
}

// ------------------------------------------------------------------
// Sample/byte conversion
// ------------------------------------------------------------------

/// The sample held by the little-endian byte pair `lo`, `hi`.
fn sample_from_le(lo: u8, hi: u8) -> (s: i16)
    ensures
        s == le_sample(lo, hi),
        s as int == le_sample_value(lo, hi),
{
    if hi < 128 {
        (hi as i16) * 256 + (lo as i16)
    } else {
        ((hi as i16) - 256) * 256 + (lo as i16)
    }
}

/// The little-endian byte pair of a sample.
fn sample_to_le(s: i16) -> (r: (u8, u8))
    ensures
        r.0 == sample_lo(s),
        r.1 == sample_hi(s),
{
    let bits: u16 = if s >= 0 {
        s as u16
    } else {
        ((s as i32) + 65536) as u16
    };
    ((bits % 256) as u8, (bits / 256) as u8)
}

/// Generate `duration_ms` milliseconds of PCM16 silence at 24000 Hz:
/// `24000 * duration_ms / 1000` zero samples, two zero bytes each.
pub fn generate_silence(duration_ms: u32) -> (buf: Vec<u8>)
    ensures
        buf@.len() == 2 * samples_in_ms(duration_ms as int),
        forall|i: int| 0 <= i < buf@.len() ==> buf@[i] == 0u8,
{
    let sample_rate: u64 = 24000;
    let num_samples: u64 = (sample_rate * duration_ms as u64) / 1000;
    let mut buf: Vec<u8> = Vec::new();
    let mut i: u64 = 0;
    while i < num_samples
        invariant
            i <= num_samples,
            num_samples == samples_in_ms(duration_ms as int),
            buf@.len() == 2 * i,
            forall|j: int| 0 <= j < buf@.len() ==> buf@[j] == 0u8,
        decreases num_samples - i,
    {
        buf.push(0u8);
        buf.push(0u8);
        i = i + 1;
    }
    buf
}

/// Convert samples to raw little-endian PCM16 bytes.
pub fn samples_to_pcm(samples: &[i16]) -> (buf: Vec<u8>)
    requires
        2 * samples@.len() <= usize::MAX,
    ensures
        buf@ == encode_samples(samples@),
{
    let mut buf: Vec<u8> = Vec::with_capacity(samples.len() * 2);
    let n = samples.len();
    for i in 0..n
        invariant
            n == samples@.len(),
            buf@ == encode_samples(samples@.take(i as int)),
    {
        let (lo, hi) = sample_to_le(samples[i]);
        proof {
            let prev = encode_samples(samples@.take(i as int));
            let next = encode_samples(samples@.take(i + 1));
            assert(next =~= prev.push(lo).push(hi));
        }
        buf.push(lo);
        buf.push(hi);
    }
    assert(samples@.take(n as int) =~= samples@);
    buf
}

/// Decode little-endian PCM16 bytes into samples; a trailing odd byte is
/// ignored.
pub fn pcm_to_samples(bytes: &[u8]) -> (samples: Vec<i16>)
    ensures
        samples@ == decode_samples(bytes@),
{
    let mut samples: Vec<i16> = Vec::new();
    let len = bytes.len();
    let n = len / 2;
    for i in 0..n
        invariant
            len == bytes@.len(),
            n == bytes@.len() / 2,
            2 * n <= bytes@.len(),
            samples@ =~= decode_samples(bytes@).take(i as int),
    {
        assert(2 * i + 1 < bytes@.len());
        let s = sample_from_le(bytes[2 * i], bytes[2 * i + 1]);
        samples.push(s);
    }
    samples
}

/// Whether every sample lies within the PCM16 range `[-32768, 32767]`;
/// a sample of type `i16` always does.
pub fn validate_pcm16_range(samples: &[i16]) -> (ok: bool)
    ensures
        ok == (forall|i: int|
            0 <= i < samples@.len() ==> i16::MIN <= #[trigger] samples@[i] <= i16::MAX),
        ok,
{
    let n = samples.len();
    for i in 0..n
        invariant
            n == samples@.len(),
            forall|j: int| 0 <= j < i ==> i16::MIN <= #[trigger] samples@[j] <= i16::MAX,
    {
        let s = samples[i];
        if !(s >= i16::MIN && s <= i16::MAX) {
            return false;
        }
    }
    true
}

/// Duration in whole milliseconds of PCM16 data at 24000 Hz, truncated to
/// 32 bits.
pub fn pcm_duration_ms(pcm_data: &[u8]) -> (ms: u32)
    requires
        (pcm_data@.len() / 2) * 1000 <= u64::MAX,
    ensures
        ms == duration_ms_of_len(pcm_data@.len() as int) as u32,
{
    let num_samples = pcm_data.len() / 2;
    ((num_samples as u64 * 1000) / 24000) as u32
}

// ------------------------------------------------------------------
// Base64 transport encoding (the `base64` crate's STANDARD engine)
// ------------------------------------------------------------------

#[verifier::external_type_specification]
#[verifier::external_body]
pub struct ExDecodeError(base64::DecodeError);

/// The character of a 6-bit value in the standard base64 alphabet:
/// `A`-`Z`, `a`-`z`, `0`-`9`, `+`, `/`.
pub open spec fn base64_char(v: int) -> char {
    if v < 26 {
        ((65 + v) as u32) as char
    } else if v < 52 {
        ((71 + v) as u32) as char
    } else if v < 62 {
        ((v - 4) as u32) as char
    } else if v == 62 {
        '+'
    } else {
        '/'
    }
}

/// Standard base64 (RFC 4648, standard alphabet) of a byte string: each
/// group of three bytes gives four characters of six bits each, and a last
/// group of one or two bytes is padded with `=` to four characters. This is
/// what the `base64` crate's STANDARD engine produces.
pub open spec fn base64_encoding(bytes: Seq<u8>) -> Seq<char>
    decreases bytes.len(),
{
    if bytes.len() == 0 {
        seq![]
    } else if bytes.len() == 1 {
        let b0 = bytes[0] as int;
        seq![base64_char(b0 / 4), base64_char((b0 % 4) * 16), '=', '=']
    } else if bytes.len() == 2 {
        let b0 = bytes[0] as int;
        let b1 = bytes[1] as int;
        seq![
            base64_char(b0 / 4),
            base64_char((b0 % 4) * 16 + b1 / 16),
            base64_char((b1 % 16) * 4),
            '=',
        ]
    } else {
        let b0 = bytes[0] as int;
        let b1 = bytes[1] as int;
        let b2 = bytes[2] as int;
        seq![
            base64_char(b0 / 4),
            base64_char((b0 % 4) * 16 + b1 / 16),
            base64_char((b1 % 16) * 4 + b2 / 64),
            base64_char(b2 % 64),
        ] + base64_encoding(bytes.subrange(3, bytes.len() as int))
    }
}

/// Base64 text has four characters for every started group of three bytes.
pub proof fn lemma_base64_encoding_len(bytes: Seq<u8>)
    ensures
        base64_encoding(bytes).len() == 4 * ((bytes.len() + 2) / 3),
    decreases bytes.len(),
{
    if bytes.len() >= 3 {
        lemma_base64_encoding_len(bytes.subrange(3, bytes.len() as int));
    }
}

/// What the `base64` crate's STANDARD engine decodes a text into; `None` when
/// it rejects the text.
pub uninterp spec fn base64_decoding(text: Seq<char>) -> Option<Seq<u8>>;

/// Encode raw PCM16 bytes as base64 text.
///
/// Trusted: calls `base64::Engine::encode` on the STANDARD engine. Claimed of
/// it: the text is the standard padded base64 of the bytes, as
/// `base64_encoding` spells it out, and the same engine decodes it back to
/// the bytes. The engine panics when the output length overflows `usize`,
/// which the precondition excludes.
#[verifier::external_body]
pub fn pcm_to_base64(pcm_data: &[u8]) -> (text: String)
    requires
        4 * ((pcm_data@.len() + 2) / 3) <= usize::MAX,
    ensures
        text@ == base64_encoding(pcm_data@),
        base64_decoding(text@) == Some(pcm_data@),
{
    base64::engine::general_purpose::STANDARD.encode(pcm_data)
}

/// Decode base64 text to raw PCM16 bytes.
///
/// Trusted: calls `base64::Engine::decode` on the STANDARD engine. Claimed of
/// it: it succeeds exactly when the engine accepts the text, and then yields
/// the engine's decoding. Which `DecodeError` comes back is left unsaid.
#[verifier::external_body]
pub fn base64_to_pcm(b64: &str) -> (r: Result<Vec<u8>, base64::DecodeError>)
    ensures
        r is Ok <==> base64_decoding(b64@) is Some,
        r matches Ok(bytes) ==> base64_decoding(b64@) == Some(bytes@),
{
    base64::engine::general_purpose::STANDARD.decode(b64)
}

/// The message of a base64 decoding error.
///
/// Trusted: calls `ToString::to_string` through the `Display` impl of
/// `base64::DecodeError`. The error value is opaque here, so nothing is said
/// of the text.
#[verifier::external_body]
fn decode_error_message(e: &base64::DecodeError) -> (msg: String) {
    e.to_string()
}

/// The message returned for PCM16 data of odd length.
pub open spec fn odd_length_message() -> Seq<char> {
    "PCM16 data has odd length"@
}

/// Decode raw PCM16 bytes into samples, refusing a stream of odd length.
pub fn checked_pcm_to_samples(bytes: &[u8]) -> (r: Result<Vec<i16>, String>)
    ensures
        bytes@.len() % 2 != 0 ==> (r matches Err(m) && m@ == odd_length_message()),
        bytes@.len() % 2 == 0 ==> (r matches Ok(s) && s@ == decode_samples(bytes@)),
{
    if bytes.len() % 2 != 0 {
        return Err(String::from_str("PCM16 data has odd length"));
    }
    Ok(pcm_to_samples(bytes))
}

/// A text whose base64 decoding is the PCM16 byte stream of some samples (as
/// the text `pcm_to_base64` makes of `samples_to_pcm(samples)` is) decodes to
/// an even number of bytes holding exactly those samples, which is what
/// `base64_to_samples` then returns.
pub proof fn lemma_base64_samples_roundtrip(samples: Seq<i16>, text: Seq<char>)
    requires
        base64_decoding(text) == Some(encode_samples(samples)),
    ensures
        base64_decoding(text) matches Some(bytes) && bytes.len() % 2 == 0 && decode_samples(bytes)
            == samples,
{
    lemma_decode_encode_samples(samples);
}

/// Decode base64 text into PCM16 samples.
///
/// Fails when the text is not valid base64 (with the decoder's message) or
/// when the decoded byte stream has odd length.
pub fn base64_to_samples(b64: &str) -> (r: Result<Vec<i16>, String>)
    ensures
        base64_decoding(b64@) is None ==> r is Err,
        base64_decoding(b64@) matches Some(bytes) ==> {
            &&& bytes.len() % 2 != 0 ==> (r matches Err(m) && m@ == odd_length_message())
            &&& bytes.len() % 2 == 0 ==> (r matches Ok(s) && s@ == decode_samples(bytes))
        },
{
    match base64_to_pcm(b64) {
        Ok(bytes) => checked_pcm_to_samples(bytes.as_slice()),
        Err(e) => Err(decode_error_message(&e)),
    }
}

} // verus!
