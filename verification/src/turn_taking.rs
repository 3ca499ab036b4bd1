//! Turn-taking state machine for realtime audio conversations.
//!
//! States:
//! - Idle: waiting for user speech
//! - Listening: user is speaking, accumulating audio
//! - Processing: user stopped, model is generating a response
//! - Speaking: model is outputting audio
//!
//! Voice activity is detected by comparing the RMS energy of each PCM16 chunk,
//! normalised to full scale (32768), with a threshold. The threshold is held
//! as a fixed-point fraction of full scale in millionths (`20000` = 0.02), and
//! the comparison is carried out exactly in integers.

use vstd::prelude::*;
use crate::audio::{decode_samples, le_sample_value};

verus! {

/// The four phases of a conversation turn.
#[derive(Debug, Clone, Copy, PartialEq, Eq, Structural)]
pub enum TurnState {
    Idle,
    Listening,
    Processing,
    Speaking,
}

/// Events produced by the turn-taking machine.
#[derive(Debug, Clone, Copy, PartialEq, Eq, Structural)]
pub enum TurnMachineEvent {
    SpeechStarted,
    SpeechStopped,
    Interrupted,
}

/// Configuration for turn-taking behaviour.
#[derive(Debug, Clone, Copy, PartialEq, Eq, Structural)]
pub struct TurnTakingConfig {
    /// Minimum speech duration to consider as valid speech (ms).
    pub min_speech_duration_ms: u32,
    /// Silence duration to detect an endpoint (ms).
    pub silence_duration_ms: u32,
    /// Padding added before detected speech start (ms).
    pub prefix_padding_ms: u32,
    /// Audio energy threshold for VAD, in millionths of full scale
    /// (`0` to `1_000_000` spans 0.0 to 1.0).
    pub vad_threshold_ppm: u32,
    /// Sample rate for chunk durations.
    pub sample_rate: u32,
    /// Whether the user may interrupt model speech.
    pub allow_interruptions: bool,
}

impl Default for TurnTakingConfig {
    fn default() -> (c: Self)
        ensures
            c.min_speech_duration_ms == 100,
            c.silence_duration_ms == 200,
            c.prefix_padding_ms == 100,
            c.vad_threshold_ppm == 20000,
            c.sample_rate == 24000,
            c.allow_interruptions,
    {
        TurnTakingConfig {
            min_speech_duration_ms: 100,
            silence_duration_ms: 200,
            prefix_padding_ms: 100,
            vad_threshold_ppm: 20000,
            sample_rate: 24000,
            allow_interruptions: true,
        }
    }
}

// ------------------------------------------------------------------
// Voice activity model
// ------------------------------------------------------------------

/// Sum of the squares of the samples.
pub open spec fn sum_squares(s: Seq<i16>) -> int
    decreases s.len(),
{
    if s.len() == 0 {
        0
    } else {
        sum_squares(s.drop_last()) + (s.last() as int) * (s.last() as int)
    }
}

/// `2^30`, the square of PCM16 full scale.
pub open spec fn full_scale_sq() -> int {
    1073741824
}

/// `10^12`, the square of the threshold's fixed-point denominator.
pub open spec fn ppm_scale_sq() -> int {
    1000000000000
}

/// Whether the normalised RMS energy of the chunk exceeds the threshold:
/// `sqrt(sum_squares / n) / 32768 > ppm / 10^6`, written without roots or
/// division. A chunk with no complete sample has energy zero.
pub open spec fn energy_exceeds(audio: Seq<u8>, threshold_ppm: int) -> bool {
    let s = decode_samples(audio);
    &&& s.len() > 0
    &&& sum_squares(s) * ppm_scale_sq() > s.len() * (threshold_ppm * threshold_ppm
        * full_scale_sq())
}

/// Duration of a chunk of `len` bytes at `sample_rate`, in whole
/// milliseconds, truncated to 32 bits.
pub open spec fn chunk_duration_ms(len: int, sample_rate: int) -> u32 {
    (((len / 2) * 1000) / sample_rate) as u32
}

proof fn lemma_sum_squares_bound(s: Seq<i16>)
    ensures
        0 <= sum_squares(s) <= s.len() * full_scale_sq(),
    decreases s.len(),
{
    if s.len() > 0 {
        lemma_sum_squares_bound(s.drop_last());
        let x = s.last() as int;
        assert(x * x <= 1073741824) by (nonlinear_arith)
            requires
                -32768 <= x <= 32767,
        ;
        assert(x * x >= 0) by (nonlinear_arith);
    }
}

proof fn lemma_split_comparison(sum: int, n: int, q: int, r: int, k: int, c: int)
    by (nonlinear_arith)
    requires
        sum == n * q + r,
    ensures
        sum * c - n * k == r * c - n * (k - q * c),
{
}

proof fn lemma_product_lower(n: int, d: int, r: int, c: int)
    by (nonlinear_arith)
    requires
        n >= 1,
        d >= c,
        c >= 0,
        0 <= r < n,
    ensures
        n * d >= r * c,
{
    assert(n * d >= n * c);
    assert(n * c >= r * c);
}

proof fn lemma_negative_product(n: int, e: int)
    by (nonlinear_arith)
    requires
        n >= 1,
        e <= -1,
    ensures
        n * e <= -1,
{
}

proof fn lemma_quotient_bound(sum: int, n: int, q: int, r: int)
    by (nonlinear_arith)
    requires
        n >= 1,
        sum == n * q + r,
        0 <= r < n,
        0 <= sum <= n * 1073741824,
    ensures
        0 <= q <= 1073741824,
{
}

proof fn lemma_high_threshold(sum: int, n: int, ppm: int)
    by (nonlinear_arith)
    requires
        n >= 1,
        ppm >= 1000000,
        0 <= sum <= n * 1073741824,
    ensures
        sum * 1000000000000 <= n * (ppm * ppm * 1073741824),
{
    assert(ppm * ppm >= 1000000000000);
    assert(ppm * ppm * 1073741824 >= 1000000000000 * 1073741824);
    assert(n * (ppm * ppm * 1073741824) >= n * (1000000000000 * 1073741824));
}

/// Whether `sum * 10^12 > n * ppm^2 * 2^30`, decided without overflow.
fn exceeds_threshold(sum: u128, n: u128, ppm: u32) -> (r: bool)
    requires
        1 <= n <= u64::MAX,
        sum <= n * full_scale_sq(),
    ensures
        r == (sum * ppm_scale_sq() > n * (ppm * ppm * full_scale_sq())),
{
    if ppm >= 1000000 {
        proof {
            lemma_high_threshold(sum as int, n as int, ppm as int);
        }
        return false;
    }
    let p = ppm as u128;
    assert(p * p < 1000000000000) by (nonlinear_arith)
        requires
            p < 1000000,
    ;
    let k: u128 = p * p * 1073741824;
    let q = sum / n;
    let rem = sum % n;
    proof {
        vstd::arithmetic::div_mod::lemma_fundamental_div_mod(sum as int, n as int);
        assert(sum as int == n * q + rem);
        lemma_quotient_bound(sum as int, n as int, q as int, rem as int);
        lemma_split_comparison(
            sum as int,
            n as int,
            q as int,
            rem as int,
            k as int,
            1000000000000,
        );
    }
    let qs: u128 = q * 1000000000000;
    if qs > k {
        proof {
            lemma_negative_product(n as int, k - qs);
        }
        true
    } else {
        let d: u128 = k - qs;
        if d >= 1000000000000 {
            proof {
                lemma_product_lower(n as int, d as int, rem as int, 1000000000000);
            }
            false
        } else {
            assert(n * d < 18446744073709551616 * 1000000000000) by (nonlinear_arith)
                requires
                    n <= 18446744073709551615,
                    d < 1000000000000,
            ;
            assert(rem * 1000000000000 < 18446744073709551616 * 1000000000000)
                by (nonlinear_arith)
                requires
                    rem < n,
                    n <= 18446744073709551615,
            ;
            rem * 1000000000000 > n * d
        }
    }
}

/// Sum of the squares of the samples of a PCM16 chunk.
fn chunk_sum_squares(audio: &[u8]) -> (sum: u128)
    ensures
        sum == sum_squares(decode_samples(audio@)),
        sum <= decode_samples(audio@).len() * full_scale_sq(),
{
    let len = audio.len();
    let n = len / 2;
    let ghost samples = decode_samples(audio@);
    let mut sum: u128 = 0;
    for i in 0..n
        invariant
            len == audio@.len(),
            n == audio@.len() / 2,
            2 * n <= len,
            samples == decode_samples(audio@),
            sum == sum_squares(samples.take(i as int)),
            sum <= i * full_scale_sq(),
    {
        assert(2 * i + 1 < audio@.len());
        let lo = audio[2 * i];
        let hi = audio[2 * i + 1];
        let v: i64 = if hi < 128 {
            (hi as i64) * 256 + (lo as i64)
        } else {
            (hi as i64) * 256 + (lo as i64) - 65536
        };
        assert(v == le_sample_value(lo, hi));
        assert(samples[i as int] as int == v);
        assert(v * v <= 1073741824 && v * v >= 0) by (nonlinear_arith)
            requires
                -32768 <= v <= 32767,
        ;
        let sq: u128 = (v * v) as u128;
        proof {
            assert(samples.take(i + 1).drop_last() =~= samples.take(i as int));
        }
        sum = sum + sq;
    }
    assert(samples.take(n as int) =~= samples);
    sum
}

/// Whether the chunk counts as speech under the threshold.
fn detect_speech(audio: &[u8], threshold_ppm: u32) -> (speech: bool)
    ensures
        speech == energy_exceeds(audio@, threshold_ppm as int),
{
    let n = audio.len() / 2;
    if n == 0 {
        return false;
    }
    let sum = chunk_sum_squares(audio);
    exceeds_threshold(sum, n as u128, threshold_ppm)
}

// ------------------------------------------------------------------
// The machine
// ------------------------------------------------------------------

/// The abstract state of a turn-taking machine.
pub struct TurnTakingView {
    pub config: TurnTakingConfig,
    pub state: TurnState,
    pub accumulated_speech_ms: u32,
    pub accumulated_silence_ms: u32,
    pub model_speaking: bool,
}

impl TurnTakingView {
    /// The model is marked as speaking exactly in the Speaking state.
    pub open spec fn wf(self) -> bool {
        self.model_speaking == (self.state == TurnState::Speaking)
    }

    /// Whether `chunk_step` stays within 32-bit accumulators.
    pub open spec fn step_fits(self, is_speech: bool, chunk_ms: u32) -> bool {
        self.state == TurnState::Listening ==> {
            if is_speech {
                self.accumulated_speech_ms + chunk_ms <= u32::MAX
            } else {
                self.accumulated_silence_ms + chunk_ms <= u32::MAX
            }
        }
    }

    /// The state after `reset`.
    pub open spec fn after_reset(self) -> TurnTakingView {
        TurnTakingView {
            state: TurnState::Idle,
            accumulated_speech_ms: 0,
            accumulated_silence_ms: 0,
            model_speaking: false,
            ..self
        }
    }

    /// The state after the model starts speaking.
    pub open spec fn after_start_speaking(self) -> TurnTakingView {
        TurnTakingView { state: TurnState::Speaking, model_speaking: true, ..self }
    }

    /// The state after the model stops speaking.
    pub open spec fn after_stop_speaking(self) -> TurnTakingView {
        TurnTakingView {
            state: TurnState::Idle,
            model_speaking: false,
            accumulated_speech_ms: 0,
            accumulated_silence_ms: 0,
            ..self
        }
    }

    /// The state and events after a chunk of `chunk_ms` milliseconds that is
    /// (or is not) speech.
    pub open spec fn chunk_step(self, is_speech: bool, chunk_ms: u32) -> (
        TurnTakingView,
        Seq<TurnMachineEvent>,
    ) {
        match self.state {
            TurnState::Idle => if is_speech {
                (
                    TurnTakingView {
                        accumulated_speech_ms: chunk_ms,
                        accumulated_silence_ms: 0,
                        state: TurnState::Listening,
                        ..self
                    },
                    seq![TurnMachineEvent::SpeechStarted],
                )
            } else {
                (self, seq![])
            },
            TurnState::Listening => if is_speech {
                (
                    TurnTakingView {
                        accumulated_speech_ms: (self.accumulated_speech_ms + chunk_ms) as u32,
                        accumulated_silence_ms: 0,
                        ..self
                    },
                    seq![],
                )
            } else {
                let silence = (self.accumulated_silence_ms + chunk_ms) as u32;
                if silence >= self.config.silence_duration_ms {
                    if self.accumulated_speech_ms >= self.config.min_speech_duration_ms {
                        (
                            TurnTakingView {
                                accumulated_silence_ms: silence,
                                state: TurnState::Processing,
                                ..self
                            },
                            seq![TurnMachineEvent::SpeechStopped],
                        )
                    } else {
                        (
                            TurnTakingView {
                                state: TurnState::Idle,
                                accumulated_speech_ms: 0,
                                accumulated_silence_ms: 0,
                                ..self
                            },
                            seq![],
                        )
                    }
                } else {
                    (TurnTakingView { accumulated_silence_ms: silence, ..self }, seq![])
                }
            },
            TurnState::Processing => (self, seq![]),
            TurnState::Speaking => if is_speech && self.config.allow_interruptions {
                (
                    TurnTakingView {
                        state: TurnState::Listening,
                        accumulated_speech_ms: chunk_ms,
                        accumulated_silence_ms: 0,
                        model_speaking: false,
                        ..self
                    },
                    seq![TurnMachineEvent::Interrupted],
                )
            } else {
                (self, seq![])
            },
        }
    }
}

/// State machine that manages turn-taking in realtime audio conversations.
///
/// Tracks voice activity to detect speech start/stop, enforces minimum speech
/// and silence durations, and handles interruption when the user speaks over
/// the model.
pub struct TurnTakingMachine {
    config: TurnTakingConfig,
    state: TurnState,
    accumulated_speech_ms: u32,
    accumulated_silence_ms: u32,
    model_speaking: bool,
}

impl View for TurnTakingMachine {
    type V = TurnTakingView;

    closed spec fn view(&self) -> TurnTakingView {
        TurnTakingView {
            config: self.config,
            state: self.state,
            accumulated_speech_ms: self.accumulated_speech_ms,
            accumulated_silence_ms: self.accumulated_silence_ms,
            model_speaking: self.model_speaking,
        }
    }
}

impl TurnTakingMachine {
    #[verifier::type_invariant]
    spec fn inv(self) -> bool {
        self.model_speaking == (self.state == TurnState::Speaking)
    }

    /// A machine in the Idle state with empty accumulators.
    pub fn new(config: TurnTakingConfig) -> (m: Self)
        ensures
            m@.config == config,
            m@.state == TurnState::Idle,
            m@.accumulated_speech_ms == 0,
            m@.accumulated_silence_ms == 0,
            !m@.model_speaking,
            m@.wf(),
    {
        TurnTakingMachine {
            config,
            state: TurnState::Idle,
            accumulated_speech_ms: 0,
            accumulated_silence_ms: 0,
            model_speaking: false,
        }
    }

    /// Every machine value satisfies `wf`.
    pub fn well_formed(&self) -> (ok: bool)
        ensures
            ok,
            self@.wf(),
    {
        proof {
            use_type_invariant(self);
        }
        true
    }

    /// The current phase of the turn.
    pub fn state(&self) -> (s: TurnState)
        ensures
            s == self@.state,
    {
        self.state
    }

    /// Whether the model is speaking; this holds exactly in the Speaking state.
    pub fn model_speaking(&self) -> (b: bool)
        ensures
            b == self@.model_speaking,
            b == (self@.state == TurnState::Speaking),
    {
        proof {
            use_type_invariant(self);
        }
        self.model_speaking
    }

    /// Process an audio chunk and return the turn events that it caused.
    pub fn process_chunk(&mut self, audio: &[u8]) -> (events: Vec<TurnMachineEvent>)
        requires
            old(self)@.config.sample_rate > 0,
            (audio@.len() / 2) * 1000 <= u64::MAX,
            old(self)@.step_fits(
                energy_exceeds(audio@, old(self)@.config.vad_threshold_ppm as int),
                chunk_duration_ms(audio@.len() as int, old(self)@.config.sample_rate as int),
            ),
        ensures
            (final(self)@, events@) == old(self)@.chunk_step(
                energy_exceeds(audio@, old(self)@.config.vad_threshold_ppm as int),
                chunk_duration_ms(audio@.len() as int, old(self)@.config.sample_rate as int),
            ),
            final(self)@.wf(),
    {
        proof {
            use_type_invariant(&*self);
        }
        let mut events: Vec<TurnMachineEvent> = Vec::new();
        let is_speech = detect_speech(audio, self.config.vad_threshold_ppm);
        let chunk_ms: u32 = #[verifier::truncate] ((((audio.len() / 2) as u64 * 1000)
            / self.config.sample_rate as u64) as u32);
        let config = self.config;
        match self.state {
            TurnState::Idle => {
                if is_speech {
                    *self = TurnTakingMachine {
                        config,
                        state: TurnState::Listening,
                        accumulated_speech_ms: chunk_ms,
                        accumulated_silence_ms: 0,
                        model_speaking: false,
                    };
                    events.push(TurnMachineEvent::SpeechStarted);
                }
            },
            TurnState::Listening => {
                if is_speech {
                    self.accumulated_speech_ms = self.accumulated_speech_ms + chunk_ms;
                    self.accumulated_silence_ms = 0;
                } else {
                    self.accumulated_silence_ms = self.accumulated_silence_ms + chunk_ms;
                    if self.accumulated_silence_ms >= config.silence_duration_ms {
                        if self.accumulated_speech_ms >= config.min_speech_duration_ms {
                            self.state = TurnState::Processing;
                            events.push(TurnMachineEvent::SpeechStopped);
                        } else {
                            self.state = TurnState::Idle;
                            self.accumulated_speech_ms = 0;
                            self.accumulated_silence_ms = 0;
                        }
                    }
                }
            },
            TurnState::Processing => {},
            TurnState::Speaking => {
                if is_speech && config.allow_interruptions {
                    events.push(TurnMachineEvent::Interrupted);
                    *self = TurnTakingMachine {
                        config,
                        state: TurnState::Listening,
                        accumulated_speech_ms: chunk_ms,
                        accumulated_silence_ms: 0,
                        model_speaking: false,
                    };
                }
            },
        }
        proof {
            assert(events@ =~= old(self)@.chunk_step(is_speech, chunk_ms).1);
        }
        events
    }

    /// Called when the model starts generating or speaking.
    pub fn on_model_start_speaking(&mut self)
        ensures
            final(self)@ == old(self)@.after_start_speaking(),
            final(self)@.wf(),
    {
        *self = TurnTakingMachine {
            state: TurnState::Speaking,
            model_speaking: true,
            config: self.config,
            accumulated_speech_ms: self.accumulated_speech_ms,
            accumulated_silence_ms: self.accumulated_silence_ms,
        };
    }

    /// Called when the model finishes generating or speaking.
    pub fn on_model_stop_speaking(&mut self)
        ensures
            final(self)@ == old(self)@.after_stop_speaking(),
            final(self)@.wf(),
    {
        *self = TurnTakingMachine {
            state: TurnState::Idle,
            model_speaking: false,
            accumulated_speech_ms: 0,
            accumulated_silence_ms: 0,
            config: self.config,
        };
    }

    /// Reset to the Idle state (for example for a new session).
    pub fn reset(&mut self)
        ensures
            final(self)@ == old(self)@.after_reset(),
            final(self)@.wf(),
    {
        *self = TurnTakingMachine {
            state: TurnState::Idle,
            accumulated_speech_ms: 0,
            accumulated_silence_ms: 0,
            model_speaking: false,
            config: self.config,
        };
    }
}

// ------------------------------------------------------------------
// Laws of the machine
// ------------------------------------------------------------------

proof fn lemma_sum_squares_of_zero_samples(s: Seq<i16>)
    requires
        forall|i: int| 0 <= i < s.len() ==> s[i] == 0,
    ensures
        sum_squares(s) == 0,
    decreases s.len(),
{
    if s.len() > 0 {
        lemma_sum_squares_of_zero_samples(s.drop_last());
    }
}

/// A chunk of zero bytes (silence) never counts as speech, whatever the
/// threshold.
pub proof fn lemma_silence_is_not_speech(audio: Seq<u8>, threshold_ppm: int)
    requires
        forall|i: int| 0 <= i < audio.len() ==> audio[i] == 0u8,
        threshold_ppm >= 0,
    ensures
        !energy_exceeds(audio, threshold_ppm),
{
    let s = decode_samples(audio);
    assert forall|i: int| 0 <= i < s.len() implies s[i] == 0 by {
        assert(audio[2 * i] == 0u8 && audio[2 * i + 1] == 0u8);
    }
    lemma_sum_squares_of_zero_samples(s);
    assert(threshold_ppm * threshold_ppm >= 0) by (nonlinear_arith);
    assert(s.len() * (threshold_ppm * threshold_ppm * full_scale_sq()) >= 0) by (nonlinear_arith)
        requires
            threshold_ppm * threshold_ppm >= 0,
    ;
}

/// Every step keeps the model marked as speaking exactly in the Speaking state.
pub proof fn lemma_chunk_step_keeps_wf(m: TurnTakingView, is_speech: bool, chunk_ms: u32)
    requires
        m.wf(),
    ensures
        m.chunk_step(is_speech, chunk_ms).0.wf(),
        m.after_reset().wf(),
        m.after_start_speaking().wf(),
        m.after_stop_speaking().wf(),
{
}

/// A chunk causes at most one event, and never changes the configuration.
pub proof fn lemma_chunk_step_at_most_one_event(m: TurnTakingView, is_speech: bool, chunk_ms: u32)
    ensures
        m.chunk_step(is_speech, chunk_ms).1.len() <= 1,
        m.chunk_step(is_speech, chunk_ms).0.config == m.config,
{
}

/// Non-speech audio leaves an idle machine unchanged and silent.
pub proof fn lemma_idle_ignores_non_speech(m: TurnTakingView, chunk_ms: u32)
    requires
        m.state == TurnState::Idle,
    ensures
        m.chunk_step(false, chunk_ms) == (m, Seq::<TurnMachineEvent>::empty()),
{
    assert(m.chunk_step(false, chunk_ms).1 =~= Seq::<TurnMachineEvent>::empty());
}

/// While the model's response is being prepared, audio changes nothing.
pub proof fn lemma_processing_ignores_audio(m: TurnTakingView, is_speech: bool, chunk_ms: u32)
    requires
        m.state == TurnState::Processing,
    ensures
        m.chunk_step(is_speech, chunk_ms) == (m, Seq::<TurnMachineEvent>::empty()),
{
    assert(m.chunk_step(is_speech, chunk_ms).1 =~= Seq::<TurnMachineEvent>::empty());
}

/// Speech starts a turn exactly from the Idle state, on a speech chunk.
pub proof fn lemma_speech_started_iff(m: TurnTakingView, is_speech: bool, chunk_ms: u32)
    ensures
        m.chunk_step(is_speech, chunk_ms).1.contains(TurnMachineEvent::SpeechStarted) <==> (
        m.state == TurnState::Idle && is_speech),
{
    let ev = m.chunk_step(is_speech, chunk_ms).1;
    if m.state == TurnState::Idle && is_speech {
        assert(ev[0] == TurnMachineEvent::SpeechStarted);
    }
}

/// An endpoint is reported exactly when, while listening, a non-speech chunk
/// brings the silence to its threshold after enough speech; the machine then
/// waits for the model in the Processing state.
pub proof fn lemma_speech_stopped_iff(m: TurnTakingView, is_speech: bool, chunk_ms: u32)
    requires
        m.step_fits(is_speech, chunk_ms),
    ensures
        m.chunk_step(is_speech, chunk_ms).1.contains(TurnMachineEvent::SpeechStopped) <==> {
            &&& m.state == TurnState::Listening
            &&& !is_speech
            &&& m.accumulated_silence_ms + chunk_ms >= m.config.silence_duration_ms
            &&& m.accumulated_speech_ms >= m.config.min_speech_duration_ms
        },
        m.chunk_step(is_speech, chunk_ms).1.contains(TurnMachineEvent::SpeechStopped)
            ==> m.chunk_step(is_speech, chunk_ms).0.state == TurnState::Processing,
{
    let ev = m.chunk_step(is_speech, chunk_ms).1;
    if ev.contains(TurnMachineEvent::SpeechStopped) {
        let i = choose|i: int| 0 <= i < ev.len() && ev[i] == TurnMachineEvent::SpeechStopped;
        assert(ev[i] == TurnMachineEvent::SpeechStopped);
    }
    if m.state == TurnState::Listening && !is_speech && m.accumulated_silence_ms + chunk_ms
        >= m.config.silence_duration_ms && m.accumulated_speech_ms
        >= m.config.min_speech_duration_ms {
        assert(ev[0] == TurnMachineEvent::SpeechStopped);
    }
}

/// Speech shorter than the minimum, followed by enough silence, is dropped as
/// noise: the machine returns to Idle with empty accumulators and reports
/// nothing.
pub proof fn lemma_short_speech_is_noise(m: TurnTakingView, chunk_ms: u32)
    requires
        m.wf(),
        m.state == TurnState::Listening,
        m.step_fits(false, chunk_ms),
        m.accumulated_silence_ms + chunk_ms >= m.config.silence_duration_ms,
        m.accumulated_speech_ms < m.config.min_speech_duration_ms,
    ensures
        m.chunk_step(false, chunk_ms).0 == m.after_reset(),
        m.chunk_step(false, chunk_ms).1.len() == 0,
{
}

/// Speech over the model interrupts it when interruptions are allowed (the
/// user's turn begins, the model stops), and is ignored otherwise.
pub proof fn lemma_interruption(m: TurnTakingView, is_speech: bool, chunk_ms: u32)
    requires
        m.state == TurnState::Speaking,
    ensures
        is_speech && m.config.allow_interruptions ==> {
            &&& m.chunk_step(is_speech, chunk_ms).1 == seq![TurnMachineEvent::Interrupted]
            &&& m.chunk_step(is_speech, chunk_ms).0.state == TurnState::Listening
            &&& !m.chunk_step(is_speech, chunk_ms).0.model_speaking
            &&& m.chunk_step(is_speech, chunk_ms).0.accumulated_speech_ms == chunk_ms
        },
        !(is_speech && m.config.allow_interruptions) ==> m.chunk_step(is_speech, chunk_ms) == (
        m,
        Seq::<TurnMachineEvent>::empty(),
        ),
{
    assert(m.chunk_step(false, chunk_ms).1 =~= Seq::<TurnMachineEvent>::empty());
    assert(m.chunk_step(true, chunk_ms).1 =~= (if m.config.allow_interruptions {
        seq![TurnMachineEvent::Interrupted]
    } else {
        Seq::<TurnMachineEvent>::empty()
    }));
}

/// The model finishing its turn leaves the machine exactly as a reset does,
/// and a reset is idempotent.
pub proof fn lemma_stop_speaking_is_reset(m: TurnTakingView)
    ensures
        m.after_stop_speaking() == m.after_reset(),
        m.after_reset().after_reset() == m.after_reset(),
        m.after_start_speaking().after_stop_speaking() == m.after_reset(),
{
}

// ------------------------------------------------------------------
// Histories of chunks
// ------------------------------------------------------------------

/// The machine after a history of chunks, each given as whether it is
/// speech and its duration in milliseconds.
pub open spec fn run_chunks(m: TurnTakingView, h: Seq<(bool, u32)>) -> TurnTakingView
    decreases h.len(),
{
    if h.len() == 0 {
        m
    } else {
        run_chunks(m, h.drop_last()).chunk_step(h.last().0, h.last().1).0
    }
}

/// Total duration of the speech chunks of a history.
pub open spec fn speech_ms_total(h: Seq<(bool, u32)>) -> int
    decreases h.len(),
{
    if h.len() == 0 {
        0
    } else {
        speech_ms_total(h.drop_last()) + if h.last().0 {
            h.last().1 as int
        } else {
            0
        }
    }
}

/// Total duration of the non-speech chunks after the last speech chunk of a
/// history.
pub open spec fn trailing_silence_ms(h: Seq<(bool, u32)>) -> int
    decreases h.len(),
{
    if h.len() == 0 {
        0
    } else if h.last().0 {
        0
    } else {
        trailing_silence_ms(h.drop_last()) + h.last().1
    }
}

/// Whether `h` is a turn of the user still being listened to: its first
/// chunk is speech that opened the turn (from Idle, or by interrupting the
/// model), every chunk kept the machine listening, and no accumulator
/// overflowed on the way.
pub open spec fn listening_turn(m: TurnTakingView, h: Seq<(bool, u32)>) -> bool {
    &&& m.state == TurnState::Idle || (m.state == TurnState::Speaking
        && m.config.allow_interruptions)
    &&& h.len() >= 1
    &&& h[0].0
    &&& forall|k: int| 1 <= k <= h.len() ==> #[trigger] run_chunks(m, h.take(k)).state
        == TurnState::Listening
    &&& forall|k: int|
        0 <= k < h.len() ==> #[trigger] run_chunks(m, h.take(k)).step_fits(h[k].0, h[k].1)
}

proof fn lemma_listening_turn_prefix(m: TurnTakingView, h: Seq<(bool, u32)>)
    requires
        listening_turn(m, h),
        h.len() >= 2,
    ensures
        listening_turn(m, h.drop_last()),
{
    let p = h.drop_last();
    assert forall|k: int| 1 <= k <= p.len() implies #[trigger] run_chunks(m, p.take(k)).state
        == TurnState::Listening by {
        assert(p.take(k) =~= h.take(k));
    }
    assert forall|k: int| 0 <= k < p.len() implies #[trigger] run_chunks(m, p.take(k)).step_fits(
        p[k].0,
        p[k].1,
    ) by {
        assert(p.take(k) =~= h.take(k));
        assert(run_chunks(m, h.take(k)).step_fits(h[k].0, h[k].1));
    }
}

/// While the user's turn is being listened to, the speech accumulator holds
/// the total speech of the turn so far and the silence accumulator the
/// silence since its last speech chunk.
pub proof fn lemma_listening_accumulates(m: TurnTakingView, h: Seq<(bool, u32)>)
    requires
        listening_turn(m, h),
    ensures
        run_chunks(m, h).accumulated_speech_ms == speech_ms_total(h),
        run_chunks(m, h).accumulated_silence_ms == trailing_silence_ms(h),
    decreases h.len(),
{
    let p = h.drop_last();
    if h.len() == 1 {
        assert(p.len() == 0);
        assert(h.last() == h[0]);
        assert(h.take(1) =~= h);
        assert(run_chunks(m, p) == m);
        assert(speech_ms_total(p) == 0);
        assert(speech_ms_total(h) == h[0].1);
    } else {
        lemma_listening_turn_prefix(m, h);
        lemma_listening_accumulates(m, p);
        let n = h.len() as int;
        assert(h.take(n - 1) =~= p);
        assert(h.take(n) =~= h);
        assert(run_chunks(m, h.take(n - 1)).state == TurnState::Listening);
        assert(run_chunks(m, h.take(n - 1)).step_fits(h[n - 1].0, h[n - 1].1));
        assert(run_chunks(m, h.take(n)).state == TurnState::Listening);
        assert(h.last() == h[n - 1]);
        let prev = run_chunks(m, p);
        assert(run_chunks(m, h) == prev.chunk_step(h[n - 1].0, h[n - 1].1).0);
        assert(speech_ms_total(h) == speech_ms_total(p) + if h[n - 1].0 {
            h[n - 1].1 as int
        } else {
            0
        });
    }
}

/// Over a turn being listened to, the next chunk ends the turn (reports
/// SpeechStopped) exactly when it is not speech, the silence since the last
/// speech chunk then reaches the silence threshold, and the turn's total
/// speech reaches the minimum; with too little speech the turn is dropped
/// instead, back to Idle with no event.
pub proof fn lemma_endpoint_over_history(
    m: TurnTakingView,
    h: Seq<(bool, u32)>,
    is_speech: bool,
    chunk_ms: u32,
)
    requires
        listening_turn(m, h),
        run_chunks(m, h).step_fits(is_speech, chunk_ms),
    ensures
        run_chunks(m, h).chunk_step(is_speech, chunk_ms).1 == seq![TurnMachineEvent::SpeechStopped]
            <==> {
            &&& !is_speech
            &&& trailing_silence_ms(h) + chunk_ms >= m.config.silence_duration_ms
            &&& speech_ms_total(h) >= m.config.min_speech_duration_ms
        },
        !is_speech && trailing_silence_ms(h) + chunk_ms >= m.config.silence_duration_ms
            && speech_ms_total(h) < m.config.min_speech_duration_ms ==> {
            &&& run_chunks(m, h).chunk_step(is_speech, chunk_ms).1.len() == 0
            &&& run_chunks(m, h).chunk_step(is_speech, chunk_ms).0.state == TurnState::Idle
        },
{
    lemma_listening_accumulates(m, h);
    lemma_run_keeps_config(m, h);
    let n = h.len() as int;
    assert(h.take(n) =~= h);
    let r = run_chunks(m, h);
    assert(r.state == TurnState::Listening);
    lemma_speech_stopped_iff(r, is_speech, chunk_ms);
    if r.chunk_step(is_speech, chunk_ms).1 == seq![TurnMachineEvent::SpeechStopped] {
        assert(r.chunk_step(is_speech, chunk_ms).1[0] == TurnMachineEvent::SpeechStopped);
        assert(r.chunk_step(is_speech, chunk_ms).1.contains(TurnMachineEvent::SpeechStopped));
    }
    if !is_speech && trailing_silence_ms(h) + chunk_ms >= m.config.silence_duration_ms
        && speech_ms_total(h) >= m.config.min_speech_duration_ms {
        assert(r.chunk_step(is_speech, chunk_ms).1 =~= seq![TurnMachineEvent::SpeechStopped]);
    }
}

/// Chunks never change the configuration.
pub proof fn lemma_run_keeps_config(m: TurnTakingView, h: Seq<(bool, u32)>)
    ensures
        run_chunks(m, h).config == m.config,
    decreases h.len(),
{
    if h.len() > 0 {
        lemma_run_keeps_config(m, h.drop_last());
    }
}

} // verus!
