//! Turn events reported by turn detectors.

use vstd::prelude::*;

verus! {

/// A turn event detected from audio.
#[derive(Debug, Clone, Copy, PartialEq, Eq, Structural)]
pub enum TurnEvent {
    /// User started speaking.
    SpeechStarted { audio_start_ms: u32 },
    /// User stopped speaking (endpoint detected).
    SpeechStopped { audio_end_ms: u32 },
    /// User interrupted the model's response.
    Interrupted,
    /// No speech detected in the audio chunk.
    Silence,
}

} // verus!
