//! A realtime voice-conversation toolkit: PCM16 audio helpers, a turn-taking
//! state machine, the realtime protocol's event model, scripted stand-ins for
//! speech and language components, and the decision core of a local realtime
//! session server.

pub mod audio;
pub mod turn_taking;
pub mod text;
pub mod traits;
pub mod pipeline;
pub mod turn_flow;
pub mod protocol;
pub mod ids;
pub mod events;
pub mod transport;
pub mod server;
