//! Core logic of a text-to-speech chat bot: per-user voice profiles with
//! range validation, guild mute flags and activation prefixes, the control
//! preamble and outcome handling of the external synthesis engine, peak
//! normalization of WAV clips, the per-guild voice-session state machine,
//! and the per-message gating pipeline that decides when speech is
//! synthesized.

pub mod dectalk;
pub mod mute_manager;
pub mod orchestrator;
pub mod prefix_manager;
pub mod session;
pub mod text;
pub mod voice_manager;
pub mod wav;
