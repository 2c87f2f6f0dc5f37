//! A verified handle and resource model for an external audio engine,
//! together with a byte-exact RIFF/WAVE exporter.
//!
//! The engine itself (mixing, decoding, playback) is an opaque collaborator;
//! this crate models it as a deterministic in-memory state machine that
//! records every call it receives, so that the lifecycle discipline of the
//! handles — release exactly once, never through a borrowed handle, never
//! after release, locks strictly paired — is stated and proved against the
//! calls the engine actually sees.

pub mod engine;
pub mod errors;
pub mod export;
pub mod handle;
pub mod trace;
pub mod userdata;
pub mod wav;
