//! Resumable acquisition of audio tracks: candidate ranking, step derivation
//! and the transition rules of a per-request state machine.

pub mod types;
pub mod text;
pub mod search;
pub mod processor;
