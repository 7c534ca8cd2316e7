//! Bridge between an audio capture backend and a real-time renderer.
//!
//! The backend hands frames of samples to a [`host::AudioHost`], which feeds
//! every registered [`buffer::PollingBuffer`]; the renderer polls the latest
//! frame and packs it for the GPU with [`uniform::CustomMaterial`].
//!
//! Samples are carried as the 32 bits of a single-precision amplitude, so the
//! all-zero pattern is silence and copying never rounds.

pub mod buffer;
pub mod registry;
pub mod device;
pub mod host;
pub mod uniform;
