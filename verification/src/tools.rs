//! Turning the bytes of an audio request into samples.

pub mod transcode;
pub mod wav;
