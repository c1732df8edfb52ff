//! Voice-activity segmentation: turns a stream of per-frame speech
//! probabilities into the time intervals that contain speech.

pub mod controller;
pub mod error;
pub mod recognizer;
pub mod segmentation;
pub mod service;
pub mod settings;
pub mod tools;
pub mod utils;
pub mod vad_iter;

pub use recognizer::Recognizer;
pub use utils::FrameStamp;
pub use utils::SampleRate;
pub use utils::TimeStamp;
pub use utils::VadParams;
