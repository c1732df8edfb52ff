use vstd::prelude::*;
use vstd::string::StringExecFns;

use crate::utils::VadParams;

verus! {

/// Where the service listens.
#[derive(Debug)]
pub struct Server {
    pub host: String,
    pub port: i32,
}

impl Default for Server {
    fn default() -> (server: Server)
        ensures
            server.host@ == Seq::<char>::empty(),
            server.port == 0,
    {
        Server { host: String::new(), port: 0 }
    }
}

#[derive(Debug)]
pub struct Logging {
    pub log_level: String,
}

impl Default for Logging {
    fn default() -> (logging: Logging)
        ensures
            logging.log_level@ == Seq::<char>::empty(),
    {
        Logging { log_level: String::new() }
    }
}

/// How the service detects speech: where the scoring model is, how many
/// sessions score at a time, and the configuration of the segmenter but for
/// the sample rate, which each request brings along.
#[derive(Debug)]
pub struct VadSettings {
    pub model_path: String,
    pub sessions_num: u8,
    pub frame_size: usize,
    pub threshold: u32,
    pub min_silence_duration_ms: usize,
    pub speech_pad_ms: usize,
    pub min_speech_duration_ms: usize,
    pub max_speech_duration_ms: Option<usize>,
}

impl VadSettings {
    /// The segmenter's configuration for streams at `sample_rate`.
    pub open spec fn params_at(self, sample_rate: usize) -> VadParams {
        VadParams {
            sample_rate,
            frame_size: self.frame_size,
            threshold: self.threshold,
            min_silence_duration_ms: self.min_silence_duration_ms,
            speech_pad_ms: self.speech_pad_ms,
            min_speech_duration_ms: self.min_speech_duration_ms,
            max_speech_duration_ms: self.max_speech_duration_ms,
        }
    }

    /// The segmenter's configuration for streams at `sample_rate`.
    pub fn vad_params(&self, sample_rate: usize) -> (params: VadParams)
        ensures
            params == self.params_at(sample_rate),
    {
        VadParams {
            sample_rate,
            frame_size: self.frame_size,
            threshold: self.threshold,
            min_silence_duration_ms: self.min_silence_duration_ms,
            speech_pad_ms: self.speech_pad_ms,
            min_speech_duration_ms: self.min_speech_duration_ms,
            max_speech_duration_ms: self.max_speech_duration_ms,
        }
    }
}

impl Default for VadSettings {
    fn default() -> (settings: VadSettings)
        ensures
            settings.model_path@ == "model/silero_vad.onnx"@,
            settings.sessions_num == 1,
            settings.params_at(16000) == VadParams::standard(),
    {
        VadSettings {
            model_path: String::from_str("model/silero_vad.onnx"),
            sessions_num: 1,
            frame_size: 64,
            threshold: 500_000,
            min_silence_duration_ms: 0,
            speech_pad_ms: 64,
            min_speech_duration_ms: 64,
            max_speech_duration_ms: None,
        }
    }
}

#[derive(Debug)]
pub struct Settings {
    pub server: Server,
    pub logging: Logging,
    pub vad: VadSettings,
}

impl Default for Settings {
    fn default() -> (settings: Settings)
        ensures
            settings.server.host@ == Seq::<char>::empty(),
            settings.server.port == 0,
            settings.logging.log_level@ == Seq::<char>::empty(),
            settings.vad.model_path@ == "model/silero_vad.onnx"@,
            settings.vad.sessions_num == 1,
            settings.vad.params_at(16000) == VadParams::standard(),
    {
        Settings {
            server: Server::default(),
            logging: Logging::default(),
            vad: VadSettings::default(),
        }
    }
}

} // verus!
