use vstd::prelude::*;
use vstd::string::StringExecFns;

use crate::error::VadServiceError;
use crate::service::VadService;
use crate::service::VadServiceView;
use crate::settings::Settings;
use crate::tools::transcode::pairs_swapped;
use crate::tools::transcode::pcm_s16be_to_pcm_s16le;
use crate::tools::wav::bytes_to_i16;
use crate::tools::wav::get_samples_from_wav;
use crate::tools::wav::readable;
use crate::tools::wav::samples_le;
use crate::tools::wav::wav_reads;
use crate::utils::TimeStamp;
use crate::vad_iter::VadIter;
use crate::vad_iter::VadIterView;

verus! {

/// How the audio of a request is encoded.
#[derive(Debug, Clone, Copy, PartialEq, Eq, Structural)]
pub enum AudioType {
    Unspecified,
    /// Raw 16-bit samples, low byte first.
    RawPcmS16le,
    /// Raw 16-bit samples, high byte first.
    RawPcmS16be,
    /// A WAVE file of 16-bit samples.
    WavPcmS16le,
}

#[derive(Debug, Clone, Copy)]
pub struct AudioConfig {
    pub audio_type: AudioType,
    pub sample_rate: i32,
}

/// A request to detect speech in one piece of audio.
#[derive(Debug)]
pub struct VadRequest {
    pub audio: Vec<u8>,
    pub config: Option<AudioConfig>,
}

/// One chunk of a stream of audio, with the name its sender gave it.
#[derive(Debug)]
pub struct Audio {
    pub audio: Vec<u8>,
    pub request_id: String,
}

#[derive(Debug)]
pub enum Content {
    Config(AudioConfig),
    Audio(Audio),
}

/// One message of a stream of requests.
#[derive(Debug)]
pub struct VadStreamRequest {
    pub content: Option<Content>,
}

/// The speech found in one piece of audio. An answer to a chunk of a
/// stream carries the chunk's name.
#[derive(Debug)]
pub struct VadResponse {
    pub intervals: Vec<TimeStamp>,
    pub request_id: Option<String>,
}

#[derive(Debug, Clone, Copy, PartialEq, Eq, Structural)]
pub enum Code {
    /// The request is at fault.
    InvalidArgument,
    /// The service is at fault.
    Internal,
}

/// Why a request was not answered.
#[derive(Debug)]
pub struct Status {
    pub code: Code,
    pub message: String,
}

impl Status {
    pub fn invalid_argument(message: String) -> (status: Status)
        ensures
            status.code == Code::InvalidArgument,
            status.message == message,
    {
        Status { code: Code::InvalidArgument, message }
    }

    pub fn internal(message: String) -> (status: Status)
        ensures
            status.code == Code::Internal,
            status.message == message,
    {
        Status { code: Code::Internal, message }
    }
}

/// The samples that audio of the given kind holds, where it holds any.
pub open spec fn samples_of(audio: Seq<u8>, audio_type: AudioType) -> Option<Seq<i16>> {
    match audio_type {
        AudioType::RawPcmS16le => Some(samples_le(audio)),
        AudioType::RawPcmS16be => Some(samples_le(pairs_swapped(audio))),
        AudioType::WavPcmS16le => match wav_reads(audio) {
            Some(reads) => Some(readable(reads)),
            None => None,
        },
        AudioType::Unspecified => None,
    }
}

/// The rate at which a request says its audio was sampled. No stream has
/// a negative rate: such a rate is read as zero, which no pool takes.
pub open spec fn rate_of(config: AudioConfig) -> u32 {
    if config.sample_rate < 0 {
        0
    } else {
        config.sample_rate as u32
    }
}

/// The entry point of the service: it reads requests, hands out segmenters
/// and words the answers.
pub struct VadServiceController {
    vad: VadService,
}

impl View for VadServiceController {
    type V = VadServiceView;

    closed spec fn view(&self) -> VadServiceView {
        self.vad@
    }
}

impl VadServiceController {
    pub closed spec fn wf(&self) -> bool {
        self.vad.wf()
    }

    pub fn new(settings: &Settings) -> (made: Result<VadServiceController, VadServiceError>)
        requires
            settings.vad.sessions_num >= 1,
            settings.vad.params_at(8000).derivable(),
            settings.vad.params_at(16000).derivable(),
        ensures
            made matches Ok(controller) && {
                &&& controller.wf()
                &&& controller@.recognizer_8k.idle == Seq::<VadIterView>::empty()
                &&& controller@.recognizer_8k.sessions_num == settings.vad.sessions_num
                &&& controller@.recognizer_8k.created == 0
                &&& controller@.recognizer_8k.params.derived_from(settings.vad.params_at(8000))
                &&& controller@.recognizer_16k.idle == Seq::<VadIterView>::empty()
                &&& controller@.recognizer_16k.sessions_num == settings.vad.sessions_num
                &&& controller@.recognizer_16k.created == 0
                &&& controller@.recognizer_16k.params.derived_from(settings.vad.params_at(16000))
            },
    {
        match VadService::new(&settings.vad) {
            Ok(vad) => Ok(VadServiceController { vad }),
            Err(error) => Err(error),
        }
    }

    /// Reads the samples and the configuration of a request. A request
    /// without a configuration is refused, and so is one whose audio cannot
    /// be read as its configuration says.
    pub fn get_audio_and_config_from_request(request: &VadRequest) -> (read: Result<
        (Vec<i16>, AudioConfig),
        Status,
    >)
        requires
            request.config matches Some(config) && config.audio_type == AudioType::RawPcmS16be
                ==> request.audio.len() % 2 == 0,
        ensures
            match read {
                Ok((samples, config)) => {
                    &&& request.config == Some(config)
                    &&& samples_of(request.audio@, config.audio_type) == Some(samples@)
                },
                Err(status) => {
                    &&& status.code == Code::InvalidArgument
                    &&& match request.config {
                        None => status.message@ == "No config provided"@,
                        Some(config) => {
                            &&& samples_of(request.audio@, config.audio_type) is None
                            &&& config.audio_type == AudioType::Unspecified ==> status.message@
                                == "Invalid audio: Only pcm_s16le and pcm_s16be are supported"@
                            &&& config.audio_type == AudioType::WavPcmS16le
                                ==> "Failed to parse audio: "@.is_prefix_of(status.message@)
                        },
                    }
                },
            },
    {
        let config = match request.config {
            Some(config) => config,
            None => {
                return Err(Status::invalid_argument(String::from_str("No config provided")));
            },
        };
        let audio = match Self::transform_audio_to_i16(request.audio.as_slice(), &config) {
            Ok(audio) => audio,
            Err(status) => {
                return Err(status);
            },
        };
        Ok((audio, config))
    }

    /// Reads audio of the kind that `config` names into samples. Audio of
    /// an unspecified kind is refused, and so is a WAVE file that the
    /// decoder does not accept.
    pub fn transform_audio_to_i16(audio: &[u8], config: &AudioConfig) -> (read: Result<
        Vec<i16>,
        Status,
    >)
        requires
            config.audio_type == AudioType::RawPcmS16be ==> audio.len() % 2 == 0,
        ensures
            match read {
                Ok(samples) => samples_of(audio@, config.audio_type) == Some(samples@),
                Err(status) => {
                    &&& samples_of(audio@, config.audio_type) is None
                    &&& status.code == Code::InvalidArgument
                    &&& config.audio_type == AudioType::Unspecified ==> status.message@
                        == "Invalid audio: Only pcm_s16le and pcm_s16be are supported"@
                    &&& config.audio_type == AudioType::WavPcmS16le
                        ==> "Failed to parse audio: "@.is_prefix_of(status.message@)
                },
            },
    {
        let read: Result<Vec<i16>, VadServiceError> = match config.audio_type {
            AudioType::RawPcmS16le => Ok(bytes_to_i16(audio)),
            AudioType::RawPcmS16be => {
                let bytes = pcm_s16be_to_pcm_s16le(audio);
                Ok(bytes_to_i16(bytes.as_slice()))
            },
            AudioType::WavPcmS16le => get_samples_from_wav(audio),
            AudioType::Unspecified => Err(
                VadServiceError::InvalidAudio(
                    String::from_str("Only pcm_s16le and pcm_s16be are supported"),
                ),
            ),
        };
        match read {
            Ok(samples) => Ok(samples),
            Err(error) => {
                proof {
                    reveal_strlit("Invalid audio: ");
                    reveal_strlit("Only pcm_s16le and pcm_s16be are supported");
                    reveal_strlit("Invalid audio: Only pcm_s16le and pcm_s16be are supported");
                }
                Err(Status::invalid_argument(error.to_string()))
            },
        }
    }

    /// The rate at which a request says its audio was sampled.
    pub fn sample_rate(config: &AudioConfig) -> (rate: u32)
        ensures
            rate == rate_of(*config),
    {
        if config.sample_rate < 0 {
            0
        } else {
            config.sample_rate as u32
        }
    }

    /// Takes a segmenter for the audio of a request out of its pool. A
    /// sample rate that the service does not take is the service's failure.
    pub fn pull(&mut self, config: &AudioConfig) -> (pulled: Result<VadIter, Status>)
        requires
            old(self).wf(),
        ensures
            final(self).wf(),
            match pulled {
                Ok(vad) => {
                    &&& VadServiceView::takes(rate_of(*config) as int)
                    &&& vad.wf()
                    &&& vad@.params.sample_rate == rate_of(*config)
                    &&& final(self)@.pool(rate_of(*config) as int).owns(vad@)
                    &&& (final(self)@.pool(rate_of(*config) as int), vad@) == old(self)@.pool(
                        rate_of(*config) as int,
                    ).pull()
                    &&& final(self)@ == old(self)@.with_pool(
                        rate_of(*config) as int,
                        final(self)@.pool(rate_of(*config) as int),
                    )
                },
                Err(status) => {
                    &&& !VadServiceView::takes(rate_of(*config) as int)
                    &&& status.code == Code::Internal
                    &&& status.message@ == "Invalid audio: Unsupported sample rate"@
                    &&& final(self)@ == old(self)@
                },
            },
    {
        match self.vad.pull(Self::sample_rate(config)) {
            Ok(vad) => Ok(vad),
            Err(error) => {
                proof {
                    reveal_strlit("Invalid audio: ");
                    reveal_strlit("Unsupported sample rate");
                    reveal_strlit("Invalid audio: Unsupported sample rate");
                }
                Err(Status::internal(error.to_string()))
            },
        }
    }

    /// Puts a segmenter that was pulled from this controller back into its pool.
    pub fn attach(&mut self, vad: VadIter)
        requires
            old(self).wf(),
            vad.wf(),
            VadServiceView::takes(vad@.params.sample_rate as int),
            old(self)@.pool(vad@.params.sample_rate as int).owns(vad@),
        ensures
            final(self).wf(),
            final(self)@ == old(self)@.with_pool(
                vad@.params.sample_rate as int,
                old(self)@.pool(vad@.params.sample_rate as int).attach(vad@),
            ),
    {
        self.vad.attach(vad);
    }

    /// What is said to the sender of a request on which detection failed.
    pub fn failure(error: &VadServiceError) -> (status: Status)
        ensures
            status.code == Code::Internal,
            error.is_worded_as(status.message@),
    {
        Status::internal(error.to_string())
    }

    /// The configuration that opens a stream of requests. A stream must
    /// open with one: an empty stream is refused, and so is a stream that
    /// opens with audio or with a message that holds nothing.
    pub fn stream_config(first: Option<VadStreamRequest>) -> (opened: Result<AudioConfig, Status>)
        ensures
            match opened {
                Ok(config) => first matches Some(message) && message.content matches Some(
                    Content::Config(sent),
                ) && sent == config,
                Err(status) => {
                    &&& status.code == Code::InvalidArgument
                    &&& match first {
                        Some(VadStreamRequest { content: Some(Content::Config(_)) }) => false,
                        Some(VadStreamRequest { content: Some(Content::Audio(_)) }) => status.message@
                            == "First message must be config"@,
                        _ => status.message@ == "No messages in stream"@,
                    }
                },
            },
    {
        let content = match first {
            Some(VadStreamRequest { content: Some(content) }) => content,
            _ => {
                return Err(Status::invalid_argument(String::from_str("No messages in stream")));
            },
        };
        match content {
            Content::Config(config) => Ok(config),
            Content::Audio(_) => Err(
                Status::invalid_argument(String::from_str("First message must be config")),
            ),
        }
    }

    /// The chunk of audio in a message that follows the configuration of a
    /// stream. Any message that holds no audio is refused.
    pub fn stream_audio(message: VadStreamRequest) -> (chunk: Result<Audio, Status>)
        ensures
            match chunk {
                Ok(audio) => message.content matches Some(Content::Audio(sent)) && sent == audio,
                Err(status) => {
                    &&& !(message.content matches Some(Content::Audio(_)))
                    &&& status.code == Code::InvalidArgument
                    &&& status.message@ == "Audio message expected"@
                },
            },
    {
        match message.content {
            Some(Content::Audio(audio)) => Ok(audio),
            _ => Err(Status::invalid_argument(String::from_str("Audio message expected"))),
        }
    }

    /// The answer to a request: the speech found, and for a chunk of a
    /// stream the chunk's name.
    pub fn response(intervals: Vec<TimeStamp>, request_id: Option<String>) -> (answer: VadResponse)
        ensures
            answer.intervals == intervals,
            answer.request_id == request_id,
    {
        VadResponse { intervals, request_id }
    }
}

} // verus!
