use silero_vad::controller::Audio;
use silero_vad::controller::AudioConfig;
use silero_vad::controller::AudioType;
use silero_vad::controller::Code;
use silero_vad::controller::Content;
use silero_vad::controller::Status;
use silero_vad::controller::VadRequest;
use silero_vad::controller::VadServiceController;
use silero_vad::controller::VadStreamRequest;
use silero_vad::error::VadServiceError;
use silero_vad::service::VadService;
use silero_vad::settings::Logging;
use silero_vad::settings::Server;
use silero_vad::settings::Settings;
use silero_vad::settings::VadSettings;
use silero_vad::utils::TimeStamp;

const LOW: u32 = 100_000;

const HIGH: u32 = 900_000;

fn spans(speeches: &[TimeStamp]) -> Vec<(i64, i64)> {
    speeches.iter().map(|speech| (speech.start, speech.end)).collect()
}

fn settings() -> Settings {
    Settings {
        server: Server { host: "0.0.0.0".to_string(), port: 9091 },
        logging: Logging { log_level: "debug".to_string() },
        vad: VadSettings {
            model_path: "../silero_vad/model/silero_vad.onnx".to_string(),
            sessions_num: 1,
            ..VadSettings::default()
        },
    }
}

fn refusal(status: &Status) -> (Code, &str) {
    (status.code, status.message.as_str())
}

#[test]
fn default_settings() {
    let settings = Settings::default();
    assert_eq!(settings.server.host, "");
    assert_eq!(settings.server.port, 0);
    assert_eq!(settings.logging.log_level, "");
    assert_eq!(settings.vad.model_path, "model/silero_vad.onnx");
    assert_eq!(settings.vad.sessions_num, 1);
    assert_eq!(settings.vad.frame_size, 64);
    assert_eq!(settings.vad.threshold, 500_000);
    assert_eq!(settings.vad.min_silence_duration_ms, 0);
    assert_eq!(settings.vad.speech_pad_ms, 64);
    assert_eq!(settings.vad.min_speech_duration_ms, 64);
    assert_eq!(settings.vad.max_speech_duration_ms, None);
}

#[test]
fn settings_give_the_configuration_for_a_rate() {
    let settings = VadSettings {
        frame_size: 32,
        threshold: 600_000,
        min_silence_duration_ms: 100,
        speech_pad_ms: 30,
        min_speech_duration_ms: 250,
        max_speech_duration_ms: Some(20_000),
        ..VadSettings::default()
    };
    let params = settings.vad_params(8000);
    assert_eq!(params.sample_rate, 8000);
    assert_eq!(params.frame_size, 32);
    assert_eq!(params.threshold, 600_000);
    assert_eq!(params.min_silence_duration_ms, 100);
    assert_eq!(params.speech_pad_ms, 30);
    assert_eq!(params.min_speech_duration_ms, 250);
    assert_eq!(params.max_speech_duration_ms, Some(20_000));
    assert_eq!(settings.vad_params(16000).sample_rate, 16000);
}

#[test]
fn the_service_segments_at_both_rates() {
    let mut service = VadService::new(&VadSettings::default()).expect("both rates are supported");
    let probs = [LOW, HIGH, HIGH, HIGH, LOW];
    let at_16k = service.recognize(&probs, 5 * 1024, 16000).expect("16000 is supported");
    assert_eq!(spans(&at_16k), vec![(1024, 5120)]);
    assert_eq!(at_16k[0].sample_rate, 16000);
    let at_8k = service.recognize(&probs, 5 * 512, 8000).expect("8000 is supported");
    assert_eq!(spans(&at_8k), vec![(512, 2560)]);
    assert_eq!(at_8k[0].sample_rate, 8000);
}

#[test]
fn the_service_refuses_other_rates() {
    let mut service = VadService::new(&VadSettings::default()).expect("both rates are supported");
    for rate in [0u32, 8001, 11025, 44100, u32::MAX] {
        match service.recognize(&[LOW, HIGH, LOW], 3 * 1024, rate) {
            Err(VadServiceError::InvalidAudio(details)) => assert_eq!(details, "Unsupported sample rate"),
            _ => panic!("a rate of {} must be refused", rate),
        }
        match service.pull(rate) {
            Err(VadServiceError::InvalidAudio(details)) => assert_eq!(details, "Unsupported sample rate"),
            _ => panic!("a rate of {} must be refused", rate),
        }
    }
}

#[test]
fn the_service_keeps_a_pool_for_each_rate() {
    let settings = VadSettings { sessions_num: 2, ..VadSettings::default() };
    let mut service = VadService::new(&settings).expect("both rates are supported");
    let first = service.pull(16000).expect("16000 is supported");
    let second = service.pull(8000).expect("8000 is supported");
    let third = service.pull(16000).expect("16000 is supported");
    let fourth = service.pull(16000).expect("16000 is supported");
    assert_eq!((first.session(), second.session(), third.session(), fourth.session()), (0, 0, 1, 0));
    assert_eq!(first.params().frame_size_samples, 1024);
    assert_eq!(second.params().frame_size_samples, 512);
    assert_eq!(second.params().sample_rate, 8000);
    service.attach(third);
    service.attach(second);
    // Each goes back to the pool of its own rate.
    assert_eq!(service.pull(8000).expect("8000 is supported").params().sample_rate, 8000);
    let again = service.pull(16000).expect("16000 is supported");
    assert_eq!(again.session(), 1);
    assert_eq!(again.params().sample_rate, 16000);
    assert_eq!(service.pull(8000).expect("8000 is supported").session(), 1);
}

#[test]
fn audio_is_read_as_its_kind_says() {
    let as_le = AudioConfig { audio_type: AudioType::RawPcmS16le, sample_rate: 16000 };
    let as_be = AudioConfig { audio_type: AudioType::RawPcmS16be, sample_rate: 16000 };
    let bytes = [0x01, 0x02, 0xff, 0x00];
    assert_eq!(VadServiceController::transform_audio_to_i16(&bytes, &as_le).expect("raw audio"), vec![0x0201, 0x00ff]);
    assert_eq!(VadServiceController::transform_audio_to_i16(&bytes, &as_be).expect("raw audio"), vec![0x0102, -256]);
}

#[test]
fn wave_audio_is_decoded() {
    let as_wav = AudioConfig { audio_type: AudioType::WavPcmS16le, sample_rate: 16000 };
    let mut file: Vec<u8> = Vec::new();
    file.extend_from_slice(b"RIFF");
    file.extend_from_slice(&40u32.to_le_bytes());
    file.extend_from_slice(b"WAVEfmt ");
    file.extend_from_slice(&16u32.to_le_bytes());
    file.extend_from_slice(&1u16.to_le_bytes());
    file.extend_from_slice(&1u16.to_le_bytes());
    file.extend_from_slice(&16000u32.to_le_bytes());
    file.extend_from_slice(&32000u32.to_le_bytes());
    file.extend_from_slice(&2u16.to_le_bytes());
    file.extend_from_slice(&16u16.to_le_bytes());
    file.extend_from_slice(b"data");
    file.extend_from_slice(&4u32.to_le_bytes());
    file.extend_from_slice(&[0x10, 0x00, 0xf0, 0xff]);
    assert_eq!(VadServiceController::transform_audio_to_i16(&file, &as_wav).expect("a wave file"), vec![16, -16]);

    let status = VadServiceController::transform_audio_to_i16(&[1, 2, 3, 4], &as_wav).expect_err("no wave file");
    assert_eq!(status.code, Code::InvalidArgument);
    assert!(status.message.starts_with("Failed to parse audio: "));
    let status = VadServiceController::transform_audio_to_i16(&[0; 12], &as_wav).expect_err("no wave file");
    assert_eq!(
        refusal(&status),
        (Code::InvalidArgument, "Failed to parse audio: Ill-formed WAVE file: no RIFF tag found")
    );
}

#[test]
fn audio_of_no_kind_is_refused() {
    let config = AudioConfig { audio_type: AudioType::Unspecified, sample_rate: 16000 };
    let status = VadServiceController::transform_audio_to_i16(&[1, 2], &config).expect_err("no kind");
    assert_eq!(
        refusal(&status),
        (Code::InvalidArgument, "Invalid audio: Only pcm_s16le and pcm_s16be are supported")
    );
}

#[test]
fn a_request_needs_a_configuration() {
    let request = VadRequest { audio: vec![1, 0, 2, 0], config: None };
    let status = VadServiceController::get_audio_and_config_from_request(&request).expect_err("no configuration");
    assert_eq!(refusal(&status), (Code::InvalidArgument, "No config provided"));
}

#[test]
fn a_request_gives_its_samples_and_its_configuration() {
    let config = AudioConfig { audio_type: AudioType::RawPcmS16le, sample_rate: 8000 };
    let request = VadRequest { audio: vec![1, 0, 2, 0, 3], config: Some(config) };
    let (samples, read) = VadServiceController::get_audio_and_config_from_request(&request).expect("raw audio");
    assert_eq!(samples, vec![1, 2]);
    assert_eq!(read.audio_type, AudioType::RawPcmS16le);
    assert_eq!(read.sample_rate, 8000);
    assert_eq!(VadServiceController::sample_rate(&read), 8000);

    let unreadable = VadRequest {
        audio: vec![1, 0],
        config: Some(AudioConfig { audio_type: AudioType::Unspecified, sample_rate: 8000 }),
    };
    let status = VadServiceController::get_audio_and_config_from_request(&unreadable).expect_err("no kind");
    assert_eq!(
        refusal(&status),
        (Code::InvalidArgument, "Invalid audio: Only pcm_s16le and pcm_s16be are supported")
    );
    let no_wave = VadRequest {
        audio: vec![0; 12],
        config: Some(AudioConfig { audio_type: AudioType::WavPcmS16le, sample_rate: 8000 }),
    };
    let status = VadServiceController::get_audio_and_config_from_request(&no_wave).expect_err("no wave file");
    assert_eq!(
        refusal(&status),
        (Code::InvalidArgument, "Failed to parse audio: Ill-formed WAVE file: no RIFF tag found")
    );
}

#[test]
fn a_negative_sample_rate_is_no_rate() {
    let config = AudioConfig { audio_type: AudioType::RawPcmS16le, sample_rate: -16000 };
    assert_eq!(VadServiceController::sample_rate(&config), 0);
    let mut controller = VadServiceController::new(&settings()).expect("both rates are supported");
    let status = controller.pull(&config).expect_err("no rate");
    assert_eq!(refusal(&status), (Code::Internal, "Invalid audio: Unsupported sample rate"));
}

#[test]
fn the_controller_hands_out_segmenters() {
    let mut controller = VadServiceController::new(&settings()).expect("both rates are supported");
    let config = AudioConfig { audio_type: AudioType::RawPcmS16le, sample_rate: 16000 };
    let mut vad = controller.pull(&config).expect("16000 is supported");
    assert_eq!(vad.session(), 0);
    assert_eq!(vad.params().frame_size_samples, 1024);
    vad.process(&[LOW, HIGH, HIGH, LOW], 4096);
    let answer = VadServiceController::response(vad.speeches(), None);
    assert_eq!(spans(&answer.intervals), vec![(1024, 4096)]);
    assert_eq!(answer.request_id, None);
    controller.attach(vad);
    let again = controller.pull(&config).expect("16000 is supported");
    assert_eq!(again.session(), 0);
    let unsupported = AudioConfig { audio_type: AudioType::RawPcmS16le, sample_rate: 44100 };
    let status = controller.pull(&unsupported).expect_err("44100 is not supported");
    assert_eq!(refusal(&status), (Code::Internal, "Invalid audio: Unsupported sample rate"));
}

#[test]
fn a_failure_of_detection_is_the_service_s_fault() {
    let error = VadServiceError::VadError(silero_vad::error::VadError::OnnxError(String::from("no model")));
    let status = VadServiceController::failure(&error);
    assert_eq!(refusal(&status), (Code::Internal, "VAD error: Onnx error: no model"));
    assert_eq!(refusal(&Status::internal(String::from("a"))), (Code::Internal, "a"));
    assert_eq!(refusal(&Status::invalid_argument(String::from("b"))), (Code::InvalidArgument, "b"));
}

#[test]
fn a_stream_opens_with_its_configuration() {
    let config = AudioConfig { audio_type: AudioType::RawPcmS16be, sample_rate: 8000 };
    let opened = VadServiceController::stream_config(Some(VadStreamRequest { content: Some(Content::Config(config)) }))
        .expect("a configuration");
    assert_eq!(opened.audio_type, AudioType::RawPcmS16be);
    assert_eq!(opened.sample_rate, 8000);
}

#[test]
fn a_stream_that_opens_otherwise_is_refused() {
    let status = VadServiceController::stream_config(None).expect_err("an empty stream");
    assert_eq!(refusal(&status), (Code::InvalidArgument, "No messages in stream"));
    let status = VadServiceController::stream_config(Some(VadStreamRequest { content: None }))
        .expect_err("an empty message");
    assert_eq!(refusal(&status), (Code::InvalidArgument, "No messages in stream"));
    let audio = Audio { audio: vec![0, 0], request_id: String::from("1") };
    let status = VadServiceController::stream_config(Some(VadStreamRequest { content: Some(Content::Audio(audio)) }))
        .expect_err("audio first");
    assert_eq!(refusal(&status), (Code::InvalidArgument, "First message must be config"));
}

#[test]
fn a_stream_goes_on_with_audio() {
    let audio = Audio { audio: vec![1, 2, 3], request_id: String::from("chunk 7") };
    let chunk = VadServiceController::stream_audio(VadStreamRequest { content: Some(Content::Audio(audio)) })
        .expect("audio");
    assert_eq!(chunk.audio, vec![1, 2, 3]);
    assert_eq!(chunk.request_id, "chunk 7");
    let answer = VadServiceController::response(Vec::new(), Some(chunk.request_id));
    assert_eq!(answer.request_id, Some(String::from("chunk 7")));
    assert!(answer.intervals.is_empty());

    let config = AudioConfig { audio_type: AudioType::RawPcmS16le, sample_rate: 16000 };
    let status = VadServiceController::stream_audio(VadStreamRequest { content: Some(Content::Config(config)) })
        .expect_err("a second configuration");
    assert_eq!(refusal(&status), (Code::InvalidArgument, "Audio message expected"));
    let status = VadServiceController::stream_audio(VadStreamRequest { content: None }).expect_err("nothing");
    assert_eq!(refusal(&status), (Code::InvalidArgument, "Audio message expected"));
}

#[test]
fn test_vad_multithread() {
    let mut controller = VadServiceController::new(&settings()).expect("both rates are supported");

    let content = vec![32532i16; 16000 * 10];

    let message = VadRequest {
        audio: content.iter().map(|x| x.to_le_bytes().to_vec()).flatten().collect(),
        config: Some(AudioConfig { audio_type: AudioType::RawPcmS16le, sample_rate: 16000 }),
    };

    // Ten callers hold a segmenter each at the same time.
    let mut held = Vec::new();
    for _ in 0..10 {
        let (audio, config) =
            VadServiceController::get_audio_and_config_from_request(&message).expect("Failed to call RPC");
        assert_eq!(audio, content);
        let vad = controller.pull(&config).expect("Failed to call RPC");
        held.push((vad, audio));
    }
    for (vad, audio) in held.iter_mut() {
        // A signal that never changes is scored as silence.
        let frames = audio.len() / vad.params().frame_size_samples;
        assert_eq!(frames, 156);
        let probs = vec![0u32; frames];
        vad.process(&probs, audio.len());
    }
    while let Some((vad, _)) = held.pop() {
        let response = VadServiceController::response(vad.speeches(), None);
        response.intervals.iter().for_each(|ts| println!("{} - {}", ts.start, ts.end));
        assert_eq!(response.intervals.len(), 0);
        controller.attach(vad);
    }
}

#[test]
fn test_vad_stream() {
    let mut controller = VadServiceController::new(&settings()).expect("both rates are supported");

    let content = vec![32532i16; 16000 * 10];

    let config_message = VadStreamRequest {
        content: Some(Content::Config(AudioConfig { audio_type: AudioType::RawPcmS16le, sample_rate: 16000 })),
    };

    let message = VadStreamRequest {
        content: Some(Content::Audio(Audio {
            audio: content.iter().map(|x| x.to_le_bytes().to_vec()).flatten().collect(),
            request_id: "1".to_string(),
        })),
    };

    let config = VadServiceController::stream_config(Some(config_message)).expect("Failed to connect");
    let chunk = VadServiceController::stream_audio(message).expect("Failed to connect");
    let audio = VadServiceController::transform_audio_to_i16(&chunk.audio, &config).expect("Failed to connect");
    assert_eq!(audio, content);
    let mut vad = controller.pull(&config).expect("Failed to connect");
    let probs = vec![0u32; audio.len() / vad.params().frame_size_samples];
    vad.process(&probs, audio.len());
    let response = VadServiceController::response(vad.speeches(), Some(chunk.request_id));
    controller.attach(vad);
    assert_eq!(response.intervals.len(), 0);
    assert_eq!(response.request_id, Some("1".to_string()));
}
