use voxkey::ipc::ExecutionProviderChoice;
use voxkey::ipc::MistralConfig;
use voxkey::ipc::MistralRealtimeConfig;
use voxkey::ipc::ParakeetConfig;
use voxkey::ipc::TranscriberConfig;
use voxkey::ipc::TranscriberProvider;
use voxkey::ipc::WhisperCppConfig;
use voxkey::transcriber::mistral_outcome;
use voxkey::transcriber::mistral_url;
use voxkey::transcriber::parakeet_plan;
use voxkey::transcriber::parse_mistral_response;
use voxkey::transcriber::resolve_whisper_args;
use voxkey::transcriber::substitute_audio_path;
use voxkey::transcriber::whisper_outcome;
use voxkey::transcriber::Transcriber;

#[test]
fn from_config_creates_whisper_cpp_variant() {
    let config = TranscriberConfig {
        provider: TranscriberProvider::WhisperCpp,
        whisper_cpp: WhisperCppConfig {
            command: "/usr/bin/whisper".to_string(),
            args: vec!["-m".to_string(), "model.bin".to_string()],
        },
        mistral: MistralConfig::default(),
        mistral_realtime: MistralRealtimeConfig::default(),
        parakeet: ParakeetConfig::default(),
    };
    let t = Transcriber::from_config(&config);
    match t {
        Transcriber::WhisperCpp { command, args } => {
            assert_eq!(command, "/usr/bin/whisper");
            assert_eq!(args, vec!["-m", "model.bin"]);
        }
        _ => panic!("Expected WhisperCpp variant"),
    }
}

#[test]
fn from_config_creates_mistral_variant() {
    let config = TranscriberConfig {
        provider: TranscriberProvider::Mistral,
        whisper_cpp: WhisperCppConfig::default(),
        mistral: MistralConfig {
            api_key: "sk-test".to_string(),
            model: "voxtral-mini-2602".to_string(),
            endpoint: String::new(),
        },
        mistral_realtime: MistralRealtimeConfig::default(),
        parakeet: ParakeetConfig::default(),
    };
    let t = Transcriber::from_config(&config);
    match t {
        Transcriber::Mistral { api_key, model, endpoint: _ } => {
            assert_eq!(api_key, "sk-test");
            assert_eq!(model, "voxtral-mini-2602");
        }
        _ => panic!("Expected Mistral variant"),
    }
}

#[test]
fn from_config_creates_mistral_realtime_variant() {
    let config = TranscriberConfig {
        provider: TranscriberProvider::MistralRealtime,
        whisper_cpp: WhisperCppConfig::default(),
        mistral: MistralConfig::default(),
        mistral_realtime: MistralRealtimeConfig {
            api_key: "sk-rt".to_string(),
            model: "voxtral-mini-transcribe-realtime-2602".to_string(),
            endpoint: String::new(),
        },
        parakeet: ParakeetConfig::default(),
    };
    let t = Transcriber::from_config(&config);
    match t {
        Transcriber::MistralRealtime { api_key, model } => {
            assert_eq!(api_key, "sk-rt");
            assert_eq!(model, "voxtral-mini-transcribe-realtime-2602");
        }
        _ => panic!("Expected MistralRealtime variant"),
    }
}

#[test]
fn is_streaming_returns_true_for_mistral_realtime() {
    let t = Transcriber::MistralRealtime { api_key: String::new(), model: String::new() };
    assert!(t.is_streaming());
}

#[test]
fn is_streaming_returns_false_for_batch_providers() {
    let whisper = Transcriber::WhisperCpp { command: String::new(), args: vec![] };
    assert!(!whisper.is_streaming());

    let mistral = Transcriber::Mistral {
        api_key: String::new(),
        model: String::new(),
        endpoint: String::new(),
    };
    assert!(!mistral.is_streaming());
}

#[test]
fn from_config_creates_parakeet_variant() {
    let config = TranscriberConfig {
        provider: TranscriberProvider::Parakeet,
        whisper_cpp: WhisperCppConfig::default(),
        mistral: MistralConfig::default(),
        mistral_realtime: MistralRealtimeConfig::default(),
        parakeet: ParakeetConfig {
            model: "parakeet-tdt-0.6b-v3".to_string(),
            execution_provider: ExecutionProviderChoice::Cpu,
        },
    };
    let t = Transcriber::from_config(&config);
    assert!(!t.is_streaming());
}

#[test]
fn parse_mistral_response_extracts_text() {
    let json = r#"{"text": " Hello, world! "}"#;
    let text = parse_mistral_response(json).unwrap();
    assert_eq!(text, " Hello, world! ");
}

#[test]
fn parse_mistral_response_rejects_invalid_json() {
    let json = r#"{"error": "unauthorized"}"#;
    assert!(parse_mistral_response(json).is_err());
}

#[test]
fn audio_placeholder_is_substituted_everywhere() {
    assert_eq!(substitute_audio_path("{audio_file}", "/tmp/a.wav"), "/tmp/a.wav");
    assert_eq!(substitute_audio_path("-f={audio_file}!", "/tmp/a.wav"), "-f=/tmp/a.wav!");
    assert_eq!(substitute_audio_path("plain", "/tmp/a.wav"), "plain");
    assert_eq!(
        substitute_audio_path("{audio_file}{audio_file}", "x"),
        "xx"
    );
    let args = vec!["-m".to_string(), "{audio_file}".to_string()];
    let resolved = resolve_whisper_args(&args, "/tmp/a.wav");
    assert_eq!(resolved, vec!["-m", "/tmp/a.wav"]);
}

#[test]
fn whisper_outcome_trims_stdout_on_success() {
    assert_eq!(whisper_outcome(true, "  hello world \n", "0", "").unwrap(), "hello world");
    let err = whisper_outcome(false, "", "1", "boom").unwrap_err();
    assert_eq!(err, "Transcription command failed (exit 1): boom");
}

#[test]
fn mistral_outcome_parses_and_trims() {
    let ok = mistral_outcome(true, "200 OK", r#"{"text": " hi "}"#).unwrap();
    assert_eq!(ok, "hi");
    let err = mistral_outcome(false, "401 Unauthorized", "denied").unwrap_err();
    assert_eq!(err, "Mistral API error (401 Unauthorized): denied");
    assert!(mistral_outcome(true, "200 OK", r#"{"error":"x"}"#).is_err());
}

#[test]
fn mistral_url_falls_back_to_the_default_endpoint() {
    assert_eq!(mistral_url(""), "https://api.mistral.ai/v1/audio/transcriptions");
    assert_eq!(mistral_url("https://example.test/v1"), "https://example.test/v1");
}

#[test]
fn parakeet_plan_names_the_model_files() {
    let plan = parakeet_plan("/data/voxkey/models/m", &ExecutionProviderChoice::Cuda);
    assert_eq!(plan.encoder, "/data/voxkey/models/m/encoder.int8.onnx");
    assert_eq!(plan.decoder, "/data/voxkey/models/m/decoder.int8.onnx");
    assert_eq!(plan.joiner, "/data/voxkey/models/m/joiner.int8.onnx");
    assert_eq!(plan.tokens, "/data/voxkey/models/m/tokens.txt");
    assert_eq!(plan.model_type, "nemo_transducer");
    assert_eq!(plan.num_threads, 4);
    assert_eq!(plan.feature_dim, 80);
    assert_eq!(plan.provider.as_deref(), Some("cuda"));
    let auto = parakeet_plan("/d", &ExecutionProviderChoice::Auto);
    assert!(auto.provider.is_none());
}
