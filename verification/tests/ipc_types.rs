use voxkey::codec::execution_provider_json;
use voxkey::codec::parse_transcriber_config;
use voxkey::codec::provider_json;
use voxkey::codec::transcriber_config_json;
use voxkey::codec::injection_config_json;
use voxkey::codec::parse_injection_config;
use voxkey::config_text::parse_transcriber_config_toml;
use voxkey::config_text::transcriber_config_toml;
use voxkey::ipc::DaemonState;
use voxkey::ipc::ExecutionProviderChoice;
use voxkey::ipc::InjectionConfig;
use voxkey::ipc::MistralConfig;
use voxkey::ipc::MistralRealtimeConfig;
use voxkey::ipc::ParakeetConfig;
use voxkey::ipc::TranscriberConfig;
use voxkey::ipc::TranscriberProvider;
use voxkey::ipc::WhisperCppConfig;

#[test]
fn transcriber_config_default_is_whisper_cpp() {
    let config = TranscriberConfig::default();
    assert_eq!(config.provider, TranscriberProvider::WhisperCpp);
    assert_eq!(config.whisper_cpp.command, "whisper-cpp");
    assert!(config.whisper_cpp.args.is_empty());
    assert_eq!(config.mistral.model, "voxtral-mini-2602");
    assert!(config.mistral.api_key.is_empty());
}

#[test]
fn transcriber_config_json_round_trip() {
    let config = TranscriberConfig {
        provider: TranscriberProvider::Mistral,
        whisper_cpp: WhisperCppConfig::default(),
        mistral: MistralConfig {
            api_key: "sk-test-123".to_string(),
            model: "voxtral-mini-2602".to_string(),
            endpoint: String::new(),
        },
        mistral_realtime: MistralRealtimeConfig::default(),
        parakeet: ParakeetConfig::default(),
    };
    let json = transcriber_config_json(&config);
    let parsed = parse_transcriber_config(&json).unwrap();
    assert_eq!(config, parsed);
}

#[test]
fn transcriber_config_toml_round_trip() {
    let config = TranscriberConfig {
        provider: TranscriberProvider::WhisperCpp,
        whisper_cpp: WhisperCppConfig {
            command: "/usr/bin/whisper".to_string(),
            args: vec!["-m".to_string(), "model.bin".to_string()],
        },
        mistral: MistralConfig::default(),
        mistral_realtime: MistralRealtimeConfig::default(),
        parakeet: ParakeetConfig::default(),
    };
    let toml_str = transcriber_config_toml(&config);
    let parsed = parse_transcriber_config_toml(&toml_str).unwrap();
    assert_eq!(config, parsed);
}

#[test]
fn provider_serializes_as_kebab_case() {
    let json = provider_json(&TranscriberProvider::WhisperCpp);
    assert_eq!(json, "\"whisper-cpp\"");
    let json = provider_json(&TranscriberProvider::Mistral);
    assert_eq!(json, "\"mistral\"");
    let json = provider_json(&TranscriberProvider::MistralRealtime);
    assert_eq!(json, "\"mistral-realtime\"");
}

#[test]
fn mistral_realtime_config_default_model() {
    let config = MistralRealtimeConfig::default();
    assert_eq!(config.model, "voxtral-mini-transcribe-realtime-2602");
    assert!(config.api_key.is_empty());
}

#[test]
fn transcriber_config_json_round_trip_mistral_realtime() {
    let config = TranscriberConfig {
        provider: TranscriberProvider::MistralRealtime,
        whisper_cpp: WhisperCppConfig::default(),
        mistral: MistralConfig::default(),
        mistral_realtime: MistralRealtimeConfig {
            api_key: "sk-rt-test".to_string(),
            model: "voxtral-mini-transcribe-realtime-2602".to_string(),
            endpoint: String::new(),
        },
        parakeet: ParakeetConfig::default(),
    };
    let json = transcriber_config_json(&config);
    let parsed = parse_transcriber_config(&json).unwrap();
    assert_eq!(config, parsed);
}

#[test]
fn transcriber_config_toml_round_trip_mistral_realtime() {
    let config = TranscriberConfig {
        provider: TranscriberProvider::MistralRealtime,
        whisper_cpp: WhisperCppConfig::default(),
        mistral: MistralConfig::default(),
        mistral_realtime: MistralRealtimeConfig {
            api_key: "sk-rt-test".to_string(),
            model: "voxtral-mini-transcribe-realtime-2602".to_string(),
            endpoint: String::new(),
        },
        parakeet: ParakeetConfig::default(),
    };
    let toml_str = transcriber_config_toml(&config);
    let parsed = parse_transcriber_config_toml(&toml_str).unwrap();
    assert_eq!(config, parsed);
}

#[test]
fn daemon_state_streaming_display_and_parse() {
    let state = DaemonState::Streaming;
    assert_eq!(state.label(), "Streaming");
    assert_eq!("Streaming".parse::<DaemonState>().unwrap(), DaemonState::Streaming);
}

#[test]
fn existing_config_without_mistral_realtime_gets_defaults() {
    let json = r#"{"provider":"whisper-cpp","whisper_cpp":{"command":"whisper-cpp","args":[]},"mistral":{"api_key":"","model":"voxtral-mini-2602"}}"#;
    let parsed = parse_transcriber_config(json).unwrap();
    assert_eq!(parsed.mistral_realtime.model, "voxtral-mini-transcribe-realtime-2602");
    assert!(parsed.mistral_realtime.api_key.is_empty());
}

#[test]
fn parakeet_config_default_values() {
    let config = ParakeetConfig::default();
    assert_eq!(config.model, "parakeet-tdt-0.6b-v3");
    assert_eq!(config.execution_provider, ExecutionProviderChoice::Auto);
}

#[test]
fn provider_serializes_parakeet_as_kebab_case() {
    let json = provider_json(&TranscriberProvider::Parakeet);
    assert_eq!(json, "\"parakeet\"");
}

#[test]
fn execution_provider_choice_serializes_as_kebab_case() {
    assert_eq!(execution_provider_json(&ExecutionProviderChoice::Auto), "\"auto\"");
    assert_eq!(execution_provider_json(&ExecutionProviderChoice::Cpu), "\"cpu\"");
    assert_eq!(execution_provider_json(&ExecutionProviderChoice::Cuda), "\"cuda\"");
}

#[test]
fn transcriber_config_json_round_trip_parakeet() {
    let config = TranscriberConfig {
        provider: TranscriberProvider::Parakeet,
        whisper_cpp: WhisperCppConfig::default(),
        mistral: MistralConfig::default(),
        mistral_realtime: MistralRealtimeConfig::default(),
        parakeet: ParakeetConfig {
            model: "parakeet-tdt-0.6b-v2".to_string(),
            execution_provider: ExecutionProviderChoice::Cuda,
        },
    };
    let json = transcriber_config_json(&config);
    let parsed = parse_transcriber_config(&json).unwrap();
    assert_eq!(config, parsed);
}

#[test]
fn transcriber_config_toml_round_trip_parakeet() {
    let config = TranscriberConfig {
        provider: TranscriberProvider::Parakeet,
        whisper_cpp: WhisperCppConfig::default(),
        mistral: MistralConfig::default(),
        mistral_realtime: MistralRealtimeConfig::default(),
        parakeet: ParakeetConfig::default(),
    };
    let toml_str = transcriber_config_toml(&config);
    let parsed = parse_transcriber_config_toml(&toml_str).unwrap();
    assert_eq!(config, parsed);
}

#[test]
fn existing_config_without_parakeet_gets_defaults() {
    let json = r#"{"provider":"whisper-cpp","whisper_cpp":{"command":"whisper-cpp","args":[]},"mistral":{"api_key":"","model":"voxtral-mini-2602"},"mistral_realtime":{"api_key":"","model":"voxtral-mini-transcribe-realtime-2602"}}"#;
    let parsed = parse_transcriber_config(json).unwrap();
    assert_eq!(parsed.parakeet.model, "parakeet-tdt-0.6b-v3");
    assert_eq!(parsed.parakeet.execution_provider, ExecutionProviderChoice::Auto);
}

#[test]
fn transcriber_config_json_matches_the_serde_layout() {
    let json = transcriber_config_json(&TranscriberConfig::default());
    let value: serde_json::Value = serde_json::from_str(&json).unwrap();
    assert_eq!(value["provider"], "whisper-cpp");
    assert_eq!(value["whisper_cpp"]["command"], "whisper-cpp");
    assert_eq!(value["mistral"]["model"], "voxtral-mini-2602");
    assert_eq!(value["parakeet"]["execution_provider"], "auto");
}

#[test]
fn injection_config_json_round_trip() {
    let config = InjectionConfig { typing_delay_ms: 42 };
    let json = injection_config_json(&config);
    assert_eq!(json, "{\"typing_delay_ms\":42}");
    let parsed = parse_injection_config(&json).unwrap();
    assert_eq!(parsed, config);
}

#[test]
fn bad_transcriber_json_is_refused() {
    assert!(parse_transcriber_config("not json").is_none());
    assert!(parse_transcriber_config("{\"whisper_cpp\":{\"command\":7,\"args\":[]}}").is_none());
}

#[test]
fn unknown_daemon_state_name_is_refused() {
    assert!("Dozing".parse::<DaemonState>().is_err());
}
