use voxkey::config::Config;
use voxkey::config_text::config_to_toml;
use voxkey::ipc::TranscriberProvider;

#[test]
fn load_old_format_migrates_command_and_args() {
    let toml = r#"
[transcriber]
command = "/usr/local/bin/my-whisper"
args = ["-m", "model.bin", "{audio_file}"]
"#;
    let config = Config::load_from_str(toml).unwrap();
    assert_eq!(config.transcriber.provider, TranscriberProvider::WhisperCpp);
    assert_eq!(config.transcriber.whisper_cpp.command, "/usr/local/bin/my-whisper");
    assert_eq!(config.transcriber.whisper_cpp.args, vec!["-m", "model.bin", "{audio_file}"]);
}

#[test]
fn load_new_format_preserves_provider() {
    let toml = r#"
[transcriber]
provider = "mistral"

[transcriber.whisper_cpp]
command = "whisper-cpp"
args = []

[transcriber.mistral]
api_key = "sk-test"
model = "voxtral-mini-2602"
"#;
    let config = Config::load_from_str(toml).unwrap();
    assert_eq!(config.transcriber.provider, TranscriberProvider::Mistral);
    assert_eq!(config.transcriber.mistral.api_key, "sk-test");
}

#[test]
fn load_empty_toml_gives_defaults() {
    let config = Config::load_from_str("").unwrap();
    assert_eq!(config.transcriber.provider, TranscriberProvider::WhisperCpp);
    assert_eq!(config.transcriber.whisper_cpp.command, "whisper-cpp");
}

#[test]
fn load_old_format_preserves_other_sections() {
    let toml = r#"
[shortcut]
trigger = "<Control>d"

[transcriber]
command = "my-whisper"

[audio]
sample_rate = 48000
"#;
    let config = Config::load_from_str(toml).unwrap();
    assert_eq!(config.shortcut.trigger, "<Control>d");
    assert_eq!(config.transcriber.whisper_cpp.command, "my-whisper");
    assert_eq!(config.audio.sample_rate, 48000);
}

#[test]
fn default_config_written_and_reread_is_the_default() {
    let text = config_to_toml(&Config::default());
    let reread = Config::load_from_str(&text).unwrap();
    assert_eq!(reread, Config::default());
}

#[test]
fn full_config_survives_the_file_round_trip() {
    let mut config = Config::default();
    config.shortcut.trigger = "<Control>F10".to_string();
    config.transcriber.provider = TranscriberProvider::Mistral;
    config.transcriber.whisper_cpp.command = "/usr/bin/whisper".to_string();
    config.transcriber.whisper_cpp.args = vec!["-m".to_string(), "model.bin".to_string()];
    config.transcriber.mistral.api_key = "sk-test".to_string();
    config.injection.typing_delay_ms = 12;
    config.audio.sample_rate = 48000;
    config.audio.channels = 2;
    config.persistence.token_path = "/tmp/token".to_string();
    let text = config_to_toml(&config);
    let reread = Config::load_from_str(&text).unwrap();
    assert_eq!(reread, config);
}

#[test]
fn comments_and_blank_lines_are_skipped() {
    let toml = "# daemon configuration\n\n[audio]\n# capture rate\nsample_rate = 32000\n";
    let config = Config::load_from_str(toml).unwrap();
    assert_eq!(config.audio.sample_rate, 32000);
    assert_eq!(config.audio.channels, 1);
}

#[test]
fn wrong_shape_is_refused() {
    assert!(Config::load_from_str("[audio]\nsample_rate = \"fast\"\n").is_err());
    assert!(Config::load_from_str("[shortcut]\ntrigger = 7\n").is_err());
}
