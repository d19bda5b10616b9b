use voxkey::config::Config;
use voxkey::hub::model_status_label;
use voxkey::hub::SharedState;
use voxkey::models::DownloadStatus;
use voxkey::state::State;

#[test]
fn new_hub_starts_idle_and_disconnected() {
    let hub = SharedState::new(Config::default());
    assert_eq!(hub.state(), State::Idle);
    assert!(!hub.portal_connected());
    assert_eq!(hub.last_transcript(), "");
    assert_eq!(hub.last_error(), "");
}

#[test]
fn set_transcriber_config_is_readable_before_return() {
    let mut hub = SharedState::new(Config::default());
    let json = r#"{"provider":"mistral","whisper_cpp":{"command":"w","args":[]},"mistral":{"api_key":"sk","model":"m","endpoint":""},"mistral_realtime":{"api_key":"","model":"r","endpoint":""},"parakeet":{"model":"p","execution_provider":"cpu"}}"#;
    hub.set_transcriber_config(json).unwrap();
    let readback = hub.transcriber_config_property();
    let value: serde_json::Value = serde_json::from_str(&readback).unwrap();
    assert_eq!(value["provider"], "mistral");
    assert_eq!(value["mistral"]["api_key"], "sk");
    assert!(hub.take_restart_request());
}

#[test]
fn invalid_transcriber_config_changes_nothing() {
    let mut hub = SharedState::new(Config::default());
    assert!(hub.set_transcriber_config("{]").is_err());
    assert!(hub.set_transcriber_config(r#"{"whisper_cpp":{"command":3,"args":[]}}"#).is_err());
    let readback = hub.transcriber_config_property();
    let value: serde_json::Value = serde_json::from_str(&readback).unwrap();
    assert_eq!(value["provider"], "whisper-cpp");
    assert!(!hub.take_restart_request());
}

#[test]
fn set_injection_config_is_readable_before_return() {
    let mut hub = SharedState::new(Config::default());
    hub.set_injection_config(r#"{"typing_delay_ms": 25}"#).unwrap();
    assert_eq!(hub.injection_config_property(), "{\"typing_delay_ms\":25}");
    assert!(hub.take_restart_request());
}

#[test]
fn set_audio_is_readable_before_return() {
    let mut hub = SharedState::new(Config::default());
    hub.set_audio(48000, 2);
    assert_eq!(hub.sample_rate_property(), 48000);
    assert_eq!(hub.channels_property(), 2);
    assert!(hub.take_restart_request());
}

#[test]
fn pending_injection_is_taken_once() {
    let mut hub = SharedState::new(Config::default());
    hub.set_pending_injection(Some("held".to_string()));
    assert_eq!(hub.take_pending_injection().as_deref(), Some("held"));
    assert!(hub.take_pending_injection().is_none());
}

#[test]
fn shutdown_latch_is_one_shot() {
    let mut hub = SharedState::new(Config::default());
    assert!(!hub.take_shutdown_request());
    hub.request_shutdown();
    assert!(hub.take_shutdown_request());
    assert!(!hub.take_shutdown_request());
}

#[test]
fn model_status_prefers_the_watcher() {
    assert_eq!(model_status_label(Some(&DownloadStatus::InProgress(40)), false), "downloading");
    assert_eq!(model_status_label(Some(&DownloadStatus::Complete), false), "available");
    assert_eq!(
        model_status_label(Some(&DownloadStatus::Failed("net".to_string())), true),
        "not_downloaded"
    );
    assert_eq!(model_status_label(None, true), "available");
    assert_eq!(model_status_label(None, false), "not_downloaded");
}

#[test]
fn download_watchers_replace_by_name() {
    let mut hub = SharedState::new(Config::default());
    hub.set_download_status("m1".to_string(), DownloadStatus::InProgress(10));
    hub.set_download_status("m1".to_string(), DownloadStatus::Complete);
    assert!(matches!(hub.model_download_status("m1"), Some(DownloadStatus::Complete)));
    hub.remove_download_watcher("m1");
    assert!(hub.model_download_status("m1").is_none());
}
