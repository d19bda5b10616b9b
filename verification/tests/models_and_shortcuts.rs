use voxkey::config::ShortcutConfig;
use voxkey::models::base_url;
use voxkey::models::is_model_available;
use voxkey::models::model_dir;
use voxkey::models::models_dir;
use voxkey::models::required_model_files;
use voxkey::shortcuts::dconf_key;
use voxkey::shortcuts::format_dconf_value;

#[test]
fn base_url_resolves_v2() {
    assert!(base_url("parakeet-tdt-0.6b-v2").unwrap().contains("v2"));
}

#[test]
fn base_url_resolves_v3() {
    assert!(base_url("parakeet-tdt-0.6b-v3").unwrap().contains("v3"));
}

#[test]
fn base_url_rejects_unknown_model() {
    assert!(base_url("unknown-model").is_err());
}

#[test]
fn models_dir_ends_with_voxkey_models() {
    let dir = models_dir("/home/user/.local/share");
    assert!(dir.ends_with("voxkey/models"));
}

#[test]
fn model_dir_appends_model_name() {
    let dir = model_dir("/home/user/.local/share", "parakeet-tdt-0.6b-v3");
    assert!(dir.ends_with("voxkey/models/parakeet-tdt-0.6b-v3"));
}

#[test]
fn is_model_available_returns_false_for_missing_model() {
    // the directory of a model that was never downloaded holds no files
    let present: Vec<String> = Vec::new();
    assert!(!is_model_available(&present));
}

#[test]
fn is_model_available_returns_true_when_all_files_present() {
    let present = required_model_files();
    assert!(is_model_available(&present));
}

#[test]
fn is_model_available_needs_every_file() {
    let mut present = required_model_files();
    present.remove(0);
    assert!(!is_model_available(&present));
    present.push("decoder.int8.onnx".to_string());
    assert!(!is_model_available(&present));
}

#[test]
fn format_dconf_value_matches_gnome_schema() {
    let config = ShortcutConfig {
        id: "dictate_hold".to_string(),
        description: "Dictate".to_string(),
        trigger: "<Super>t".to_string(),
    };

    let value = format_dconf_value(&config);

    assert_eq!(
        value,
        "[('dictate_hold', {'shortcuts': <['<Super>t']>, 'description': <'Dictate'>})]"
    );
}

#[test]
fn dconf_key_names_the_registered_app() {
    assert_eq!(
        dconf_key(),
        "/org/gnome/settings-daemon/global-shortcuts/io.github.hy26v.Voxkey/shortcuts"
    );
}
