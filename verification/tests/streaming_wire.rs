use base64::Engine;

use voxkey::streaming::audio_append_json;
use voxkey::streaming::audio_end_json;
use voxkey::streaming::encode_pcm_samples;
use voxkey::streaming::parse_server_message;
use voxkey::streaming::session_update_json;

#[test]
fn encode_pcm_samples_produces_correct_base64() {
    // Two samples: 0x0100 (256) and 0xFF7F (32767)
    let samples: Vec<i16> = vec![256, 32767];
    let encoded = encode_pcm_samples(&samples);
    // 256 in LE = [0x00, 0x01], 32767 in LE = [0xFF, 0x7F]
    let expected = base64::engine::general_purpose::STANDARD.encode([0x00, 0x01, 0xFF, 0x7F]);
    assert_eq!(encoded, expected);
}

#[test]
fn encode_pcm_samples_handles_negative_values() {
    let samples: Vec<i16> = vec![-1, -32768];
    let encoded = encode_pcm_samples(&samples);
    // -1 in LE = [0xFF, 0xFF], -32768 in LE = [0x00, 0x80]
    let expected = base64::engine::general_purpose::STANDARD.encode([0xFF, 0xFF, 0x00, 0x80]);
    assert_eq!(encoded, expected);
}

#[test]
fn encode_pcm_samples_empty_input() {
    let samples: Vec<i16> = vec![];
    let encoded = encode_pcm_samples(&samples);
    assert_eq!(encoded, "");
}

#[test]
fn session_update_serializes_correctly() {
    let json = session_update_json(16000);
    let parsed: serde_json::Value = serde_json::from_str(&json).unwrap();
    assert_eq!(parsed["type"], "session.update");
    assert_eq!(parsed["session"]["audio_format"]["encoding"], "pcm_s16le");
    assert_eq!(parsed["session"]["audio_format"]["sample_rate"], 16000);
}

#[test]
fn audio_append_serializes_correctly() {
    let json = audio_append_json("AQID");
    let parsed: serde_json::Value = serde_json::from_str(&json).unwrap();
    assert_eq!(parsed["type"], "input_audio.append");
    assert_eq!(parsed["audio"], "AQID");
}

#[test]
fn audio_end_serializes_correctly() {
    assert_eq!(audio_end_json(), "{\"type\":\"input_audio.end\"}");
}

#[test]
fn server_message_deserializes_text_delta() {
    let json = r#"{"type":"transcription.text.delta","text":"hello "}"#;
    let msg = parse_server_message(json).unwrap();
    assert_eq!(msg.kind, "transcription.text.delta");
    assert_eq!(msg.text.unwrap(), "hello ");
}

#[test]
fn server_message_deserializes_session_created() {
    let json = r#"{"type":"session.created","session":{"id":"abc123"}}"#;
    let msg = parse_server_message(json).unwrap();
    assert_eq!(msg.kind, "session.created");
    assert!(msg.text.is_none());
}

#[test]
fn server_message_deserializes_transcription_done() {
    let json = r#"{"type":"transcription.done"}"#;
    let msg = parse_server_message(json).unwrap();
    assert_eq!(msg.kind, "transcription.done");
}

#[test]
fn server_message_deserializes_error() {
    let json = r#"{"type":"error","text":"invalid audio format"}"#;
    let msg = parse_server_message(json).unwrap();
    assert_eq!(msg.kind, "error");
    assert_eq!(msg.text.unwrap(), "invalid audio format");
}

#[test]
fn server_message_without_type_is_refused() {
    assert!(parse_server_message(r#"{"text":"hello"}"#).is_none());
    assert!(parse_server_message("[1,2]").is_none());
    assert!(parse_server_message("nonsense").is_none());
}

#[test]
fn string_escapes_survive_the_frame() {
    let json = audio_append_json("a\"b\\c");
    let parsed: serde_json::Value = serde_json::from_str(&json).unwrap();
    assert_eq!(parsed["audio"], "a\"b\\c");
}

#[test]
fn frames_with_whitespace_and_escapes_parse() {
    let json = " {\n  \"type\" : \"transcription.text.delta\",\n  \"text\" : \"caf\\u00e9\\n\"\n} ";
    let msg = parse_server_message(json).unwrap();
    assert_eq!(msg.kind, "transcription.text.delta");
    assert_eq!(msg.text.unwrap(), "café\n");
}

#[test]
fn bad_escapes_are_refused() {
    assert!(parse_server_message(r#"{"type":"x","text":"\q"}"#).is_none());
    assert!(parse_server_message(r#"{"type":"x","text":"\ud800"}"#).is_none());
}
