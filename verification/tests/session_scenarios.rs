use voxkey::config::Config;
use voxkey::hub::SharedState;
use voxkey::injector::injection_follow_up;
use voxkey::injector::keysym_taps;
use voxkey::injector::InjectionOutcome;
use voxkey::persistence::clean_loaded_token;
use voxkey::persistence::plan_token_save;
use voxkey::recorder::AudioChannel;
use voxkey::session::desktop_retry;
use voxkey::session::supervisor_step;
use voxkey::session::BatchFollowUp;
use voxkey::session::BatchOutcome;
use voxkey::session::SessionCmd;
use voxkey::session::SessionEnd;
use voxkey::session::SessionLoop;
use voxkey::session::SetupStep;
use voxkey::session::SupervisorStep;
use voxkey::state::Event;
use voxkey::state::State;
use voxkey::streaming::parse_server_message;
use voxkey::streaming::StreamAction;
use voxkey::streaming::StreamPhase;
use voxkey::streaming::StreamingSession;

/// Happy batch cycle: toggle on, toggle off after 50 ms had the machine
/// already recording (the second press is within the repeat window, so it
/// is absorbed); a press after a longer gap stops the capture, and the
/// transcript is published and injected.
#[test]
fn happy_batch_cycle_publishes_the_transcript() {
    let mut hub = SharedState::new(Config::default());
    let mut session = SessionLoop::new(false, "dictate_hold".to_string(), 0);
    let mut published: Vec<String> = vec![hub.state_property()];

    // First press starts recording.
    let cmd = session.on_activated("dictate_hold", 1000);
    assert_eq!(cmd, SessionCmd::StartBatch);
    session.on_batch_started(true);
    hub.set_state(session.state);
    published.push(hub.state_property());

    // Second intentional press (gap above the repeat window) stops it.
    let cmd = session.on_activated("dictate_hold", 2000);
    assert_eq!(cmd, SessionCmd::FinishBatch);
    hub.set_state(session.state);
    published.push(hub.state_property());

    // The capture stopped and the subprocess printed the transcript.
    let follow = session.on_batch_result(BatchOutcome::Transcript("hello world".to_string()));
    match follow {
        BatchFollowUp::Publish { transcript } => {
            hub.set_last_transcript(transcript.clone());
            // The injector takes over: TranscriptReady, then InjectionDone.
            let cmd = session.on_machine_event(&Event::TranscriptReady);
            assert_eq!(cmd, SessionCmd::Ignore);
            hub.set_state(session.state);
            published.push(hub.state_property());
            let cmd = session.on_machine_event(&Event::InjectionDone);
            assert_eq!(cmd, SessionCmd::Ignore);
            hub.set_state(session.state);
            published.push(hub.state_property());
        }
        BatchFollowUp::ReturnIdle { .. } => panic!("expected a publish"),
    }

    assert_eq!(published, vec!["Idle", "Recording", "Transcribing", "Injecting", "Idle"]);
    assert_eq!(hub.last_transcript(), "hello world");
    assert_eq!(hub.last_error(), "");
}

/// Empty transcript: no injection, straight back to idle, the last
/// transcript untouched.
#[test]
fn empty_transcript_returns_to_idle() {
    let mut hub = SharedState::new(Config::default());
    hub.set_last_transcript("earlier".to_string());
    let mut session = SessionLoop::new(false, "dictate_hold".to_string(), 0);
    let mut published: Vec<String> = vec![hub.state_property()];

    let cmd = session.on_activated("dictate_hold", 1000);
    assert_eq!(cmd, SessionCmd::StartBatch);
    session.on_batch_started(true);
    hub.set_state(session.state);
    published.push(hub.state_property());

    let cmd = session.on_activated("dictate_hold", 2000);
    assert_eq!(cmd, SessionCmd::FinishBatch);
    hub.set_state(session.state);
    published.push(hub.state_property());

    let follow = session.on_batch_result(BatchOutcome::Transcript(String::new()));
    match follow {
        BatchFollowUp::ReturnIdle { error } => assert!(error.is_none()),
        BatchFollowUp::Publish { .. } => panic!("an empty transcript must not be injected"),
    }
    hub.set_state(session.state);
    published.push(hub.state_property());

    assert_eq!(published, vec!["Idle", "Recording", "Transcribing", "Idle"]);
    assert_eq!(hub.last_transcript(), "earlier");
}

/// Toggle repeat collapse: ten repeats thirty milliseconds apart keep the
/// capture running; only a gap above the threshold stops it.
#[test]
fn toggle_repeat_collapse_ignores_held_key() {
    let mut session = SessionLoop::new(false, "dictate_hold".to_string(), 0);
    let cmd = session.on_activated("dictate_hold", 1000);
    assert_eq!(cmd, SessionCmd::StartBatch);
    session.on_batch_started(true);
    assert_eq!(session.state, State::Recording);

    let mut now = 1000u64;
    for _ in 0..10 {
        now += 30;
        let cmd = session.on_activated("dictate_hold", now);
        assert_eq!(cmd, SessionCmd::Ignore);
        assert_eq!(session.state, State::Recording);
    }

    // A gap above the threshold is a new intentional press.
    now += 150;
    let cmd = session.on_activated("dictate_hold", now);
    assert_eq!(cmd, SessionCmd::FinishBatch);
    assert_eq!(session.state, State::Transcribing);
}

/// An activation during injection begins the next capture: the serial
/// injector queue absorbs the overlap.
#[test]
fn activated_during_injecting_starts_recording() {
    let mut session = SessionLoop::new(false, "dictate_hold".to_string(), 0);
    session.state = State::Injecting;
    let cmd = session.on_activated("dictate_hold", 1000);
    assert_eq!(cmd, SessionCmd::StartBatch);
    assert_eq!(session.state, State::Recording);
}

/// A foreign shortcut id is dropped without any effect.
#[test]
fn foreign_shortcut_id_is_dropped() {
    let mut session = SessionLoop::new(false, "dictate_hold".to_string(), 0);
    let cmd = session.on_activated("someone_elses", 1000);
    assert_eq!(cmd, SessionCmd::Ignore);
    assert_eq!(session.state, State::Idle);
}

/// Stale restore token: the failed first attempt deletes the token and
/// retries bare; the fresh token is written back with mode 0600.
#[test]
fn stale_restore_token_is_deleted_and_rotated() {
    let loaded = clean_loaded_token(Some("bogus".to_string()));
    assert_eq!(loaded.as_deref(), Some("bogus"));

    // The desktop session rejects the stale token.
    let step = desktop_retry(true, true);
    assert_eq!(step, SetupStep::DeleteTokenAndRetry);

    // The bare retry succeeds and the portal issues a fresh token.
    let step = desktop_retry(false, false);
    assert_eq!(step, SetupStep::UseSession);

    let write = plan_token_save("/home/user/.config/voxkey/restore_token", "fresh-token");
    assert_eq!(write.mode, 0o600);
    assert_eq!(write.contents, "fresh-token");
    assert_eq!(write.path, "/home/user/.config/voxkey/restore_token");
}

/// Token files are trimmed, and blank ones mean no token.
#[test]
fn loaded_tokens_are_trimmed() {
    assert_eq!(clean_loaded_token(Some("  tok\n".to_string())).as_deref(), Some("tok"));
    assert!(clean_loaded_token(Some("   \n".to_string())).is_none());
    assert!(clean_loaded_token(None).is_none());
}

/// Config change over the control surface: the new trigger is readable
/// before the method returns and the restart latch fires.
#[test]
fn set_shortcut_restarts_the_session() {
    let mut hub = SharedState::new(Config::default());
    hub.set_shortcut("<Control>F10".to_string());
    assert_eq!(hub.shortcut_trigger_property(), "<Control>F10");
    assert!(hub.take_restart_request());
    // The latch is one-shot.
    assert!(!hub.take_restart_request());
}

/// Streaming delta injection: the stub server yields three deltas and a
/// final done; each delta is injected as it arrives and the accumulated
/// transcript is published once.
#[test]
fn streaming_deltas_are_injected_in_order() {
    let mut hub = SharedState::new(Config::default());
    let mut session = SessionLoop::new(true, "dictate_hold".to_string(), 0);
    let mut published: Vec<String> = vec![hub.state_property()];

    let cmd = session.on_activated("dictate_hold", 1000);
    assert_eq!(cmd, SessionCmd::StartStream);
    session.on_stream_started(true);
    hub.set_state(session.state);
    published.push(hub.state_property());

    let mut stream = StreamingSession::new(16000);
    let raw = r#"{"type":"session.created","session":{"id":"abc123"}}"#;
    let msg = parse_server_message(raw).unwrap();
    match stream.on_server_message(&msg, raw) {
        StreamAction::Send(frame) => assert!(frame.contains("session.update")),
        _ => panic!("the greeting must be answered with session.update"),
    }
    assert_eq!(stream.phase, StreamPhase::Active);

    let mut injected = String::new();
    for delta in ["foo ", "bar ", "baz"] {
        let raw = format!("{{\"type\":\"transcription.text.delta\",\"text\":\"{delta}\"}}");
        let msg = parse_server_message(&raw).unwrap();
        match stream.on_server_message(&msg, &raw) {
            StreamAction::Inject(text) => injected.push_str(&text),
            _ => panic!("a delta must be injected at once"),
        }
    }
    assert_eq!(injected, "foo bar baz");

    // The key is released: state moves to Transcribing, audio ends.
    let cmd = session.on_activated("dictate_hold", 2000);
    assert_eq!(cmd, SessionCmd::FinishStream);
    hub.set_state(session.state);
    published.push(hub.state_property());
    match stream.on_audio_end() {
        StreamAction::Send(frame) => assert_eq!(frame, "{\"type\":\"input_audio.end\"}"),
        _ => panic!("the stop must announce the end of audio"),
    }

    let raw = r#"{"type":"transcription.done"}"#;
    let msg = parse_server_message(raw).unwrap();
    match stream.on_server_message(&msg, raw) {
        StreamAction::Finish { publish } => {
            let text = publish.expect("a non-empty transcript is published");
            assert_eq!(text, "foo bar baz");
            hub.set_last_transcript(text);
        }
        _ => panic!("done must finish the session"),
    }
    let cmd = session.on_machine_event(&Event::InjectionDone);
    assert_eq!(cmd, SessionCmd::DropStreamHandle);
    hub.set_state(session.state);
    published.push(hub.state_property());

    assert_eq!(published, vec!["Idle", "Streaming", "Transcribing", "Idle"]);
    assert_eq!(hub.last_transcript(), "foo bar baz");

    // The keystroke stream corresponds character for character.
    let taps = keysym_taps("foo bar baz");
    assert_eq!(taps.len(), "foo bar baz".chars().count());
}

/// A server error frame fails the streaming session.
#[test]
fn streaming_error_frame_fails_the_session() {
    let mut stream = StreamingSession::new(16000);
    let raw = r#"{"type":"session.created"}"#;
    let msg = parse_server_message(raw).unwrap();
    stream.on_server_message(&msg, raw);
    let raw = r#"{"type":"error","text":"invalid audio format"}"#;
    let msg = parse_server_message(raw).unwrap();
    match stream.on_server_message(&msg, raw) {
        StreamAction::Fail(e) => assert_eq!(e, "invalid audio format"),
        _ => panic!("an error frame must fail the session"),
    }
}

/// A full live audio channel drops frames instead of blocking.
#[test]
fn full_audio_channel_drops_frames() {
    let mut channel = AudioChannel::new(2);
    assert!(!channel.push_frame(vec![1, 2]));
    assert!(!channel.push_frame(vec![3]));
    assert!(channel.push_frame(vec![4]));  // full: dropped
    assert_eq!(channel.pop_frame().unwrap(), vec![1, 2]);
    assert!(!channel.push_frame(vec![5]));
    assert_eq!(channel.pop_frame().unwrap(), vec![3]);
    assert_eq!(channel.pop_frame().unwrap(), vec![5]);
    assert!(channel.pop_frame().is_none());
}

/// A carriage return in the transcript emits no keysym; newline and tab
/// map to their keys.
#[test]
fn carriage_return_emits_no_keysym() {
    assert_eq!(keysym_taps("a\rb"), keysym_taps("ab"));
    assert_eq!(keysym_taps("\r"), Vec::<u32>::new());
    assert_eq!(keysym_taps("a\nb"), vec![0x61, 0xff0d, 0x62]);
    assert_eq!(keysym_taps("\t"), vec![0xff09]);
    // Characters outside Latin-1 use the direct Unicode range.
    assert_eq!(keysym_taps("é€"), vec![0xe9, 0x01000000 + 0x20ac]);
}

/// Portal injection failures stash the text and raise an error; local
/// failures complete the cycle.
#[test]
fn injection_failures_are_classified() {
    let text = "hello".to_string();
    let f = injection_follow_up(InjectionOutcome::Done, &text);
    assert_eq!(f.event, Event::InjectionDone);
    assert!(f.stash.is_none());

    let f = injection_follow_up(InjectionOutcome::PortalError("gone".to_string()), &text);
    assert_eq!(f.event, Event::Error);
    assert_eq!(f.stash.as_deref(), Some("hello"));

    let f = injection_follow_up(InjectionOutcome::LocalError("busy".to_string()), &text);
    assert_eq!(f.event, Event::InjectionDone);
    assert!(f.stash.is_none());
    assert_eq!(f.record_error.as_deref(), Some("busy"));
}

/// The supervisor's three terminal cases.
#[test]
fn supervisor_handles_the_three_outcomes() {
    assert_eq!(supervisor_step(SessionEnd::Restart, false), SupervisorStep::Reenter);
    assert_eq!(
        supervisor_step(SessionEnd::Failed("portal gone".to_string()), false),
        SupervisorStep::Recover { error: "portal gone".to_string(), backoff_ms: 2000 }
    );
    assert_eq!(supervisor_step(SessionEnd::Restart, true), SupervisorStep::Quit);
}

/// Whitespace around a transcript is stripped before the empty check.
#[test]
fn trimmed_whitespace_counts_as_empty() {
    let mut session = SessionLoop::new(false, "dictate_hold".to_string(), 0);
    session.state = State::Transcribing;
    // The transcript handed in is already trimmed by the transcriber path.
    match session.on_batch_result(BatchOutcome::Transcript(String::new())) {
        BatchFollowUp::ReturnIdle { error } => assert!(error.is_none()),
        BatchFollowUp::Publish { .. } => panic!("blank transcripts are not injected"),
    }
    assert_eq!(session.state, State::Idle);
}
