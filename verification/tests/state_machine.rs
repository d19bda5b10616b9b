use voxkey::state::Event;
use voxkey::state::State;

#[test]
fn streaming_activated_is_ignored() {
    assert_eq!(State::Streaming.transition(&Event::Activated), None);
}

#[test]
fn streaming_deactivated_transitions_to_transcribing() {
    assert_eq!(State::Streaming.transition(&Event::Deactivated), Some(State::Transcribing));
}

#[test]
fn transcribing_injection_done_transitions_to_idle() {
    assert_eq!(State::Transcribing.transition(&Event::InjectionDone), Some(State::Idle));
}

#[test]
fn streaming_error_transitions_to_recovering() {
    assert_eq!(State::Streaming.transition(&Event::Error), Some(State::RecoveringSession));
}

#[test]
fn streaming_injection_done_transitions_to_idle() {
    assert_eq!(State::Streaming.transition(&Event::InjectionDone), Some(State::Idle));
}

#[test]
fn every_state_accepts_error() {
    let states = [
        State::Idle,
        State::Recording,
        State::Streaming,
        State::Transcribing,
        State::Injecting,
        State::RecoveringSession,
    ];
    for s in states {
        assert_eq!(s.transition(&Event::Error), Some(State::RecoveringSession));
    }
}

#[test]
fn full_batch_cycle_follows_table() {
    let s = State::Idle;
    let s = s.transition(&Event::Activated).unwrap();
    assert_eq!(s, State::Recording);
    let s = s.transition(&Event::Deactivated).unwrap();
    assert_eq!(s, State::Transcribing);
    let s = s.transition(&Event::TranscriptReady).unwrap();
    assert_eq!(s, State::Injecting);
    let s = s.transition(&Event::InjectionDone).unwrap();
    assert_eq!(s, State::Idle);
}

#[test]
fn injecting_activated_allows_overlap() {
    assert_eq!(State::Injecting.transition(&Event::Activated), Some(State::Recording));
}

#[test]
fn recovered_only_leaves_recovering() {
    assert_eq!(State::RecoveringSession.transition(&Event::Recovered), Some(State::Idle));
    assert_eq!(State::Idle.transition(&Event::Recovered), None);
    assert_eq!(State::Recording.transition(&Event::Recovered), None);
}

#[test]
fn state_labels_name_the_states() {
    assert_eq!(State::Idle.label(), "Idle");
    assert_eq!(State::RecoveringSession.label(), "RecoveringSession");
}
