//! Decision core of the capture session loop.
//!
//! One `SessionLoop` value holds everything the event loop decides on:
//! the machine state, which backend kind is active, the bound shortcut id
//! and the time of the last activation signal.  Each incoming event is a
//! method call; the method updates the state and returns the command the
//! surrounding loop must perform (start or stop a capture, tear a handle
//! down, nothing).  The surrounding loop owns the portal sessions, the
//! audio device and the clock, performs each command, and feeds the
//! outcome back in through the matching `on_*` call.

use vstd::prelude::*;

use crate::state::Event;
use crate::state::State;

verus! {

/// Gap between two activation signals at or under this many milliseconds is
/// key-repeat noise while the shortcut is held; above it, a new press.
pub const REPEAT_THRESHOLD_MS: u64 = 100;

/// Backoff before a failed session is re-entered.
pub const RECOVERY_BACKOFF_MS: u64 = 2000;

/// What the surrounding loop must do after an event was applied.
#[derive(Clone, Copy, Debug, PartialEq, Eq, Structural)]
pub enum SessionCmd {
    /// Nothing: the event was absorbed.
    Ignore,
    /// Begin a file-mode capture.
    StartBatch,
    /// Begin a live-channel capture and open the streaming task.
    StartStream,
    /// Stop the file-mode capture, transcribe it and inject the result.
    FinishBatch,
    /// Stop the live capture and signal the streaming task to drain.
    FinishStream,
    /// Drop the live streaming handle: its cycle has returned to idle.
    DropStreamHandle,
}

/// Outcome of one batch capture, as handed back by the surrounding loop.
pub enum BatchOutcome {
    /// Capture stopped and transcription returned this text (already trimmed).
    Transcript(String),
    /// Stopping the capture failed.
    StopFailed(String),
    /// Transcription failed.
    TranscribeFailed(String),
}

/// What to do with a finished batch capture.
#[derive(Debug)]
pub enum BatchFollowUp {
    /// The cycle is over; record the error if one is given.
    ReturnIdle { error: Option<String> },
    /// Publish the transcript and enqueue it for injection.
    Publish { transcript: String },
}

/// The session loop's decision state.
pub struct SessionLoop {
    /// Current machine state.
    pub state: State,
    /// Whether the configured backend consumes live audio.
    pub streaming_backend: bool,
    /// Id of the one shortcut this session bound.
    pub shortcut_id: String,
    /// Monotonic time, in milliseconds, of the last accepted activation.
    pub last_activated_ms: u64,
    /// Whether a live streaming handle exists.
    pub streaming_live: bool,
}

impl SessionLoop {
    /// A fresh session: idle, nothing live, the clock at session start.
    pub fn new(streaming_backend: bool, shortcut_id: String, now_ms: u64) -> (r: SessionLoop)
        ensures
            r.state == State::Idle,
            r.streaming_backend == streaming_backend,
            r.shortcut_id == shortcut_id,
            r.last_activated_ms == now_ms,
            !r.streaming_live,
    {
        SessionLoop {
            state: State::Idle,
            streaming_backend,
            shortcut_id,
            last_activated_ms: now_ms,
            streaming_live: false,
        }
    }

    /// Apply one activation signal.
    ///
    /// A signal for a foreign shortcut id is dropped.  While recording or
    /// streaming, signals arriving at key-repeat rate (gap at most
    /// `REPEAT_THRESHOLD_MS`) are held-key noise and ignored; a later one is
    /// the toggle that stops the capture.  Otherwise the state machine
    /// decides: if it accepts the activation, a batch capture starts (state
    /// moves at once) or a streaming capture starts (state moves only when
    /// the loop reports success through `on_stream_started`).
    pub fn on_activated(&mut self, signal_id: &str, now_ms: u64) -> (r: SessionCmd)
        requires
            now_ms >= old(self).last_activated_ms,
        ensures
            final(self).streaming_backend == old(self).streaming_backend,
            final(self).shortcut_id == old(self).shortcut_id,
            final(self).streaming_live == old(self).streaming_live,
            signal_id@ != old(self).shortcut_id@ ==> r == SessionCmd::Ignore && *final(self) == *old(
                self,
            ),
            signal_id@ == old(self).shortcut_id@ && (old(self).state == State::Recording || old(
                self,
            ).state == State::Streaming) ==> {
                &&& final(self).last_activated_ms == now_ms
                &&& (now_ms - old(self).last_activated_ms <= REPEAT_THRESHOLD_MS ==> r
                    == SessionCmd::Ignore && final(self).state == old(self).state)
                &&& (now_ms - old(self).last_activated_ms > REPEAT_THRESHOLD_MS && old(self).state
                    == State::Recording ==> r == SessionCmd::FinishBatch && final(self).state
                    == State::Transcribing)
                &&& (now_ms - old(self).last_activated_ms > REPEAT_THRESHOLD_MS && old(self).state
                    == State::Streaming ==> r == SessionCmd::FinishStream && final(self).state
                    == State::Transcribing)
            },
            signal_id@ == old(self).shortcut_id@ && old(self).state != State::Recording && old(
                self,
            ).state != State::Streaming ==> {
                &&& (old(self).state.spec_transition(Event::Activated) is None ==> r
                    == SessionCmd::Ignore && *final(self) == *old(self))
                &&& (old(self).state.spec_transition(Event::Activated) matches Some(next) ==> {
                    &&& final(self).last_activated_ms == now_ms
                    &&& (old(self).streaming_backend ==> r == SessionCmd::StartStream && final(self).state
                        == old(self).state)
                    &&& (!old(self).streaming_backend ==> r == SessionCmd::StartBatch && final(self).state
                        == next)
                })
            },
    {
        let own_id = signal_id.to_owned();
        if own_id != self.shortcut_id {
            return SessionCmd::Ignore;
        }
        if self.state == State::Recording || self.state == State::Streaming {
            let gap: u64 = now_ms - self.last_activated_ms;
            self.last_activated_ms = now_ms;
            if gap <= REPEAT_THRESHOLD_MS {
                return SessionCmd::Ignore;  // key repeat while held
            }
            // A new press: toggle the capture off.
            if self.state == State::Recording {
                self.state = State::Transcribing;
                return SessionCmd::FinishBatch;
            }
            self.state = State::Transcribing;
            return SessionCmd::FinishStream;
        }
        match self.state.transition(&Event::Activated) {
            Some(next) => {
                self.last_activated_ms = now_ms;
                if self.streaming_backend {
                    // State moves to Streaming only once the capture started.
                    SessionCmd::StartStream
                } else {
                    self.state = next;
                    SessionCmd::StartBatch
                }
            },
            None => SessionCmd::Ignore,
        }
    }

    /// A deactivation signal: drained but ignored, toggle mode stops on the
    /// next press instead of the release.
    pub fn on_deactivated(&self) -> (r: SessionCmd)
        ensures
            r == SessionCmd::Ignore,
    {
        SessionCmd::Ignore
    }

    /// Apply one event from the machine-event channel (injector or streaming
    /// task).  Events the machine does not accept are no-ops; a transition
    /// into idle while a streaming handle is live tears the handle down.
    pub fn on_machine_event(&mut self, event: &Event) -> (r: SessionCmd)
        ensures
            final(self).streaming_backend == old(self).streaming_backend,
            final(self).shortcut_id == old(self).shortcut_id,
            final(self).last_activated_ms == old(self).last_activated_ms,
            old(self).state.spec_transition(*event) is None ==> r == SessionCmd::Ignore && *final(self)
                == *old(self),
            old(self).state.spec_transition(*event) matches Some(next) ==> {
                &&& final(self).state == next
                &&& (next == State::Idle && old(self).streaming_live ==> r
                    == SessionCmd::DropStreamHandle && !final(self).streaming_live)
                &&& (!(next == State::Idle && old(self).streaming_live) ==> r == SessionCmd::Ignore
                    && final(self).streaming_live == old(self).streaming_live)
            },
    {
        match self.state.transition(event) {
            Some(next) => {
                let mut cmd = SessionCmd::Ignore;
                if next == State::Idle && self.streaming_live {
                    self.streaming_live = false;
                    cmd = SessionCmd::DropStreamHandle;
                }
                self.state = next;
                cmd
            },
            None => SessionCmd::Ignore,
        }
    }

    /// Report whether the batch capture started.  On failure the cycle is
    /// abandoned and the state returns to idle.
    pub fn on_batch_started(&mut self, ok: bool)
        ensures
            final(self).streaming_backend == old(self).streaming_backend,
            final(self).shortcut_id == old(self).shortcut_id,
            final(self).last_activated_ms == old(self).last_activated_ms,
            final(self).streaming_live == old(self).streaming_live,
            ok ==> final(self).state == old(self).state,
            !ok ==> final(self).state == State::Idle,
    {
        if !ok {
            self.state = State::Idle;
        }
    }

    /// Report whether the streaming capture started.  On success the state
    /// becomes `Streaming` and the handle is live; on failure the cycle is
    /// abandoned and the state returns to idle.
    pub fn on_stream_started(&mut self, ok: bool)
        ensures
            final(self).streaming_backend == old(self).streaming_backend,
            final(self).shortcut_id == old(self).shortcut_id,
            final(self).last_activated_ms == old(self).last_activated_ms,
            ok ==> final(self).state == State::Streaming && final(self).streaming_live,
            !ok ==> final(self).state == State::Idle && final(self).streaming_live == old(self).streaming_live,
    {
        if ok {
            self.state = State::Streaming;
            self.streaming_live = true;
        } else {
            self.state = State::Idle;
        }
    }

    /// Decide what to do with a finished batch capture.
    ///
    /// An empty transcript short-circuits back to idle with no injection and
    /// no error; a non-empty one is published and enqueued (the state stays
    /// at `Transcribing`; the injector's events move it on).  A stop or
    /// transcription failure records the error and returns to idle.  At most
    /// one transcript is published per capture: exactly when the outcome is
    /// a non-empty transcript.
    pub fn on_batch_result(&mut self, outcome: BatchOutcome) -> (r: BatchFollowUp)
        ensures
            final(self).streaming_backend == old(self).streaming_backend,
            final(self).shortcut_id == old(self).shortcut_id,
            final(self).last_activated_ms == old(self).last_activated_ms,
            final(self).streaming_live == old(self).streaming_live,
            outcome matches BatchOutcome::Transcript(t) ==> ((t@.len() == 0 ==> final(self).state
                == State::Idle && r == (BatchFollowUp::ReturnIdle { error: None })) && (t@.len()
                > 0 ==> final(self).state == old(self).state && r == (BatchFollowUp::Publish {
                transcript: t,
            }))),
            outcome matches BatchOutcome::StopFailed(e) ==> final(self).state == State::Idle && r == (
            BatchFollowUp::ReturnIdle { error: Some(e) }),
            outcome matches BatchOutcome::TranscribeFailed(e) ==> final(self).state == State::Idle && r
                == (BatchFollowUp::ReturnIdle { error: Some(e) }),
            r matches BatchFollowUp::Publish { transcript } ==> (outcome matches
                BatchOutcome::Transcript(t) && transcript == t && t@.len() > 0),
    {
        match outcome {
            BatchOutcome::Transcript(t) => {
                if t.as_str().unicode_len() == 0 {
                    self.state = State::Idle;
                    BatchFollowUp::ReturnIdle { error: None }
                } else {
                    BatchFollowUp::Publish { transcript: t }
                }
            },
            BatchOutcome::StopFailed(e) => {
                self.state = State::Idle;
                BatchFollowUp::ReturnIdle { error: Some(e) }
            },
            BatchOutcome::TranscribeFailed(e) => {
                self.state = State::Idle;
                BatchFollowUp::ReturnIdle { error: Some(e) }
            },
        }
    }

    /// The injector refused the enqueue: record the failure and return to
    /// idle.
    pub fn on_enqueue_failed(&mut self)
        ensures
            final(self).streaming_backend == old(self).streaming_backend,
            final(self).shortcut_id == old(self).shortcut_id,
            final(self).last_activated_ms == old(self).last_activated_ms,
            final(self).streaming_live == old(self).streaming_live,
            final(self).state == State::Idle,
    {
        self.state = State::Idle;
    }
}

/// How one session run ended.
pub enum SessionEnd {
    /// A configuration change asked for new portal sessions.
    Restart,
    /// A portal or session failure.
    Failed(String),
}

/// What the recovery supervisor does next.
#[derive(Debug, PartialEq)]
pub enum SupervisorStep {
    /// Reload the configuration and enter a new session at once.
    Reenter,
    /// Mark the portal disconnected, publish the error, wait out the
    /// backoff, then re-enter.
    Recover { error: String, backoff_ms: u64 },
    /// Leave the supervisor: the daemon is shutting down.
    Quit,
}

/// Decide the supervisor's next move from how the session ended.  Shutdown
/// wins over everything; a restart outcome re-enters at once; a failure
/// recovers after a fixed backoff.
pub fn supervisor_step(end: SessionEnd, shutdown_requested: bool) -> (r: SupervisorStep)
    ensures
        shutdown_requested ==> r == SupervisorStep::Quit,
        !shutdown_requested && end is Restart ==> r == SupervisorStep::Reenter,
        !shutdown_requested ==> (end matches SessionEnd::Failed(e) ==> r == (
        SupervisorStep::Recover { error: e, backoff_ms: RECOVERY_BACKOFF_MS })),
{
    if shutdown_requested {
        return SupervisorStep::Quit;
    }
    match end {
        SessionEnd::Restart => SupervisorStep::Reenter,
        SessionEnd::Failed(e) => SupervisorStep::Recover {
            error: e,
            backoff_ms: RECOVERY_BACKOFF_MS,
        },
    }
}

/// What session setup does after the desktop session attempt.
#[derive(Clone, Copy, Debug, PartialEq, Eq, Structural)]
pub enum SetupStep {
    /// The session is up; carry on.
    UseSession,
    /// The stored restore token was rejected: delete it and try once more
    /// with none.
    DeleteTokenAndRetry,
    /// No token was in play, so the failure is final for this session.
    Fail,
}

/// Decide how to follow up the first desktop-session attempt: a failure
/// with a stored token means the token went stale, so it is deleted and
/// the attempt repeated without it; a failure without one is final.
pub fn desktop_retry(had_token: bool, first_attempt_failed: bool) -> (r: SetupStep)
    ensures
        !first_attempt_failed ==> r == SetupStep::UseSession,
        first_attempt_failed && had_token ==> r == SetupStep::DeleteTokenAndRetry,
        first_attempt_failed && !had_token ==> r == SetupStep::Fail,
{
    if !first_attempt_failed {
        SetupStep::UseSession
    } else if had_token {
        SetupStep::DeleteTokenAndRetry
    } else {
        SetupStep::Fail
    }
}

} // verus!
