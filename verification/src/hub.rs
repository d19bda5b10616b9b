//! The shared state hub: the one cross-task mutable store, and the
//! decisions behind the control surface's methods.
//!
//! The surrounding process wraps one `SharedState` in its lock and serves
//! the control interface from it; every mutation goes through a method
//! here, so what each method changes — and what the matching property
//! reads back — is stated exactly.  The restart and shutdown signals are
//! one-shot latches.

use vstd::prelude::*;

use crate::codec::dec_ic;
use crate::codec::dec_tc;
use crate::codec::enc_ic;
use crate::codec::enc_tc;
use crate::codec::parse_injection_config;
use crate::codec::parse_transcriber_config;
use crate::codec::injection_config_json;
use crate::codec::transcriber_config_json;
use crate::config::Config;
use crate::json::parse_json_spec;
use crate::json::ser_val;
use crate::models::DownloadStatus;
use crate::state::State;

verus! {

/// A one-shot signal: requesting it makes the next take return true.
#[derive(Clone, Copy, Debug, PartialEq, Eq, Structural)]
pub struct Latch {
    pub requested: bool,
}

impl Latch {
    /// A latch nobody has pulled.
    pub fn new() -> (r: Latch)
        ensures
            !r.requested,
    {
        Latch { requested: false }
    }

    /// Pull the latch.
    pub fn request(&mut self)
        ensures
            final(self).requested,
    {
        self.requested = true;
    }

    /// Consume the signal: reports whether it was pulled, and resets it.
    pub fn take(&mut self) -> (r: bool)
        ensures
            r == old(self).requested,
            !final(self).requested,
    {
        let r = self.requested;
        self.requested = false;
        r
    }
}

/// Everything the daemon shares across tasks.
pub struct SharedState {
    /// Current machine state.
    pub state: State,
    /// Current configuration snapshot.
    pub config: Config,
    /// Whether portal sessions are up.
    pub portal_connected: bool,
    /// Most recent transcription result.
    pub last_transcript: String,
    /// Most recent error message; empty when none.
    pub last_error: String,
    /// Text whose injection failed on a dead portal, kept for later.
    pub pending_injection: Option<String>,
    /// Download status per model name, newest entry first.
    pub download_watchers: Vec<(String, DownloadStatus)>,
    /// Session restart signal.
    pub restart: Latch,
    /// Process shutdown signal.
    pub shutdown: Latch,
}

/// The unchanging parts: what a method that touches one field says about
/// the rest.
pub open spec fn same_signals(a: SharedState, b: SharedState) -> bool {
    &&& a.restart == b.restart
    &&& a.shutdown == b.shutdown
}

impl SharedState {
    /// A fresh hub around the loaded configuration: idle, disconnected,
    /// nothing recorded.
    pub fn new(config: Config) -> (r: SharedState)
        ensures
            r.state == State::Idle,
            r.config == config,
            !r.portal_connected,
            r.last_transcript@ == Seq::<char>::empty(),
            r.last_error@ == Seq::<char>::empty(),
            r.pending_injection is None,
            r.download_watchers@ =~= Seq::<(String, DownloadStatus)>::empty(),
            !r.restart.requested,
            !r.shutdown.requested,
    {
        SharedState {
            state: State::Idle,
            config,
            portal_connected: false,
            last_transcript: String::new(),
            last_error: String::new(),
            pending_injection: None,
            download_watchers: Vec::new(),
            restart: Latch::new(),
            shutdown: Latch::new(),
        }
    }

    /// Current machine state.
    pub fn state(&self) -> (r: State)
        ensures
            r == self.state,
    {
        self.state
    }

    /// Record a new machine state.
    pub fn set_state(&mut self, state: State)
        ensures
            *final(self) == (SharedState { state, ..*old(self) }),
    {
        self.state = state;
    }

    /// Record whether portal sessions are up.
    pub fn set_portal_connected(&mut self, connected: bool)
        ensures
            *final(self) == (SharedState { portal_connected: connected, ..*old(self) }),
    {
        self.portal_connected = connected;
    }

    /// Record the latest transcription result.
    pub fn set_last_transcript(&mut self, text: String)
        ensures
            *final(self) == (SharedState { last_transcript: text, ..*old(self) }),
    {
        self.last_transcript = text;
    }

    /// Record the latest error message.
    pub fn set_last_error(&mut self, text: String)
        ensures
            *final(self) == (SharedState { last_error: text, ..*old(self) }),
    {
        self.last_error = text;
    }

    /// Stash or clear the pending injection holdover.
    pub fn set_pending_injection(&mut self, text: Option<String>)
        ensures
            *final(self) == (SharedState { pending_injection: text, ..*old(self) }),
    {
        self.pending_injection = text;
    }

    /// Take the pending injection holdover, leaving none.
    pub fn take_pending_injection(&mut self) -> (r: Option<String>)
        ensures
            r == old(self).pending_injection,
            *final(self) == (SharedState { pending_injection: None, ..*old(self) }),
    {
        let r = self.pending_injection.take();
        r
    }

    /// The current configuration.
    pub fn config(&self) -> (r: &Config)
        ensures
            r == self.config,
    {
        &self.config
    }

    /// Replace the whole configuration.
    pub fn update_config(&mut self, config: Config)
        ensures
            *final(self) == (SharedState { config, ..*old(self) }),
    {
        self.config = config;
    }

    /// Whether portal sessions are up.
    pub fn portal_connected(&self) -> (r: bool)
        ensures
            r == self.portal_connected,
    {
        self.portal_connected
    }

    /// The latest transcription result.
    pub fn last_transcript(&self) -> (r: &String)
        ensures
            r == self.last_transcript,
    {
        &self.last_transcript
    }

    /// The latest error message.
    pub fn last_error(&self) -> (r: &String)
        ensures
            r == self.last_error,
    {
        &self.last_error
    }

    /// Ask the running session to tear down and rebuild.
    pub fn request_session_restart(&mut self)
        ensures
            *final(self) == (SharedState {
                restart: Latch { requested: true },
                ..*old(self)
            }),
    {
        self.restart.request();
    }

    /// Consume a pending restart request.
    pub fn take_restart_request(&mut self) -> (r: bool)
        ensures
            r == old(self).restart.requested,
            *final(self) == (SharedState {
                restart: Latch { requested: false },
                ..*old(self)
            }),
    {
        self.restart.take()
    }

    /// Ask the daemon to exit.
    pub fn request_shutdown(&mut self)
        ensures
            *final(self) == (SharedState {
                shutdown: Latch { requested: true },
                ..*old(self)
            }),
    {
        self.shutdown.request();
    }

    /// Consume a pending shutdown request.
    pub fn take_shutdown_request(&mut self) -> (r: bool)
        ensures
            r == old(self).shutdown.requested,
            *final(self) == (SharedState {
                shutdown: Latch { requested: false },
                ..*old(self)
            }),
    {
        self.shutdown.take()
    }

    /// The state name served as the `state` property.
    pub fn state_property(&self) -> (r: String)
        ensures
            r@ == self.state.spec_label(),
    {
        self.state.label()
    }

    /// The trigger served as the `shortcut_trigger` property.
    pub fn shortcut_trigger_property(&self) -> (r: String)
        ensures
            r@ == self.config@.shortcut.trigger,
    {
        self.config.shortcut.trigger.clone()
    }

    /// The JSON text served as the `transcriber_config` property.
    pub fn transcriber_config_property(&self) -> (r: String)
        ensures
            r@ == ser_val(enc_tc(self.config@.transcriber)),
    {
        transcriber_config_json(&self.config.transcriber)
    }

    /// The JSON text served as the `injection_config` property.
    pub fn injection_config_property(&self) -> (r: String)
        ensures
            r@ == ser_val(enc_ic(self.config@.injection)),
    {
        injection_config_json(&self.config.injection)
    }

    /// The sample rate served as the `sample_rate` property.
    pub fn sample_rate_property(&self) -> (r: u32)
        ensures
            r == self.config.audio.sample_rate,
    {
        self.config.audio.sample_rate
    }

    /// The channel count served as the `channels` property.
    pub fn channels_property(&self) -> (r: u16)
        ensures
            r == self.config.audio.channels,
    {
        self.config.audio.channels
    }

    /// Apply the `set_shortcut` method: the new trigger is readable
    /// through `shortcut_trigger_property` before the method returns, and
    /// a session restart is requested so the binding takes effect.
    pub fn set_shortcut(&mut self, trigger: String)
        ensures
            final(self).config@.shortcut.trigger == trigger@,
            final(self).config@.shortcut.id == old(self).config@.shortcut.id,
            final(self).config@.shortcut.description == old(self).config@.shortcut.description,
            final(self).config.transcriber == old(self).config.transcriber,
            final(self).config.injection == old(self).config.injection,
            final(self).config.persistence == old(self).config.persistence,
            final(self).config.audio == old(self).config.audio,
            final(self).state == old(self).state,
            final(self).portal_connected == old(self).portal_connected,
            final(self).last_transcript == old(self).last_transcript,
            final(self).last_error == old(self).last_error,
            final(self).pending_injection == old(self).pending_injection,
            final(self).download_watchers == old(self).download_watchers,
            final(self).restart.requested,
            final(self).shutdown == old(self).shutdown,
    {
        self.config.shortcut.trigger = trigger;
        self.restart.request();
    }

    /// Apply the `set_transcriber_config` method.  A body that does not
    /// parse as a transcriber configuration is refused and nothing
    /// changes; otherwise the new value is readable through
    /// `transcriber_config_property` before the method returns, and a
    /// restart is requested so the new backend is picked up.
    pub fn set_transcriber_config(&mut self, config_json: &str) -> (r: Result<(), String>)
        ensures
            final(self).state == old(self).state,
            final(self).portal_connected == old(self).portal_connected,
            final(self).last_transcript == old(self).last_transcript,
            final(self).last_error == old(self).last_error,
            final(self).pending_injection == old(self).pending_injection,
            final(self).download_watchers == old(self).download_watchers,
            final(self).shutdown == old(self).shutdown,
            final(self).config.shortcut == old(self).config.shortcut,
            final(self).config.injection == old(self).config.injection,
            final(self).config.persistence == old(self).config.persistence,
            final(self).config.audio == old(self).config.audio,
            r is Ok ==> match parse_json_spec(config_json@) {
                Some(j) => dec_tc(j) == Some(final(self).config@.transcriber),
                None => false,
            },
            r is Ok ==> final(self).restart.requested,
            r is Err ==> *final(self) == *old(self) && match parse_json_spec(config_json@) {
                Some(j) => dec_tc(j) is None,
                None => true,
            },
    {
        match parse_transcriber_config(config_json) {
            Some(tc) => {
                self.config.transcriber = tc;
                self.restart.request();
                Ok(())
            },
            None => Err(String::from_str("Invalid transcriber config JSON")),
        }
    }

    /// Apply the `set_injection_config` method, with the same refusal rule
    /// as for the transcriber configuration.
    pub fn set_injection_config(&mut self, config_json: &str) -> (r: Result<(), String>)
        ensures
            final(self).state == old(self).state,
            final(self).portal_connected == old(self).portal_connected,
            final(self).last_transcript == old(self).last_transcript,
            final(self).last_error == old(self).last_error,
            final(self).pending_injection == old(self).pending_injection,
            final(self).download_watchers == old(self).download_watchers,
            final(self).shutdown == old(self).shutdown,
            final(self).config.shortcut == old(self).config.shortcut,
            final(self).config.transcriber == old(self).config.transcriber,
            final(self).config.persistence == old(self).config.persistence,
            final(self).config.audio == old(self).config.audio,
            r is Ok ==> match parse_json_spec(config_json@) {
                Some(j) => dec_ic(j) == Some(final(self).config.injection),
                None => false,
            },
            r is Ok ==> final(self).restart.requested,
            r is Err ==> *final(self) == *old(self) && match parse_json_spec(config_json@) {
                Some(j) => dec_ic(j) is None,
                None => true,
            },
    {
        match parse_injection_config(config_json) {
            Some(ic) => {
                self.config.injection = ic;
                self.restart.request();
                Ok(())
            },
            None => Err(String::from_str("Invalid injection config JSON")),
        }
    }

    /// Apply the `set_audio` method: both values are readable through the
    /// matching properties before the method returns, and a restart is
    /// requested so the next capture uses them.
    pub fn set_audio(&mut self, sample_rate: u32, channels: u16)
        ensures
            final(self).config.audio.sample_rate == sample_rate,
            final(self).config.audio.channels == channels,
            final(self).config.shortcut == old(self).config.shortcut,
            final(self).config.transcriber == old(self).config.transcriber,
            final(self).config.injection == old(self).config.injection,
            final(self).config.persistence == old(self).config.persistence,
            final(self).state == old(self).state,
            final(self).portal_connected == old(self).portal_connected,
            final(self).last_transcript == old(self).last_transcript,
            final(self).last_error == old(self).last_error,
            final(self).pending_injection == old(self).pending_injection,
            final(self).download_watchers == old(self).download_watchers,
            final(self).restart.requested,
            final(self).shutdown == old(self).shutdown,
    {
        self.config.audio.sample_rate = sample_rate;
        self.config.audio.channels = channels;
        self.restart.request();
    }

    /// Record the download status of one model, replacing any earlier
    /// entry for the same name.
    pub fn set_download_status(&mut self, model: String, status: DownloadStatus)
        ensures
            same_signals(*final(self), *old(self)),
            final(self).state == old(self).state,
            final(self).config == old(self).config,
            final(self).download_watchers@.len() > 0,
            final(self).download_watchers@[0].0 == model,
            final(self).download_watchers@[0].1 == status,
    {
        let mut i: usize = 0;
        while i < self.download_watchers.len()
            invariant
                i <= self.download_watchers@.len(),
                self.state == old(self).state,
                self.config == old(self).config,
                self.portal_connected == old(self).portal_connected,
                self.last_transcript == old(self).last_transcript,
                self.last_error == old(self).last_error,
                self.pending_injection == old(self).pending_injection,
                self.restart == old(self).restart,
                self.shutdown == old(self).shutdown,
            decreases self.download_watchers@.len() - i,
        {
            if self.download_watchers[i].0 == model {
                self.download_watchers.remove(i);
                break ;
            }
            i = i + 1;
        }
        self.download_watchers.insert(0, (model, status));
    }

    /// Drop the watcher of one model, if present.
    pub fn remove_download_watcher(&mut self, model: &str)
        ensures
            same_signals(*final(self), *old(self)),
            final(self).state == old(self).state,
            final(self).config == old(self).config,
            forall|i: int| 0 <= i < final(self).download_watchers@.len() ==> final(self).download_watchers@[i].0@ != model@,
    {
        let own = model.to_owned();
        let mut out: Vec<(String, DownloadStatus)> = Vec::new();
        let mut i: usize = 0;
        while i < self.download_watchers.len()
            invariant
                i <= self.download_watchers@.len(),
                own@ == model@,
                *self == *old(self),
                forall|j: int| 0 <= j < out@.len() ==> out@[j].0@ != model@,
            decreases self.download_watchers@.len() - i,
        {
            if !(self.download_watchers[i].0 == own) {
                let entry = (
                    self.download_watchers[i].0.clone(),
                    self.download_watchers[i].1.clone(),
                );
                proof {
                    assert(entry.0@ != model@);
                }
                out.push(entry);
            }
            i = i + 1;
        }
        self.download_watchers = out;
    }

    /// The first recorded status for a model name, if any.
    pub fn model_download_status(&self, model: &str) -> (r: Option<&DownloadStatus>)
        ensures
            r is Some ==> exists|i: int|
                0 <= i < self.download_watchers@.len() && self.download_watchers@[i].0@ == model@,
            r is None ==> forall|i: int|
                0 <= i < self.download_watchers@.len() ==> self.download_watchers@[i].0@
                    != model@,
    {
        let own = model.to_owned();
        let mut i: usize = 0;
        while i < self.download_watchers.len()
            invariant
                i <= self.download_watchers@.len(),
                own@ == model@,
                forall|j: int| 0 <= j < i ==> self.download_watchers@[j].0@ != model@,
            decreases self.download_watchers@.len() - i,
        {
            if self.download_watchers[i].0 == own {
                return Some(&self.download_watchers[i].1);
            }
            i = i + 1;
        }
        None
    }
}

/// The `model_status` method's answer: a watched download reports its
/// progress class; otherwise the on-disk check decides.
pub fn model_status_label(watched: Option<&DownloadStatus>, available: bool) -> (r: String)
    ensures
        watched matches Some(s) ==> {
            &&& (s matches DownloadStatus::InProgress(p) ==> r@ == "downloading"@)
            &&& (s is Complete ==> r@ == "available"@)
            &&& (s matches DownloadStatus::Failed(e) ==> r@ == "not_downloaded"@)
        },
        watched is None && available ==> r@ == "available"@,
        watched is None && !available ==> r@ == "not_downloaded"@,
{
    match watched {
        Some(DownloadStatus::InProgress(_)) => String::from_str("downloading"),
        Some(DownloadStatus::Complete) => String::from_str("available"),
        Some(DownloadStatus::Failed(_)) => String::from_str("not_downloaded"),
        None => if available {
            String::from_str("available")
        } else {
            String::from_str("not_downloaded")
        },
    }
}

} // verus!
