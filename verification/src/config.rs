//! The daemon's configuration: shortcut, transcriber, injection, audio and
//! persistence settings, with their defaults.
//!
//! The configuration file codec lives in `toml_doc`; this module holds the
//! records themselves.

use vstd::prelude::*;

use crate::codec::default_tc_v;
use crate::ipc::InjectionConfig;
use crate::ipc::TranscriberConfig;
use crate::ipc::DEFAULT_TYPING_DELAY_MS;

verus! {

/// The bound shortcut: its id, human description and preferred trigger.
#[derive(Clone, Debug, PartialEq)]
pub struct ShortcutConfig {
    pub id: String,
    pub description: String,
    pub trigger: String,
}

/// Mathematical value of a `ShortcutConfig`.
pub struct ShortcutConfigV {
    pub id: Seq<char>,
    pub description: Seq<char>,
    pub trigger: Seq<char>,
}

impl View for ShortcutConfig {
    type V = ShortcutConfigV;

    open spec fn view(&self) -> ShortcutConfigV {
        ShortcutConfigV {
            id: self.id@,
            description: self.description@,
            trigger: self.trigger@,
        }
    }
}

/// Default shortcut id.
pub fn default_shortcut_id() -> (r: String)
    ensures
        r@ == "dictate_hold"@,
{
    String::from_str("dictate_hold")
}

/// Default shortcut description.
pub fn default_shortcut_description() -> (r: String)
    ensures
        r@ == "Dictate"@,
{
    String::from_str("Dictate")
}

/// Default shortcut trigger.
pub fn default_shortcut_trigger() -> (r: String)
    ensures
        r@ == "<Super>space"@,
{
    String::from_str("<Super>space")
}

impl Default for ShortcutConfig {
    /// The hold-to-dictate binding on the Super key.
    fn default() -> (r: Self)
        ensures
            r@ == (ShortcutConfigV {
                id: "dictate_hold"@,
                description: "Dictate"@,
                trigger: "<Super>space"@,
            }),
    {
        ShortcutConfig {
            id: default_shortcut_id(),
            description: default_shortcut_description(),
            trigger: default_shortcut_trigger(),
        }
    }
}

/// Where the portal restore token is kept.  An empty path means the
/// default location under the user's configuration directory, resolved by
/// the process that owns the environment.
#[derive(Clone, Debug, PartialEq)]
pub struct PersistenceConfig {
    pub token_path: String,
}

/// Mathematical value of a `PersistenceConfig`.
pub struct PersistenceConfigV {
    pub token_path: Seq<char>,
}

impl View for PersistenceConfig {
    type V = PersistenceConfigV;

    open spec fn view(&self) -> PersistenceConfigV {
        PersistenceConfigV { token_path: self.token_path@ }
    }
}

impl Default for PersistenceConfig {
    /// The default location, left for the environment to resolve.
    fn default() -> (r: Self)
        ensures
            r@ == (PersistenceConfigV { token_path: Seq::empty() }),
    {
        PersistenceConfig { token_path: String::new() }
    }
}

/// Capture format of the input device.
#[derive(Clone, Copy, Debug, PartialEq, Eq, Structural)]
pub struct AudioConfig {
    pub sample_rate: u32,
    pub channels: u16,
}

/// Default capture sample rate, in hertz.
pub fn default_sample_rate() -> (r: u32)
    ensures
        r == 16000,
{
    16000
}

/// Default capture channel count.
pub fn default_channels() -> (r: u16)
    ensures
        r == 1,
{
    1
}

impl Default for AudioConfig {
    /// Mono at sixteen kilohertz, what the batch backends expect.
    fn default() -> (r: Self)
        ensures
            r.sample_rate == 16000,
            r.channels == 1,
    {
        AudioConfig { sample_rate: default_sample_rate(), channels: default_channels() }
    }
}

/// The whole configuration, one immutable snapshot per session.
#[derive(Clone, Debug, PartialEq)]
pub struct Config {
    pub shortcut: ShortcutConfig,
    pub transcriber: TranscriberConfig,
    pub injection: InjectionConfig,
    pub persistence: PersistenceConfig,
    pub audio: AudioConfig,
}

/// Mathematical value of a `Config`.
pub struct ConfigV {
    pub shortcut: ShortcutConfigV,
    pub transcriber: crate::ipc::TranscriberConfigV,
    pub injection: InjectionConfig,
    pub persistence: PersistenceConfigV,
    pub audio: AudioConfig,
}

impl View for Config {
    type V = ConfigV;

    open spec fn view(&self) -> ConfigV {
        ConfigV {
            shortcut: self.shortcut@,
            transcriber: self.transcriber@,
            injection: self.injection,
            persistence: self.persistence@,
            audio: self.audio,
        }
    }
}

/// The default shortcut section, as a spec value.
pub open spec fn default_shortcut_v() -> ShortcutConfigV {
    ShortcutConfigV { id: "dictate_hold"@, description: "Dictate"@, trigger: "<Super>space"@ }
}

/// The default configuration, as a spec value.
pub open spec fn default_config_v() -> ConfigV {
    ConfigV {
        shortcut: default_shortcut_v(),
        transcriber: default_tc_v(),
        injection: InjectionConfig { typing_delay_ms: DEFAULT_TYPING_DELAY_MS },
        persistence: PersistenceConfigV { token_path: Seq::empty() },
        audio: AudioConfig { sample_rate: 16000, channels: 1 },
    }
}

impl Default for Config {
    /// Every section filled with its defaults.
    fn default() -> (r: Self)
        ensures
            r@ == default_config_v(),
    {
        Config {
            shortcut: ShortcutConfig::default(),
            transcriber: TranscriberConfig::default(),
            injection: InjectionConfig::default(),
            persistence: PersistenceConfig::default(),
            audio: AudioConfig::default(),
        }
    }
}

/// Copy a shortcut section.
pub fn clone_shortcut(c: &ShortcutConfig) -> (r: ShortcutConfig)
    ensures
        r == *c,
{
    ShortcutConfig {
        id: c.id.clone(),
        description: c.description.clone(),
        trigger: c.trigger.clone(),
    }
}

} // verus!
