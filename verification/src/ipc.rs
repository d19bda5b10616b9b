//! Shared control-surface types: daemon state names, transcriber and
//! injection configuration records, and their defaults.
//!
//! These records are what the daemon exposes over its control interface and
//! stores in its configuration file; the text codecs live in `codec` and
//! `config`.

use vstd::prelude::*;


verus! {

/// Well-known bus name the daemon registers on the session bus.
pub const BUS_NAME: &'static str = "io.github.hy26v.Voxkey.Daemon";

/// Object path the daemon interface is served at.
pub const OBJECT_PATH: &'static str = "/io/github/hy26v/Voxkey/Daemon";

/// Daemon state as exposed over the control interface.
#[derive(Clone, Copy, Debug, PartialEq, Eq, Structural)]
pub enum DaemonState {
    Idle,
    Recording,
    Streaming,
    Transcribing,
    Injecting,
    RecoveringSession,
}

impl DaemonState {
    /// The state's name, as a spec value.
    pub open spec fn spec_label(self) -> Seq<char> {
        match self {
            DaemonState::Idle => "Idle"@,
            DaemonState::Recording => "Recording"@,
            DaemonState::Streaming => "Streaming"@,
            DaemonState::Transcribing => "Transcribing"@,
            DaemonState::Injecting => "Injecting"@,
            DaemonState::RecoveringSession => "RecoveringSession"@,
        }
    }

    /// The state's name.
    pub fn label(&self) -> (r: String)
        ensures
            r@ == self.spec_label(),
    {
        match self {
            DaemonState::Idle => String::from_str("Idle"),
            DaemonState::Recording => String::from_str("Recording"),
            DaemonState::Streaming => String::from_str("Streaming"),
            DaemonState::Transcribing => String::from_str("Transcribing"),
            DaemonState::Injecting => String::from_str("Injecting"),
            DaemonState::RecoveringSession => String::from_str("RecoveringSession"),
        }
    }

    /// Parse a state name; `Err` holds the unknown name itself.
    pub fn parse_label(s: &str) -> (r: Result<DaemonState, String>)
        ensures
            r matches Ok(d) ==> d.spec_label() == s@,
            r matches Err(e) ==> e@ == s@ && (forall|d: DaemonState| d.spec_label() != s@),
    {
        let own = s.to_owned();
        proof {
            reveal_strlit("Idle");
            reveal_strlit("Recording");
            reveal_strlit("Streaming");
            reveal_strlit("Transcribing");
            reveal_strlit("Injecting");
            reveal_strlit("RecoveringSession");
        }
        if own == String::from_str("Idle") {
            Ok(DaemonState::Idle)
        } else if own == String::from_str("Recording") {
            Ok(DaemonState::Recording)
        } else if own == String::from_str("Streaming") {
            Ok(DaemonState::Streaming)
        } else if own == String::from_str("Transcribing") {
            Ok(DaemonState::Transcribing)
        } else if own == String::from_str("Injecting") {
            Ok(DaemonState::Injecting)
        } else if own == String::from_str("RecoveringSession") {
            Ok(DaemonState::RecoveringSession)
        } else {
            Err(own)
        }
    }
}

/// Which transcription backend to use.
#[derive(Clone, Copy, Debug, PartialEq, Eq, Structural)]
pub enum TranscriberProvider {
    WhisperCpp,
    Mistral,
    MistralRealtime,
    Parakeet,
}

impl Default for TranscriberProvider {
    /// The default backend runs a local subprocess.
    fn default() -> (r: Self)
        ensures
            r == TranscriberProvider::WhisperCpp,
    {
        TranscriberProvider::WhisperCpp
    }
}

/// The provider named `s`, if any.
pub open spec fn prov_of_label(s: Seq<char>) -> Option<TranscriberProvider> {
    if s == "whisper-cpp"@ {
        Some(TranscriberProvider::WhisperCpp)
    } else if s == "mistral"@ {
        Some(TranscriberProvider::Mistral)
    } else if s == "mistral-realtime"@ {
        Some(TranscriberProvider::MistralRealtime)
    } else if s == "parakeet"@ {
        Some(TranscriberProvider::Parakeet)
    } else {
        None
    }
}

impl TranscriberProvider {
    /// The provider's wire name (kebab case), as a spec value.
    pub open spec fn spec_label(self) -> Seq<char> {
        match self {
            TranscriberProvider::WhisperCpp => "whisper-cpp"@,
            TranscriberProvider::Mistral => "mistral"@,
            TranscriberProvider::MistralRealtime => "mistral-realtime"@,
            TranscriberProvider::Parakeet => "parakeet"@,
        }
    }

    /// The provider's wire name.
    pub fn label(&self) -> (r: String)
        ensures
            r@ == self.spec_label(),
    {
        match self {
            TranscriberProvider::WhisperCpp => String::from_str("whisper-cpp"),
            TranscriberProvider::Mistral => String::from_str("mistral"),
            TranscriberProvider::MistralRealtime => String::from_str("mistral-realtime"),
            TranscriberProvider::Parakeet => String::from_str("parakeet"),
        }
    }

    /// Parse a provider wire name.
    pub fn parse_label(s: &str) -> (r: Option<TranscriberProvider>)
        ensures
            r == prov_of_label(s@),
    {
        let own = s.to_owned();
        proof {
            reveal_strlit("whisper-cpp");
            reveal_strlit("mistral");
            reveal_strlit("mistral-realtime");
            reveal_strlit("parakeet");
        }
        if own == String::from_str("whisper-cpp") {
            Some(TranscriberProvider::WhisperCpp)
        } else if own == String::from_str("mistral") {
            Some(TranscriberProvider::Mistral)
        } else if own == String::from_str("mistral-realtime") {
            Some(TranscriberProvider::MistralRealtime)
        } else if own == String::from_str("parakeet") {
            Some(TranscriberProvider::Parakeet)
        } else {
            None
        }
    }
}

/// Which execution provider local inference uses.
#[derive(Clone, Copy, Debug, PartialEq, Eq, Structural)]
pub enum ExecutionProviderChoice {
    Auto,
    Cpu,
    Cuda,
}

impl Default for ExecutionProviderChoice {
    /// By default the inference library chooses.
    fn default() -> (r: Self)
        ensures
            r == ExecutionProviderChoice::Auto,
    {
        ExecutionProviderChoice::Auto
    }
}

/// The execution provider named `s`, if any.
pub open spec fn ep_of_label(s: Seq<char>) -> Option<ExecutionProviderChoice> {
    if s == "auto"@ {
        Some(ExecutionProviderChoice::Auto)
    } else if s == "cpu"@ {
        Some(ExecutionProviderChoice::Cpu)
    } else if s == "cuda"@ {
        Some(ExecutionProviderChoice::Cuda)
    } else {
        None
    }
}

impl ExecutionProviderChoice {
    /// The choice's wire name (kebab case), as a spec value.
    pub open spec fn spec_label(self) -> Seq<char> {
        match self {
            ExecutionProviderChoice::Auto => "auto"@,
            ExecutionProviderChoice::Cpu => "cpu"@,
            ExecutionProviderChoice::Cuda => "cuda"@,
        }
    }

    /// The choice's wire name.
    pub fn label(&self) -> (r: String)
        ensures
            r@ == self.spec_label(),
    {
        match self {
            ExecutionProviderChoice::Auto => String::from_str("auto"),
            ExecutionProviderChoice::Cpu => String::from_str("cpu"),
            ExecutionProviderChoice::Cuda => String::from_str("cuda"),
        }
    }

    /// Parse a choice wire name.
    pub fn parse_label(s: &str) -> (r: Option<ExecutionProviderChoice>)
        ensures
            r == ep_of_label(s@),
    {
        let own = s.to_owned();
        proof {
            reveal_strlit("auto");
            reveal_strlit("cpu");
            reveal_strlit("cuda");
        }
        if own == String::from_str("auto") {
            Some(ExecutionProviderChoice::Auto)
        } else if own == String::from_str("cpu") {
            Some(ExecutionProviderChoice::Cpu)
        } else if own == String::from_str("cuda") {
            Some(ExecutionProviderChoice::Cuda)
        } else {
            None
        }
    }
}

/// Settings for the subprocess backend.
#[derive(Clone, Debug, PartialEq)]
pub struct WhisperCppConfig {
    pub command: String,
    pub args: Vec<String>,
}

/// Mathematical value of a `WhisperCppConfig`.
pub struct WhisperCppConfigV {
    pub command: Seq<char>,
    pub args: Seq<Seq<char>>,
}

impl View for WhisperCppConfig {
    type V = WhisperCppConfigV;

    open spec fn view(&self) -> WhisperCppConfigV {
        WhisperCppConfigV {
            command: self.command@,
            args: Seq::new(self.args@.len(), |i: int| self.args@[i]@),
        }
    }
}

impl Default for WhisperCppConfig {
    /// `whisper-cpp` from the search path, with no arguments.
    fn default() -> (r: Self)
        ensures
            r@ == (WhisperCppConfigV { command: "whisper-cpp"@, args: Seq::empty() }),
    {
        let r = WhisperCppConfig { command: String::from_str("whisper-cpp"), args: Vec::new() };
        proof {
            assert(r@.args =~= Seq::<Seq<char>>::empty());
        }
        r
    }
}

/// Settings for the batch HTTP backend.
#[derive(Clone, Debug, PartialEq)]
pub struct MistralConfig {
    pub api_key: String,
    pub model: String,
    pub endpoint: String,
}

/// Mathematical value of a `MistralConfig`.
pub struct MistralConfigV {
    pub api_key: Seq<char>,
    pub model: Seq<char>,
    pub endpoint: Seq<char>,
}

impl View for MistralConfig {
    type V = MistralConfigV;

    open spec fn view(&self) -> MistralConfigV {
        MistralConfigV { api_key: self.api_key@, model: self.model@, endpoint: self.endpoint@ }
    }
}

/// Default model for the batch HTTP backend.
pub const MISTRAL_DEFAULT_MODEL: &'static str = "voxtral-mini-2602";

/// Default endpoint for the batch HTTP backend.
pub const MISTRAL_DEFAULT_ENDPOINT: &'static str =
    "https://api.mistral.ai/v1/audio/transcriptions";

impl Default for MistralConfig {
    /// No key, the default model, and the endpoint left to be filled in at
    /// call time.
    fn default() -> (r: Self)
        ensures
            r@ == (MistralConfigV {
                api_key: Seq::empty(),
                model: MISTRAL_DEFAULT_MODEL@,
                endpoint: Seq::empty(),
            }),
    {
        MistralConfig {
            api_key: String::new(),
            model: String::from_str(MISTRAL_DEFAULT_MODEL),
            endpoint: String::new(),
        }
    }
}

/// Settings for the streaming backend.
#[derive(Clone, Debug, PartialEq)]
pub struct MistralRealtimeConfig {
    pub api_key: String,
    pub model: String,
    pub endpoint: String,
}

/// Mathematical value of a `MistralRealtimeConfig`.
pub struct MistralRealtimeConfigV {
    pub api_key: Seq<char>,
    pub model: Seq<char>,
    pub endpoint: Seq<char>,
}

impl View for MistralRealtimeConfig {
    type V = MistralRealtimeConfigV;

    open spec fn view(&self) -> MistralRealtimeConfigV {
        MistralRealtimeConfigV {
            api_key: self.api_key@,
            model: self.model@,
            endpoint: self.endpoint@,
        }
    }
}

/// Default model for the streaming backend.
pub const MISTRAL_REALTIME_DEFAULT_MODEL: &'static str = "voxtral-mini-transcribe-realtime-2602";

/// Default endpoint for the streaming backend.
pub const MISTRAL_REALTIME_DEFAULT_ENDPOINT: &'static str =
    "wss://api.mistral.ai/v1/audio/transcriptions/realtime";

impl Default for MistralRealtimeConfig {
    /// No key, the default realtime model, and the endpoint left to be
    /// filled in at call time.
    fn default() -> (r: Self)
        ensures
            r@ == (MistralRealtimeConfigV {
                api_key: Seq::empty(),
                model: MISTRAL_REALTIME_DEFAULT_MODEL@,
                endpoint: Seq::empty(),
            }),
    {
        MistralRealtimeConfig {
            api_key: String::new(),
            model: String::from_str(MISTRAL_REALTIME_DEFAULT_MODEL),
            endpoint: String::new(),
        }
    }
}

/// Settings for the local inference backend.
#[derive(Clone, Debug, PartialEq)]
pub struct ParakeetConfig {
    pub model: String,
    pub execution_provider: ExecutionProviderChoice,
}

/// Mathematical value of a `ParakeetConfig`.
pub struct ParakeetConfigV {
    pub model: Seq<char>,
    pub execution_provider: ExecutionProviderChoice,
}

impl View for ParakeetConfig {
    type V = ParakeetConfigV;

    open spec fn view(&self) -> ParakeetConfigV {
        ParakeetConfigV { model: self.model@, execution_provider: self.execution_provider }
    }
}

/// Default model name for local inference.
pub const PARAKEET_DEFAULT_MODEL: &'static str = "parakeet-tdt-0.6b-v3";

impl Default for ParakeetConfig {
    /// The current quantized model, provider chosen by the library.
    fn default() -> (r: Self)
        ensures
            r@ == (ParakeetConfigV {
                model: PARAKEET_DEFAULT_MODEL@,
                execution_provider: ExecutionProviderChoice::Auto,
            }),
    {
        ParakeetConfig {
            model: String::from_str(PARAKEET_DEFAULT_MODEL),
            execution_provider: ExecutionProviderChoice::Auto,
        }
    }
}

/// Provider-based transcription configuration.  Holds settings for all
/// providers; `provider` selects which one is active.
#[derive(Clone, Debug, PartialEq)]
pub struct TranscriberConfig {
    pub provider: TranscriberProvider,
    pub whisper_cpp: WhisperCppConfig,
    pub mistral: MistralConfig,
    pub mistral_realtime: MistralRealtimeConfig,
    pub parakeet: ParakeetConfig,
}

/// Mathematical value of a `TranscriberConfig`.
pub struct TranscriberConfigV {
    pub provider: TranscriberProvider,
    pub whisper_cpp: WhisperCppConfigV,
    pub mistral: MistralConfigV,
    pub mistral_realtime: MistralRealtimeConfigV,
    pub parakeet: ParakeetConfigV,
}

impl View for TranscriberConfig {
    type V = TranscriberConfigV;

    open spec fn view(&self) -> TranscriberConfigV {
        TranscriberConfigV {
            provider: self.provider,
            whisper_cpp: self.whisper_cpp@,
            mistral: self.mistral@,
            mistral_realtime: self.mistral_realtime@,
            parakeet: self.parakeet@,
        }
    }
}

impl Default for TranscriberConfig {
    /// Every provider sub-record filled with its defaults, subprocess
    /// backend selected.
    fn default() -> (r: Self)
        ensures
            r.provider == TranscriberProvider::WhisperCpp,
            r@.whisper_cpp == (WhisperCppConfigV { command: "whisper-cpp"@, args: Seq::empty() }),
            r@.mistral == (MistralConfigV {
                api_key: Seq::empty(),
                model: MISTRAL_DEFAULT_MODEL@,
                endpoint: Seq::empty(),
            }),
            r@.mistral_realtime == (MistralRealtimeConfigV {
                api_key: Seq::empty(),
                model: MISTRAL_REALTIME_DEFAULT_MODEL@,
                endpoint: Seq::empty(),
            }),
            r@.parakeet == (ParakeetConfigV {
                model: PARAKEET_DEFAULT_MODEL@,
                execution_provider: ExecutionProviderChoice::Auto,
            }),
    {
        TranscriberConfig {
            provider: TranscriberProvider::WhisperCpp,
            whisper_cpp: WhisperCppConfig::default(),
            mistral: MistralConfig::default(),
            mistral_realtime: MistralRealtimeConfig::default(),
            parakeet: ParakeetConfig::default(),
        }
    }
}

/// Configuration for text injection behavior.
#[derive(Clone, Debug, PartialEq)]
pub struct InjectionConfig {
    pub typing_delay_ms: u32,
}

/// Default delay between injected keystrokes.
pub const DEFAULT_TYPING_DELAY_MS: u32 = 5;

/// Default delay between injected keystrokes, under the original's name.
pub fn default_typing_delay_ms() -> (r: u32)
    ensures
        r == DEFAULT_TYPING_DELAY_MS,
{
    DEFAULT_TYPING_DELAY_MS
}

impl Default for InjectionConfig {
    /// A small delay so the compositor does not drop events.
    fn default() -> (r: Self)
        ensures
            r.typing_delay_ms == DEFAULT_TYPING_DELAY_MS,
    {
        InjectionConfig { typing_delay_ms: DEFAULT_TYPING_DELAY_MS }
    }
}

impl core::str::FromStr for DaemonState {
    type Err = String;

    fn from_str(s: &str) -> Result<Self, String> {
        Self::parse_label(s)
    }
}

} // verus!
