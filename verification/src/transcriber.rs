//! Transcription backend dispatch: selecting a backend from configuration
//! and computing each backend's invocation and result handling.
//!
//! The surrounding task runs the subprocess, the HTTP request or the
//! inference; this module decides what to run and what each outcome means.

use vstd::prelude::*;

use crate::codec::obj_get;
use crate::ipc::ExecutionProviderChoice;
use crate::ipc::TranscriberConfig;
use crate::ipc::TranscriberProvider;
use crate::ipc::MISTRAL_DEFAULT_ENDPOINT;
use crate::json::parse_json;
use crate::json::parse_json_spec;
use crate::json::Json;
use crate::json::JsonV;
use crate::text::string_to_chars;
use crate::text::chars_to_string;
use crate::text::trim_spec;
use crate::text::trim;

verus! {

/// Transcription backend selected by provider configuration.
#[derive(Debug)]
pub enum Transcriber {
    WhisperCpp { command: String, args: Vec<String> },
    Mistral { api_key: String, model: String, endpoint: String },
    MistralRealtime { api_key: String, model: String },
    Parakeet { model_name: String, execution_provider: ExecutionProviderChoice },
}

impl Transcriber {
    /// Whether this transcriber uses the streaming (real-time) flow rather
    /// than batch.
    pub fn is_streaming(&self) -> (r: bool)
        ensures
            r == (self matches Transcriber::MistralRealtime { .. }),
    {
        match self {
            Transcriber::MistralRealtime { .. } => true,
            _ => false,
        }
    }

    /// Select the backend the configuration names, copying its settings.
    pub fn from_config(config: &TranscriberConfig) -> (r: Self)
        ensures
            config.provider == TranscriberProvider::WhisperCpp ==> (r matches
                Transcriber::WhisperCpp { command, args } ==> command == config.whisper_cpp.command
                && args@ == config.whisper_cpp.args@) && (r matches Transcriber::WhisperCpp {
                ..
            }),
            config.provider == TranscriberProvider::Mistral ==> r == (Transcriber::Mistral {
                api_key: config.mistral.api_key,
                model: config.mistral.model,
                endpoint: config.mistral.endpoint,
            }),
            config.provider == TranscriberProvider::MistralRealtime ==> r == (
            Transcriber::MistralRealtime {
                api_key: config.mistral_realtime.api_key,
                model: config.mistral_realtime.model,
            }),
            config.provider == TranscriberProvider::Parakeet ==> r == (Transcriber::Parakeet {
                model_name: config.parakeet.model,
                execution_provider: config.parakeet.execution_provider,
            }),
    {
        match config.provider {
            TranscriberProvider::WhisperCpp => Transcriber::WhisperCpp {
                command: config.whisper_cpp.command.clone(),
                args: copy_strings(&config.whisper_cpp.args),
            },
            TranscriberProvider::Mistral => Transcriber::Mistral {
                api_key: config.mistral.api_key.clone(),
                model: config.mistral.model.clone(),
                endpoint: config.mistral.endpoint.clone(),
            },
            TranscriberProvider::MistralRealtime => Transcriber::MistralRealtime {
                api_key: config.mistral_realtime.api_key.clone(),
                model: config.mistral_realtime.model.clone(),
            },
            TranscriberProvider::Parakeet => Transcriber::Parakeet {
                model_name: config.parakeet.model.clone(),
                execution_provider: config.parakeet.execution_provider,
            },
        }
    }
}

/// Copy a vector of strings.
pub fn copy_strings(v: &Vec<String>) -> (r: Vec<String>)
    ensures
        r@ == v@,
{
    let mut out: Vec<String> = Vec::new();
    let mut i: usize = 0;
    while i < v.len()
        invariant
            i <= v@.len(),
            out@ == v@.take(i as int),
        decreases v@.len() - i,
    {
        out.push(v[i].clone());
        proof {
            assert(v@.take(i + 1 as int) =~= v@.take(i as int).push(v@[i as int]));
        }
        i = i + 1;
    }
    proof {
        assert(v@.take(v@.len() as int) =~= v@);
    }
    out
}

/// The placeholder that subprocess arguments may carry for the audio file.
pub open spec fn audio_placeholder() -> Seq<char> {
    "{audio_file}"@
}

/// `s` with every occurrence of the placeholder replaced by `path`,
/// scanning left to right without overlap.
pub open spec fn subst_audio(s: Seq<char>, path: Seq<char>) -> Seq<char>
    decreases s.len(),
{
    if s.len() >= audio_placeholder().len() && s.take(audio_placeholder().len() as int)
        == audio_placeholder() {
        proof {
            reveal_strlit("{audio_file}");
            assert(audio_placeholder().len() == 12);
        }
        path + subst_audio(s.skip(audio_placeholder().len() as int), path)
    } else if s.len() == 0 {
        Seq::empty()
    } else {
        seq![s[0]] + subst_audio(s.drop_first(), path)
    }
}

/// Whether the placeholder stands at position `i`.
fn placeholder_at(s: &Vec<char>, pat: &Vec<char>, i: usize) -> (r: bool)
    requires
        i <= s@.len(),
        pat@ == audio_placeholder(),
    ensures
        r == (s@.skip(i as int).len() >= audio_placeholder().len() && s@.skip(i as int).take(
            audio_placeholder().len() as int,
        ) == audio_placeholder()),
{
    if s.len() - i < pat.len() {
        return false;
    }
    let n = s.len();
    let mut j: usize = 0;
    while j < pat.len()
        invariant
            j <= pat@.len(),
            n == s@.len(),
            i + pat@.len() <= s@.len(),
            pat@ == audio_placeholder(),
            forall|k: int| 0 <= k < j ==> s@[i + k] == pat@[k],
        decreases pat@.len() - j,
    {
        proof {
            assert(i + j < s@.len());
        }
        if s[i + j] != pat[j] {
            proof {
                assert(s@.skip(i as int).take(audio_placeholder().len() as int)[j as int] == s@[i
                    + j]);
            }
            return false;
        }
        j = j + 1;
    }
    proof {
        assert(s@.skip(i as int).take(audio_placeholder().len() as int) =~= audio_placeholder());
    }
    true
}

/// Replace every placeholder occurrence in one argument.
pub fn substitute_audio_path(arg: &str, path: &str) -> (r: String)
    ensures
        r@ == subst_audio(arg@, path@),
{
    let s = string_to_chars(arg);
    let p = string_to_chars(path);
    let pat = string_to_chars("{audio_file}");
    proof {
        reveal_strlit("{audio_file}");
        assert(audio_placeholder().len() == 12);
    }
    let mut out: Vec<char> = Vec::new();
    let mut i: usize = 0;
    proof {
        assert(s@.skip(0) =~= s@);
        assert(out@ + subst_audio(s@.skip(0), path@) =~= subst_audio(arg@, path@));
    }
    while i < s.len()
        invariant
            i <= s@.len(),
            s@ == arg@,
            p@ == path@,
            pat@ == audio_placeholder(),
            audio_placeholder().len() == 12,
            subst_audio(arg@, path@) == out@ + subst_audio(s@.skip(i as int), path@),
        decreases s@.len() - i,
    {
        if placeholder_at(&s, &pat, i) {
            let ghost pre_out = out@;
            let mut k: usize = 0;
            while k < p.len()
                invariant
                    k <= p@.len(),
                    out@ == pre_out + p@.take(k as int),
                decreases p@.len() - k,
            {
                out.push(p[k]);
                proof {
                    assert(p@.take(k + 1 as int) =~= p@.take(k as int).push(p@[k as int]));
                    assert(out@ =~= pre_out + p@.take(k + 1 as int));
                }
                k = k + 1;
            }
            proof {
                assert(p@.take(p@.len() as int) =~= p@);
                assert(out@ == pre_out + path@);
                assert(subst_audio(s@.skip(i as int), path@) == path@ + subst_audio(
                    s@.skip(i as int).skip(12),
                    path@,
                ));
                assert(s@.skip(i as int).skip(12) =~= s@.skip(i + 12 as int));
                assert((pre_out + path@) + subst_audio(s@.skip(i + 12 as int), path@)
                    =~= pre_out + (path@ + subst_audio(s@.skip(i + 12 as int), path@)));
            }
            i = i + 12;
        } else {
            proof {
                assert(s@.skip(i as int)[0] == s@[i as int]);
                assert(s@.skip(i as int).drop_first() =~= s@.skip(i + 1 as int));
                assert(subst_audio(s@.skip(i as int), path@) == seq![s@[i as int]] + subst_audio(
                    s@.skip(i + 1 as int),
                    path@,
                ));
            }
            let ghost pre_out = out@;
            out.push(s[i]);
            proof {
                assert((pre_out + seq![s@[i as int]]) + subst_audio(s@.skip(i + 1 as int), path@)
                    =~= pre_out + (seq![s@[i as int]] + subst_audio(s@.skip(i + 1 as int), path@)));
            }
            i = i + 1;
        }
    }
    proof {
        assert(s@.skip(s@.len() as int) =~= Seq::<char>::empty());
        assert(out@ + Seq::<char>::empty() =~= out@);
    }
    chars_to_string(&out)
}

/// All subprocess arguments with the audio path substituted, in order.
pub fn resolve_whisper_args(args: &Vec<String>, audio_path: &str) -> (r: Vec<String>)
    ensures
        r@.len() == args@.len(),
        forall|i: int| 0 <= i < args@.len() ==> r@[i]@ == subst_audio(args@[i]@, audio_path@),
{
    let mut out: Vec<String> = Vec::new();
    let mut i: usize = 0;
    while i < args.len()
        invariant
            i <= args@.len(),
            out@.len() == i,
            forall|j: int| 0 <= j < i ==> out@[j]@ == subst_audio(args@[j]@, audio_path@),
        decreases args@.len() - i,
    {
        out.push(substitute_audio_path(args[i].as_str(), audio_path));
        i = i + 1;
    }
    out
}

/// What the subprocess run means.  A zero exit gives the trimmed standard
/// output as the transcript; anything else is an error naming the exit
/// status and the standard error text.
pub fn whisper_outcome(success: bool, stdout: &str, status_label: &str, stderr: &str) -> (r:
    Result<String, String>)
    ensures
        success ==> (r matches Ok(t) ==> t@ == trim_spec(stdout@)) && r is Ok,
        !success ==> (r matches Err(e) ==> e@ == "Transcription command failed (exit "@
            + status_label@ + "): "@ + stderr@) && r is Err,
{
    if success {
        Ok(trim(stdout))
    } else {
        let mut e = String::from_str("Transcription command failed (exit ");
        e.append(status_label);
        e.append("): ");
        e.append(stderr);
        Err(e)
    }
}

/// The URL a batch HTTP transcription posts to: the configured endpoint,
/// or the provider's default when none is set.
pub fn mistral_url(endpoint: &str) -> (r: String)
    ensures
        endpoint@.len() == 0 ==> r@ == MISTRAL_DEFAULT_ENDPOINT@,
        endpoint@.len() > 0 ==> r@ == endpoint@,
{
    if endpoint.unicode_len() == 0 {
        String::from_str(MISTRAL_DEFAULT_ENDPOINT)
    } else {
        endpoint.to_owned()
    }
}

/// The `text` field of a transcription response document, if the document
/// is an object that carries one as a string.
pub open spec fn response_text(v: JsonV) -> Option<Seq<char>> {
    match v {
        JsonV::Obj(fields) => match obj_get(fields, "text"@) {
            Some(JsonV::Str(t)) => Some(t),
            _ => None,
        },
        _ => None,
    }
}

/// Extract the transcript from a batch HTTP response body.
pub fn parse_mistral_response(body: &str) -> (r: Result<String, String>)
    ensures
        r matches Ok(t) ==> (parse_json_spec(body@) matches Some(j) && response_text(j) == Some(
            t@,
        )),
        r is Err ==> match parse_json_spec(body@) {
            Some(j) => response_text(j) is None,
            None => true,
        },
{
    match parse_json(body) {
        Some(Json::Obj(fields)) => match crate::codec::obj_field(&fields, "text") {
            Some(Json::Str(t)) => Ok(t.clone()),
            _ => Err(String::from_str("Transcription response carries no text field")),
        },
        Some(_) => Err(String::from_str("Transcription response is not an object")),
        None => Err(String::from_str("Transcription response is not valid JSON")),
    }
}

/// What a batch HTTP reply means: a success status gives the response
/// text, trimmed; anything else is an error naming the status and body.
pub fn mistral_outcome(status_2xx: bool, status_label: &str, body: &str) -> (r: Result<
    String,
    String,
>)
    ensures
        status_2xx ==> (r matches Ok(t) ==> (parse_json_spec(body@) matches Some(j)
            && response_text(j) matches Some(raw) && t@ == trim_spec(raw))),
        status_2xx ==> (r matches Err(e) ==> match parse_json_spec(body@) {
            Some(j) => response_text(j) is None,
            None => true,
        }),
        !status_2xx ==> (r matches Err(e) ==> e@ == "Mistral API error ("@ + status_label@ + "): "@
            + body@) && r is Err,
{
    if !status_2xx {
        let mut e = String::from_str("Mistral API error (");
        e.append(status_label);
        e.append("): ");
        e.append(body);
        return Err(e);
    }
    match parse_mistral_response(body) {
        Ok(t) => Ok(trim(t.as_str())),
        Err(e) => Err(e),
    }
}

/// Fixed settings for one local inference run: the four model files, the
/// recognizer kind and its tuning.
#[derive(Debug)]
pub struct ParakeetPlan {
    pub encoder: String,
    pub decoder: String,
    pub joiner: String,
    pub tokens: String,
    pub model_type: String,
    pub num_threads: u32,
    pub feature_dim: u32,
    pub provider: Option<String>,
}

/// Build the inference plan for a model directory: the three quantized
/// networks and the token table inside it, the transducer recognizer, four
/// threads, an eighty-dimensional feature space, and the execution
/// provider the configuration names.
pub fn parakeet_plan(model_dir: &str, execution_provider: &ExecutionProviderChoice) -> (r:
    ParakeetPlan)
    ensures
        r.encoder@ == model_dir@ + "/encoder.int8.onnx"@,
        r.decoder@ == model_dir@ + "/decoder.int8.onnx"@,
        r.joiner@ == model_dir@ + "/joiner.int8.onnx"@,
        r.tokens@ == model_dir@ + "/tokens.txt"@,
        r.model_type@ == "nemo_transducer"@,
        r.num_threads == 4,
        r.feature_dim == 80,
        execution_provider == ExecutionProviderChoice::Cuda ==> (r.provider matches Some(p) ==> p@
            == "cuda"@) && r.provider is Some,
        execution_provider == ExecutionProviderChoice::Cpu ==> (r.provider matches Some(p) ==> p@
            == "cpu"@) && r.provider is Some,
        execution_provider == ExecutionProviderChoice::Auto ==> r.provider is None,
{
    let mut encoder = model_dir.to_owned();
    encoder.append("/encoder.int8.onnx");
    let mut decoder = model_dir.to_owned();
    decoder.append("/decoder.int8.onnx");
    let mut joiner = model_dir.to_owned();
    joiner.append("/joiner.int8.onnx");
    let mut tokens = model_dir.to_owned();
    tokens.append("/tokens.txt");
    let provider = match execution_provider {
        ExecutionProviderChoice::Cuda => Some(String::from_str("cuda")),
        ExecutionProviderChoice::Cpu => Some(String::from_str("cpu")),
        ExecutionProviderChoice::Auto => None,
    };
    ParakeetPlan {
        encoder,
        decoder,
        joiner,
        tokens,
        model_type: String::from_str("nemo_transducer"),
        num_threads: 4,
        feature_dim: 80,
        provider,
    }
}

/// The message shown when the named model is not on disk.
pub fn parakeet_missing_message(model_name: &str, model_dir: &str) -> (r: String)
    ensures
        r@ == "Parakeet model '"@ + model_name@ + "' not found at "@ + model_dir@
            + ". Download it from the Settings app."@,
{
    let mut e = String::from_str("Parakeet model '");
    e.append(model_name);
    e.append("' not found at ");
    e.append(model_dir);
    e.append(". Download it from the Settings app.");
    e
}

} // verus!
