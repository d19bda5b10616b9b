//! Reading and writing the configuration file.
//!
//! Decoding follows the file's conventions: a missing section or key falls
//! back to its default, unknown keys are ignored, and a value of the wrong
//! shape is an error.  A legacy file that placed `command` and `args`
//! directly under `[transcriber]` is migrated: those values move into the
//! `whisper_cpp` sub-record.  Encoding writes every section and key
//! explicitly.

use vstd::prelude::*;

use crate::codec::default_mistral_v;
use crate::codec::default_parakeet_v;
use crate::codec::default_rt_v;
use crate::codec::default_wc_v;
use crate::config::Config;
use crate::config::ConfigV;
use crate::config::AudioConfig;
use crate::config::PersistenceConfig;
use crate::config::PersistenceConfigV;
use crate::config::ShortcutConfig;
use crate::config::ShortcutConfigV;
use crate::ipc::ep_of_label;
use crate::ipc::prov_of_label;
use crate::ipc::ExecutionProviderChoice;
use crate::ipc::InjectionConfig;
use crate::ipc::MistralConfig;
use crate::ipc::MistralConfigV;
use crate::ipc::MistralRealtimeConfig;
use crate::ipc::MistralRealtimeConfigV;
use crate::ipc::ParakeetConfig;
use crate::ipc::ParakeetConfigV;
use crate::ipc::TranscriberConfig;
use crate::ipc::TranscriberConfigV;
use crate::ipc::TranscriberProvider;
use crate::ipc::WhisperCppConfig;
use crate::ipc::WhisperCppConfigV;
use crate::ipc::DEFAULT_TYPING_DELAY_MS;
use crate::ipc::MISTRAL_DEFAULT_MODEL;
use crate::ipc::MISTRAL_REALTIME_DEFAULT_MODEL;
use crate::json::dec_digits;
use crate::json::json_to_string;
use crate::json::ser_val;
use crate::json::Json;
use crate::json::JsonV;
use crate::toml_doc::deep_items;
use crate::toml_doc::doc_get;
use crate::toml_doc::doc_lookup;
use crate::toml_doc::has_section;
use crate::toml_doc::parse_toml;
use crate::toml_doc::parse_toml_spec;
use crate::toml_doc::section_present;
use crate::toml_doc::ItemV;
use crate::toml_doc::ScalarV;
use crate::toml_doc::TomlItem;
use crate::toml_doc::TomlScalar;

verus! {

/// A string read at `path`/`key`, with a fallback for a missing key; a
/// value of another shape is an error.
pub open spec fn str_or(
    items: Seq<ItemV>,
    path: Seq<Seq<char>>,
    key: Seq<char>,
    dflt: Seq<char>,
) -> Option<Seq<char>> {
    match doc_get(items, path, key) {
        Some(ScalarV::Str(s)) => Some(s),
        Some(_) => None,
        None => Some(dflt),
    }
}

/// An integer read at `path`/`key` that must fit below `bound`, with a
/// fallback for a missing key.
pub open spec fn int_or(
    items: Seq<ItemV>,
    path: Seq<Seq<char>>,
    key: Seq<char>,
    bound: u64,
    dflt: u64,
) -> Option<u64> {
    match doc_get(items, path, key) {
        Some(ScalarV::Int(n)) => if n <= bound {
            Some(n)
        } else {
            None
        },
        Some(_) => None,
        None => Some(dflt),
    }
}

/// The `[shortcut]` section, every key with its default.
pub open spec fn dec_shortcut_toml(items: Seq<ItemV>) -> Option<ShortcutConfigV> {
    let p = seq!["shortcut"@];
    match (
        str_or(items, p, "id"@, "dictate_hold"@),
        str_or(items, p, "description"@, "Dictate"@),
        str_or(items, p, "trigger"@, "<Super>space"@),
    ) {
        (Some(id), Some(description), Some(trigger)) => Some(
            ShortcutConfigV { id, description, trigger },
        ),
        _ => None,
    }
}

/// The `[persistence]` section.
pub open spec fn dec_persistence_toml(items: Seq<ItemV>) -> Option<PersistenceConfigV> {
    match str_or(items, seq!["persistence"@], "token_path"@, Seq::empty()) {
        Some(token_path) => Some(PersistenceConfigV { token_path }),
        None => None,
    }
}

/// The `[audio]` section.
pub open spec fn dec_audio_toml(items: Seq<ItemV>) -> Option<AudioConfig> {
    match (
        int_or(items, seq!["audio"@], "sample_rate"@, u32::MAX as u64, 16000),
        int_or(items, seq!["audio"@], "channels"@, u16::MAX as u64, 1),
    ) {
        (Some(sr), Some(ch)) => Some(AudioConfig { sample_rate: sr as u32, channels: ch as u16 }),
        _ => None,
    }
}

/// The `[injection]` section.
pub open spec fn dec_injection_toml(items: Seq<ItemV>) -> Option<InjectionConfig> {
    match int_or(
        items,
        seq!["injection"@],
        "typing_delay_ms"@,
        u32::MAX as u64,
        DEFAULT_TYPING_DELAY_MS as u64,
    ) {
        Some(d) => Some(InjectionConfig { typing_delay_ms: d as u32 }),
        None => None,
    }
}

/// A subprocess section at `path`: absent means the defaults; present
/// means both keys are required.
pub open spec fn dec_wc_toml(items: Seq<ItemV>, path: Seq<Seq<char>>) -> Option<
    WhisperCppConfigV,
> {
    if !section_present(items, path) {
        Some(default_wc_v())
    } else {
        match (doc_get(items, path, "command"@), doc_get(items, path, "args"@)) {
            (Some(ScalarV::Str(command)), Some(ScalarV::Arr(args))) => Some(
                WhisperCppConfigV { command, args },
            ),
            _ => None,
        }
    }
}

/// An HTTP backend section at `path`: absent means the defaults (with the
/// given default model); present requires key and model, the endpoint
/// falling back to empty.
pub open spec fn dec_mistral_toml(
    items: Seq<ItemV>,
    path: Seq<Seq<char>>,
    default_model: Seq<char>,
) -> Option<MistralConfigV> {
    if !section_present(items, path) {
        Some(MistralConfigV { api_key: Seq::empty(), model: default_model, endpoint: Seq::empty() })
    } else {
        match (doc_get(items, path, "api_key"@), doc_get(items, path, "model"@)) {
            (Some(ScalarV::Str(api_key)), Some(ScalarV::Str(model))) => match str_or(
                items,
                path,
                "endpoint"@,
                Seq::empty(),
            ) {
                Some(endpoint) => Some(MistralConfigV { api_key, model, endpoint }),
                None => None,
            },
            _ => None,
        }
    }
}

/// A local-inference section at `path`: absent means the defaults;
/// present requires the model, the execution provider falling back to
/// automatic.
pub open spec fn dec_parakeet_toml(items: Seq<ItemV>, path: Seq<Seq<char>>) -> Option<
    ParakeetConfigV,
> {
    if !section_present(items, path) {
        Some(default_parakeet_v())
    } else {
        match doc_get(items, path, "model"@) {
            Some(ScalarV::Str(model)) => match doc_get(items, path, "execution_provider"@) {
                Some(ScalarV::Str(s)) => match ep_of_label(s) {
                    Some(ep) => Some(ParakeetConfigV { model, execution_provider: ep }),
                    None => None,
                },
                Some(_) => None,
                None => Some(
                    ParakeetConfigV { model, execution_provider: ExecutionProviderChoice::Auto },
                ),
            },
            _ => None,
        }
    }
}

/// The provider name under `base`, defaulting to the subprocess backend.
pub open spec fn dec_provider_toml(items: Seq<ItemV>, base: Seq<Seq<char>>) -> Option<
    TranscriberProvider,
> {
    match doc_get(items, base, "provider"@) {
        Some(ScalarV::Str(s)) => prov_of_label(s),
        Some(_) => None,
        None => Some(TranscriberProvider::WhisperCpp),
    }
}

/// The whole transcriber configuration with its sub-sections under `base`
/// (`base` itself holds the provider key).
pub open spec fn dec_tc_toml(items: Seq<ItemV>, base: Seq<Seq<char>>) -> Option<
    TranscriberConfigV,
> {
    match (
        dec_provider_toml(items, base),
        dec_wc_toml(items, base + seq!["whisper_cpp"@]),
        dec_mistral_toml(items, base + seq!["mistral"@], default_mistral_v().model),
        dec_mistral_toml(items, base + seq!["mistral_realtime"@], default_rt_v().model),
        dec_parakeet_toml(items, base + seq!["parakeet"@]),
    ) {
        (Some(p), Some(w), Some(m), Some(r), Some(k)) => Some(
            TranscriberConfigV {
                provider: p,
                whisper_cpp: w,
                mistral: m,
                mistral_realtime: MistralRealtimeConfigV {
                    api_key: r.api_key,
                    model: r.model,
                    endpoint: r.endpoint,
                },
                parakeet: k,
            },
        ),
        _ => None,
    }
}

/// The legacy migration: old files placed `command` and `args` directly
/// under `[transcriber]`.  When those keys are present with their old
/// shapes, their values replace the matching `whisper_cpp` fields; a
/// legacy key of the wrong shape disables the migration.
pub open spec fn migrate_legacy_wc(items: Seq<ItemV>, wc: WhisperCppConfigV) -> WhisperCppConfigV {
    let cmd = doc_get(items, seq!["transcriber"@], "command"@);
    let args = doc_get(items, seq!["transcriber"@], "args"@);
    let cmd_ok = cmd is None || cmd matches Some(ScalarV::Str(_));
    let args_ok = args is None || args matches Some(ScalarV::Arr(_));
    if cmd_ok && args_ok {
        let command = match cmd {
            Some(ScalarV::Str(c)) => c,
            _ => wc.command,
        };
        let new_args = match args {
            Some(ScalarV::Arr(a)) => a,
            _ => wc.args,
        };
        WhisperCppConfigV { command, args: new_args }
    } else {
        wc
    }
}

/// A whole configuration file.
pub open spec fn dec_config_toml(items: Seq<ItemV>) -> Option<ConfigV> {
    match (
        dec_shortcut_toml(items),
        dec_tc_toml(items, seq!["transcriber"@]),
        dec_injection_toml(items),
        dec_persistence_toml(items),
        dec_audio_toml(items),
    ) {
        (Some(shortcut), Some(tc), Some(injection), Some(persistence), Some(audio)) => Some(
            ConfigV {
                shortcut,
                transcriber: TranscriberConfigV {
                    whisper_cpp: migrate_legacy_wc(items, tc.whisper_cpp),
                    ..tc
                },
                injection,
                persistence,
                audio,
            },
        ),
        _ => None,
    }
}

/// After migration, a well-shaped legacy `command` is the subprocess
/// command of the decoded configuration, and a well-shaped legacy `args`
/// list is its argument list.
pub proof fn lemma_legacy_migration(items: Seq<ItemV>, c: ConfigV)
    requires
        dec_config_toml(items) == Some(c),
    ensures
        (doc_get(items, seq!["transcriber"@], "command"@) matches Some(ScalarV::Str(cmd)) && (
        doc_get(items, seq!["transcriber"@], "args"@) is None || doc_get(
            items,
            seq!["transcriber"@],
            "args"@,
        ) matches Some(ScalarV::Arr(_)))) ==> c.transcriber.whisper_cpp.command == (match doc_get(
            items,
            seq!["transcriber"@],
            "command"@,
        ) {
            Some(ScalarV::Str(cmd)) => cmd,
            _ => Seq::<char>::empty(),
        }),
        (doc_get(items, seq!["transcriber"@], "args"@) matches Some(ScalarV::Arr(args)) && (
        doc_get(items, seq!["transcriber"@], "command"@) is None || doc_get(
            items,
            seq!["transcriber"@],
            "command"@,
        ) matches Some(ScalarV::Str(_)))) ==> c.transcriber.whisper_cpp.args == (match doc_get(
            items,
            seq!["transcriber"@],
            "args"@,
        ) {
            Some(ScalarV::Arr(args)) => args,
            _ => Seq::<Seq<char>>::empty(),
        }),
{
}

/// A one-key section path.
fn path1(a: &str) -> (r: Vec<String>)
    ensures
        Seq::new(r@.len(), |i: int| r@[i]@) == seq![a@],
{
    let r = vec![a.to_owned()];
    proof {
        assert(Seq::new(r@.len(), |i: int| r@[i]@) =~= seq![a@]);
    }
    r
}

/// A two-key section path.
fn path2(a: &str, b: &str) -> (r: Vec<String>)
    ensures
        Seq::new(r@.len(), |i: int| r@[i]@) == seq![a@, b@],
{
    let r = vec![a.to_owned(), b.to_owned()];
    proof {
        assert(Seq::new(r@.len(), |i: int| r@[i]@) =~= seq![a@, b@]);
    }
    r
}

/// Exec `str_or`.
fn str_or_x(items: &Vec<TomlItem>, path: &Vec<String>, key: &str, dflt: &str) -> (r: Option<
    String,
>)
    ensures
        r matches Some(s) ==> str_or(
            deep_items(items@),
            Seq::new(path@.len(), |i: int| path@[i]@),
            key@,
            dflt@,
        ) == Some(s@),
        r is None ==> str_or(
            deep_items(items@),
            Seq::new(path@.len(), |i: int| path@[i]@),
            key@,
            dflt@,
        ) is None,
{
    match doc_lookup(items, path, key) {
        Some(TomlScalar::Str(s)) => Some(s.clone()),
        Some(_) => None,
        None => Some(dflt.to_owned()),
    }
}

/// Exec `int_or`.
fn int_or_x(items: &Vec<TomlItem>, path: &Vec<String>, key: &str, bound: u64, dflt: u64) -> (r:
    Option<u64>)
    ensures
        r matches Some(n) ==> int_or(
            deep_items(items@),
            Seq::new(path@.len(), |i: int| path@[i]@),
            key@,
            bound,
            dflt,
        ) == Some(n),
        r is None ==> int_or(
            deep_items(items@),
            Seq::new(path@.len(), |i: int| path@[i]@),
            key@,
            bound,
            dflt,
        ) is None,
{
    match doc_lookup(items, path, key) {
        Some(TomlScalar::Int(n)) => {
            if *n <= bound {
                Some(*n)
            } else {
                None
            }
        },
        Some(_) => None,
        None => Some(dflt),
    }
}

/// Decode the `[shortcut]` section.
fn dec_shortcut_x(items: &Vec<TomlItem>) -> (r: Option<ShortcutConfig>)
    ensures
        r matches Some(c) ==> dec_shortcut_toml(deep_items(items@)) == Some(c@),
        r is None ==> dec_shortcut_toml(deep_items(items@)) is None,
{
    let p = path1("shortcut");
    match (
        str_or_x(items, &p, "id", "dictate_hold"),
        str_or_x(items, &p, "description", "Dictate"),
        str_or_x(items, &p, "trigger", "<Super>space"),
    ) {
        (Some(id), Some(description), Some(trigger)) => Some(
            ShortcutConfig { id, description, trigger },
        ),
        _ => None,
    }
}

/// Decode the `[persistence]` section.
fn dec_persistence_x(items: &Vec<TomlItem>) -> (r: Option<PersistenceConfig>)
    ensures
        r matches Some(c) ==> dec_persistence_toml(deep_items(items@)) == Some(c@),
        r is None ==> dec_persistence_toml(deep_items(items@)) is None,
{
    proof {
        reveal_strlit("");
        assert(""@ =~= Seq::<char>::empty());
    }
    let p = path1("persistence");
    match str_or_x(items, &p, "token_path", "") {
        Some(token_path) => Some(PersistenceConfig { token_path }),
        None => None,
    }
}

/// Decode the `[audio]` section.
fn dec_audio_x(items: &Vec<TomlItem>) -> (r: Option<AudioConfig>)
    ensures
        r matches Some(c) ==> dec_audio_toml(deep_items(items@)) == Some(c),
        r is None ==> dec_audio_toml(deep_items(items@)) is None,
{
    let p = path1("audio");
    match (
        int_or_x(items, &p, "sample_rate", u32::MAX as u64, 16000),
        int_or_x(items, &p, "channels", u16::MAX as u64, 1),
    ) {
        (Some(sr), Some(ch)) => Some(AudioConfig { sample_rate: sr as u32, channels: ch as u16 }),
        _ => None,
    }
}

/// Decode the `[injection]` section.
fn dec_injection_x(items: &Vec<TomlItem>) -> (r: Option<InjectionConfig>)
    ensures
        r matches Some(c) ==> dec_injection_toml(deep_items(items@)) == Some(c),
        r is None ==> dec_injection_toml(deep_items(items@)) is None,
{
    let p = path1("injection");
    match int_or_x(items, &p, "typing_delay_ms", u32::MAX as u64, DEFAULT_TYPING_DELAY_MS as u64) {
        Some(d) => Some(InjectionConfig { typing_delay_ms: d as u32 }),
        None => None,
    }
}

/// Decode a subprocess section at `path`.
fn dec_wc_x(items: &Vec<TomlItem>, path: &Vec<String>) -> (r: Option<WhisperCppConfig>)
    ensures
        r matches Some(c) ==> dec_wc_toml(
            deep_items(items@),
            Seq::new(path@.len(), |i: int| path@[i]@),
        ) == Some(c@),
        r is None ==> dec_wc_toml(
            deep_items(items@),
            Seq::new(path@.len(), |i: int| path@[i]@),
        ) is None,
{
    if !has_section(items, path) {
        return Some(WhisperCppConfig::default());
    }
    match (doc_lookup(items, path, "command"), doc_lookup(items, path, "args")) {
        (Some(TomlScalar::Str(command)), Some(TomlScalar::Arr(args))) => {
            let c = WhisperCppConfig {
                command: command.clone(),
                args: crate::transcriber::copy_strings(args),
            };
            proof {
                assert(c@.args =~= Seq::new(args@.len(), |i: int| args@[i]@));
            }
            Some(c)
        },
        _ => None,
    }
}

/// Decode an HTTP backend section at `path`.
fn dec_mistral_x(items: &Vec<TomlItem>, path: &Vec<String>, default_model: &str) -> (r: Option<
    MistralConfig,
>)
    ensures
        r matches Some(c) ==> dec_mistral_toml(
            deep_items(items@),
            Seq::new(path@.len(), |i: int| path@[i]@),
            default_model@,
        ) == Some(c@),
        r is None ==> dec_mistral_toml(
            deep_items(items@),
            Seq::new(path@.len(), |i: int| path@[i]@),
            default_model@,
        ) is None,
{
    proof {
        reveal_strlit("");
        assert(""@ =~= Seq::<char>::empty());
    }
    if !has_section(items, path) {
        return Some(
            MistralConfig {
                api_key: String::new(),
                model: default_model.to_owned(),
                endpoint: String::new(),
            },
        );
    }
    match (doc_lookup(items, path, "api_key"), doc_lookup(items, path, "model")) {
        (Some(TomlScalar::Str(api_key)), Some(TomlScalar::Str(model))) => {
            match str_or_x(items, path, "endpoint", "") {
                Some(endpoint) => Some(
                    MistralConfig { api_key: api_key.clone(), model: model.clone(), endpoint },
                ),
                None => None,
            }
        },
        _ => None,
    }
}

/// Decode a local-inference section at `path`.
fn dec_parakeet_x(items: &Vec<TomlItem>, path: &Vec<String>) -> (r: Option<ParakeetConfig>)
    ensures
        r matches Some(c) ==> dec_parakeet_toml(
            deep_items(items@),
            Seq::new(path@.len(), |i: int| path@[i]@),
        ) == Some(c@),
        r is None ==> dec_parakeet_toml(
            deep_items(items@),
            Seq::new(path@.len(), |i: int| path@[i]@),
        ) is None,
{
    if !has_section(items, path) {
        return Some(ParakeetConfig::default());
    }
    match doc_lookup(items, path, "model") {
        Some(TomlScalar::Str(model)) => {
            match doc_lookup(items, path, "execution_provider") {
                Some(TomlScalar::Str(s)) => {
                    match ExecutionProviderChoice::parse_label(s.as_str()) {
                        Some(ep) => Some(
                            ParakeetConfig { model: model.clone(), execution_provider: ep },
                        ),
                        None => None,
                    }
                },
                Some(_) => None,
                None => Some(
                    ParakeetConfig {
                        model: model.clone(),
                        execution_provider: ExecutionProviderChoice::Auto,
                    },
                ),
            }
        },
        _ => None,
    }
}

/// Decode the whole transcriber configuration with its sections under
/// `base`.
fn dec_tc_x(items: &Vec<TomlItem>, base: &str) -> (r: Option<TranscriberConfig>)
    requires
        base@ == "transcriber"@ || base@ == ""@,
    ensures
        base@ == "transcriber"@ ==> ((r matches Some(c) ==> dec_tc_toml(
            deep_items(items@),
            seq!["transcriber"@],
        ) == Some(c@)) && (r is None ==> dec_tc_toml(
            deep_items(items@),
            seq!["transcriber"@],
        ) is None)),
        base@ == ""@ && base@ != "transcriber"@ ==> ((r matches Some(c) ==> dec_tc_toml(
            deep_items(items@),
            Seq::<Seq<char>>::empty(),
        ) == Some(c@)) && (r is None ==> dec_tc_toml(
            deep_items(items@),
            Seq::<Seq<char>>::empty(),
        ) is None)),
{
    proof {
        reveal_strlit("transcriber");
        reveal_strlit("");
        assert("transcriber"@.len() == 11);
        assert(""@.len() == 0);
    }
    let base_is_empty = base.unicode_len() == 0;
    let ghost basev: Seq<Seq<char>> = if base_is_empty {
        Seq::<Seq<char>>::empty()
    } else {
        seq!["transcriber"@]
    };
    let base_path: Vec<String> = if base_is_empty {
        Vec::new()
    } else {
        path1("transcriber")
    };
    let wc_path: Vec<String> = if base_is_empty {
        path1("whisper_cpp")
    } else {
        path2("transcriber", "whisper_cpp")
    };
    let mistral_path: Vec<String> = if base_is_empty {
        path1("mistral")
    } else {
        path2("transcriber", "mistral")
    };
    let rt_path: Vec<String> = if base_is_empty {
        path1("mistral_realtime")
    } else {
        path2("transcriber", "mistral_realtime")
    };
    let parakeet_path: Vec<String> = if base_is_empty {
        path1("parakeet")
    } else {
        path2("transcriber", "parakeet")
    };
    proof {
        assert(Seq::new(base_path@.len(), |i: int| base_path@[i]@) =~= basev);
        assert(Seq::new(wc_path@.len(), |i: int| wc_path@[i]@) =~= basev + seq!["whisper_cpp"@]);
        assert(Seq::new(mistral_path@.len(), |i: int| mistral_path@[i]@) =~= basev + seq![
            "mistral"@,
        ]);
        assert(Seq::new(rt_path@.len(), |i: int| rt_path@[i]@) =~= basev + seq![
            "mistral_realtime"@,
        ]);
        assert(Seq::new(parakeet_path@.len(), |i: int| parakeet_path@[i]@) =~= basev + seq![
            "parakeet"@,
        ]);
    }
    let provider = match doc_lookup(items, &base_path, "provider") {
        Some(TomlScalar::Str(s)) => TranscriberProvider::parse_label(s.as_str()),
        Some(_) => None,
        None => Some(TranscriberProvider::WhisperCpp),
    };
    let whisper_cpp = dec_wc_x(items, &wc_path);
    let mistral = dec_mistral_x(items, &mistral_path, MISTRAL_DEFAULT_MODEL);
    let mistral_realtime = dec_mistral_x(items, &rt_path, MISTRAL_REALTIME_DEFAULT_MODEL);
    let parakeet = dec_parakeet_x(items, &parakeet_path);
    match (provider, whisper_cpp, mistral, mistral_realtime, parakeet) {
        (Some(p), Some(w), Some(m), Some(rt), Some(k)) => Some(
            TranscriberConfig {
                provider: p,
                whisper_cpp: w,
                mistral: m,
                mistral_realtime: MistralRealtimeConfig {
                    api_key: rt.api_key,
                    model: rt.model,
                    endpoint: rt.endpoint,
                },
                parakeet: k,
            },
        ),
        _ => None,
    }
}

/// Apply the legacy migration to a decoded subprocess record.
fn migrate_legacy_x(items: &Vec<TomlItem>, wc: WhisperCppConfig) -> (r: WhisperCppConfig)
    ensures
        r@ == migrate_legacy_wc(deep_items(items@), wc@),
{
    let t = path1("transcriber");
    let cmd = doc_lookup(items, &t, "command");
    let cmd_is_none = match cmd {
        None => true,
        _ => false,
    };
    let cmd_ok = match cmd {
        None => true,
        Some(TomlScalar::Str(_)) => true,
        Some(_) => false,
    };
    let args = doc_lookup(items, &t, "args");
    let args_ok = match args {
        None => true,
        Some(TomlScalar::Arr(_)) => true,
        Some(_) => false,
    };
    if !(cmd_ok && args_ok) {
        return wc;
    }
    let command = match cmd {
        Some(TomlScalar::Str(c)) => c.clone(),
        _ => wc.command,
    };
    let new_args = match args {
        Some(TomlScalar::Arr(a)) => {
            let copied = crate::transcriber::copy_strings(a);
            proof {
                assert(Seq::new(copied@.len(), |i: int| copied@[i]@) =~= Seq::new(
                    a@.len(),
                    |i: int| a@[i]@,
                ));
            }
            copied
        },
        _ => wc.args,
    };
    let r = WhisperCppConfig { command, args: new_args };
    proof {
        assert(r@ =~~= migrate_legacy_wc(deep_items(items@), wc@));
    }
    r
}

/// Decode a whole configuration file's lines.
fn dec_config_x(items: &Vec<TomlItem>) -> (r: Option<Config>)
    ensures
        r matches Some(c) ==> dec_config_toml(deep_items(items@)) == Some(c@),
        r is None ==> dec_config_toml(deep_items(items@)) is None,
{
    let shortcut = dec_shortcut_x(items);
    let tc = dec_tc_x(items, "transcriber");
    let injection = dec_injection_x(items);
    let persistence = dec_persistence_x(items);
    let audio = dec_audio_x(items);
    match (shortcut, tc, injection, persistence, audio) {
        (Some(shortcut), Some(tc), Some(injection), Some(persistence), Some(audio)) => {
            let whisper_cpp = migrate_legacy_x(items, tc.whisper_cpp);
            Some(
                Config {
                    shortcut,
                    transcriber: TranscriberConfig { whisper_cpp, ..tc },
                    injection,
                    persistence,
                    audio,
                },
            )
        },
        _ => None,
    }
}

impl Config {
    /// Parse a configuration file, migrating the legacy transcriber
    /// layout.
    pub fn load_from_str(contents: &str) -> (r: Result<Config, String>)
        ensures
            r matches Ok(c) ==> (parse_toml_spec(contents@) matches Some(items) && dec_config_toml(
                items,
            ) == Some(c@)),
            r is Err ==> match parse_toml_spec(contents@) {
                Some(items) => dec_config_toml(items) is None,
                None => true,
            },
    {
        match parse_toml(contents) {
            Some(items) => match dec_config_x(&items) {
                Some(c) => Ok(c),
                None => Err(String::from_str("configuration file has a value of the wrong shape")),
            },
            None => Err(String::from_str("configuration file cannot be parsed")),
        }
    }
}

/// Parse a transcriber configuration standing alone in a document.
pub fn parse_transcriber_config_toml(contents: &str) -> (r: Result<TranscriberConfig, String>)
    ensures
        r matches Ok(c) ==> (parse_toml_spec(contents@) matches Some(items) && dec_tc_toml(
            items,
            Seq::<Seq<char>>::empty(),
        ) == Some(c@)),
        r is Err ==> match parse_toml_spec(contents@) {
            Some(items) => dec_tc_toml(items, Seq::<Seq<char>>::empty()) is None,
            None => true,
        },
{
    proof {
        reveal_strlit("");
        reveal_strlit("transcriber");
        assert(""@.len() == 0);
        assert("transcriber"@.len() == 11);
    }
    match parse_toml(contents) {
        Some(items) => match dec_tc_x(&items, "") {
            Some(c) => Ok(c),
            None => Err(String::from_str("transcriber settings have a value of the wrong shape")),
        },
        None => Err(String::from_str("transcriber settings cannot be parsed")),
    }
}

/// One `key = "string"` line.
pub open spec fn line_str(key: Seq<char>, v: Seq<char>) -> Seq<char> {
    key + " = "@ + ser_val(JsonV::Str(v)) + "\n"@
}

/// One `key = integer` line.
pub open spec fn line_int(key: Seq<char>, n: u64) -> Seq<char> {
    key + " = "@ + dec_digits(n as nat) + "\n"@
}

/// One `key = [strings]` line.
pub open spec fn line_arr(key: Seq<char>, items: Seq<Seq<char>>) -> Seq<char> {
    key + " = "@ + ser_val(JsonV::Arr(Seq::new(items.len(), |i: int| JsonV::Str(items[i]))))
        + "\n"@
}

/// The transcriber sub-sections as written inside a configuration file.
pub open spec fn ser_tc_sections_cfg(c: TranscriberConfigV) -> Seq<char> {
    "[transcriber.whisper_cpp]\n"@ + line_str("command"@, c.whisper_cpp.command) + line_arr(
        "args"@,
        c.whisper_cpp.args,
    ) + "[transcriber.mistral]\n"@ + line_str("api_key"@, c.mistral.api_key) + line_str(
        "model"@,
        c.mistral.model,
    ) + line_str("endpoint"@, c.mistral.endpoint) + "[transcriber.mistral_realtime]\n"@
        + line_str("api_key"@, c.mistral_realtime.api_key) + line_str(
        "model"@,
        c.mistral_realtime.model,
    ) + line_str("endpoint"@, c.mistral_realtime.endpoint) + "[transcriber.parakeet]\n"@
        + line_str("model"@, c.parakeet.model) + line_str(
        "execution_provider"@,
        c.parakeet.execution_provider.spec_label(),
    )
}

/// A whole configuration file, every section and key explicit.
pub open spec fn ser_config_toml(c: ConfigV) -> Seq<char> {
    "[shortcut]\n"@ + line_str("id"@, c.shortcut.id) + line_str(
        "description"@,
        c.shortcut.description,
    ) + line_str("trigger"@, c.shortcut.trigger) + "[transcriber]\n"@ + line_str(
        "provider"@,
        c.transcriber.provider.spec_label(),
    ) + ser_tc_sections_cfg(c.transcriber) + "[injection]\n"@ + line_int(
        "typing_delay_ms"@,
        c.injection.typing_delay_ms as u64,
    ) + "[persistence]\n"@ + line_str("token_path"@, c.persistence.token_path) + "[audio]\n"@
        + line_int("sample_rate"@, c.audio.sample_rate as u64) + line_int(
        "channels"@,
        c.audio.channels as u64,
    )
}

/// A transcriber configuration standing alone in a document.
pub open spec fn ser_tc_standalone(c: TranscriberConfigV) -> Seq<char> {
    line_str("provider"@, c.provider.spec_label()) + "[whisper_cpp]\n"@ + line_str(
        "command"@,
        c.whisper_cpp.command,
    ) + line_arr("args"@, c.whisper_cpp.args) + "[mistral]\n"@ + line_str(
        "api_key"@,
        c.mistral.api_key,
    ) + line_str("model"@, c.mistral.model) + line_str("endpoint"@, c.mistral.endpoint)
        + "[mistral_realtime]\n"@ + line_str("api_key"@, c.mistral_realtime.api_key) + line_str(
        "model"@,
        c.mistral_realtime.model,
    ) + line_str("endpoint"@, c.mistral_realtime.endpoint) + "[parakeet]\n"@ + line_str(
        "model"@,
        c.parakeet.model,
    ) + line_str("execution_provider"@, c.parakeet.execution_provider.spec_label())
}

/// Write one `key = "string"` line.
fn push_line_str(out: &mut String, key: &str, v: &String)
    ensures
        final(out)@ == old(out)@ + line_str(key@, v@),
{
    out.append(key);
    out.append(" = ");
    let q = json_to_string(&Json::Str(v.clone()));
    out.append(q.as_str());
    out.append("\n");
    proof {
        assert(out@ =~= old(out)@ + line_str(key@, v@));
    }
}

/// Write one `key = integer` line.
fn push_line_int(out: &mut String, key: &str, n: u64)
    ensures
        final(out)@ == old(out)@ + line_int(key@, n),
{
    out.append(key);
    out.append(" = ");
    let q = json_to_string(&Json::Int(n));
    out.append(q.as_str());
    out.append("\n");
    proof {
        assert(out@ =~= old(out)@ + line_int(key@, n));
    }
}

/// Write one `key = [strings]` line.
fn push_line_arr(out: &mut String, key: &str, items: &Vec<String>)
    ensures
        final(out)@ == old(out)@ + line_arr(key@, Seq::new(items@.len(), |i: int| items@[i]@)),
{
    out.append(key);
    out.append(" = ");
    let mut arr: Vec<Json> = Vec::new();
    let mut i: usize = 0;
    while i < items.len()
        invariant
            i <= items@.len(),
            arr@.len() == i,
            forall|j: int| 0 <= j < i ==> arr@[j].deep() == JsonV::Str(items@[j]@),
        decreases items@.len() - i,
    {
        arr.push(Json::Str(items[i].clone()));
        i = i + 1;
    }
    proof {
        crate::json::lemma_deep_list_index(arr@);
        assert(crate::json::deep_list(arr@) =~= Seq::new(
            items@.len(),
            |k: int| JsonV::Str(items@[k]@),
        ));
    }
    let j = Json::Arr(arr);
    let q = json_to_string(&j);
    out.append(q.as_str());
    out.append("\n");
    proof {
        let ghost names = Seq::new(items@.len(), |i2: int| items@[i2]@);
        assert(Seq::new(items@.len(), |k: int| JsonV::Str(items@[k]@)) =~= Seq::new(
            names.len(),
            |i3: int| JsonV::Str(names[i3]),
        ));
        assert(out@ =~= old(out)@ + line_arr(key@, names));
    }
}

/// Write a whole configuration file.
#[verifier::rlimit(100)]
pub fn config_to_toml(c: &Config) -> (r: String)
    ensures
        r@ == ser_config_toml(c@),
{
    let mut out = String::new();
    out.append("[shortcut]\n");
    push_line_str(&mut out, "id", &c.shortcut.id);
    push_line_str(&mut out, "description", &c.shortcut.description);
    push_line_str(&mut out, "trigger", &c.shortcut.trigger);
    out.append("[transcriber]\n");
    let provider = c.transcriber.provider.label();
    push_line_str(&mut out, "provider", &provider);
    out.append("[transcriber.whisper_cpp]\n");
    push_line_str(&mut out, "command", &c.transcriber.whisper_cpp.command);
    push_line_arr(&mut out, "args", &c.transcriber.whisper_cpp.args);
    out.append("[transcriber.mistral]\n");
    push_line_str(&mut out, "api_key", &c.transcriber.mistral.api_key);
    push_line_str(&mut out, "model", &c.transcriber.mistral.model);
    push_line_str(&mut out, "endpoint", &c.transcriber.mistral.endpoint);
    out.append("[transcriber.mistral_realtime]\n");
    push_line_str(&mut out, "api_key", &c.transcriber.mistral_realtime.api_key);
    push_line_str(&mut out, "model", &c.transcriber.mistral_realtime.model);
    push_line_str(&mut out, "endpoint", &c.transcriber.mistral_realtime.endpoint);
    out.append("[transcriber.parakeet]\n");
    push_line_str(&mut out, "model", &c.transcriber.parakeet.model);
    let ep = c.transcriber.parakeet.execution_provider.label();
    push_line_str(&mut out, "execution_provider", &ep);
    out.append("[injection]\n");
    push_line_int(&mut out, "typing_delay_ms", c.injection.typing_delay_ms as u64);
    out.append("[persistence]\n");
    push_line_str(&mut out, "token_path", &c.persistence.token_path);
    out.append("[audio]\n");
    push_line_int(&mut out, "sample_rate", c.audio.sample_rate as u64);
    push_line_int(&mut out, "channels", c.audio.channels as u64);
    proof {
        assert(out@ =~= ser_config_toml(c@));
    }
    out
}

/// Write a transcriber configuration standing alone.
#[verifier::rlimit(100)]
pub fn transcriber_config_toml(c: &TranscriberConfig) -> (r: String)
    ensures
        r@ == ser_tc_standalone(c@),
{
    let mut out = String::new();
    let provider = c.provider.label();
    push_line_str(&mut out, "provider", &provider);
    out.append("[whisper_cpp]\n");
    push_line_str(&mut out, "command", &c.whisper_cpp.command);
    push_line_arr(&mut out, "args", &c.whisper_cpp.args);
    out.append("[mistral]\n");
    push_line_str(&mut out, "api_key", &c.mistral.api_key);
    push_line_str(&mut out, "model", &c.mistral.model);
    push_line_str(&mut out, "endpoint", &c.mistral.endpoint);
    out.append("[mistral_realtime]\n");
    push_line_str(&mut out, "api_key", &c.mistral_realtime.api_key);
    push_line_str(&mut out, "model", &c.mistral_realtime.model);
    push_line_str(&mut out, "endpoint", &c.mistral_realtime.endpoint);
    out.append("[parakeet]\n");
    push_line_str(&mut out, "model", &c.parakeet.model);
    let ep = c.parakeet.execution_provider.label();
    push_line_str(&mut out, "execution_provider", &ep);
    proof {
        assert(out@ =~= ser_tc_standalone(c@));
    }
    out
}

} // verus!
