//! JSON encoding and decoding of the control-surface records.
//!
//! Encoding is exact: each record maps to one JSON object shape.  Decoding
//! follows the configuration file's conventions: unknown fields are
//! ignored, fields the record declares optional fall back to their
//! defaults, and a field of the wrong shape is an error.

use vstd::prelude::*;

use crate::ipc::ep_of_label;
use crate::ipc::prov_of_label;
use crate::ipc::ExecutionProviderChoice;
use crate::ipc::InjectionConfig;
use crate::ipc::MistralConfig;
use crate::ipc::MistralConfigV;
use crate::ipc::MistralRealtimeConfig;
use crate::ipc::MistralRealtimeConfigV;
use crate::ipc::ParakeetConfig;
use crate::ipc::ParakeetConfigV;
use crate::ipc::TranscriberConfig;
use crate::ipc::TranscriberConfigV;
use crate::ipc::TranscriberProvider;
use crate::ipc::WhisperCppConfig;
use crate::ipc::WhisperCppConfigV;
use crate::ipc::DEFAULT_TYPING_DELAY_MS;
use crate::ipc::MISTRAL_DEFAULT_MODEL;
use crate::ipc::MISTRAL_REALTIME_DEFAULT_MODEL;
use crate::ipc::PARAKEET_DEFAULT_MODEL;
use crate::json::deep_fields;
use crate::json::deep_list;
use crate::json::lemma_deep_fields_index;
use crate::json::lemma_deep_list_index;
use crate::json::parse_json;
use crate::json::parse_json_spec;
use crate::json::json_to_string;
use crate::json::ser_val;
use crate::json::Json;
use crate::json::JsonV;

verus! {

/// The default subprocess settings, as a spec value.
pub open spec fn default_wc_v() -> WhisperCppConfigV {
    WhisperCppConfigV { command: "whisper-cpp"@, args: Seq::empty() }
}

/// The default batch HTTP settings, as a spec value.
pub open spec fn default_mistral_v() -> MistralConfigV {
    MistralConfigV {
        api_key: Seq::empty(),
        model: MISTRAL_DEFAULT_MODEL@,
        endpoint: Seq::empty(),
    }
}

/// The default streaming settings, as a spec value.
pub open spec fn default_rt_v() -> MistralRealtimeConfigV {
    MistralRealtimeConfigV {
        api_key: Seq::empty(),
        model: MISTRAL_REALTIME_DEFAULT_MODEL@,
        endpoint: Seq::empty(),
    }
}

/// The default local-inference settings, as a spec value.
pub open spec fn default_parakeet_v() -> ParakeetConfigV {
    ParakeetConfigV {
        model: PARAKEET_DEFAULT_MODEL@,
        execution_provider: ExecutionProviderChoice::Auto,
    }
}

/// The default transcriber configuration, as a spec value.
pub open spec fn default_tc_v() -> TranscriberConfigV {
    TranscriberConfigV {
        provider: TranscriberProvider::WhisperCpp,
        whisper_cpp: default_wc_v(),
        mistral: default_mistral_v(),
        mistral_realtime: default_rt_v(),
        parakeet: default_parakeet_v(),
    }
}

/// The JSON shape of the subprocess settings.
pub open spec fn enc_wc(c: WhisperCppConfigV) -> JsonV {
    JsonV::Obj(
        seq![
            ("command"@, JsonV::Str(c.command)),
            ("args"@, JsonV::Arr(Seq::new(c.args.len(), |i: int| JsonV::Str(c.args[i])))),
        ],
    )
}

/// The JSON shape of the batch HTTP settings.
pub open spec fn enc_mistral(c: MistralConfigV) -> JsonV {
    JsonV::Obj(
        seq![
            ("api_key"@, JsonV::Str(c.api_key)),
            ("model"@, JsonV::Str(c.model)),
            ("endpoint"@, JsonV::Str(c.endpoint)),
        ],
    )
}

/// The JSON shape of the streaming settings.
pub open spec fn enc_rt(c: MistralRealtimeConfigV) -> JsonV {
    JsonV::Obj(
        seq![
            ("api_key"@, JsonV::Str(c.api_key)),
            ("model"@, JsonV::Str(c.model)),
            ("endpoint"@, JsonV::Str(c.endpoint)),
        ],
    )
}

/// The JSON shape of the local-inference settings.
pub open spec fn enc_parakeet(c: ParakeetConfigV) -> JsonV {
    JsonV::Obj(
        seq![
            ("model"@, JsonV::Str(c.model)),
            ("execution_provider"@, JsonV::Str(c.execution_provider.spec_label())),
        ],
    )
}

/// The JSON shape of the whole transcriber configuration.
pub open spec fn enc_tc(c: TranscriberConfigV) -> JsonV {
    JsonV::Obj(
        seq![
            ("provider"@, JsonV::Str(c.provider.spec_label())),
            ("whisper_cpp"@, enc_wc(c.whisper_cpp)),
            ("mistral"@, enc_mistral(c.mistral)),
            ("mistral_realtime"@, enc_rt(c.mistral_realtime)),
            ("parakeet"@, enc_parakeet(c.parakeet)),
        ],
    )
}

/// The JSON shape of the injection configuration.
pub open spec fn enc_ic(c: InjectionConfig) -> JsonV {
    JsonV::Obj(seq![("typing_delay_ms"@, JsonV::Int(c.typing_delay_ms as u64))])
}

/// The first field named `key`, if any.
pub open spec fn obj_get(fields: Seq<(Seq<char>, JsonV)>, key: Seq<char>) -> Option<JsonV>
    decreases fields.len(),
{
    if fields.len() == 0 {
        None
    } else if fields[0].0 == key {
        Some(fields[0].1)
    } else {
        obj_get(fields.drop_first(), key)
    }
}

/// A string value, if the document is one.
pub open spec fn dec_str(v: JsonV) -> Option<Seq<char>> {
    match v {
        JsonV::Str(s) => Some(s),
        _ => None,
    }
}

/// All strings, if every element of the list is one.
pub open spec fn dec_str_seq(items: Seq<JsonV>) -> Option<Seq<Seq<char>>>
    decreases items.len(),
{
    if items.len() == 0 {
        Some(Seq::empty())
    } else {
        match items[0] {
            JsonV::Str(s) => match dec_str_seq(items.drop_first()) {
                Some(rest) => Some(seq![s] + rest),
                None => None,
            },
            _ => None,
        }
    }
}

/// The subprocess settings held in `v`: both fields are required.
pub open spec fn dec_wc(v: JsonV) -> Option<WhisperCppConfigV> {
    match v {
        JsonV::Obj(fields) => match (obj_get(fields, "command"@), obj_get(fields, "args"@)) {
            (Some(JsonV::Str(command)), Some(JsonV::Arr(items))) => match dec_str_seq(items) {
                Some(args) => Some(WhisperCppConfigV { command, args }),
                None => None,
            },
            _ => None,
        },
        _ => None,
    }
}

/// The batch HTTP settings held in `v`: key and model are required, the
/// endpoint falls back to empty.
pub open spec fn dec_mistral(v: JsonV) -> Option<MistralConfigV> {
    match v {
        JsonV::Obj(fields) => match (obj_get(fields, "api_key"@), obj_get(fields, "model"@)) {
            (Some(JsonV::Str(api_key)), Some(JsonV::Str(model))) => match obj_get(
                fields,
                "endpoint"@,
            ) {
                Some(ev) => match ev {
                    JsonV::Str(endpoint) => Some(MistralConfigV { api_key, model, endpoint }),
                    _ => None,
                },
                None => Some(MistralConfigV { api_key, model, endpoint: Seq::empty() }),
            },
            _ => None,
        },
        _ => None,
    }
}

/// The streaming settings held in `v`, with the same rules as the batch
/// settings.
pub open spec fn dec_rt(v: JsonV) -> Option<MistralRealtimeConfigV> {
    match dec_mistral(v) {
        Some(m) => Some(
            MistralRealtimeConfigV { api_key: m.api_key, model: m.model, endpoint: m.endpoint },
        ),
        None => None,
    }
}

/// The local-inference settings held in `v`: the model is required, the
/// execution provider falls back to automatic.
pub open spec fn dec_parakeet(v: JsonV) -> Option<ParakeetConfigV> {
    match v {
        JsonV::Obj(fields) => match obj_get(fields, "model"@) {
            Some(JsonV::Str(model)) => match obj_get(fields, "execution_provider"@) {
                Some(ev) => match ev {
                    JsonV::Str(s) => match ep_of_label(s) {
                        Some(ep) => Some(ParakeetConfigV { model, execution_provider: ep }),
                        None => None,
                    },
                    _ => None,
                },
                None => Some(
                    ParakeetConfigV { model, execution_provider: ExecutionProviderChoice::Auto },
                ),
            },
            _ => None,
        },
        _ => None,
    }
}

/// The whole transcriber configuration held in `v`: every sub-record is
/// optional and falls back to its defaults.
pub open spec fn dec_tc(v: JsonV) -> Option<TranscriberConfigV> {
    match v {
        JsonV::Obj(fields) => {
            let provider = match obj_get(fields, "provider"@) {
                Some(pv) => match pv {
                    JsonV::Str(s) => prov_of_label(s),
                    _ => None,
                },
                None => Some(TranscriberProvider::WhisperCpp),
            };
            let whisper_cpp = match obj_get(fields, "whisper_cpp"@) {
                Some(wv) => dec_wc(wv),
                None => Some(default_wc_v()),
            };
            let mistral = match obj_get(fields, "mistral"@) {
                Some(mv) => dec_mistral(mv),
                None => Some(default_mistral_v()),
            };
            let mistral_realtime = match obj_get(fields, "mistral_realtime"@) {
                Some(rv) => dec_rt(rv),
                None => Some(default_rt_v()),
            };
            let parakeet = match obj_get(fields, "parakeet"@) {
                Some(kv) => dec_parakeet(kv),
                None => Some(default_parakeet_v()),
            };
            match (provider, whisper_cpp, mistral, mistral_realtime, parakeet) {
                (Some(p), Some(w), Some(m), Some(r), Some(k)) => Some(
                    TranscriberConfigV {
                        provider: p,
                        whisper_cpp: w,
                        mistral: m,
                        mistral_realtime: r,
                        parakeet: k,
                    },
                ),
                _ => None,
            }
        },
        _ => None,
    }
}

/// The injection configuration held in `v`: the delay is optional and falls
/// back to the default, and must fit the field.
pub open spec fn dec_ic(v: JsonV) -> Option<InjectionConfig> {
    match v {
        JsonV::Obj(fields) => match obj_get(fields, "typing_delay_ms"@) {
            Some(dv) => match dv {
                JsonV::Int(n) => if n <= u32::MAX as u64 {
                    Some(InjectionConfig { typing_delay_ms: n as u32 })
                } else {
                    None
                },
                _ => None,
            },
            None => Some(InjectionConfig { typing_delay_ms: DEFAULT_TYPING_DELAY_MS }),
        },
        _ => None,
    }
}

/// Build the JSON document for the subprocess settings.
pub fn wc_to_json(c: &WhisperCppConfig) -> (r: Json)
    ensures
        r.deep() == enc_wc(c@),
{
    let mut items: Vec<Json> = Vec::new();
    let mut i: usize = 0;
    while i < c.args.len()
        invariant
            i <= c.args@.len(),
            items@.len() == i,
            forall|j: int| 0 <= j < i ==> items@[j].deep() == JsonV::Str(c.args@[j]@),
        decreases c.args@.len() - i,
    {
        items.push(Json::Str(c.args[i].clone()));
        i = i + 1;
    }
    let fields = vec![
        (String::from_str("command"), Json::Str(c.command.clone())),
        (String::from_str("args"), Json::Arr(items)),
    ];
    let r = Json::Obj(fields);
    proof {
        lemma_deep_list_index(items@);
        assert(deep_list(items@) =~= Seq::new(c@.args.len(), |j: int| JsonV::Str(c@.args[j])));
        lemma_deep_fields_index(fields@);
        assert(deep_fields(fields@) =~= match enc_wc(c@) {
            JsonV::Obj(f) => f,
            _ => Seq::empty(),
        });
    }
    r
}

/// Build the JSON document for the batch HTTP settings.
pub fn mistral_to_json(c: &MistralConfig) -> (r: Json)
    ensures
        r.deep() == enc_mistral(c@),
{
    let fields = vec![
        (String::from_str("api_key"), Json::Str(c.api_key.clone())),
        (String::from_str("model"), Json::Str(c.model.clone())),
        (String::from_str("endpoint"), Json::Str(c.endpoint.clone())),
    ];
    let r = Json::Obj(fields);
    proof {
        lemma_deep_fields_index(fields@);
        assert(deep_fields(fields@) =~= match enc_mistral(c@) {
            JsonV::Obj(f) => f,
            _ => Seq::empty(),
        });
    }
    r
}

/// Build the JSON document for the streaming settings.
pub fn rt_to_json(c: &MistralRealtimeConfig) -> (r: Json)
    ensures
        r.deep() == enc_rt(c@),
{
    let fields = vec![
        (String::from_str("api_key"), Json::Str(c.api_key.clone())),
        (String::from_str("model"), Json::Str(c.model.clone())),
        (String::from_str("endpoint"), Json::Str(c.endpoint.clone())),
    ];
    let r = Json::Obj(fields);
    proof {
        lemma_deep_fields_index(fields@);
        assert(deep_fields(fields@) =~= match enc_rt(c@) {
            JsonV::Obj(f) => f,
            _ => Seq::empty(),
        });
    }
    r
}

/// Build the JSON document for the local-inference settings.
pub fn parakeet_to_json(c: &ParakeetConfig) -> (r: Json)
    ensures
        r.deep() == enc_parakeet(c@),
{
    let fields = vec![
        (String::from_str("model"), Json::Str(c.model.clone())),
        (String::from_str("execution_provider"), Json::Str(c.execution_provider.label())),
    ];
    let r = Json::Obj(fields);
    proof {
        lemma_deep_fields_index(fields@);
        assert(deep_fields(fields@) =~= match enc_parakeet(c@) {
            JsonV::Obj(f) => f,
            _ => Seq::empty(),
        });
    }
    r
}

/// Build the JSON document for the whole transcriber configuration.
pub fn transcriber_config_to_json(c: &TranscriberConfig) -> (r: Json)
    ensures
        r.deep() == enc_tc(c@),
{
    let fields = vec![
        (String::from_str("provider"), Json::Str(c.provider.label())),
        (String::from_str("whisper_cpp"), wc_to_json(&c.whisper_cpp)),
        (String::from_str("mistral"), mistral_to_json(&c.mistral)),
        (String::from_str("mistral_realtime"), rt_to_json(&c.mistral_realtime)),
        (String::from_str("parakeet"), parakeet_to_json(&c.parakeet)),
    ];
    let r = Json::Obj(fields);
    proof {
        lemma_deep_fields_index(fields@);
        assert(deep_fields(fields@) =~= match enc_tc(c@) {
            JsonV::Obj(f) => f,
            _ => Seq::empty(),
        });
    }
    r
}

/// Build the JSON document for the injection configuration.
pub fn injection_config_to_json(c: &InjectionConfig) -> (r: Json)
    ensures
        r.deep() == enc_ic(*c),
{
    let fields = vec![(String::from_str("typing_delay_ms"), Json::Int(c.typing_delay_ms as u64))];
    let r = Json::Obj(fields);
    proof {
        lemma_deep_fields_index(fields@);
        assert(deep_fields(fields@) =~= match enc_ic(*c) {
            JsonV::Obj(f) => f,
            _ => Seq::empty(),
        });
    }
    r
}

/// Find the first field named `key`.
pub fn obj_field<'a>(fields: &'a Vec<(String, Json)>, key: &str) -> (r: Option<&'a Json>)
    ensures
        r matches Some(j) ==> obj_get(deep_fields(fields@), key@) == Some(j.deep()),
        r is None ==> obj_get(deep_fields(fields@), key@) is None,
{
    let k = key.to_owned();
    proof {
        lemma_deep_fields_index(fields@);
        assert(deep_fields(fields@).skip(0) =~= deep_fields(fields@));
    }
    let mut i: usize = 0;
    while i < fields.len()
        invariant
            i <= fields@.len(),
            k@ == key@,
            deep_fields(fields@).len() == fields@.len(),
            forall|j: int| 0 <= j < fields@.len() ==> deep_fields(fields@)[j] == (
                fields@[j].0@,
                fields@[j].1.deep(),
            ),
            obj_get(deep_fields(fields@), key@) == obj_get(
                deep_fields(fields@).skip(i as int),
                key@,
            ),
        decreases fields@.len() - i,
    {
        if fields[i].0 == k {
            proof {
                assert(deep_fields(fields@).skip(i as int)[0] == deep_fields(fields@)[i as int]);
            }
            return Some(&fields[i].1);
        }
        proof {
            assert(deep_fields(fields@).skip(i as int)[0] == deep_fields(fields@)[i as int]);
            assert(deep_fields(fields@).skip(i as int).drop_first() =~= deep_fields(
                fields@,
            ).skip(i as int + 1));
        }
        i = i + 1;
    }
    proof {
        assert(deep_fields(fields@).skip(i as int) =~= Seq::<(Seq<char>, JsonV)>::empty());
    }
    None
}

/// Decode a list of strings, element by element from `from`.
pub(crate) fn str_vec_at(items: &Vec<Json>, from: usize) -> (r: Option<Vec<String>>)
    requires
        from <= items@.len(),
    ensures
        r matches Some(ss) ==> dec_str_seq(deep_list(items@).skip(from as int)) == Some(
            Seq::new(ss@.len(), |i: int| ss@[i]@),
        ),
        r is None ==> dec_str_seq(deep_list(items@).skip(from as int)) is None,
    decreases items@.len() - from,
{
    proof {
        lemma_deep_list_index(items@);
    }
    if from == items.len() {
        let r: Vec<String> = Vec::new();
        proof {
            assert(deep_list(items@).skip(from as int) =~= Seq::<JsonV>::empty());
            assert(Seq::new(r@.len(), |i: int| r@[i]@) =~= Seq::<Seq<char>>::empty());
        }
        return Some(r);
    }
    proof {
        assert(deep_list(items@).skip(from as int)[0] == deep_list(items@)[from as int]);
        assert(deep_list(items@).skip(from as int).drop_first() =~= deep_list(items@).skip(
            from as int + 1,
        ));
    }
    match &items[from] {
        Json::Str(s) => {
            match str_vec_at(items, from + 1) {
                Some(rest) => {
                    let mut out = rest;
                    let ghost pre = out@;
                    out.insert(0, s.clone());
                    proof {
                        let full = deep_list(items@).skip(from as int);
                        assert(full[0] == deep_list(items@)[from as int]);
                        assert(full.drop_first() =~= deep_list(items@).skip(from as int + 1));
                        assert(out@.drop_first() =~= pre);
                        assert(Seq::new(out@.len(), |i: int| out@[i]@) =~= seq![s@] + Seq::new(
                            pre.len(),
                            |i: int| pre[i]@,
                        ));
                    }
                    Some(out)
                },
                None => None,
            }
        },
        _ => {
            proof {
                assert(deep_list(items@).skip(from as int)[0] == deep_list(
                    items@,
                )[from as int]);
            }
            None
        },
    }
}

/// Decode the subprocess settings from a JSON document.
pub fn wc_from_json(v: &Json) -> (r: Option<WhisperCppConfig>)
    ensures
        r matches Some(c) ==> dec_wc(v.deep()) == Some(c@),
        r is None ==> dec_wc(v.deep()) is None,
{
    match v {
        Json::Obj(fields) => {
            match (obj_field(fields, "command"), obj_field(fields, "args")) {
                (Some(Json::Str(command)), Some(Json::Arr(items))) => {
                    match str_vec_at(items, 0) {
                        Some(args) => {
                            proof {
                                assert(deep_list(items@).skip(0) =~= deep_list(items@));
                            }
                            Some(WhisperCppConfig { command: command.clone(), args })
                        },
                        None => {
                            proof {
                                assert(deep_list(items@).skip(0) =~= deep_list(items@));
                            }
                            None
                        },
                    }
                },
                _ => None,
            }
        },
        _ => None,
    }
}

/// Decode the batch HTTP settings from a JSON document.
pub fn mistral_from_json(v: &Json) -> (r: Option<MistralConfig>)
    ensures
        r matches Some(c) ==> dec_mistral(v.deep()) == Some(c@),
        r is None ==> dec_mistral(v.deep()) is None,
{
    match v {
        Json::Obj(fields) => {
            match (obj_field(fields, "api_key"), obj_field(fields, "model")) {
                (Some(Json::Str(api_key)), Some(Json::Str(model))) => {
                    match obj_field(fields, "endpoint") {
                        Some(Json::Str(endpoint)) => Some(MistralConfig {
                            api_key: api_key.clone(),
                            model: model.clone(),
                            endpoint: endpoint.clone(),
                        }),
                        Some(_) => None,
                        None => Some(MistralConfig {
                            api_key: api_key.clone(),
                            model: model.clone(),
                            endpoint: String::new(),
                        }),
                    }
                },
                _ => None,
            }
        },
        _ => None,
    }
}

/// Decode the streaming settings from a JSON document.
pub fn rt_from_json(v: &Json) -> (r: Option<MistralRealtimeConfig>)
    ensures
        r matches Some(c) ==> dec_rt(v.deep()) == Some(c@),
        r is None ==> dec_rt(v.deep()) is None,
{
    match mistral_from_json(v) {
        Some(m) => Some(MistralRealtimeConfig {
            api_key: m.api_key,
            model: m.model,
            endpoint: m.endpoint,
        }),
        None => None,
    }
}

/// Decode the local-inference settings from a JSON document.
pub fn parakeet_from_json(v: &Json) -> (r: Option<ParakeetConfig>)
    ensures
        r matches Some(c) ==> dec_parakeet(v.deep()) == Some(c@),
        r is None ==> dec_parakeet(v.deep()) is None,
{
    match v {
        Json::Obj(fields) => {
            match obj_field(fields, "model") {
                Some(Json::Str(model)) => {
                    match obj_field(fields, "execution_provider") {
                        Some(Json::Str(s)) => {
                            match ExecutionProviderChoice::parse_label(s.as_str()) {
                                Some(ep) => Some(ParakeetConfig {
                                    model: model.clone(),
                                    execution_provider: ep,
                                }),
                                None => None,
                            }
                        },
                        Some(_) => None,
                        None => Some(ParakeetConfig {
                            model: model.clone(),
                            execution_provider: ExecutionProviderChoice::Auto,
                        }),
                    }
                },
                _ => None,
            }
        },
        _ => None,
    }
}

/// Decode the whole transcriber configuration from a JSON document.
pub fn transcriber_config_from_json(v: &Json) -> (r: Option<TranscriberConfig>)
    ensures
        r matches Some(c) ==> dec_tc(v.deep()) == Some(c@),
        r is None ==> dec_tc(v.deep()) is None,
{
    match v {
        Json::Obj(fields) => {
            let provider = match obj_field(fields, "provider") {
                Some(Json::Str(s)) => TranscriberProvider::parse_label(s.as_str()),
                Some(_) => None,
                None => Some(TranscriberProvider::WhisperCpp),
            };
            let whisper_cpp = match obj_field(fields, "whisper_cpp") {
                Some(wv) => wc_from_json(wv),
                None => Some(WhisperCppConfig::default()),
            };
            let mistral = match obj_field(fields, "mistral") {
                Some(mv) => mistral_from_json(mv),
                None => Some(MistralConfig::default()),
            };
            let mistral_realtime = match obj_field(fields, "mistral_realtime") {
                Some(rv) => rt_from_json(rv),
                None => Some(MistralRealtimeConfig::default()),
            };
            let parakeet = match obj_field(fields, "parakeet") {
                Some(kv) => parakeet_from_json(kv),
                None => Some(ParakeetConfig::default()),
            };
            match (provider, whisper_cpp, mistral, mistral_realtime, parakeet) {
                (Some(p), Some(w), Some(m), Some(r2), Some(k)) => Some(TranscriberConfig {
                    provider: p,
                    whisper_cpp: w,
                    mistral: m,
                    mistral_realtime: r2,
                    parakeet: k,
                }),
                _ => None,
            }
        },
        _ => None,
    }
}

/// Decode the injection configuration from a JSON document.
pub fn injection_config_from_json(v: &Json) -> (r: Option<InjectionConfig>)
    ensures
        r matches Some(c) ==> dec_ic(v.deep()) == Some(c),
        r is None ==> dec_ic(v.deep()) is None,
{
    match v {
        Json::Obj(fields) => {
            match obj_field(fields, "typing_delay_ms") {
                Some(Json::Int(n)) => {
                    if *n <= u32::MAX as u64 {
                        Some(InjectionConfig { typing_delay_ms: *n as u32 })
                    } else {
                        None
                    }
                },
                Some(_) => None,
                None => Some(InjectionConfig { typing_delay_ms: DEFAULT_TYPING_DELAY_MS }),
            }
        },
        _ => None,
    }
}

/// The transcriber configuration as a JSON string.
pub fn transcriber_config_json(c: &TranscriberConfig) -> (r: String)
    ensures
        r@ == ser_val(enc_tc(c@)),
{
    let j = transcriber_config_to_json(c);
    json_to_string(&j)
}

/// The injection configuration as a JSON string.
pub fn injection_config_json(c: &InjectionConfig) -> (r: String)
    ensures
        r@ == ser_val(enc_ic(*c)),
{
    let j = injection_config_to_json(c);
    json_to_string(&j)
}

/// A provider's wire name as a JSON string literal.
pub fn provider_json(p: &TranscriberProvider) -> (r: String)
    ensures
        r@ == ser_val(JsonV::Str(p.spec_label())),
{
    let j = Json::Str(p.label());
    json_to_string(&j)
}

/// An execution provider's wire name as a JSON string literal.
pub fn execution_provider_json(p: &ExecutionProviderChoice) -> (r: String)
    ensures
        r@ == ser_val(JsonV::Str(p.spec_label())),
{
    let j = Json::Str(p.label());
    json_to_string(&j)
}

/// Parse a transcriber configuration from a JSON string.
pub fn parse_transcriber_config(s: &str) -> (r: Option<TranscriberConfig>)
    ensures
        r matches Some(c) ==> (parse_json_spec(s@) matches Some(j) && dec_tc(j) == Some(c@)),
        r is None ==> match parse_json_spec(s@) {
            Some(j) => dec_tc(j) is None,
            None => true,
        },
{
    match parse_json(s) {
        Some(j) => transcriber_config_from_json(&j),
        None => None,
    }
}

/// Parse an injection configuration from a JSON string.
pub fn parse_injection_config(s: &str) -> (r: Option<InjectionConfig>)
    ensures
        r matches Some(c) ==> (parse_json_spec(s@) matches Some(j) && dec_ic(j) == Some(c)),
        r is None ==> match parse_json_spec(s@) {
            Some(j) => dec_ic(j) is None,
            None => true,
        },
{
    match parse_json(s) {
        Some(j) => injection_config_from_json(&j),
        None => None,
    }
}

/// `obj_get` finds the field at `j` when no earlier field bears the key.
pub proof fn lemma_obj_get_at(fields: Seq<(Seq<char>, JsonV)>, key: Seq<char>, j: int)
    requires
        0 <= j < fields.len(),
        fields[j].0 == key,
        forall|i: int| 0 <= i < j ==> fields[i].0 != key,
    ensures
        obj_get(fields, key) == Some(fields[j].1),
    decreases j,
{
    if j > 0 {
        assert(fields[0].0 != key);
        assert(forall|i: int| 0 <= i < j - 1 ==> fields.drop_first()[i] == fields[i + 1]);
        lemma_obj_get_at(fields.drop_first(), key, j - 1);
    }
}

/// Decoding a list of encoded strings gives the strings back.
pub proof fn lemma_dec_str_all(args: Seq<Seq<char>>)
    ensures
        dec_str_seq(Seq::new(args.len(), |i: int| JsonV::Str(args[i]))) == Some(args),
    decreases args.len(),
{
    let items = Seq::new(args.len(), |i: int| JsonV::Str(args[i]));
    if args.len() == 0 {
        assert(args =~= Seq::<Seq<char>>::empty());
    } else {
        assert(items[0] == JsonV::Str(args[0]));
        assert(items.drop_first() =~= Seq::new(
            args.drop_first().len(),
            |i: int| JsonV::Str(args.drop_first()[i]),
        ));
        lemma_dec_str_all(args.drop_first());
        assert(seq![args[0]] + args.drop_first() =~= args);
    }
}

/// The subprocess settings survive the JSON round trip.
pub proof fn lemma_wc_round_trip(c: WhisperCppConfigV)
    ensures
        dec_wc(enc_wc(c)) == Some(c),
{
    reveal_strlit("command");
    reveal_strlit("args");
    assert("command"@.len() == 7);
    assert("args"@.len() == 4);
    let fields = match enc_wc(c) {
        JsonV::Obj(f) => f,
        _ => Seq::empty(),
    };
    lemma_obj_get_at(fields, "command"@, 0);
    lemma_obj_get_at(fields, "args"@, 1);
    lemma_dec_str_all(c.args);
}

/// The batch HTTP settings survive the JSON round trip.
pub proof fn lemma_mistral_round_trip(c: MistralConfigV)
    ensures
        dec_mistral(enc_mistral(c)) == Some(c),
{
    reveal_strlit("api_key");
    reveal_strlit("model");
    reveal_strlit("endpoint");
    assert("api_key"@.len() == 7);
    assert("model"@.len() == 5);
    assert("endpoint"@.len() == 8);
    let fields = match enc_mistral(c) {
        JsonV::Obj(f) => f,
        _ => Seq::empty(),
    };
    lemma_obj_get_at(fields, "api_key"@, 0);
    lemma_obj_get_at(fields, "model"@, 1);
    lemma_obj_get_at(fields, "endpoint"@, 2);
}

/// The streaming settings survive the JSON round trip.
pub proof fn lemma_rt_round_trip(c: MistralRealtimeConfigV)
    ensures
        dec_rt(enc_rt(c)) == Some(c),
{
    lemma_mistral_round_trip(
        MistralConfigV { api_key: c.api_key, model: c.model, endpoint: c.endpoint },
    );
}

/// The execution provider's wire name parses back to the same choice.
pub proof fn lemma_ep_label_round_trip(p: ExecutionProviderChoice)
    ensures
        ep_of_label(p.spec_label()) == Some(p),
{
    reveal_strlit("auto");
    reveal_strlit("cpu");
    reveal_strlit("cuda");
    assert("auto"@.len() == 4);
    assert("cpu"@.len() == 3);
    assert("cuda"@.len() == 4);
    assert("auto"@[0] == 'a');
    assert("cuda"@[0] == 'c');
}

/// The provider's wire name parses back to the same provider.
pub proof fn lemma_prov_label_round_trip(p: TranscriberProvider)
    ensures
        prov_of_label(p.spec_label()) == Some(p),
{
    reveal_strlit("whisper-cpp");
    reveal_strlit("mistral");
    reveal_strlit("mistral-realtime");
    reveal_strlit("parakeet");
    assert("whisper-cpp"@.len() == 11);
    assert("mistral"@.len() == 7);
    assert("mistral-realtime"@.len() == 16);
    assert("parakeet"@.len() == 8);
}

/// The local-inference settings survive the JSON round trip.
pub proof fn lemma_parakeet_round_trip(c: ParakeetConfigV)
    ensures
        dec_parakeet(enc_parakeet(c)) == Some(c),
{
    reveal_strlit("model");
    reveal_strlit("execution_provider");
    assert("model"@.len() == 5);
    assert("execution_provider"@.len() == 18);
    let fields = match enc_parakeet(c) {
        JsonV::Obj(f) => f,
        _ => Seq::empty(),
    };
    lemma_obj_get_at(fields, "model"@, 0);
    lemma_obj_get_at(fields, "execution_provider"@, 1);
    lemma_ep_label_round_trip(c.execution_provider);
}

/// A transcriber configuration encoded to JSON and decoded again is the
/// original: every field of every provider sub-record comes back unchanged.
pub proof fn lemma_transcriber_config_round_trip(c: TranscriberConfigV)
    ensures
        dec_tc(enc_tc(c)) == Some(c),
{
    reveal_strlit("provider");
    reveal_strlit("whisper_cpp");
    reveal_strlit("mistral");
    reveal_strlit("mistral_realtime");
    reveal_strlit("parakeet");
    assert("provider"@.len() == 8);
    assert("whisper_cpp"@.len() == 11);
    assert("mistral"@.len() == 7);
    assert("mistral_realtime"@.len() == 16);
    assert("parakeet"@.len() == 8);
    assert("provider"@[1] == 'r');
    assert("parakeet"@[1] == 'a');
    let fields = match enc_tc(c) {
        JsonV::Obj(f) => f,
        _ => Seq::empty(),
    };
    lemma_obj_get_at(fields, "provider"@, 0);
    lemma_obj_get_at(fields, "whisper_cpp"@, 1);
    lemma_obj_get_at(fields, "mistral"@, 2);
    lemma_obj_get_at(fields, "mistral_realtime"@, 3);
    lemma_obj_get_at(fields, "parakeet"@, 4);
    lemma_prov_label_round_trip(c.provider);
    lemma_wc_round_trip(c.whisper_cpp);
    lemma_mistral_round_trip(c.mistral);
    lemma_rt_round_trip(c.mistral_realtime);
    lemma_parakeet_round_trip(c.parakeet);
}

/// An injection configuration encoded to JSON and decoded again is the
/// original.
pub proof fn lemma_injection_config_round_trip(c: InjectionConfig)
    ensures
        dec_ic(enc_ic(c)) == Some(c),
{
    reveal_strlit("typing_delay_ms");
    let fields = match enc_ic(c) {
        JsonV::Obj(f) => f,
        _ => Seq::empty(),
    };
    lemma_obj_get_at(fields, "typing_delay_ms"@, 0);
}

/// A transcriber configuration written out as JSON text and parsed back is
/// the original: the text parses to the exact document written, and that
/// document decodes to the same configuration, field for field.
pub proof fn lemma_transcriber_config_text_round_trip(c: TranscriberConfigV)
    ensures
        parse_json_spec(ser_val(enc_tc(c))) == Some(enc_tc(c)),
        dec_tc(enc_tc(c)) == Some(c),
{
    crate::json::lemma_json_text_round_trip(enc_tc(c));
    lemma_transcriber_config_round_trip(c);
}

/// An injection configuration written out as JSON text and parsed back is
/// the original.
pub proof fn lemma_injection_config_text_round_trip(c: InjectionConfig)
    ensures
        parse_json_spec(ser_val(enc_ic(c))) == Some(enc_ic(c)),
        dec_ic(enc_ic(c)) == Some(c),
{
    crate::json::lemma_json_text_round_trip(enc_ic(c));
    lemma_injection_config_round_trip(c);
}

} // verus!

