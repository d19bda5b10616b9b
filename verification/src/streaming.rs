//! Real-time streaming transcription: the wire frames and the session's
//! decision core.
//!
//! The surrounding task owns the socket and the audio channel; every frame
//! or event is handed to `StreamingSession`, which updates its phase and
//! transcript and returns the one action to perform (send a frame, type a
//! delta, finish, fail).

use base64::Engine;
use vstd::prelude::*;

use crate::codec::obj_get;
use crate::json::deep_fields;
use crate::json::lemma_deep_fields_index;
use crate::json::json_to_string;
use crate::json::parse_json;
use crate::json::parse_json_spec;
use crate::json::ser_val;
use crate::json::Json;
use crate::json::JsonV;

verus! {

/// The bytes of one sample, least significant first.
pub open spec fn le_of(v: u16) -> Seq<u8> {
    seq![(v % 256) as u8, (v / 256) as u8]
}

/// The little-endian byte stream of a run of signed 16-bit samples.
pub open spec fn pcm_bytes(samples: Seq<i16>) -> Seq<u8>
    decreases samples.len(),
{
    if samples.len() == 0 {
        Seq::empty()
    } else {
        le_of(samples[0] as u16) + pcm_bytes(samples.drop_first())
    }
}

/// PCM bytes distribute over appending one sample.
pub proof fn lemma_pcm_bytes_snoc(samples: Seq<i16>, v: i16)
    ensures
        pcm_bytes(samples.push(v)) == pcm_bytes(samples) + le_of(v as u16),
    decreases samples.len(),
{
    if samples.len() == 0 {
        assert(samples.push(v)[0] == v);
        assert(samples.push(v).drop_first() =~= Seq::<i16>::empty());
        assert(pcm_bytes(samples.push(v)) == le_of(v as u16) + pcm_bytes(Seq::<i16>::empty()));
        assert(le_of(v as u16) + Seq::<u8>::empty() =~= le_of(v as u16));
        assert(pcm_bytes(samples) + le_of(v as u16) =~= le_of(v as u16));
    } else {
        assert(samples.push(v).drop_first() =~= samples.drop_first().push(v));
        lemma_pcm_bytes_snoc(samples.drop_first(), v);
        assert(pcm_bytes(samples.push(v)) =~= pcm_bytes(samples) + le_of(v as u16));
    }
}

/// The character of one six-bit group in the standard base64 alphabet.
pub open spec fn b64_char(v: nat) -> char
    recommends
        v < 64,
{
    if v < 26 {
        ((65 + v) as u32) as char
    } else if v < 52 {
        ((97 + (v - 26)) as u32) as char
    } else if v < 62 {
        ((48 + (v - 52)) as u32) as char
    } else if v == 62 {
        '+'
    } else {
        '/'
    }
}

/// Standard base64 with padding: three bytes become four characters, a
/// final group of one or two bytes is padded with `=`.
pub open spec fn base64_of(b: Seq<u8>) -> Seq<char>
    decreases b.len(),
{
    if b.len() == 0 {
        Seq::empty()
    } else if b.len() == 1 {
        seq![b64_char(b[0] as nat / 4), b64_char((b[0] as nat % 4) * 16), '=', '=']
    } else if b.len() == 2 {
        seq![
            b64_char(b[0] as nat / 4),
            b64_char((b[0] as nat % 4) * 16 + b[1] as nat / 16),
            b64_char((b[1] as nat % 16) * 4),
            '=',
        ]
    } else {
        seq![
            b64_char(b[0] as nat / 4),
            b64_char((b[0] as nat % 4) * 16 + b[1] as nat / 16),
            b64_char((b[1] as nat % 16) * 4 + b[2] as nat / 64),
            b64_char(b[2] as nat % 64),
        ] + base64_of(b.skip(3))
    }
}

/// Relies on the base64 crate's `STANDARD` engine: RFC 4648 base64 of the
/// input bytes, standard alphabet, `=` padding.
#[verifier::external_body]
fn b64_encode(bytes: &Vec<u8>) -> (r: String)
    ensures
        r@ == base64_of(bytes@),
{
    base64::engine::general_purpose::STANDARD.encode(bytes.as_slice())
}

/// The little-endian bytes of the samples.
fn pcm_le_bytes(samples: &Vec<i16>) -> (r: Vec<u8>)
    ensures
        r@ == pcm_bytes(samples@),
{
    let mut out: Vec<u8> = Vec::new();
    let mut i: usize = 0;
    proof {
        assert(pcm_bytes(samples@.take(0)) =~= Seq::<u8>::empty());
    }
    while i < samples.len()
        invariant
            i <= samples@.len(),
            out@ == pcm_bytes(samples@.take(i as int)),
        decreases samples@.len() - i,
    {
        let u = samples[i] as u16;
        out.push((u % 256) as u8);
        out.push((u / 256) as u8);
        proof {
            assert(samples@.take(i + 1 as int) =~= samples@.take(i as int).push(
                samples@[i as int],
            ));
            lemma_pcm_bytes_snoc(samples@.take(i as int), samples@[i as int]);
            assert(out@ =~= pcm_bytes(samples@.take(i + 1 as int)));
        }
        i = i + 1;
    }
    proof {
        assert(samples@.take(samples@.len() as int) =~= samples@);
    }
    out
}

/// Encode signed 16-bit samples as little-endian bytes, then base64.
pub fn encode_pcm_samples(samples: &Vec<i16>) -> (r: String)
    ensures
        r@ == base64_of(pcm_bytes(samples@)),
{
    let bytes = pcm_le_bytes(samples);
    b64_encode(&bytes)
}

/// The `session.update` frame declaring the audio format.
pub open spec fn session_update_v(sample_rate: u32) -> JsonV {
    JsonV::Obj(
        seq![
            ("type"@, JsonV::Str("session.update"@)),
            (
                "session"@,
                JsonV::Obj(
                    seq![
                        (
                            "audio_format"@,
                            JsonV::Obj(
                                seq![
                                    ("encoding"@, JsonV::Str("pcm_s16le"@)),
                                    ("sample_rate"@, JsonV::Int(sample_rate as u64)),
                                ],
                            ),
                        ),
                    ],
                ),
            ),
        ],
    )
}

/// The `input_audio.append` frame carrying one base64 audio chunk.
pub open spec fn audio_append_v(audio: Seq<char>) -> JsonV {
    JsonV::Obj(
        seq![
            ("type"@, JsonV::Str("input_audio.append"@)),
            ("audio"@, JsonV::Str(audio)),
        ],
    )
}

/// The `input_audio.end` frame.
pub open spec fn audio_end_v() -> JsonV {
    JsonV::Obj(seq![("type"@, JsonV::Str("input_audio.end"@))])
}

/// Build the `session.update` frame.
pub fn session_update_json(sample_rate: u32) -> (r: String)
    ensures
        r@ == ser_val(session_update_v(sample_rate)),
{
    let format_fields = vec![
        (String::from_str("encoding"), Json::Str(String::from_str("pcm_s16le"))),
        (String::from_str("sample_rate"), Json::Int(sample_rate as u64)),
    ];
    proof {
        lemma_deep_fields_index(format_fields@);
        assert(deep_fields(format_fields@) =~= seq![
            ("encoding"@, JsonV::Str("pcm_s16le"@)),
            ("sample_rate"@, JsonV::Int(sample_rate as u64)),
        ]);
    }
    let session_fields = vec![
        (String::from_str("audio_format"), Json::Obj(format_fields)),
    ];
    proof {
        lemma_deep_fields_index(session_fields@);
        assert(deep_fields(session_fields@) =~= seq![
            (
                "audio_format"@,
                JsonV::Obj(
                    seq![
                        ("encoding"@, JsonV::Str("pcm_s16le"@)),
                        ("sample_rate"@, JsonV::Int(sample_rate as u64)),
                    ],
                ),
            ),
        ]);
    }
    let fields = vec![
        (String::from_str("type"), Json::Str(String::from_str("session.update"))),
        (String::from_str("session"), Json::Obj(session_fields)),
    ];
    let j = Json::Obj(fields);
    proof {
        lemma_deep_fields_index(fields@);
        assert(deep_fields(fields@) =~= match session_update_v(sample_rate) {
            JsonV::Obj(f) => f,
            _ => Seq::empty(),
        });
    }
    json_to_string(&j)
}

/// Build an `input_audio.append` frame.
pub fn audio_append_json(audio: &str) -> (r: String)
    ensures
        r@ == ser_val(audio_append_v(audio@)),
{
    let fields = vec![
        (String::from_str("type"), Json::Str(String::from_str("input_audio.append"))),
        (String::from_str("audio"), Json::Str(audio.to_owned())),
    ];
    let j = Json::Obj(fields);
    proof {
        lemma_deep_fields_index(fields@);
        assert(j.deep() == audio_append_v(audio@)) by {
            assert(deep_fields(fields@) =~= match audio_append_v(audio@) {
                JsonV::Obj(f) => f,
                _ => Seq::empty(),
            });
        }
    }
    json_to_string(&j)
}

/// Build the `input_audio.end` frame.
pub fn audio_end_json() -> (r: String)
    ensures
        r@ == ser_val(audio_end_v()),
{
    let fields = vec![(String::from_str("type"), Json::Str(String::from_str("input_audio.end")))];
    let j = Json::Obj(fields);
    proof {
        lemma_deep_fields_index(fields@);
        assert(j.deep() == audio_end_v()) by {
            assert(deep_fields(fields@) =~= match audio_end_v() {
                JsonV::Obj(f) => f,
                _ => Seq::empty(),
            });
        }
    }
    json_to_string(&j)
}

/// One frame from the server: its kind tag and optional text payload.
#[derive(Debug)]
pub struct ServerMessage {
    pub kind: String,
    pub text: Option<String>,
}

/// What a server frame document holds: the `type` field is required, the
/// `text` field optional.
pub open spec fn dec_server_msg(v: JsonV) -> Option<(Seq<char>, Option<Seq<char>>)> {
    match v {
        JsonV::Obj(fields) => match obj_get(fields, "type"@) {
            Some(JsonV::Str(kind)) => match obj_get(fields, "text"@) {
                Some(tv) => match tv {
                    JsonV::Str(t) => Some((kind, Some(t))),
                    _ => None,
                },
                None => Some((kind, None)),
            },
            _ => None,
        },
        _ => None,
    }
}

/// The spec value of a parsed server message.
pub open spec fn server_msg_view(m: ServerMessage) -> (Seq<char>, Option<Seq<char>>) {
    (
        m.kind@,
        match m.text {
            Some(t) => Some(t@),
            None => None,
        },
    )
}

/// Parse one server frame.
pub fn parse_server_message(s: &str) -> (r: Option<ServerMessage>)
    ensures
        r matches Some(m) ==> (parse_json_spec(s@) matches Some(j) && dec_server_msg(j) == Some(
            server_msg_view(m),
        )),
        r is None ==> match parse_json_spec(s@) {
            Some(j) => dec_server_msg(j) is None,
            None => true,
        },
{
    match parse_json(s) {
        Some(Json::Obj(fields)) => {
            match crate::codec::obj_field(&fields, "type") {
                Some(Json::Str(kind)) => {
                    match crate::codec::obj_field(&fields, "text") {
                        Some(Json::Str(t)) => Some(
                            ServerMessage { kind: kind.clone(), text: Some(t.clone()) },
                        ),
                        Some(_) => None,
                        None => Some(ServerMessage { kind: kind.clone(), text: None }),
                    }
                },
                _ => None,
            }
        },
        Some(_) => None,
        None => None,
    }
}

/// Where a streaming session stands.
#[derive(Clone, Copy, Debug, PartialEq, Eq, Structural)]
pub enum StreamPhase {
    /// Connected; waiting for the server's `session.created`.
    AwaitingCreated,
    /// Session configured; audio flows and deltas arrive.
    Active,
    /// Audio ended; only server frames are read until `transcription.done`.
    Draining,
    /// Finished: no further frame has any effect.
    Done,
}

/// What the surrounding task must do after an event was applied.
#[derive(Debug)]
pub enum StreamAction {
    /// Nothing.
    Continue,
    /// Send this text frame to the server.
    Send(String),
    /// Type this delta now, before reading the next frame.
    Inject(String),
    /// The session is over: publish the transcript if one is given, then
    /// post injection-done.
    Finish { publish: Option<String> },
    /// A server error or early close: raise a session-class failure.
    Fail(String),
}

/// Decision state of one streaming transcription session.
pub struct StreamingSession {
    /// Where the session stands.
    pub phase: StreamPhase,
    /// Sample rate announced in `session.update`.
    pub sample_rate: u32,
    /// Text accumulated from the delta frames, in arrival order.
    pub transcript: String,
}

impl StreamingSession {
    /// A fresh session, waiting for the server's greeting.
    pub fn new(sample_rate: u32) -> (r: StreamingSession)
        ensures
            r.phase == StreamPhase::AwaitingCreated,
            r.sample_rate == sample_rate,
            r.transcript@ == Seq::<char>::empty(),
    {
        StreamingSession {
            phase: StreamPhase::AwaitingCreated,
            sample_rate,
            transcript: String::new(),
        }
    }

    /// Apply one text frame from the server; `raw` is the frame as
    /// received, used verbatim in error reports.
    ///
    /// Before the session is created only `session.created` matters, and it
    /// is answered with the `session.update` declaring the audio format.
    /// After that, each delta is typed at once and appended to the
    /// transcript; `transcription.done` finishes the session and publishes
    /// the transcript if it is non-empty; an `error` frame fails the
    /// session.  A finished session absorbs everything.
    pub fn on_server_message(&mut self, msg: &ServerMessage, raw: &str) -> (r: StreamAction)
        ensures
            final(self).sample_rate == old(self).sample_rate,
            r matches StreamAction::Finish { publish } ==> old(self).phase != StreamPhase::Done
                && final(self).phase == StreamPhase::Done,
            old(self).phase == StreamPhase::Done ==> *final(self) == *old(self) && (r matches
                StreamAction::Continue),
            old(self).phase == StreamPhase::AwaitingCreated ==> {
                &&& final(self).transcript == old(self).transcript
                &&& (msg.kind@ == "session.created"@ ==> final(self).phase == StreamPhase::Active
                    && (r matches StreamAction::Send(f) ==> f@ == ser_val(
                    session_update_v(old(self).sample_rate),
                )) && (r is Send))
                &&& (msg.kind@ != "session.created"@ ==> *final(self) == *old(self) && (r matches
                    StreamAction::Continue))
            },
            (old(self).phase == StreamPhase::Active || old(self).phase == StreamPhase::Draining)
                ==> {
                &&& (msg.kind@ == "transcription.text.delta"@ ==> {
                    &&& final(self).phase == old(self).phase
                    &&& (msg.text matches Some(d) ==> final(self).transcript@ == old(
                        self,
                    ).transcript@ + d@ && (r matches StreamAction::Inject(out) ==> out@ == d@) && (
                    r is Inject))
                    &&& (msg.text is None ==> *final(self) == *old(self) && (r matches
                        StreamAction::Continue))
                })
                &&& (msg.kind@ == "transcription.done"@ ==> {
                    &&& final(self).phase == StreamPhase::Done
                    &&& final(self).transcript == old(self).transcript
                    &&& (old(self).transcript@.len() > 0 ==> r == (StreamAction::Finish {
                        publish: Some(old(self).transcript),
                    }))
                    &&& (old(self).transcript@.len() == 0 ==> r == (StreamAction::Finish {
                        publish: None,
                    }))
                })
                &&& (msg.kind@ == "error"@ ==> {
                    &&& final(self).phase == StreamPhase::Done
                    &&& (msg.text matches Some(t) ==> r == StreamAction::Fail(t))
                    &&& (msg.text is None ==> (r matches StreamAction::Fail(e) ==> e@ == raw@) && (
                    r is Fail))
                })
                &&& (msg.kind@ != "transcription.text.delta"@ && msg.kind@
                    != "transcription.done"@ && msg.kind@ != "error"@ ==> *final(self) == *old(
                    self,
                ) && (r matches StreamAction::Continue))
            },
    {
        proof {
            reveal_strlit("session.created");
            reveal_strlit("transcription.text.delta");
            reveal_strlit("transcription.done");
            reveal_strlit("error");
            assert("session.created"@.len() == 15);
            assert("transcription.text.delta"@.len() == 24);
            assert("transcription.done"@.len() == 18);
            assert("error"@.len() == 5);
        }
        if self.phase == StreamPhase::Done {
            return StreamAction::Continue;
        }
        if self.phase == StreamPhase::AwaitingCreated {
            if msg.kind == String::from_str("session.created") {
                self.phase = StreamPhase::Active;
                return StreamAction::Send(session_update_json(self.sample_rate));
            }
            return StreamAction::Continue;
        }
        if msg.kind == String::from_str("transcription.text.delta") {
            match &msg.text {
                Some(d) => {
                    self.transcript.append(d.as_str());
                    StreamAction::Inject(d.clone())
                },
                None => StreamAction::Continue,
            }
        } else if msg.kind == String::from_str("transcription.done") {
            self.phase = StreamPhase::Done;
            if self.transcript.as_str().unicode_len() > 0 {
                StreamAction::Finish { publish: Some(self.transcript.clone()) }
            } else {
                StreamAction::Finish { publish: None }
            }
        } else if msg.kind == String::from_str("error") {
            self.phase = StreamPhase::Done;
            match &msg.text {
                Some(t) => StreamAction::Fail(t.clone()),
                None => StreamAction::Fail(raw.to_owned()),
            }
        } else {
            StreamAction::Continue
        }
    }

    /// Apply one chunk of captured audio: while the session is active it is
    /// encoded and sent; in any other phase it is dropped.
    pub fn on_audio_chunk(&mut self, samples: &Vec<i16>) -> (r: StreamAction)
        ensures
            *final(self) == *old(self),
            !(r matches StreamAction::Finish { publish }),
            old(self).phase == StreamPhase::Active ==> (r matches StreamAction::Send(f) ==> f@
                == ser_val(audio_append_v(base64_of(pcm_bytes(samples@))))) && (r is Send),
            old(self).phase != StreamPhase::Active ==> r matches StreamAction::Continue,
    {
        if self.phase == StreamPhase::Active {
            let encoded = encode_pcm_samples(samples);
            StreamAction::Send(audio_append_json(encoded.as_str()))
        } else {
            StreamAction::Continue
        }
    }

    /// The capture stopped (key toggled or channel closed): announce the
    /// end of audio once and drain until the server finishes.
    pub fn on_audio_end(&mut self) -> (r: StreamAction)
        ensures
            final(self).sample_rate == old(self).sample_rate,
            final(self).transcript == old(self).transcript,
            !(r matches StreamAction::Finish { publish }),
            old(self).phase == StreamPhase::Active ==> final(self).phase == StreamPhase::Draining
                && (r matches StreamAction::Send(f) ==> f@ == ser_val(audio_end_v())) && (
            r is Send),
            old(self).phase != StreamPhase::Active ==> *final(self) == *old(self) && (r matches
                StreamAction::Continue),
    {
        if self.phase == StreamPhase::Active {
            self.phase = StreamPhase::Draining;
            StreamAction::Send(audio_end_json())
        } else {
            StreamAction::Continue
        }
    }

    /// The socket closed without `transcription.done`: treat what arrived
    /// as the result and finish.
    pub fn on_socket_closed(&mut self) -> (r: StreamAction)
        ensures
            final(self).sample_rate == old(self).sample_rate,
            final(self).transcript == old(self).transcript,
            r matches StreamAction::Finish { publish } ==> old(self).phase != StreamPhase::Done
                && final(self).phase == StreamPhase::Done,
            old(self).phase == StreamPhase::Done ==> *final(self) == *old(self) && (r matches
                StreamAction::Continue),
            old(self).phase != StreamPhase::Done ==> {
                &&& final(self).phase == StreamPhase::Done
                &&& (old(self).transcript@.len() > 0 ==> r == (StreamAction::Finish {
                    publish: Some(old(self).transcript),
                }))
                &&& (old(self).transcript@.len() == 0 ==> r == (StreamAction::Finish {
                    publish: None,
                }))
            },
    {
        if self.phase == StreamPhase::Done {
            return StreamAction::Continue;
        }
        self.phase = StreamPhase::Done;
        if self.transcript.as_str().unicode_len() > 0 {
            StreamAction::Finish { publish: Some(self.transcript.clone()) }
        } else {
            StreamAction::Finish { publish: None }
        }
    }
}

} // verus!
