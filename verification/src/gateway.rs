//! The gateway connection core: frame envelope parsing, the Hello/Identify
//! handshake, and the dispatch of inbound frames into events, heartbeat
//! replies and fatal signals. The socket itself is driven by the caller;
//! this module decides, frame by frame, what happens next.

use vstd::prelude::*;
use crate::decode::{
    decode_message, decode_user, get_str_field, get_u64_field, spec_decode_message,
    spec_decode_user,
};
use crate::errors::GatewayError;
use crate::json::{
    json_array, json_clone, json_get, json_is_null, json_parse, json_str, json_u64, json_model,
    spec_get, spec_json_parse, spec_str_field, spec_u64_field, JsonData,
};
use crate::message::Message;
use crate::text::{escape_json, spec_escape_json, spec_u64_str, str_eq, u64_to_string};
use crate::user::{User, UserView};

verus! {

/// The fixed gateway endpoint, version- and encoding-qualified.
pub const GATEWAY_URL: &'static str = "wss://gateway.discord.gg/?v=10&encoding=json";

/// The envelope of every gateway frame: an opcode, an opaque payload, an
/// optional sequence number and an optional event name.
#[derive(Debug)]
pub struct GatewayPayload {
    pub op: u8,
    pub d: serde_json::Value,
    pub s: Option<u64>,
    pub t: Option<String>,
}

/// The mathematical view of a frame envelope: the opcode, the payload's
/// JSON model, and the optional sequence number and event name.
pub struct EnvelopeModel {
    pub op: u8,
    pub d: JsonData,
    pub s: Option<u64>,
    pub t: Option<Seq<char>>,
}

/// The view of a parsed envelope.
pub open spec fn payload_model(p: GatewayPayload) -> EnvelopeModel {
    EnvelopeModel {
        op: p.op,
        d: json_model(p.d),
        s: p.s,
        t: match p.t {
            Some(name) => Some(name@),
            None => None,
        },
    }
}

/// What a JSON value decodes to as a frame envelope, if anything: `op`
/// must be an integer at most 255 and `d` present; `s` and `t` may be
/// absent or null, and must be an integer and a string when present.
pub open spec fn spec_decode_envelope(v: JsonData) -> Option<EnvelopeModel> {
    match spec_get(v, "op"@) {
        Some(JsonData::Int(n)) => if n <= 255 {
            match spec_get(v, "d"@) {
                Some(d) => {
                    let s_field = match spec_get(v, "s"@) {
                        None => Some(None),
                        Some(JsonData::Null) => Some(None),
                        Some(JsonData::Int(m)) => Some(Some(m)),
                        Some(_) => None,
                    };
                    let t_field = match spec_get(v, "t"@) {
                        None => Some(None),
                        Some(JsonData::Null) => Some(None),
                        Some(JsonData::Str(name)) => Some(Some(name)),
                        Some(_) => None,
                    };
                    match s_field {
                        Some(s) => match t_field {
                            Some(t) => Some(EnvelopeModel { op: n as u8, d, s, t }),
                            None => None,
                        },
                        None => None,
                    }
                },
                None => None,
            }
        } else {
            None
        },
        _ => None,
    }
}

/// What frame text parses to as an envelope, if anything: the text must be
/// JSON, of the envelope shape.
pub open spec fn spec_parse_envelope(text: Seq<char>) -> Option<EnvelopeModel> {
    match spec_json_parse(text) {
        Some(v) => spec_decode_envelope(v),
        None => None,
    }
}

/// The Hello payload: the heartbeat cadence in milliseconds.
#[derive(Clone, Copy, Debug, PartialEq, Eq, Structural)]
pub struct HelloData {
    pub heartbeat_interval: u64,
}

/// What a JSON value decodes to as a Hello payload, if anything.
pub open spec fn spec_decode_hello(d: JsonData) -> Option<HelloData> {
    match spec_u64_field(d, "heartbeat_interval"@) {
        Some(n) => Some(HelloData { heartbeat_interval: n }),
        None => None,
    }
}

/// The client properties sent with Identify.
#[derive(Clone, Debug, PartialEq, Eq)]
pub struct IdentifyProperties {
    pub os: String,
    pub browser: String,
    pub device: String,
}

/// The Identify payload body: token, client properties and intents mask.
#[derive(Clone, Debug, PartialEq, Eq)]
pub struct IdentifyData {
    pub token: String,
    pub properties: IdentifyProperties,
    pub intents: u32,
}

/// A complete Identify frame.
#[derive(Clone, Debug, PartialEq, Eq)]
pub struct IdentifyPayload {
    pub op: u8,
    pub d: IdentifyData,
}

/// The Ready payload: the connected user, raw guild values, and the session
/// identifier the connection remembers.
#[derive(Debug)]
pub struct ReadyData {
    pub user: User,
    pub guilds: Vec<serde_json::Value>,
    pub session_id: String,
}

/// The mathematical view of a Ready payload; the raw guild values appear
/// as their JSON models.
pub struct ReadyView {
    pub user: UserView,
    pub guilds: Seq<JsonData>,
    pub session_id: Seq<char>,
}

impl View for ReadyData {
    type V = ReadyView;

    open spec fn view(&self) -> ReadyView {
        ReadyView {
            user: self.user@,
            guilds: self.guilds@.map_values(|g: serde_json::Value| json_model(g)),
            session_id: self.session_id@,
        }
    }
}

/// What a JSON value decodes to as a Ready payload, if anything: a nested
/// `user` record, an array `guilds`, a string `session_id`.
pub open spec fn spec_decode_ready(d: JsonData) -> Option<ReadyView> {
    match spec_get(d, "user"@) {
        Some(u) => match spec_decode_user(u) {
            Some(user) => match spec_get(d, "guilds"@) {
                Some(JsonData::Arr(guilds)) => match spec_str_field(d, "session_id"@) {
                    Some(session_id) => Some(ReadyView { user, guilds, session_id }),
                    None => None,
                },
                _ => None,
            },
            None => None,
        },
        None => None,
    }
}

/// A business event handed to the caller.
#[derive(Clone, Debug)]
pub enum Event {
    Ready { user: User, guilds: Vec<serde_json::Value>, session_id: String },
    MessageCreate(Message),
}

/// One message from the socket, as the transport hands it over.
#[derive(Debug)]
pub enum WireMessage {
    /// A text frame and its contents.
    Text(String),
    /// A close frame.
    Close,
    /// Any other kind of frame.
    Other,
}

/// What the read loop does after one inbound message.
#[derive(Debug)]
pub enum FrameAction {
    /// Hand this event to the caller.
    Deliver(Event),
    /// Write this text frame to the socket, then keep reading.
    Send(String),
    /// Keep reading; the message asked for nothing visible.
    Continue,
}

/// The serialised Identify frame for the given fields.
pub open spec fn spec_identify_json(
    op: nat,
    token: Seq<char>,
    os: Seq<char>,
    browser: Seq<char>,
    device: Seq<char>,
    intents: nat,
) -> Seq<char> {
    "{\"op\":"@ + spec_u64_str(op) + ",\"d\":{\"token\":\""@ + spec_escape_json(token)
        + "\",\"properties\":{\"os\":\""@ + spec_escape_json(os) + "\",\"browser\":\""@
        + spec_escape_json(browser) + "\",\"device\":\""@ + spec_escape_json(device)
        + "\"},\"intents\":"@ + spec_u64_str(intents) + "}}"@
}

impl IdentifyPayload {
    /// The Identify frame for a fresh connection: opcode 2, the caller's
    /// token, fixed client identification, and the full intents mask.
    pub fn new(token: String, os: String) -> (r: Self)
        ensures
            r.op == 2,
            r.d.token == token,
            r.d.properties.os == os,
            r.d.properties.browser@ == "discline"@,
            r.d.properties.device@ == "discline"@,
            r.d.intents == 32767u32,
    {
        IdentifyPayload {
            op: 2,
            d: IdentifyData {
                token,
                properties: IdentifyProperties {
                    os,
                    browser: "discline".to_owned(),
                    device: "discline".to_owned(),
                },
                intents: 32767,
            },
        }
    }

    /// Serialises the frame as JSON text, escaping the embedded strings.
    pub fn to_json(&self) -> (r: String)
        ensures
            r@ == spec_identify_json(
                self.op as nat,
                self.d.token@,
                self.d.properties.os@,
                self.d.properties.browser@,
                self.d.properties.device@,
                self.d.intents as nat,
            ),
    {
        "{\"op\":".to_owned().concat(u64_to_string(self.op as u64).as_str()).concat(
            ",\"d\":{\"token\":\"",
        ).concat(escape_json(self.d.token.as_str()).as_str()).concat(
            "\",\"properties\":{\"os\":\"",
        ).concat(escape_json(self.d.properties.os.as_str()).as_str()).concat(
            "\",\"browser\":\"",
        ).concat(escape_json(self.d.properties.browser.as_str()).as_str()).concat(
            "\",\"device\":\"",
        ).concat(escape_json(self.d.properties.device.as_str()).as_str()).concat(
            "\"},\"intents\":",
        ).concat(u64_to_string(self.d.intents as u64).as_str()).concat("}}")
    }
}

/// The serialised heartbeat frame: opcode 1 carrying the last seen sequence
/// number, or null when none has been seen yet.
pub open spec fn spec_heartbeat_json(seq_no: Option<u64>) -> Seq<char> {
    match seq_no {
        Some(n) => "{\"op\":1,\"d\":"@ + spec_u64_str(n as nat) + "}"@,
        None => "{\"op\":1,\"d\":null}"@,
    }
}

/// Serialises the heartbeat frame for the given sequence number.
pub fn heartbeat_json(seq_no: Option<u64>) -> (r: String)
    ensures
        r@ == spec_heartbeat_json(seq_no),
{
    match seq_no {
        Some(n) => "{\"op\":1,\"d\":".to_owned().concat(u64_to_string(n).as_str()).concat("}"),
        None => "{\"op\":1,\"d\":null}".to_owned(),
    }
}

/// Parses one frame envelope from JSON text: `op` and `d` are required,
/// `s` and `t` optional (absent or null both count as absent). Text that is
/// not JSON, or an envelope of the wrong shape, is a JSON error; anything
/// else yields exactly the modelled envelope.
pub fn parse_payload(text: &str) -> (r: Result<GatewayPayload, GatewayError>)
    ensures
        match spec_parse_envelope(text@) {
            Some(env) => r matches Ok(p) && payload_model(p) == env,
            None => r matches Err(GatewayError::Json(_)),
        },
{
    let v = match json_parse(text) {
        Ok(v) => v,
        Err(e) => return Err(GatewayError::Json(e)),
    };
    let op_num = match json_get(&v, "op") {
        Some(x) => match json_u64(x) {
            Some(n) => n,
            None => return Err(GatewayError::Json("frame opcode is not an integer".to_owned())),
        },
        None => return Err(GatewayError::Json("frame has no opcode".to_owned())),
    };
    if op_num > 255 {
        return Err(GatewayError::Json("frame opcode is out of range".to_owned()));
    }
    let d = match json_get(&v, "d") {
        Some(x) => json_clone(x),
        None => return Err(GatewayError::Json("frame has no payload".to_owned())),
    };
    let s = match json_get(&v, "s") {
        None => None,
        Some(x) => {
            if json_is_null(x) {
                None
            } else {
                match json_u64(x) {
                    Some(n) => Some(n),
                    None => return Err(
                        GatewayError::Json("frame sequence is not an integer".to_owned()),
                    ),
                }
            }
        },
    };
    let t = match json_get(&v, "t") {
        None => None,
        Some(x) => {
            if json_is_null(x) {
                None
            } else {
                match json_str(x) {
                    Some(name) => Some(name.to_owned()),
                    None => return Err(
                        GatewayError::Json("frame event name is not a string".to_owned()),
                    ),
                }
            }
        },
    };
    Ok(GatewayPayload { op: op_num as u8, d, s, t })
}

/// Decodes the Hello payload carried by the first frame, returning exactly
/// what `spec_decode_hello` says of the value's model.
pub fn decode_hello(v: &serde_json::Value) -> (r: Option<HelloData>)
    ensures
        r == spec_decode_hello(json_model(*v)),
{
    match get_u64_field(v, "heartbeat_interval") {
        Some(n) => Some(HelloData { heartbeat_interval: n }),
        None => None,
    }
}

/// Decodes the Ready payload — the user record, the raw guild list and the
/// session identifier — returning exactly what `spec_decode_ready` says of
/// the value's model.
pub fn decode_ready(v: &serde_json::Value) -> (r: Option<ReadyData>)
    ensures
        match spec_decode_ready(json_model(*v)) {
            Some(m) => r matches Some(rd) && rd@ == m,
            None => r is None,
        },
{
    let user = match json_get(v, "user") {
        Some(u) => match decode_user(u) {
            Some(u) => u,
            None => return None,
        },
        None => return None,
    };
    let guilds = match json_get(v, "guilds") {
        Some(g) => match json_array(g) {
            Some(a) => a,
            None => return None,
        },
        None => return None,
    };
    let session_id = match get_str_field(v, "session_id") {
        Some(s) => s,
        None => return None,
    };
    proof {
        let m = spec_decode_ready(json_model(*v))->0;
        assert(guilds@.map_values(|g: serde_json::Value| json_model(g)) =~= m.guilds);
    }
    Some(ReadyData { user, guilds, session_id })
}

/// The state of one gateway connection after a successful handshake.
#[derive(Debug)]
pub struct Gateway {
    /// The heartbeat cadence from Hello, in milliseconds.
    pub heartbeat_interval: u64,
    /// The last sequence number seen on any frame, echoed in heartbeats.
    pub last_sequence: Option<u64>,
    /// The token this connection identified with.
    pub token: String,
    /// The session identifier captured from Ready, once seen.
    pub session_id: Option<String>,
}

/// Everything `handle_frame` promises of one dispatched envelope: the
/// relation between the connection state before and after, the envelope's
/// model, and the outcome. Every frame's sequence number, when present,
/// becomes the remembered sequence; opcodes 7 and 9 are distinct fatal
/// errors; opcode 1 is answered with a heartbeat carrying the remembered
/// sequence; opcode 0 delivers exactly the decoded READY or MESSAGE_CREATE
/// payload, fails on a malformed one, and skips unrecognised names; every
/// other opcode is skipped; and the session identifier changes only when a
/// Ready event is delivered, to that event's session.
pub open spec fn spec_dispatch_post(
    pre: Gateway,
    post: Gateway,
    env: EnvelopeModel,
    r: Result<FrameAction, GatewayError>,
) -> bool {
    let seq_after = if env.s is Some {
        env.s
    } else {
        pre.last_sequence
    };
    &&& post.heartbeat_interval == pre.heartbeat_interval
    &&& post.token == pre.token
    &&& post.last_sequence == seq_after
    &&& (env.op == 7 ==> r == Err::<FrameAction, GatewayError>(GatewayError::ReconnectRequired))
    &&& (env.op == 9 ==> r == Err::<FrameAction, GatewayError>(
        GatewayError::AuthenticationFailed,
    ))
    &&& (env.op == 1 ==> (r matches Ok(FrameAction::Send(h)) && h@ == spec_heartbeat_json(
        seq_after,
    )))
    &&& (env.op == 11 ==> r == Ok::<FrameAction, GatewayError>(FrameAction::Continue))
    &&& (!(env.op == 0 || env.op == 1 || env.op == 7 || env.op == 9 || env.op == 11) ==> r
        == Ok::<FrameAction, GatewayError>(FrameAction::Continue))
    &&& (env.op == 0 && env.t is None ==> r == Ok::<FrameAction, GatewayError>(
        FrameAction::Continue,
    ))
    &&& (env.op == 0 && env.t is Some && env.t->0 != "READY"@ && env.t->0 != "MESSAGE_CREATE"@
        ==> r == Ok::<FrameAction, GatewayError>(FrameAction::Continue))
    &&& (env.op == 0 && env.t == Some("READY"@) ==> (match spec_decode_ready(env.d) {
        Some(m) => (r matches Ok(FrameAction::Deliver(Event::Ready { user, guilds, session_id }))
            && user@ == m.user && guilds@.map_values(|g: serde_json::Value| json_model(g))
            == m.guilds && session_id@ == m.session_id),
        None => r matches Err(GatewayError::Json(_)),
    }))
    &&& (env.op == 0 && env.t == Some("MESSAGE_CREATE"@) ==> (match spec_decode_message(env.d) {
        Some(m) => (r matches Ok(FrameAction::Deliver(Event::MessageCreate(msg))) && msg@ == m),
        None => r matches Err(GatewayError::Json(_)),
    }))
    &&& (r matches Ok(FrameAction::Deliver(Event::Ready { user, guilds, session_id })) ==> (
    env.op == 0 && env.t == Some("READY"@) && (post.session_id matches Some(sid) && sid@
        == session_id@)))
    &&& (r matches Ok(FrameAction::Deliver(Event::MessageCreate(m))) ==> (env.op == 0 && env.t
        == Some("MESSAGE_CREATE"@)))
    &&& (!(r matches Ok(FrameAction::Deliver(Event::Ready { .. }))) ==> post.session_id
        == pre.session_id)
}

impl Gateway {
    /// Validates the first frame of a connection and prepares the reply.
    /// The frame must carry opcode 10 (Hello); on a decodable heartbeat
    /// interval success is owed, and the result is the fresh connection
    /// state — holding exactly that interval — and the Identify text to
    /// send. A Hello whose payload does not decode is a JSON error; any
    /// other opcode is a protocol error; and no Identify text exists
    /// outside the success case.
    pub fn accept_hello(token: String, os: String, payload: GatewayPayload) -> (r: Result<
        (Gateway, String),
        GatewayError,
    >)
        ensures
            payload.op != 10 ==> (r matches Err(GatewayError::ProtocolError(m)) && m@
                == "Expected HELLO (10), got "@ + spec_u64_str(payload.op as nat)),
            payload.op == 10 ==> (match spec_decode_hello(json_model(payload.d)) {
                Some(h) => r matches Ok(p) && p.0.heartbeat_interval == h.heartbeat_interval,
                None => r matches Err(GatewayError::Json(_)),
            }),
            r matches Ok(p) ==> ({
                &&& payload.op == 10
                &&& p.0.token == token
                &&& p.0.last_sequence is None
                &&& p.0.session_id is None
                &&& p.1@ == spec_identify_json(
                    2,
                    token@,
                    os@,
                    "discline"@,
                    "discline"@,
                    32767,
                )
            }),
    {
        if payload.op != 10 {
            return Err(
                GatewayError::ProtocolError(
                    "Expected HELLO (10), got ".to_owned().concat(
                        u64_to_string(payload.op as u64).as_str(),
                    ),
                ),
            );
        }
        let hello = match decode_hello(&payload.d) {
            Some(h) => h,
            None => return Err(GatewayError::Json("malformed HELLO payload".to_owned())),
        };
        let identify = IdentifyPayload::new(token, os);
        let identify_text = identify.to_json();
        let gateway = Gateway {
            heartbeat_interval: hello.heartbeat_interval,
            last_sequence: None,
            token: identify.d.token,
            session_id: None,
        };
        Ok((gateway, identify_text))
    }

    /// Applies one parsed frame to the connection. Every frame's sequence
    /// number, when present, becomes the remembered sequence before anything
    /// else happens. Dispatch frames (opcode 0) deliver recognised events
    /// and silently skip unrecognised names; a heartbeat request (opcode 1)
    /// is answered with a heartbeat carrying the remembered sequence; an
    /// ack (opcode 11) and unknown opcodes are skipped; reconnect-required
    /// (opcode 7) and invalid-session (opcode 9) are distinct fatal errors.
    pub fn handle_frame(&mut self, payload: GatewayPayload) -> (r: Result<
        FrameAction,
        GatewayError,
    >)
        ensures
            spec_dispatch_post(*old(self), *final(self), payload_model(payload), r),
    {
        proof {
            reveal_strlit("READY");
            reveal_strlit("MESSAGE_CREATE");
            assert("READY"@.len() == 5);
            assert("MESSAGE_CREATE"@.len() == 14);
        }
        if let Some(n) = payload.s {
            self.last_sequence = Some(n);
        }
        match payload.op {
            0 => {
                match &payload.t {
                    None => Ok(FrameAction::Continue),
                    Some(name) => {
                        if str_eq(name.as_str(), "READY") {
                            match decode_ready(&payload.d) {
                                None => Err(
                                    GatewayError::Json("malformed READY payload".to_owned()),
                                ),
                                Some(ready) => {
                                    self.session_id = Some(ready.session_id.clone());
                                    Ok(
                                        FrameAction::Deliver(
                                            Event::Ready {
                                                user: ready.user,
                                                guilds: ready.guilds,
                                                session_id: ready.session_id,
                                            },
                                        ),
                                    )
                                },
                            }
                        } else if str_eq(name.as_str(), "MESSAGE_CREATE") {
                            match decode_message(&payload.d) {
                                None => Err(
                                    GatewayError::Json(
                                        "malformed MESSAGE_CREATE payload".to_owned(),
                                    ),
                                ),
                                Some(m) => Ok(FrameAction::Deliver(Event::MessageCreate(m))),
                            }
                        } else {
                            Ok(FrameAction::Continue)
                        }
                    },
                }
            },
            1 => Ok(FrameAction::Send(heartbeat_json(self.last_sequence))),
            11 => Ok(FrameAction::Continue),
            7 => Err(GatewayError::ReconnectRequired),
            9 => Err(GatewayError::AuthenticationFailed),
            _ => Ok(FrameAction::Continue),
        }
    }

    /// Applies one socket message: a close frame is the unexpected-closure
    /// error, any non-text frame is skipped, and a text frame is parsed —
    /// unparseable text is a JSON error that changes nothing — and its
    /// envelope dispatched exactly as `spec_dispatch_post` says.
    pub fn handle_message(&mut self, msg: WireMessage) -> (r: Result<FrameAction, GatewayError>)
        ensures
            final(self).heartbeat_interval == old(self).heartbeat_interval,
            final(self).token == old(self).token,
            msg is Close ==> r == Err::<FrameAction, GatewayError>(GatewayError::UnexpectedClose)
                && *final(self) == *old(self),
            msg is Other ==> r == Ok::<FrameAction, GatewayError>(FrameAction::Continue)
                && *final(self) == *old(self),
            msg matches WireMessage::Text(text) ==> (match spec_parse_envelope(text@) {
                Some(env) => spec_dispatch_post(*old(self), *final(self), env, r),
                None => r matches Err(GatewayError::Json(_)) && *final(self) == *old(self),
            }),
    {
        match msg {
            WireMessage::Close => Err(GatewayError::UnexpectedClose),
            WireMessage::Other => Ok(FrameAction::Continue),
            WireMessage::Text(text) => {
                match parse_payload(text.as_str()) {
                    Err(e) => Err(e),
                    Ok(payload) => self.handle_frame(payload),
                }
            },
        }
    }

    /// The heartbeat cadence the server announced, in milliseconds.
    pub fn heartbeat_interval(&self) -> (r: u64)
        ensures
            r == self.heartbeat_interval,
    {
        self.heartbeat_interval
    }

    /// The heartbeat frame the scheduler sends at each tick: it always
    /// carries the sequence number remembered at that moment.
    pub fn next_heartbeat(&self) -> (r: String)
        ensures
            r@ == spec_heartbeat_json(self.last_sequence),
    {
        heartbeat_json(self.last_sequence)
    }
}

} // verus!
