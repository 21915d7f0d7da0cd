//! The Discord adapter: the gateway protocol with its op-codes for inbound
//! messages, the REST API for sends.

use vstd::prelude::*;
use crate::im::backoff::{min_nat, ReconnectPolicy, INITIAL_RECONNECT_DELAY_MS, MAX_RECONNECT_DELAY_MS};
use crate::im::gateway::{
    deliver_one, events_view, messages_view, not_connected, not_connected_text, once, opt_text,
    outbound_view, report_skip, start_gate, Capabilities, Gateway, GatewayEvent, GatewayEventView,
    GatewayStatus, GatewayStatusView, IMMessage, IMMessageView, NextStep, NextStepView, Outbound,
    OutboundView, StartGate, StartReport, StartReportView,
};
use crate::im::http::{
    json_opt_number, HttpBodyView, HttpMethod, HttpRequest, HttpRequestView, Json, JsonView,
    MultipartForm, MultipartFormView, ObjectBuilder, Pairs,
};
use crate::im::json::{i64_of, member, object_member, parse, parsed_json, text_of, u64_of, value_model};
use crate::im::text::{
    concat2, concat3, decimal_text, i64_to_string, lowercase, path_extension, path_file_name,
    same_text, str_eq, text_or_empty, to_lowercase,
};

verus! {

/// What a `DiscordConfig` holds.
pub struct DiscordConfigView {
    pub enabled: bool,
    pub bot_token: Seq<char>,
    pub debug: Option<bool>,
}

/// Configuration of the Discord adapter.
#[derive(Debug)]
pub struct DiscordConfig {
    pub enabled: bool,
    pub bot_token: String,
    pub debug: Option<bool>,
}

impl View for DiscordConfig {
    type V = DiscordConfigView;

    open spec fn view(&self) -> DiscordConfigView {
        DiscordConfigView { enabled: self.enabled, bot_token: self.bot_token@, debug: self.debug }
    }
}

impl Default for DiscordConfig {
    fn default() -> (c: DiscordConfig)
        ensures
            c@ == (DiscordConfigView { enabled: false, bot_token: Seq::empty(), debug: Some(false) }),
    {
        DiscordConfig { enabled: false, bot_token: String::new(), debug: Some(false) }
    }
}

impl Clone for DiscordConfig {
    fn clone(&self) -> (c: DiscordConfig)
        ensures
            c@ == self@,
    {
        DiscordConfig { enabled: self.enabled, bot_token: self.bot_token.clone(), debug: self.debug }
    }
}

/// Where the gateway is reached.
pub open spec fn gateway_url() -> Seq<char> {
    "wss://gateway.discord.gg/?v=10&encoding=json"@
}

/// The server greets and names the heartbeat interval.
pub const OP_HELLO: i64 = 10;

/// The client names itself.
pub const OP_IDENTIFY: i64 = 2;

/// The client shows that it is alive.
pub const OP_HEARTBEAT: i64 = 1;

/// The server has seen a heartbeat.
pub const OP_HEARTBEAT_ACK: i64 = 11;

/// The server asks for a new connection.
pub const OP_RECONNECT: i64 = 7;

/// The server has dropped the session.
pub const OP_INVALID_SESSION: i64 = 9;

/// The events that the adapter asks for: guilds and their messages.
pub const INTENTS: i64 = 513;

/// The heartbeat interval until the server names one, in milliseconds.
pub const DEFAULT_HEARTBEAT_INTERVAL_MS: u64 = 41250;

/// What a gateway frame holds.
pub struct PayloadView {
    pub op: i64,
    pub d: JsonView,
    pub s: Option<i64>,
    pub t: Option<Seq<char>>,
}

/// An optional whole number under `key`: nothing where the member is
/// missing or null. A member of another kind makes the frame unreadable.
pub open spec fn opt_i64_member(doc: JsonView, key: Seq<char>) -> Option<Option<i64>> {
    match object_member(doc, key) {
        None => Some(None),
        Some(v) => if v is Null {
            Some(None)
        } else {
            match i64_of(v) {
                Some(n) => Some(Some(n)),
                None => None,
            }
        },
    }
}

/// An optional text under `key`: nothing where the member is missing or
/// null. A member of another kind makes the frame unreadable.
pub open spec fn opt_text_member(doc: JsonView, key: Seq<char>) -> Option<Option<Seq<char>>> {
    match object_member(doc, key) {
        None => Some(None),
        Some(v) => if v is Null {
            Some(None)
        } else {
            match text_of(v) {
                Some(s) => Some(Some(s)),
                None => None,
            }
        },
    }
}

/// The frame that a document stands for: it needs an op-code that fits 32
/// bits and a member `d`; `s` and `t` may be missing.
pub open spec fn payload_of(doc: JsonView) -> Option<PayloadView> {
    match object_member(doc, "op"@) {
        None => None,
        Some(op_value) => match i64_of(op_value) {
            None => None,
            Some(op) => if op < i32::MIN || op > i32::MAX {
                None
            } else {
                match object_member(doc, "d"@) {
                    None => None,
                    Some(d) => match opt_i64_member(doc, "s"@) {
                        None => None,
                        Some(s) => match opt_text_member(doc, "t"@) {
                            None => None,
                            Some(t) => Some(PayloadView { op, d, s, t }),
                        },
                    },
                }
            },
        },
    }
}

/// The text under `key`, or the empty text where there is none.
pub open spec fn text_member_or_empty(doc: JsonView, key: Seq<char>) -> Seq<char> {
    match object_member(doc, key) {
        Some(v) => text_or_empty(text_of(v)),
        None => Seq::empty(),
    }
}

/// The text under `key` of the author of a message.
pub open spec fn author_member(d: JsonView, key: Seq<char>) -> Seq<char> {
    match object_member(d, "author"@) {
        Some(author) => text_member_or_empty(author, key),
        None => Seq::empty(),
    }
}

/// The message that a `MESSAGE_CREATE` event reports at `now`: it needs a
/// text that is not empty and an author other than the bot itself.
pub open spec fn created_message(d: JsonView, bot: Option<Seq<char>>, now: i64) -> Option<IMMessageView> {
    match object_member(d, "content"@) {
        None => None,
        Some(content_value) => match text_of(content_value) {
            None => None,
            Some(content) => if content.len() == 0 || bot == Some(author_member(d, "id"@)) {
                None
            } else {
                Some(
                    IMMessageView {
                        id: text_member_or_empty(d, "id"@),
                        platform: "discord"@,
                        channel_id: text_member_or_empty(d, "channel_id"@),
                        user_id: author_member(d, "id"@),
                        user_name: author_member(d, "username"@),
                        content,
                        timestamp: now,
                        is_mention: false,
                    },
                )
            },
        },
    }
}

/// What the gateway session of an adapter remembers.
pub struct SessionView {
    /// The last sequence number seen.
    pub seq: Option<i64>,
    /// The heartbeat interval that the server named, in milliseconds.
    pub heartbeat_interval: Option<u64>,
    /// The channel of the last inbound message.
    pub last_channel: Option<Seq<char>>,
    /// The bot's own user id, as the start confirmed it.
    pub bot_user_id: Option<Seq<char>>,
}

/// What a frame asks for.
pub struct FrameOutcomeView {
    /// Whether the client has to name itself.
    pub identify: bool,
    /// Whether the connection has to be given up and made anew.
    pub reconnect: bool,
    /// The message to report.
    pub message: Option<IMMessageView>,
}

/// A frame that asks for nothing.
pub open spec fn no_outcome() -> FrameOutcomeView {
    FrameOutcomeView { identify: false, reconnect: false, message: None }
}

/// The session with the sequence number of a frame taken in.
pub open spec fn with_seq(session: SessionView, s: Option<i64>) -> SessionView {
    match s {
        Some(n) => SessionView { seq: Some(n), ..session },
        None => session,
    }
}

/// What a frame does to the session at `now`, and what it asks for. The
/// sequence number of every readable frame is kept. A greeting names the
/// heartbeat interval and asks for the identification; an acknowledgement
/// asks for nothing; a call to reconnect and a dropped session end the
/// connection; a message of somebody else is reported and its channel
/// becomes the last conversation. Anything else is ignored.
pub open spec fn frame_effect(session: SessionView, doc: Option<JsonView>, now: i64) -> (
    SessionView,
    FrameOutcomeView,
) {
    match doc {
        None => (session, no_outcome()),
        Some(document) => match payload_of(document) {
            None => (session, no_outcome()),
            Some(payload) => {
                let seen = with_seq(session, payload.s);
                if payload.op == OP_HELLO {
                    match object_member(payload.d, "heartbeat_interval"@) {
                        None => (seen, no_outcome()),
                        Some(v) => match u64_of(v) {
                            None => (seen, no_outcome()),
                            Some(interval) => (
                                SessionView { heartbeat_interval: Some(interval), ..seen },
                                FrameOutcomeView { identify: true, ..no_outcome() },
                            ),
                        },
                    }
                } else if payload.op == OP_HEARTBEAT_ACK {
                    (seen, no_outcome())
                } else if payload.op == OP_RECONNECT || payload.op == OP_INVALID_SESSION {
                    (seen, FrameOutcomeView { reconnect: true, ..no_outcome() })
                } else if payload.t == Some("MESSAGE_CREATE"@) {
                    match created_message(payload.d, session.bot_user_id, now) {
                        None => (seen, no_outcome()),
                        Some(message) => (
                            SessionView { last_channel: Some(message.channel_id), ..seen },
                            FrameOutcomeView { message: Some(message), ..no_outcome() },
                        ),
                    }
                } else {
                    (seen, no_outcome())
                }
            },
        },
    }
}

/// The frame by which the client names itself.
pub open spec fn identify_payload_of(token: Seq<char>) -> JsonView {
    JsonView::Object(
        Seq::empty().push(("op"@, JsonView::Number(OP_IDENTIFY as int))).push(
            (
                "d"@,
                JsonView::Object(
                    Seq::empty().push(("token"@, JsonView::Text(token))).push(
                        ("intents"@, JsonView::Number(INTENTS as int)),
                    ).push(
                        (
                            "properties"@,
                            JsonView::Object(
                                Seq::empty().push(("os"@, JsonView::Text("desktop"@))).push(
                                    ("browser"@, JsonView::Text("GloAI"@)),
                                ).push(("device"@, JsonView::Text("GloAI"@))),
                            ),
                        ),
                    ),
                ),
            ),
        ),
    )
}

/// The heartbeat frame: it carries the last sequence number seen, or null.
pub open spec fn heartbeat_payload_of(seq: Option<i64>) -> JsonView {
    JsonView::Object(
        Seq::empty().push(("op"@, JsonView::Number(OP_HEARTBEAT as int))).push(
            (
                "d"@,
                match seq {
                    Some(n) => JsonView::Number(n as int),
                    None => JsonView::Null,
                },
            ),
        ),
    )
}

/// What a frame asks for.
#[derive(Debug)]
pub struct FrameOutcome {
    /// The frame to send back, where the client has to name itself.
    pub send: Option<Json>,
    /// Whether the connection has to be given up and made anew.
    pub reconnect: bool,
    /// The events to report.
    pub events: Vec<GatewayEvent>,
}

impl FrameOutcome {
    /// Whether this is what `outcome` asks for on behalf of the bot with
    /// `token`.
    pub open spec fn reports(&self, outcome: FrameOutcomeView, token: Seq<char>) -> bool {
        &&& self.reconnect == outcome.reconnect
        &&& match self.send {
            Some(frame) => outcome.identify && frame@ == identify_payload_of(token),
            None => !outcome.identify,
        }
        &&& events_view(self.events@) == match outcome.message {
            Some(m) => seq![GatewayEventView::Message(m)],
            None => Seq::empty(),
        }
    }
}

struct Payload<'a> {
    op: i64,
    d: &'a serde_json::Value,
    s: Option<i64>,
    t: Option<String>,
}

fn read_opt_i64(doc: &serde_json::Value, key: &str) -> (r: Option<Option<i64>>)
    ensures
        r == opt_i64_member(value_model(*doc), key@),
{
    match member(doc, key) {
        None => Some(None),
        Some(v) => {
            if v.is_null() {
                Some(None)
            } else {
                match v.as_i64() {
                    Some(n) => Some(Some(n)),
                    None => None,
                }
            }
        },
    }
}

fn read_opt_text(doc: &serde_json::Value, key: &str) -> (r: Option<Option<String>>)
    ensures
        match r {
            Some(inner) => opt_text_member(value_model(*doc), key@) == Some(opt_text(inner)),
            None => opt_text_member(value_model(*doc), key@) is None,
        },
{
    match member(doc, key) {
        None => Some(None),
        Some(v) => {
            if v.is_null() {
                Some(None)
            } else {
                match v.as_str() {
                    Some(s) => Some(Some(s.to_string())),
                    None => None,
                }
            }
        },
    }
}

fn read_text_or_empty(doc: &serde_json::Value, key: &str) -> (r: String)
    ensures
        r@ == text_member_or_empty(value_model(*doc), key@),
{
    match member(doc, key) {
        Some(v) => match v.as_str() {
            Some(s) => s.to_string(),
            None => String::new(),
        },
        None => String::new(),
    }
}

fn read_author(d: &serde_json::Value, key: &str) -> (r: String)
    ensures
        r@ == author_member(value_model(*d), key@),
{
    match member(d, "author") {
        Some(author) => read_text_or_empty(author, key),
        None => String::new(),
    }
}

fn read_payload<'a>(doc: &'a serde_json::Value) -> (r: Option<Payload<'a>>)
    ensures
        match r {
            Some(p) => payload_of(value_model(*doc)) == Some(
                PayloadView { op: p.op, d: value_model(*p.d), s: p.s, t: opt_text(p.t) },
            ),
            None => payload_of(value_model(*doc)) is None,
        },
{
    let op = match member(doc, "op") {
        None => {
            return None;
        },
        Some(v) => match v.as_i64() {
            None => {
                return None;
            },
            Some(op) => op,
        },
    };
    if op < -2147483648 || op > 2147483647 {
        return None;
    }
    let d = match member(doc, "d") {
        None => {
            return None;
        },
        Some(d) => d,
    };
    let s = match read_opt_i64(doc, "s") {
        None => {
            return None;
        },
        Some(s) => s,
    };
    let t = match read_opt_text(doc, "t") {
        None => {
            return None;
        },
        Some(t) => t,
    };
    Some(Payload { op, d, s, t })
}

fn is_text(o: &Option<String>, expected: &str) -> (b: bool)
    ensures
        b == (opt_text(*o) == Some(expected@)),
{
    match o {
        Some(s) => {
            let b = str_eq(s.as_str(), expected);
            assert(same_text(s@, expected@) == (opt_text(*o) == Some(expected@)));
            b
        },
        None => false,
    }
}

fn read_created(d: &serde_json::Value, bot: &Option<String>, now: i64) -> (r: Option<IMMessage>)
    ensures
        match r {
            Some(m) => created_message(value_model(*d), opt_text(*bot), now) == Some(m@),
            None => created_message(value_model(*d), opt_text(*bot), now) is None,
        },
{
    let content = match member(d, "content") {
        None => {
            return None;
        },
        Some(v) => match v.as_str() {
            None => {
                return None;
            },
            Some(s) => s.to_string(),
        },
    };
    let user_id = read_author(d, "id");
    if content.as_str().is_empty() || is_text(bot, user_id.as_str()) {
        return None;
    }
    Some(
        IMMessage {
            id: read_text_or_empty(d, "id"),
            platform: "discord".to_string(),
            channel_id: read_text_or_empty(d, "channel_id"),
            user_id,
            user_name: read_author(d, "username"),
            content,
            timestamp: now,
            is_mention: false,
        },
    )
}

/// Where the REST API answers.
pub open spec fn api_url_of(endpoint: Seq<char>) -> Seq<char> {
    "https://discord.com/api/v10"@ + endpoint
}

/// The address of the messages of a channel.
pub open spec fn messages_url_of(channel_id: Seq<char>) -> Seq<char> {
    "https://discord.com/api/v10/channels/"@ + channel_id + "/messages"@
}

/// The address of one message of a channel.
pub open spec fn message_url_of(channel_id: Seq<char>, message_id: Seq<char>) -> Seq<char> {
    messages_url_of(channel_id) + "/"@ + message_id
}

/// The header that authorises a request.
pub open spec fn bot_header_of(token: Seq<char>) -> (Seq<char>, Seq<char>) {
    ("Authorization"@, "Bot "@ + token)
}

/// The headers of a request with a JSON body.
pub open spec fn json_headers_of(token: Seq<char>) -> Seq<(Seq<char>, Seq<char>)> {
    Seq::empty().push(bot_header_of(token)).push(("Content-Type"@, "application/json"@))
}

/// The body that carries a text.
pub open spec fn content_body(content: Seq<char>) -> JsonView {
    JsonView::Object(Seq::empty().push(("content"@, JsonView::Text(content))))
}

/// The request that asks the platform who the bot is.
pub open spec fn current_user_request_of(token: Seq<char>) -> HttpRequestView {
    HttpRequestView {
        method: HttpMethod::Get,
        url: api_url_of("/users/@me"@),
        query: Seq::empty(),
        headers: json_headers_of(token),
        body: HttpBodyView::Empty,
    }
}

/// The request that posts `content` into a channel.
pub open spec fn send_request_of(token: Seq<char>, channel_id: Seq<char>, content: Seq<char>) -> HttpRequestView {
    HttpRequestView {
        method: HttpMethod::Post,
        url: messages_url_of(channel_id),
        query: Seq::empty(),
        headers: json_headers_of(token),
        body: HttpBodyView::Json(content_body(content)),
    }
}

/// The request that replaces the text of a message.
pub open spec fn edit_request_of(
    token: Seq<char>,
    channel_id: Seq<char>,
    message_id: Seq<char>,
    content: Seq<char>,
) -> HttpRequestView {
    HttpRequestView {
        method: HttpMethod::Patch,
        url: message_url_of(channel_id, message_id),
        query: Seq::empty(),
        headers: Seq::empty().push(bot_header_of(token)),
        body: HttpBodyView::Json(content_body(content)),
    }
}

/// The request that deletes a message.
pub open spec fn delete_request_of(token: Seq<char>, channel_id: Seq<char>, message_id: Seq<char>) -> HttpRequestView {
    HttpRequestView {
        method: HttpMethod::Delete,
        url: message_url_of(channel_id, message_id),
        query: Seq::empty(),
        headers: Seq::empty().push(bot_header_of(token)),
        body: HttpBodyView::Empty,
    }
}

/// The request that reads the last `limit` messages of a channel.
pub open spec fn history_request_of(token: Seq<char>, channel_id: Seq<char>, limit: u32) -> HttpRequestView {
    HttpRequestView {
        method: HttpMethod::Get,
        url: messages_url_of(channel_id) + "?limit="@ + decimal_text(limit as int),
        query: Seq::empty(),
        headers: Seq::empty().push(bot_header_of(token)),
        body: HttpBodyView::Empty,
    }
}

/// The content type under which a file with the extension `ext`, given in
/// lower case, is posted.
pub open spec fn content_type_of(ext: Seq<char>) -> Seq<char> {
    if ext == "jpg"@ || ext == "jpeg"@ || ext == "png"@ || ext == "gif"@ || ext == "bmp"@ || ext == "webp"@ {
        "image/png"@
    } else if ext == "mp4"@ || ext == "avi"@ || ext == "mov"@ || ext == "webm"@ {
        "video/mp4"@
    } else if ext == "mp3"@ || ext == "wav"@ || ext == "ogg"@ {
        "audio/mpeg"@
    } else {
        "application/octet-stream"@
    }
}

/// The content type for a file extension in lower case.
pub fn content_type_for(ext: &str) -> (mime: &'static str)
    ensures
        mime@ == content_type_of(ext@),
{
    if str_eq(ext, "jpg") || str_eq(ext, "jpeg") || str_eq(ext, "png") || str_eq(ext, "gif") || str_eq(
        ext,
        "bmp",
    ) || str_eq(ext, "webp") {
        "image/png"
    } else if str_eq(ext, "mp4") || str_eq(ext, "avi") || str_eq(ext, "mov") || str_eq(ext, "webm") {
        "video/mp4"
    } else if str_eq(ext, "mp3") || str_eq(ext, "wav") || str_eq(ext, "ogg") {
        "audio/mpeg"
    } else {
        "application/octet-stream"
    }
}

/// The request that posts the file at `file_path` into a channel.
pub open spec fn media_request_of(
    token: Seq<char>,
    channel_id: Seq<char>,
    file_path: Seq<char>,
    file_name: Seq<char>,
    ext: Seq<char>,
) -> HttpRequestView {
    HttpRequestView {
        method: HttpMethod::Post,
        url: messages_url_of(channel_id),
        query: Seq::empty(),
        headers: Seq::empty().push(bot_header_of(token)),
        body: HttpBodyView::Multipart(
            MultipartFormView {
                text_fields: Seq::empty().push(("content"@, Seq::empty())),
                file_field: "file"@,
                file_path,
                file_name,
                mime_type: Some(content_type_of(ext)),
            },
        ),
    }
}

/// What a `DiscordHistoryMessage` holds.
pub struct DiscordHistoryMessageView {
    pub id: Seq<char>,
    pub author_id: Seq<char>,
    pub author_name: Seq<char>,
    pub content: Seq<char>,
}

/// A message of a channel's history, as the platform lists it.
#[derive(Debug)]
pub struct DiscordHistoryMessage {
    pub id: String,
    pub author_id: String,
    pub author_name: String,
    pub content: String,
}

impl View for DiscordHistoryMessage {
    type V = DiscordHistoryMessageView;

    open spec fn view(&self) -> DiscordHistoryMessageView {
        DiscordHistoryMessageView {
            id: self.id@,
            author_id: self.author_id@,
            author_name: self.author_name@,
            content: self.content@,
        }
    }
}

/// The normalized form of a message of the history of `channel_id`, read at
/// `now`.
pub open spec fn history_entry_of(channel_id: Seq<char>, message: DiscordHistoryMessageView, now: i64) -> IMMessageView {
    IMMessageView {
        id: message.id,
        platform: "discord"@,
        channel_id,
        user_id: message.author_id,
        user_name: message.author_name,
        content: message.content,
        timestamp: now,
        is_mention: false,
    }
}

/// The history of `conversation_id` as normalized messages; each carries the
/// time `now` at which it was read.
pub fn history_from_reply(conversation_id: &str, messages: &Vec<DiscordHistoryMessage>, now: i64) -> (list: Vec<
    IMMessage,
>)
    ensures
        messages_view(list@) == Seq::new(
            messages@.len(),
            |i: int| history_entry_of(conversation_id@, messages@[i]@, now),
        ),
{
    let mut list: Vec<IMMessage> = Vec::new();
    let mut i: usize = 0;
    while i < messages.len()
        invariant
            i <= messages.len(),
            list.len() == i,
            forall|j: int|
                0 <= j < i ==> (#[trigger] list@[j])@ == history_entry_of(conversation_id@, messages@[j]@, now),
        decreases messages.len() - i,
    {
        let m = &messages[i];
        list.push(
            IMMessage {
                id: m.id.clone(),
                platform: "discord".to_string(),
                channel_id: conversation_id.to_string(),
                user_id: m.author_id.clone(),
                user_name: m.author_name.clone(),
                content: m.content.clone(),
                timestamp: now,
                is_mention: false,
            },
        );
        i += 1;
    }
    assert(messages_view(list@) =~= Seq::new(
        messages@.len(),
        |i: int| history_entry_of(conversation_id@, messages@[i]@, now),
    ));
    list
}

/// What a send of `text` comes to.
pub open spec fn message_of(
    status: GatewayStatusView,
    token: Seq<char>,
    channel: Option<Seq<char>>,
    text: Seq<char>,
) -> Result<OutboundView, Seq<char>> {
    if !status.connected {
        Err(not_connected_text())
    } else {
        match channel {
            Some(channel_id) => Ok(OutboundView::Deliver(seq![once(send_request_of(token, channel_id, text))])),
            None => Err("没有可用的聊天频道"@),
        }
    }
}

/// What one request on a connected adapter comes to.
pub open spec fn when_connected(status: GatewayStatusView, request: HttpRequestView) -> Result<OutboundView, Seq<char>> {
    if !status.connected {
        Err(not_connected_text())
    } else {
        Ok(OutboundView::Deliver(seq![once(request)]))
    }
}

/// The Discord adapter.
pub struct DiscordGateway {
    config: DiscordConfig,
    status: GatewayStatus,
    last_channel_id: Option<String>,
    bot_user_id: Option<String>,
    seq: Option<i64>,
    heartbeat_interval: Option<u64>,
    policy: ReconnectPolicy,
}

impl DiscordGateway {
    /// The configuration.
    pub closed spec fn config(&self) -> DiscordConfigView {
        self.config@
    }

    /// What the gateway session remembers.
    pub closed spec fn session(&self) -> SessionView {
        SessionView {
            seq: self.seq,
            heartbeat_interval: self.heartbeat_interval,
            last_channel: opt_text(self.last_channel_id),
            bot_user_id: opt_text(self.bot_user_id),
        }
    }

    /// The reconnect policy.
    pub closed spec fn policy(&self) -> ReconnectPolicy {
        self.policy
    }

    /// An adapter that was never started.
    pub fn new(config: DiscordConfig) -> (g: DiscordGateway)
        ensures
            g.policy().backoff().initial_ms() == INITIAL_RECONNECT_DELAY_MS,
            g.policy().backoff().max_ms() == MAX_RECONNECT_DELAY_MS,
            g.config() == config@,
            g.status() == GatewayStatusView::initial(),
            g.session() == (SessionView {
                seq: None,
                heartbeat_interval: None,
                last_channel: None,
                bot_user_id: None,
            }),
            !g.policy().stopping(),
            g.policy().backoff().is_reset(),
    {
        DiscordGateway {
            config,
            status: GatewayStatus::default(),
            last_channel_id: None,
            bot_user_id: None,
            seq: None,
            heartbeat_interval: None,
            policy: ReconnectPolicy::new(),
        }
    }

    /// Replaces the configuration.
    pub fn set_config(&mut self, config: DiscordConfig)
        ensures
            final(self).config() == config@,
            final(self).status() == old(self).status(),
            final(self).session() == old(self).session(),
            final(self).policy() == old(self).policy(),
    {
        self.config = config;
    }

    /// A copy of the configuration.
    pub fn get_config(&self) -> (c: DiscordConfig)
        ensures
            c@ == self.config(),
    {
        self.config.clone()
    }

    /// The address of `endpoint`.
    pub fn get_api_url(&self, endpoint: &str) -> (url: String)
        ensures
            url@ == api_url_of(endpoint@),
    {
        concat2("https://discord.com/api/v10", endpoint)
    }

    fn bot_header(&self, request: HttpRequest) -> (r: HttpRequest)
        ensures
            r@ == (HttpRequestView {
                headers: request@.headers.push(bot_header_of(self.config().bot_token)),
                ..request@
            }),
    {
        let value = concat2("Bot ", self.config.bot_token.as_str());
        request.header("Authorization", value.as_str())
    }

    /// The request that asks the platform who the bot is.
    pub fn get_current_user(&self) -> (r: HttpRequest)
        ensures
            r@ == current_user_request_of(self.config().bot_token),
    {
        self.bot_header(HttpRequest::new(HttpMethod::Get, self.get_api_url("/users/@me"))).header(
            "Content-Type",
            "application/json",
        )
    }

    /// Reads the answer to the identity check: any status but success is an
    /// error that quotes the status.
    pub fn check_user_reply(success: bool, status_line: &str) -> (r: Result<(), String>)
        ensures
            match r {
                Ok(_) => success,
                Err(e) => !success && e@ == "Failed to get user: "@ + status_line@,
            },
    {
        if success {
            Ok(())
        } else {
            Err(concat2("Failed to get user: ", status_line))
        }
    }

    /// The request that posts `content` into `channel_id`.
    pub fn send_text(&self, channel_id: &str, content: &str) -> (r: HttpRequest)
        ensures
            r@ == send_request_of(self.config().bot_token, channel_id@, content@),
    {
        let url = concat3("https://discord.com/api/v10/channels/", channel_id, "/messages");
        let body = ObjectBuilder::new().text("content", content).build();
        self.bot_header(HttpRequest::new(HttpMethod::Post, url)).header("Content-Type", "application/json").json(
            body,
        )
    }

    /// The frame by which the client names itself.
    pub fn create_identify_payload(&self) -> (j: Json)
        ensures
            j@ == identify_payload_of(self.config().bot_token),
    {
        let properties = ObjectBuilder::new().text("os", "desktop").text("browser", "GloAI").text(
            "device",
            "GloAI",
        ).build();
        let d = ObjectBuilder::new().text("token", self.config.bot_token.as_str()).number("intents", INTENTS).with(
            "properties",
            properties,
        ).build();
        ObjectBuilder::new().number("op", OP_IDENTIFY).with("d", d).build()
    }

    /// The heartbeat frame with the last sequence number seen.
    pub fn create_heartbeat_payload(&self) -> (j: Json)
        ensures
            j@ == heartbeat_payload_of(self.session().seq),
    {
        ObjectBuilder::new().number("op", OP_HEARTBEAT).with("d", json_opt_number(self.seq)).build()
    }

    /// The time between two heartbeats, in milliseconds: what the server
    /// named, or the default until it has.
    pub fn heartbeat_interval_ms(&self) -> (ms: u64)
        ensures
            ms == match self.session().heartbeat_interval {
                Some(interval) => interval,
                None => DEFAULT_HEARTBEAT_INTERVAL_MS,
            },
    {
        match self.heartbeat_interval {
            Some(interval) => interval,
            None => DEFAULT_HEARTBEAT_INTERVAL_MS,
        }
    }

    /// Takes one text frame of the gateway at `now`, in seconds. A frame
    /// that cannot be read is ignored.
    pub fn handle_frame(&mut self, text: &str, now: i64) -> (outcome: FrameOutcome)
        ensures
            final(self).session() == frame_effect(old(self).session(), parsed_json(text@), now).0,
            outcome.reports(
                frame_effect(old(self).session(), parsed_json(text@), now).1,
                old(self).config().bot_token,
            ),
            final(self).config() == old(self).config(),
            final(self).status() == old(self).status(),
            final(self).policy() == old(self).policy(),
    {
        match parse(text) {
            None => {
                let events: Vec<GatewayEvent> = Vec::new();
                assert(events_view(events@) =~= Seq::empty());
                FrameOutcome { send: None, reconnect: false, events }
            },
            Some(doc) => self.handle_payload(&doc, now),
        }
    }

    /// Takes one parsed frame of the gateway at `now`, in seconds. A
    /// document that is no frame is ignored.
    pub fn handle_payload(&mut self, doc: &serde_json::Value, now: i64) -> (outcome: FrameOutcome)
        ensures
            final(self).session() == frame_effect(old(self).session(), Some(value_model(*doc)), now).0,
            outcome.reports(
                frame_effect(old(self).session(), Some(value_model(*doc)), now).1,
                old(self).config().bot_token,
            ),
            final(self).config() == old(self).config(),
            final(self).status() == old(self).status(),
            final(self).policy() == old(self).policy(),
    {
        let mut events: Vec<GatewayEvent> = Vec::new();
        assert(events_view(events@) =~= Seq::empty());
        let payload = match read_payload(doc) {
            None => {
                return FrameOutcome { send: None, reconnect: false, events };
            },
            Some(payload) => payload,
        };
        let ghost before = self.session();
        match payload.s {
            Some(n) => {
                self.seq = Some(n);
            },
            None => {},
        }
        assert(self.session() == with_seq(before, payload.s));
        if payload.op == OP_HELLO {
            match member(payload.d, "heartbeat_interval") {
                None => FrameOutcome { send: None, reconnect: false, events },
                Some(v) => match v.as_u64() {
                    None => FrameOutcome { send: None, reconnect: false, events },
                    Some(interval) => {
                        self.heartbeat_interval = Some(interval);
                        FrameOutcome { send: Some(self.create_identify_payload()), reconnect: false, events }
                    },
                },
            }
        } else if payload.op == OP_HEARTBEAT_ACK {
            FrameOutcome { send: None, reconnect: false, events }
        } else if payload.op == OP_RECONNECT || payload.op == OP_INVALID_SESSION {
            FrameOutcome { send: None, reconnect: true, events }
        } else if is_text(&payload.t, "MESSAGE_CREATE") {
            match read_created(payload.d, &self.bot_user_id, now) {
                None => FrameOutcome { send: None, reconnect: false, events },
                Some(message) => {
                    self.last_channel_id = Some(message.channel_id.clone());
                    let ghost reported = message@;
                    events.push(GatewayEvent::Message(message));
                    assert(events_view(events@) =~= seq![GatewayEventView::Message(reported)]);
                    FrameOutcome { send: None, reconnect: false, events }
                },
            }
        } else {
            FrameOutcome { send: None, reconnect: false, events }
        }
    }

    /// Takes the outcome of the identity check. A failure ends the start and
    /// is recorded and returned; a success keeps the bot's user id and asks
    /// for the socket to be opened.
    pub fn identity_checked(&mut self, identity: Result<String, String>) -> (report: StartReport)
        ensures
            final(self).config() == old(self).config(),
            final(self).policy() == old(self).policy(),
            match identity {
                Ok(id) => final(self).status() == old(self).status() && final(self).session() == (SessionView {
                    bot_user_id: Some(id@),
                    ..old(self).session()
                }) && report@ == (StartReportView {
                    result: Ok(NextStepView::Connect(gateway_url())),
                    events: Seq::empty(),
                }),
                Err(e) => final(self).status() == old(self).status().failed("验证 bot token 失败: "@ + e@)
                    && final(self).session() == old(self).session() && report@ == (StartReportView {
                    result: Err(e@),
                    events: seq![
                        GatewayEventView::Error("验证 bot token 失败: "@ + e@),
                        GatewayEventView::StatusChanged(final(self).status()),
                    ],
                }),
            },
    {
        match identity {
            Ok(id) => {
                self.bot_user_id = Some(id);
                let events: Vec<GatewayEvent> = Vec::new();
                assert(events_view(events@) =~= Seq::empty());
                StartReport {
                    result: Ok(NextStep::Connect("wss://gateway.discord.gg/?v=10&encoding=json".to_string())),
                    events,
                }
            },
            Err(e) => {
                let message = concat2("验证 bot token 失败: ", e.as_str());
                let events = self.status.fail_start(message.as_str());
                StartReport { result: Err(e), events }
            },
        }
    }

    /// Ends the start with the outcome of opening the socket. A failure is
    /// recorded and returned; a success connects the adapter at `now_ms`.
    pub fn finish_start(&mut self, opened: Result<(), String>, now_ms: i64) -> (report: StartReport)
        ensures
            final(self).config() == old(self).config(),
            final(self).session() == old(self).session(),
            final(self).policy() == old(self).policy(),
            match opened {
                Ok(_) => final(self).status() == old(self).status().connected(now_ms) && report@ == (
                StartReportView {
                    result: Ok(NextStepView::Nothing),
                    events: seq![
                        GatewayEventView::StatusChanged(final(self).status()),
                        GatewayEventView::Connected,
                    ],
                }),
                Err(e) => final(self).status() == old(self).status().failed("Gateway启动失败: "@ + e@)
                    && report@ == (StartReportView {
                    result: Err(e@),
                    events: seq![
                        GatewayEventView::Error("Gateway启动失败: "@ + e@),
                        GatewayEventView::StatusChanged(final(self).status()),
                    ],
                }),
            },
    {
        match opened {
            Ok(_) => {
                let events = self.status.complete_start(now_ms);
                StartReport { result: Ok(NextStep::Nothing), events }
            },
            Err(e) => {
                let message = concat2("Gateway启动失败: ", e.as_str());
                let events = self.status.fail_start(message.as_str());
                StartReport { result: Err(e), events }
            },
        }
    }

    /// The connection ended without a stop: the adapter is disconnected,
    /// and a reconnect is due after the delay handed out. After a stop no
    /// reconnect follows.
    pub fn connection_lost(&mut self) -> (r: (Vec<GatewayEvent>, Option<u64>))
        ensures
            final(self).policy().backoff().initial_ms() == old(self).policy().backoff().initial_ms(),
            final(self).policy().backoff().max_ms() == old(self).policy().backoff().max_ms(),
            final(self).status() == old(self).status().disconnected(),
            events_view(r.0@) == seq![GatewayEventView::Disconnected],
            final(self).config() == old(self).config(),
            final(self).session() == old(self).session(),
            final(self).policy().stopping() == old(self).policy().stopping(),
            old(self).policy().stopping() ==> r.1 is None && final(self).policy() == old(self).policy(),
            !old(self).policy().stopping() ==> r.1 is Some && r.1->0 == old(self).policy().backoff().next_ms()
                && final(self).policy().backoff().next_ms() == min_nat(
                2 * old(self).policy().backoff().next_ms(),
                old(self).policy().backoff().max_ms(),
            ),
    {
        let events = self.status.drop_connection();
        let delay = self.policy.connection_lost();
        (events, delay)
    }

    /// Enters the handshake again after a lost connection. Other than a
    /// planned start this keeps the reconnect delays where they are.
    pub fn reconnect(&mut self) -> (report: StartReport)
        ensures
            match start_gate(old(self).status(), old(self).enabled() && !old(self).policy().stopping(), old(self).missing_credentials()) {
                StartGate::Skip => report@.result == Ok::<NextStepView, Seq<char>>(NextStepView::Nothing),
                StartGate::Rejected => report@.result == Err::<NextStepView, Seq<char>>(old(self).missing_credentials()->0),
                StartGate::Open => report@.result == Ok::<NextStepView, Seq<char>>(NextStepView::Request(current_user_request_of(old(self).config().bot_token))),
            },
            final(self).config() == old(self).config(),
            final(self).session() == old(self).session(),
            final(self).policy() == old(self).policy(),
            final(self).status() == crate::im::gateway::status_after_gate(
                old(self).status(),
                old(self).enabled() && !old(self).policy().stopping(),
                old(self).missing_credentials(),
            ),
            report@.events == crate::im::gateway::events_at_gate(
                old(self).status(),
                old(self).enabled() && !old(self).policy().stopping(),
                old(self).missing_credentials(),
            ),
    {
        let allowed = self.config.enabled && !self.policy.is_stopping();
        self.enter_handshake(allowed)
    }

    fn enter_handshake(&mut self, enabled: bool) -> (report: StartReport)
        ensures
            final(self).config() == old(self).config(),
            final(self).session() == old(self).session(),
            final(self).policy() == old(self).policy(),
            final(self).status() == crate::im::gateway::status_after_gate(
                old(self).status(),
                enabled,
                old(self).missing_credentials(),
            ),
            report@.events == crate::im::gateway::events_at_gate(
                old(self).status(),
                enabled,
                old(self).missing_credentials(),
            ),
            match start_gate(old(self).status(), enabled, old(self).missing_credentials()) {
                StartGate::Skip => report@.result == Ok::<NextStepView, Seq<char>>(NextStepView::Nothing),
                StartGate::Rejected => report@.result == Err::<NextStepView, Seq<char>>(
                    old(self).missing_credentials()->0,
                ),
                StartGate::Open => report@.result == Ok::<NextStepView, Seq<char>>(
                    NextStepView::Request(current_user_request_of(old(self).config().bot_token)),
                ),
            },
    {
        let missing = if self.config.bot_token.as_str().is_empty() {
            Some("缺少必要的配置: bot_token")
        } else {
            None
        };
        let (gate, events) = self.status.begin_start(enabled, missing);
        match gate {
            StartGate::Skip => StartReport { result: Ok(NextStep::Nothing), events },
            StartGate::Rejected => StartReport { result: Err("缺少必要的配置: bot_token".to_string()), events },
            StartGate::Open => StartReport { result: Ok(NextStep::Request(self.get_current_user())), events },
        }
    }

    /// What has to go out to send the file at `file_path`, whose name is
    /// `file_name` and whose extension is `ext`, into `conversation_id`.
    pub fn media_message(&self, conversation_id: &str, file_path: &str, file_name: &str, ext: &str) -> (r: Result<
        Outbound,
        String,
    >)
        ensures
            outbound_view(r) == when_connected(
                self.status(),
                media_request_of(
                    self.config().bot_token,
                    conversation_id@,
                    file_path@,
                    file_name@,
                    lowercase(ext@),
                ),
            ),
    {
        if !self.status.connected {
            return Err(not_connected());
        }
        let lower = to_lowercase(ext);
        let form = MultipartForm {
            text_fields: Pairs::new().with("content", "").build(),
            file_field: "file".to_string(),
            file_path: file_path.to_string(),
            file_name: file_name.to_string(),
            mime_type: Some(content_type_for(lower.as_str()).to_string()),
        };
        proof {
            reveal_strlit("");
            assert(""@ =~= Seq::<char>::empty());
        }
        let url = concat3("https://discord.com/api/v10/channels/", conversation_id, "/messages");
        Ok(deliver_one(self.bot_header(HttpRequest::new(HttpMethod::Post, url)).multipart(form)))
    }
}

impl Gateway for DiscordGateway {
    closed spec fn status(&self) -> GatewayStatusView {
        self.status@
    }

    open spec fn enabled(&self) -> bool {
        self.config().enabled
    }

    open spec fn missing_credentials(&self) -> Option<Seq<char>> {
        if self.config().bot_token.len() == 0 {
            Some("缺少必要的配置: bot_token"@)
        } else {
            None
        }
    }

    open spec fn reconnect_barred(&self) -> bool {
        false
    }

    open spec fn capabilities_spec(&self) -> Capabilities {
        Capabilities { media: true, edit: true, delete: true, history: true }
    }

    open spec fn notification_plan(&self, text: Seq<char>, now: i64) -> Result<OutboundView, Seq<char>> {
        message_of(self.status(), self.config().bot_token, self.session().last_channel, text)
    }

    open spec fn message_plan(&self, conversation_id: Seq<char>, text: Seq<char>, now: i64) -> Result<
        OutboundView,
        Seq<char>,
    > {
        message_of(self.status(), self.config().bot_token, Some(conversation_id), text)
    }

    open spec fn media_plan(
        &self,
        conversation_id: Seq<char>,
        file_path: Seq<char>,
        file_name: Seq<char>,
        ext: Seq<char>,
        now: i64,
    ) -> Result<OutboundView, Seq<char>> {
        when_connected(
            self.status(),
            media_request_of(self.config().bot_token, conversation_id, file_path, file_name, lowercase(ext)),
        )
    }

    open spec fn edit_plan(&self, conversation_id: Seq<char>, message_id: Seq<char>, new_text: Seq<char>) -> Result<
        OutboundView,
        Seq<char>,
    > {
        when_connected(self.status(), edit_request_of(self.config().bot_token, conversation_id, message_id, new_text))
    }

    open spec fn delete_plan(&self, conversation_id: Seq<char>, message_id: Seq<char>) -> Result<
        OutboundView,
        Seq<char>,
    > {
        when_connected(self.status(), delete_request_of(self.config().bot_token, conversation_id, message_id))
    }

    open spec fn history_plan(&self, conversation_id: Seq<char>, limit: u32) -> Result<OutboundView, Seq<char>> {
        when_connected(self.status(), history_request_of(self.config().bot_token, conversation_id, limit))
    }

    fn capabilities(&self) -> (c: Capabilities) {
        Capabilities { media: true, edit: true, delete: true, history: true }
    }

    fn is_connected(&self) -> (connected: bool) {
        self.status.connected
    }

    fn get_status(&self) -> (status: GatewayStatus) {
        self.status.clone()
    }

    fn start(&mut self, now: i64) -> (report: StartReport)
        ensures
            final(self).policy().backoff().initial_ms() == old(self).policy().backoff().initial_ms(),
            final(self).policy().backoff().max_ms() == old(self).policy().backoff().max_ms(),
            final(self).config() == old(self).config(),
            final(self).session() == old(self).session(),
            start_gate(old(self).status(), old(self).enabled(), old(self).missing_credentials())
                == StartGate::Open ==> report@.result == Ok::<NextStepView, Seq<char>>(
                NextStepView::Request(current_user_request_of(old(self).config().bot_token)),
            ) && final(self).policy().backoff().is_reset() && !final(self).policy().stopping(),
            start_gate(old(self).status(), old(self).enabled(), old(self).missing_credentials())
                != StartGate::Open ==> final(self).policy() == old(self).policy(),
    {
        let report = self.enter_handshake(self.config.enabled);
        if self.status.starting && !self.status.connected {
            match &report.result {
                Ok(NextStep::Request(_)) => {
                    self.policy.planned_start();
                },
                _ => {},
            }
        }
        report
    }

    fn stop(&mut self) -> (events: Vec<GatewayEvent>)
        ensures
            final(self).config() == old(self).config(),
            final(self).session() == old(self).session(),
            final(self).policy().stopping(),
            final(self).policy().backoff() == old(self).policy().backoff(),
    {
        self.policy.stop();
        self.status.stop()
    }

    fn reconnect_if_needed(&mut self, now: i64) -> (report: StartReport)
        ensures
            final(self).policy().backoff().initial_ms() == old(self).policy().backoff().initial_ms(),
            final(self).policy().backoff().max_ms() == old(self).policy().backoff().max_ms(),
            !old(self).status().connected && !old(self).reconnect_barred() && start_gate(
                old(self).status(),
                old(self).enabled(),
                old(self).missing_credentials(),
            ) == StartGate::Open ==> report@.result == Ok::<NextStepView, Seq<char>>(
                NextStepView::Request(current_user_request_of(old(self).config().bot_token)),
            )
                && final(self).policy().backoff().is_reset() && !final(self).policy().stopping(),
            old(self).status().connected || old(self).reconnect_barred() ==> final(self).policy() == old(self).policy(),
            final(self).config() == old(self).config(),
            final(self).session() == old(self).session(),
    {
        if !self.status.connected {
            self.start(now)
        } else {
            report_skip()
        }
    }

    fn send_notification(&self, text: &str, now: i64) -> (r: Result<Outbound, String>)
        ensures
            outbound_view(r) == message_of(
                self.status(),
                self.config().bot_token,
                self.session().last_channel,
                text@,
            ),
    {
        if !self.status.connected {
            return Err(not_connected());
        }
        match &self.last_channel_id {
            Some(channel_id) => Ok(deliver_one(self.send_text(channel_id.as_str(), text))),
            None => Err("没有可用的聊天频道".to_string()),
        }
    }

    fn send_message(&self, conversation_id: &str, text: &str, now: i64) -> (r: Result<Outbound, String>)
        ensures
            outbound_view(r) == message_of(
                self.status(),
                self.config().bot_token,
                Some(conversation_id@),
                text@,
            ),
    {
        if !self.status.connected {
            return Err(not_connected());
        }
        Ok(deliver_one(self.send_text(conversation_id, text)))
    }

    fn send_media_message(&self, conversation_id: &str, file_path: &str, now: i64) -> (r: Result<
        Outbound,
        String,
    >)
        ensures
            !self.status().connected ==> outbound_view(r) == Err::<OutboundView, Seq<char>>(
                not_connected_text(),
            ),
            self.status().connected ==> r is Ok,
    {
        let ext = path_extension(file_path);
        let name = match path_file_name(file_path) {
            Some(n) => n,
            None => "file".to_string(),
        };
        let r = self.media_message(conversation_id, file_path, name.as_str(), ext.as_str());
        assert(outbound_view(r) == self.media_plan(conversation_id@, file_path@, name@, ext@, now));
        r
    }

    fn edit_message(&self, conversation_id: &str, message_id: &str, new_text: &str) -> (r: Result<
        Outbound,
        String,
    >)
        ensures
            outbound_view(r) == when_connected(
                self.status(),
                edit_request_of(self.config().bot_token, conversation_id@, message_id@, new_text@),
            ),
    {
        if !self.status.connected {
            return Err(not_connected());
        }
        let mut url = concat3("https://discord.com/api/v10/channels/", conversation_id, "/messages");
        url.append("/");
        url.append(message_id);
        let body = ObjectBuilder::new().text("content", new_text).build();
        Ok(deliver_one(self.bot_header(HttpRequest::new(HttpMethod::Patch, url)).json(body)))
    }

    fn delete_message(&self, conversation_id: &str, message_id: &str) -> (r: Result<Outbound, String>)
        ensures
            outbound_view(r) == when_connected(
                self.status(),
                delete_request_of(self.config().bot_token, conversation_id@, message_id@),
            ),
    {
        if !self.status.connected {
            return Err(not_connected());
        }
        let mut url = concat3("https://discord.com/api/v10/channels/", conversation_id, "/messages");
        url.append("/");
        url.append(message_id);
        Ok(deliver_one(self.bot_header(HttpRequest::new(HttpMethod::Delete, url))))
    }

    fn get_message_history(&self, conversation_id: &str, limit: u32) -> (r: Result<Outbound, String>)
        ensures
            outbound_view(r) == when_connected(
                self.status(),
                history_request_of(self.config().bot_token, conversation_id@, limit),
            ),
    {
        if !self.status.connected {
            return Err(not_connected());
        }
        let mut url = concat3("https://discord.com/api/v10/channels/", conversation_id, "/messages");
        url.append("?limit=");
        let count = i64_to_string(limit as i64);
        url.append(count.as_str());
        Ok(deliver_one(self.bot_header(HttpRequest::new(HttpMethod::Get, url))))
    }

    fn record_outbound(&mut self, now_ms: i64)
        ensures
            final(self).config() == old(self).config(),
            final(self).session() == old(self).session(),
            final(self).policy() == old(self).policy(),
    {
        self.status.touch_outbound(now_ms);
    }
}

} // verus!
