//! The Feishu adapter: an event socket for inbound messages, the message
//! API for sends, both under a tenant token fetched by app credentials.

use vstd::prelude::*;
use crate::im::backoff::{min_nat, ReconnectPolicy, INITIAL_RECONNECT_DELAY_MS, MAX_RECONNECT_DELAY_MS};
use crate::im::gateway::{clone_opt_string, deliver_one, events_at_gate, events_view, not_connected, not_connected_text, once, opt_str_text, opt_text, outbound_view, report_skip, start_gate, status_after_gate, Capabilities, Gateway, GatewayEvent, GatewayEventView, GatewayStatus, GatewayStatusView, IMMessage, IMMessageView, NextStep, NextStepView, Outbound, OutboundView, StartGate, StartReport, StartReportView};
use crate::im::http::{HttpBodyView, HttpMethod, HttpRequest, HttpRequestView, Json, JsonView, MultipartForm, MultipartFormView, ObjectBuilder, Pairs};
use crate::im::json::{member, object_member, parse, parsed_json, text_of, value_model};
use crate::im::text::{concat2, concat3, lowercase, path_extension, path_file_name, same_text, str_eq, text_or_empty, to_lowercase};
use crate::im::token::{clamp_i64, token_step_of, usable_token, AccessTokenView, TokenCache, TokenStep, DEFAULT_TOKEN_LIFETIME_SECONDS};

verus! {

/// What a `FeishuConfig` holds.
pub struct FeishuConfigView {
    pub enabled: bool,
    pub app_id: Seq<char>,
    pub app_secret: Seq<char>,
    pub domain: Option<Seq<char>>,
    pub encrypt_key: Option<Seq<char>>,
    pub verification_token: Option<Seq<char>>,
    pub render_mode: Option<Seq<char>>,
    pub media_download_path: Option<Seq<char>>,
    pub debug: Option<bool>,
}

/// Configuration of the Feishu adapter.
#[derive(Debug)]
pub struct FeishuConfig {
    pub enabled: bool,
    pub app_id: String,
    pub app_secret: String,
    pub domain: Option<String>,
    pub encrypt_key: Option<String>,
    pub verification_token: Option<String>,
    pub render_mode: Option<String>,
    pub media_download_path: Option<String>,
    pub debug: Option<bool>,
}

impl View for FeishuConfig {
    type V = FeishuConfigView;

    open spec fn view(&self) -> FeishuConfigView {
        FeishuConfigView {
            enabled: self.enabled,
            app_id: self.app_id@,
            app_secret: self.app_secret@,
            domain: opt_text(self.domain),
            encrypt_key: opt_text(self.encrypt_key),
            verification_token: opt_text(self.verification_token),
            render_mode: opt_text(self.render_mode),
            media_download_path: opt_text(self.media_download_path),
            debug: self.debug,
        }
    }
}

impl Default for FeishuConfig {
    fn default() -> (c: FeishuConfig)
        ensures
            c@ == (FeishuConfigView {
                enabled: false,
                app_id: Seq::empty(),
                app_secret: Seq::empty(),
                domain: Some("feishu"@),
                encrypt_key: None,
                verification_token: None,
                render_mode: Some("text"@),
                media_download_path: None,
                debug: Some(false),
            }),
    {
        FeishuConfig {
            enabled: false,
            app_id: String::new(),
            app_secret: String::new(),
            domain: Some("feishu".to_string()),
            encrypt_key: None,
            verification_token: None,
            render_mode: Some("text".to_string()),
            media_download_path: None,
            debug: Some(false),
        }
    }
}

impl Clone for FeishuConfig {
    fn clone(&self) -> (c: FeishuConfig)
        ensures
            c@ == self@,
    {
        FeishuConfig {
            enabled: self.enabled,
            app_id: self.app_id.clone(),
            app_secret: self.app_secret.clone(),
            domain: clone_opt_string(&self.domain),
            encrypt_key: clone_opt_string(&self.encrypt_key),
            verification_token: clone_opt_string(&self.verification_token),
            render_mode: clone_opt_string(&self.render_mode),
            media_download_path: clone_opt_string(&self.media_download_path),
            debug: self.debug,
        }
    }
}

/// A file that came with a message.
#[derive(Debug)]
pub struct FeishuMediaAttachment {
    pub media_type: String,
    pub file_key: Option<String>,
    pub image_key: Option<String>,
}

/// Where the platform answers: the Lark domain where the configuration
/// asks for it, the Feishu domain otherwise.
pub open spec fn base_url_of(config: FeishuConfigView) -> Seq<char> {
    if config.domain == Some("lark"@) {
        "https://open.larkoffice.com"@
    } else {
        "https://open.feishu.cn"@
    }
}

/// The request that fetches a token.
pub open spec fn token_request_of(config: FeishuConfigView) -> HttpRequestView {
    HttpRequestView {
        method: HttpMethod::Post,
        url: base_url_of(config) + "/open-apis/auth/v3/tenant_access_token/internal"@,
        query: Seq::empty(),
        headers: Seq::empty(),
        body: HttpBodyView::Json(
            JsonView::Object(
                Seq::empty().push(("app_id"@, JsonView::Text(config.app_id))).push(
                    ("app_secret"@, JsonView::Text(config.app_secret)),
                ),
            ),
        ),
    }
}

/// What the data of a token answer holds.
pub struct TokenDataView {
    pub token: Option<Seq<char>>,
    pub expire: Option<i64>,
}

/// The data of a token answer.
#[derive(Debug)]
pub struct TokenData {
    pub token: Option<String>,
    pub expire: Option<i64>,
}

/// What the platform's answer to a token request holds.
pub struct TokenReplyView {
    pub code: i32,
    pub message: Option<Seq<char>>,
    pub data: Option<TokenDataView>,
}

/// The platform's answer to a token request.
#[derive(Debug)]
pub struct TokenReply {
    pub code: i32,
    pub message: Option<String>,
    pub data: Option<TokenData>,
}

impl View for TokenReply {
    type V = TokenReplyView;

    open spec fn view(&self) -> TokenReplyView {
        TokenReplyView {
            code: self.code,
            message: opt_text(self.message),
            data: match self.data {
                Some(d) => Some(TokenDataView { token: opt_text(d.token), expire: d.expire }),
                None => None,
            },
        }
    }
}

/// What a token answer read at `now` means: the token and its expiry, or an
/// error. An answer without a lifetime gets the default one.
pub open spec fn token_verdict(reply: TokenReplyView, now: i64) -> Result<AccessTokenView, Seq<char>> {
    if reply.code == 0 && reply.data is Some {
        match reply.data->0.token {
            Some(token) => Ok(
                AccessTokenView {
                    token,
                    expires_at: clamp_i64(
                        now + match reply.data->0.expire {
                            Some(seconds) => seconds,
                            None => DEFAULT_TOKEN_LIFETIME_SECONDS,
                        },
                    ),
                },
            ),
            None => Err("No token in response"@),
        }
    } else {
        Err("Failed to get access token: "@ + text_or_empty(reply.message))
    }
}

/// The address of the event socket for a client with `token`.
pub open spec fn socket_url_of(config: FeishuConfigView, token: Seq<char>) -> Seq<char> {
    base_url_of(config) + "/open-apis/event/callback/ws?token="@ + token
}

/// The heartbeat frame.
pub open spec fn heartbeat_frame_of() -> JsonView {
    JsonView::Object(Seq::empty().push(("type"@, JsonView::Text("ping"@))))
}

/// The heartbeat frame.
pub fn heartbeat_frame() -> (j: Json)
    ensures
        j@ == heartbeat_frame_of(),
{
    ObjectBuilder::new().text("type", "ping").build()
}

/// The headers of a request to the message API.
pub open spec fn message_headers_of(token: Seq<char>) -> Seq<(Seq<char>, Seq<char>)> {
    Seq::empty().push(("Authorization"@, "Bearer "@ + token)).push(
        ("Content-Type"@, "application/json; charset=utf-8"@),
    )
}

/// The request that sends a message of the kind `msg_type` whose content is
/// `value` under `key`.
pub open spec fn message_request_of(
    config: FeishuConfigView,
    token: Seq<char>,
    receive_id_type: Seq<char>,
    receive_id: Seq<char>,
    msg_type: Seq<char>,
    key: Seq<char>,
    value: Seq<char>,
) -> HttpRequestView {
    HttpRequestView {
        method: HttpMethod::Post,
        url: base_url_of(config) + "/open-apis/im/v1/messages"@,
        query: Seq::empty(),
        headers: message_headers_of(token),
        body: HttpBodyView::Json(
            JsonView::Object(
                Seq::empty().push(("receive_id_type"@, JsonView::Text(receive_id_type))).push(
                    ("receive_id"@, JsonView::Text(receive_id)),
                ).push(("msg_type"@, JsonView::Text(msg_type))).push(
                    ("content"@, JsonView::Object(Seq::empty().push((key, JsonView::Text(value))))),
                ),
            ),
        ),
    }
}

/// The request that uploads a picture or a file.
pub open spec fn upload_request_of(
    config: FeishuConfigView,
    token: Seq<char>,
    file_path: Seq<char>,
    file_name: Seq<char>,
    image: bool,
) -> HttpRequestView {
    HttpRequestView {
        method: HttpMethod::Post,
        url: if image {
            base_url_of(config) + "/open-apis/im/v1/images?access_token="@ + token + "&image_type=message"@
        } else {
            base_url_of(config) + "/open-apis/im/v1/files?access_token="@ + token + "&file_type=message"@
        },
        query: Seq::empty(),
        headers: Seq::empty(),
        body: HttpBodyView::Multipart(
            MultipartFormView {
                text_fields: Seq::empty(),
                file_field: if image {
                    "image"@
                } else {
                    "file"@
                },
                file_path,
                file_name,
                mime_type: if image {
                    Some("image/jpeg"@)
                } else {
                    None
                },
            },
        ),
    }
}

/// Whether a file with the extension `ext`, given in lower case, goes out
/// as a picture.
pub open spec fn is_image_ext(ext: Seq<char>) -> bool {
    ext == "jpg"@ || ext == "jpeg"@ || ext == "png"@ || ext == "gif"@ || ext == "bmp"@ || ext == "webp"@
}

/// Whether a file with the extension `ext`, given in lower case, goes out
/// as a picture.
pub fn is_image(ext: &str) -> (b: bool)
    ensures
        b == is_image_ext(ext@),
{
    str_eq(ext, "jpg") || str_eq(ext, "jpeg") || str_eq(ext, "png") || str_eq(ext, "gif") || str_eq(ext, "bmp")
        || str_eq(ext, "webp")
}

/// What the answer to an upload means: the key of the file, or an error.
pub fn check_upload_reply(code: i32, message: Option<&str>, has_data: bool, file_key: Option<String>) -> (r: Result<
    String,
    String,
>)
    ensures
        match r {
            Ok(key) => code == 0 && has_data && file_key is Some && key@ == file_key->0@,
            Err(e) => if code == 0 && has_data {
                file_key is None && e@ == "No file key in response"@
            } else {
                e@ == "Upload failed: "@ + text_or_empty(opt_str_text(message))
            },
        },
{
    if code == 0 && has_data {
        match file_key {
            Some(key) => Ok(key),
            None => Err("No file key in response".to_string()),
        }
    } else {
        let detail = match message {
            Some(m) => m,
            None => "",
        };
        proof {
            reveal_strlit("");
            assert(""@ =~= Seq::<char>::empty());
        }
        Err(concat2("Upload failed: ", detail))
    }
}

/// What a `FeishuMessageEvent` holds.
pub struct FeishuMessageEventView {
    pub message_id: Seq<char>,
    pub chat_id: Seq<char>,
    pub content: Seq<char>,
    pub mention_count: usize,
    pub sender_open_id: Option<Seq<char>>,
}

/// A received message as the platform reports it. `content` is a JSON
/// document; `mention_count` tells how many users the message mentions.
#[derive(Debug)]
pub struct FeishuMessageEvent {
    pub message_id: String,
    pub chat_id: String,
    pub content: String,
    pub mention_count: usize,
    pub sender_open_id: Option<String>,
}

impl View for FeishuMessageEvent {
    type V = FeishuMessageEventView;

    open spec fn view(&self) -> FeishuMessageEventView {
        FeishuMessageEventView {
            message_id: self.message_id@,
            chat_id: self.chat_id@,
            content: self.content@,
            mention_count: self.mention_count,
            sender_open_id: opt_text(self.sender_open_id),
        }
    }
}

/// What a `FeishuFrame` holds.
pub struct FeishuFrameView {
    pub msg_type: Seq<char>,
    pub event_type: Option<Seq<char>>,
    pub message: Option<FeishuMessageEventView>,
}

/// A text frame of the event socket, decoded.
#[derive(Debug)]
pub struct FeishuFrame {
    pub msg_type: String,
    pub event_type: Option<String>,
    pub message: Option<FeishuMessageEvent>,
}

impl View for FeishuFrame {
    type V = FeishuFrameView;

    open spec fn view(&self) -> FeishuFrameView {
        FeishuFrameView {
            msg_type: self.msg_type@,
            event_type: opt_text(self.event_type),
            message: match self.message {
                Some(m) => Some(m@),
                None => None,
            },
        }
    }
}

/// The message that a frame reports: only an event callback that tells of
/// a received message has one.
pub open spec fn received_of(frame: FeishuFrameView) -> Option<FeishuMessageEventView> {
    if frame.msg_type == "event_callback"@ && frame.event_type == Some("im.message.receive_v1"@) {
        frame.message
    } else {
        None
    }
}

/// The text of a message: the member `text` of its content where the
/// content is a JSON object with such a string, the content as it is
/// otherwise.
pub open spec fn text_of_content(content: Seq<char>) -> Seq<char> {
    match parsed_json(content) {
        Some(doc) => text_of_document(doc, content),
        None => content,
    }
}

/// The normalized form of a message received at `now`.
pub open spec fn inbound_of(message: FeishuMessageEventView, now: i64) -> IMMessageView {
    IMMessageView {
        id: message.message_id,
        platform: "feishu"@,
        channel_id: message.chat_id,
        user_id: text_or_empty(message.sender_open_id),
        user_name: Seq::empty(),
        content: text_of_content(message.content),
        timestamp: now,
        is_mention: message.mention_count > 0,
    }
}

/// The text of a message whose content parsed to `doc`: the member `text`
/// where it is a string, `content` as it is otherwise.
pub open spec fn text_of_document(doc: JsonView, content: Seq<char>) -> Seq<char> {
    match object_member(doc, "text"@) {
        Some(v) => match text_of(v) {
            Some(t) => t,
            None => content,
        },
        None => content,
    }
}

/// The text of a message whose content parsed to `doc`.
pub fn document_text(doc: &serde_json::Value, content: &str) -> (r: String)
    ensures
        r@ == text_of_document(value_model(*doc), content@),
{
    match member(doc, "text") {
        Some(v) => match v.as_str() {
            Some(t) => t.to_string(),
            None => content.to_string(),
        },
        None => content.to_string(),
    }
}

/// The text of a message's content.
pub fn content_text(content: &str) -> (r: String)
    ensures
        r@ == text_of_content(content@),
{
    match parse(content) {
        Some(doc) => document_text(&doc, content),
        None => content.to_string(),
    }
}

/// What a send of `text` comes to at `now`.
pub open spec fn message_of(
    status: GatewayStatusView,
    config: FeishuConfigView,
    cached: Option<AccessTokenView>,
    chat: Option<Seq<char>>,
    text: Seq<char>,
    now: i64,
) -> Result<OutboundView, Seq<char>> {
    if !status.connected {
        Err(not_connected_text())
    } else {
        match chat {
            None => Err("没有可用的聊天"@),
            Some(chat_id) => match usable_token(cached, now) {
                None => Ok(OutboundView::FetchToken(token_request_of(config))),
                Some(token) => Ok(
                    OutboundView::Deliver(
                        seq![
                            once(message_request_of(config, token, "chat_id"@, chat_id, "text"@, "text"@, text)),
                        ],
                    ),
                ),
            },
        }
    }
}

/// What sending the file at `file_path` comes to at `now`: the upload. The
/// message itself follows the upload.
pub open spec fn media_of_file(
    status: GatewayStatusView,
    config: FeishuConfigView,
    cached: Option<AccessTokenView>,
    file_path: Seq<char>,
    file_name: Seq<char>,
    ext: Seq<char>,
    now: i64,
) -> Result<OutboundView, Seq<char>> {
    if !status.connected {
        Err(not_connected_text())
    } else {
        match usable_token(cached, now) {
            None => Ok(OutboundView::FetchToken(token_request_of(config))),
            Some(token) => Ok(
                OutboundView::Deliver(
                    seq![once(upload_request_of(config, token, file_path, file_name, is_image_ext(lowercase(ext))))],
                ),
            ),
        }
    }
}

/// The first step of a handshake at `now`: the socket where a token is at
/// hand, the token otherwise.
pub open spec fn first_step_of(config: FeishuConfigView, cached: Option<AccessTokenView>, now: i64) -> NextStepView {
    match usable_token(cached, now) {
        Some(token) => NextStepView::Connect(socket_url_of(config, token)),
        None => NextStepView::Request(token_request_of(config)),
    }
}

/// The error of a start without app credentials.
pub open spec fn missing_credentials_text() -> Seq<char> {
    "缺少必要的配置: app_id 或 app_secret"@
}

/// What the adapter remembers of the last inbound message.
pub struct LastSeenView {
    pub chat_id: Option<Seq<char>>,
    pub user_id: Option<Seq<char>>,
}

/// The Feishu adapter.
pub struct FeishuGateway {
    config: FeishuConfig,
    status: GatewayStatus,
    token: TokenCache,
    last_chat_id: Option<String>,
    last_user_id: Option<String>,
    policy: ReconnectPolicy,
}

impl FeishuGateway {
    /// The configuration.
    pub closed spec fn config(&self) -> FeishuConfigView {
        self.config@
    }

    /// The cached token.
    pub closed spec fn token(&self) -> Option<AccessTokenView> {
        self.token@
    }

    /// The chat and the sender of the last inbound message.
    pub closed spec fn last_seen(&self) -> LastSeenView {
        LastSeenView { chat_id: opt_text(self.last_chat_id), user_id: opt_text(self.last_user_id) }
    }

    /// The reconnect policy.
    pub closed spec fn policy(&self) -> ReconnectPolicy {
        self.policy
    }

    /// An adapter that was never started.
    pub fn new(config: FeishuConfig) -> (g: FeishuGateway)
        ensures
            g.policy().backoff().initial_ms() == INITIAL_RECONNECT_DELAY_MS,
            g.policy().backoff().max_ms() == MAX_RECONNECT_DELAY_MS,
            g.config() == config@,
            g.status() == GatewayStatusView::initial(),
            g.token() is None,
            g.last_seen() == (LastSeenView { chat_id: None, user_id: None }),
            !g.policy().stopping(),
            g.policy().backoff().is_reset(),
    {
        FeishuGateway {
            config,
            status: GatewayStatus::default(),
            token: TokenCache::new(),
            last_chat_id: None,
            last_user_id: None,
            policy: ReconnectPolicy::new(),
        }
    }

    /// Replaces the configuration.
    pub fn set_config(&mut self, config: FeishuConfig)
        ensures
            final(self).config() == config@,
            final(self).status() == old(self).status(),
            final(self).token() == old(self).token(),
            final(self).last_seen() == old(self).last_seen(),
            final(self).policy() == old(self).policy(),
    {
        self.config = config;
    }

    /// A copy of the configuration.
    pub fn get_config(&self) -> (c: FeishuConfig)
        ensures
            c@ == self.config(),
    {
        self.config.clone()
    }

    /// Where the platform answers.
    pub fn get_base_url(&self) -> (url: &'static str)
        ensures
            url@ == base_url_of(self.config()),
    {
        let lark = match &self.config.domain {
            Some(d) => {
                let b = str_eq(d.as_str(), "lark");
                assert(same_text(d@, "lark"@) == (opt_text(self.config.domain) == Some("lark"@)));
                b
            },
            None => false,
        };
        if lark {
            "https://open.larkoffice.com"
        } else {
            "https://open.feishu.cn"
        }
    }

    fn token_request(&self) -> (r: HttpRequest)
        ensures
            r@ == token_request_of(self.config()),
    {
        let body = ObjectBuilder::new().text("app_id", self.config.app_id.as_str()).text(
            "app_secret",
            self.config.app_secret.as_str(),
        ).build();
        HttpRequest::new(
            HttpMethod::Post,
            concat2(self.get_base_url(), "/open-apis/auth/v3/tenant_access_token/internal"),
        ).json(body)
    }

    /// Asks for the token at `now`, in seconds: the cached token while it
    /// has more than the safety margin left, else the request that fetches
    /// one.
    pub fn get_access_token(&self, now: i64) -> (step: TokenStep)
        ensures
            step@ == token_step_of(self.token(), now, token_request_of(self.config())),
    {
        match self.token.lookup(now) {
            Some(token) => TokenStep::Cached(token),
            None => TokenStep::Fetch(self.token_request()),
        }
    }

    /// Takes the platform's answer to a token request, read at `now`. A
    /// good answer replaces token and expiry together; a bad one is an
    /// error and leaves the cache as it was.
    pub fn accept_token_reply(&mut self, reply: &TokenReply, now: i64) -> (r: Result<String, String>)
        ensures
            final(self).config() == old(self).config(),
            final(self).status() == old(self).status(),
            final(self).last_seen() == old(self).last_seen(),
            final(self).policy() == old(self).policy(),
            match token_verdict(reply@, now) {
                Ok(fetched) => final(self).token() == Some(fetched) && r is Ok && r->Ok_0@ == fetched.token,
                Err(e) => final(self).token() == old(self).token() && r is Err && r->Err_0@ == e,
            },
    {
        if reply.code == 0 {
            match &reply.data {
                Some(data) => {
                    return match &data.token {
                        Some(token) => {
                            let lifetime = match data.expire {
                                Some(seconds) => seconds,
                                None => DEFAULT_TOKEN_LIFETIME_SECONDS,
                            };
                            self.token.store(token.as_str(), lifetime, now);
                            Ok(token.clone())
                        },
                        None => Err("No token in response".to_string()),
                    };
                },
                None => {},
            }
        }
        let detail = match &reply.message {
            Some(m) => m.as_str(),
            None => "",
        };
        proof {
            reveal_strlit("");
            assert(""@ =~= Seq::<char>::empty());
        }
        Err(concat2("Failed to get access token: ", detail))
    }

    fn socket_url(&self, token: &str) -> (url: String)
        ensures
            url@ == socket_url_of(self.config(), token@),
    {
        concat3(self.get_base_url(), "/open-apis/event/callback/ws?token=", token)
    }

    fn first_step(&self, now: i64) -> (step: NextStep)
        ensures
            step@ == first_step_of(self.config(), self.token(), now),
    {
        match self.token.lookup(now) {
            Some(token) => NextStep::Connect(self.socket_url(token.as_str())),
            None => NextStep::Request(self.token_request()),
        }
    }

    fn enter_handshake(&mut self, enabled: bool, now: i64) -> (report: StartReport)
        ensures
            final(self).config() == old(self).config(),
            final(self).token() == old(self).token(),
            final(self).last_seen() == old(self).last_seen(),
            final(self).policy() == old(self).policy(),
            final(self).status() == status_after_gate(old(self).status(), enabled, old(self).missing_credentials()),
            report@.events == events_at_gate(old(self).status(), enabled, old(self).missing_credentials()),
            match start_gate(old(self).status(), enabled, old(self).missing_credentials()) {
                StartGate::Skip => report@.result == Ok::<NextStepView, Seq<char>>(NextStepView::Nothing),
                StartGate::Rejected => report@.result == Err::<NextStepView, Seq<char>>(
                    old(self).missing_credentials()->0,
                ),
                StartGate::Open => report@.result == Ok::<NextStepView, Seq<char>>(
                    first_step_of(old(self).config(), old(self).token(), now),
                ),
            },
    {
        let missing = if self.config.app_id.as_str().is_empty() || self.config.app_secret.as_str().is_empty() {
            Some("缺少必要的配置: app_id 或 app_secret")
        } else {
            None
        };
        let (gate, events) = self.status.begin_start(enabled, missing);
        match gate {
            StartGate::Skip => StartReport { result: Ok(NextStep::Nothing), events },
            StartGate::Rejected => StartReport {
                result: Err("缺少必要的配置: app_id 或 app_secret".to_string()),
                events,
            },
            StartGate::Open => StartReport { result: Ok(self.first_step(now)), events },
        }
    }

    /// Takes the outcome of the token request of a start, read at `now`.
    /// A failure ends the start and is recorded and returned; a token asks
    /// for the socket to be opened.
    pub fn token_fetched(&mut self, reply: Result<TokenReply, String>, now: i64) -> (report: StartReport)
        ensures
            final(self).config() == old(self).config(),
            final(self).last_seen() == old(self).last_seen(),
            final(self).policy() == old(self).policy(),
            match reply {
                Ok(answer) => match token_verdict(answer@, now) {
                    Ok(fetched) => final(self).token() == Some(fetched) && final(self).status() == old(self).status() && report@ == (StartReportView {
                        result: Ok(NextStepView::Connect(socket_url_of(old(self).config(), fetched.token))),
                        events: Seq::empty(),
                    }),
                    Err(e) => final(self).token() == old(self).token() && final(self).status() == old(self).status().failed("获取访问令牌失败: "@ + e) && report@ == (StartReportView {
                        result: Err(e),
                        events: seq![
                            GatewayEventView::Error("获取访问令牌失败: "@ + e),
                            GatewayEventView::StatusChanged(final(self).status()),
                        ],
                    }),
                },
                Err(e) => final(self).token() == old(self).token() && final(self).status() == old(self).status().failed("获取访问令牌失败: "@ + e@) && report@ == (StartReportView {
                    result: Err(e@),
                    events: seq![
                        GatewayEventView::Error("获取访问令牌失败: "@ + e@),
                        GatewayEventView::StatusChanged(final(self).status()),
                    ],
                }),
            },
    {
        let outcome = match reply {
            Ok(answer) => self.accept_token_reply(&answer, now),
            Err(e) => Err(e),
        };
        match outcome {
            Ok(token) => {
                let events: Vec<GatewayEvent> = Vec::new();
                assert(events_view(events@) =~= Seq::empty());
                StartReport { result: Ok(NextStep::Connect(self.socket_url(token.as_str()))), events }
            },
            Err(e) => {
                let message = concat2("获取访问令牌失败: ", e.as_str());
                let events = self.status.fail_start(message.as_str());
                StartReport { result: Err(e), events }
            },
        }
    }

    /// Ends the start with the outcome of opening the socket. A failure is
    /// recorded and returned; a success connects the adapter at `now_ms`.
    pub fn finish_start(&mut self, opened: Result<(), String>, now_ms: i64) -> (report: StartReport)
        ensures
            final(self).config() == old(self).config(),
            final(self).token() == old(self).token(),
            final(self).last_seen() == old(self).last_seen(),
            final(self).policy() == old(self).policy(),
            match opened {
                Ok(_) => final(self).status() == old(self).status().connected(now_ms) && report@ == (
                StartReportView {
                    result: Ok(NextStepView::Nothing),
                    events: seq![
                        GatewayEventView::StatusChanged(final(self).status()),
                        GatewayEventView::Connected,
                    ],
                }),
                Err(e) => final(self).status() == old(self).status().failed(
                    "WebSocket连接失败: "@ + ("WebSocket connection failed: "@ + e@),
                ) && report@ == (StartReportView {
                    result: Err("WebSocket connection failed: "@ + e@),
                    events: seq![
                        GatewayEventView::Error("WebSocket连接失败: "@ + ("WebSocket connection failed: "@ + e@)),
                        GatewayEventView::StatusChanged(final(self).status()),
                    ],
                }),
            },
    {
        match opened {
            Ok(_) => {
                let events = self.status.complete_start(now_ms);
                StartReport { result: Ok(NextStep::Nothing), events }
            },
            Err(e) => {
                let failure = concat2("WebSocket connection failed: ", e.as_str());
                let message = concat2("WebSocket连接失败: ", failure.as_str());
                let events = self.status.fail_start(message.as_str());
                StartReport { result: Err(failure), events }
            },
        }
    }

    /// Takes a message received at `now`, in seconds; `now_ms` is the same
    /// moment in milliseconds. Its chat becomes the last conversation, and
    /// it is reported.
    pub fn handle_message_event(&mut self, message: &FeishuMessageEvent, now: i64, now_ms: i64) -> (events: Vec<
        GatewayEvent,
    >)
        ensures
            final(self).config() == old(self).config(),
            final(self).token() == old(self).token(),
            final(self).policy() == old(self).policy(),
            final(self).status() == (GatewayStatusView { last_inbound_at: Some(now_ms), ..old(self).status() }),
            final(self).last_seen() == (LastSeenView {
                chat_id: Some(message@.chat_id),
                user_id: message@.sender_open_id,
            }),
            events_view(events@) == seq![GatewayEventView::Message(inbound_of(message@, now))],
    {
        self.last_chat_id = Some(message.chat_id.clone());
        self.last_user_id = clone_opt_string(&message.sender_open_id);
        let inbound = IMMessage {
            id: message.message_id.clone(),
            platform: "feishu".to_string(),
            channel_id: message.chat_id.clone(),
            user_id: match &message.sender_open_id {
                Some(id) => id.clone(),
                None => String::new(),
            },
            user_name: String::new(),
            content: content_text(message.content.as_str()),
            timestamp: now,
            is_mention: message.mention_count > 0,
        };
        self.status.touch_inbound(now_ms);
        let ghost reported = inbound@;
        let mut events: Vec<GatewayEvent> = Vec::new();
        events.push(GatewayEvent::Message(inbound));
        assert(events_view(events@) =~= seq![GatewayEventView::Message(reported)]);
        events
    }

    /// Takes a decoded text frame. Only an event callback that tells of a
    /// received message does anything; every other frame is ignored.
    pub fn handle_frame(&mut self, frame: &FeishuFrame, now: i64, now_ms: i64) -> (events: Vec<GatewayEvent>)
        ensures
            final(self).config() == old(self).config(),
            final(self).token() == old(self).token(),
            final(self).policy() == old(self).policy(),
            match received_of(frame@) {
                Some(message) => final(self).status() == (GatewayStatusView {
                    last_inbound_at: Some(now_ms),
                    ..old(self).status()
                }) && final(self).last_seen() == (LastSeenView {
                    chat_id: Some(message.chat_id),
                    user_id: message.sender_open_id,
                }) && events_view(events@) == seq![GatewayEventView::Message(inbound_of(message, now))],
                None => final(self).status() == old(self).status() && final(self).last_seen() == old(self).last_seen() && events_view(events@) == Seq::<GatewayEventView>::empty(),
            },
    {
        let is_event = str_eq(frame.msg_type.as_str(), "event_callback");
        let is_receive = match &frame.event_type {
            Some(t) => {
                let b = str_eq(t.as_str(), "im.message.receive_v1");
                assert(same_text(t@, "im.message.receive_v1"@) == (opt_text(frame.event_type) == Some(
                    "im.message.receive_v1"@,
                )));
                b
            },
            None => false,
        };
        if is_event && is_receive {
            match &frame.message {
                Some(message) => {
                    return self.handle_message_event(message, now, now_ms);
                },
                None => {},
            }
        }
        let events: Vec<GatewayEvent> = Vec::new();
        assert(events_view(events@) =~= Seq::empty());
        events
    }

    fn message_request(&self, token: &str, receive_id_type: &str, receive_id: &str, msg_type: &str, key: &str, value: &str) -> (r:
        HttpRequest)
        ensures
            r@ == message_request_of(
                self.config(),
                token@,
                receive_id_type@,
                receive_id@,
                msg_type@,
                key@,
                value@,
            ),
    {
        let body = ObjectBuilder::new().text("receive_id_type", receive_id_type).text("receive_id", receive_id).text(
            "msg_type",
            msg_type,
        ).with("content", ObjectBuilder::new().text(key, value).build()).build();
        let bearer = concat2("Bearer ", token);
        HttpRequest::new(HttpMethod::Post, concat2(self.get_base_url(), "/open-apis/im/v1/messages")).header(
            "Authorization",
            bearer.as_str(),
        ).header("Content-Type", "application/json; charset=utf-8").json(body)
    }

    /// The request that sends `content` as text.
    pub fn send_message_api(&self, token: &str, receive_id_type: &str, receive_id: &str, content: &str) -> (r:
        HttpRequest)
        ensures
            r@ == message_request_of(self.config(), token@, receive_id_type@, receive_id@, "text"@, "text"@, content@),
    {
        self.message_request(token, receive_id_type, receive_id, "text", "text", content)
    }

    /// The request that sends an uploaded picture.
    pub fn send_image_message_api(&self, token: &str, receive_id_type: &str, receive_id: &str, image_key: &str) -> (r:
        HttpRequest)
        ensures
            r@ == message_request_of(
                self.config(),
                token@,
                receive_id_type@,
                receive_id@,
                "image"@,
                "image_key"@,
                image_key@,
            ),
    {
        self.message_request(token, receive_id_type, receive_id, "image", "image_key", image_key)
    }

    /// The request that sends an uploaded file.
    pub fn send_file_message_api(&self, token: &str, receive_id_type: &str, receive_id: &str, file_key: &str) -> (r:
        HttpRequest)
        ensures
            r@ == message_request_of(
                self.config(),
                token@,
                receive_id_type@,
                receive_id@,
                "file"@,
                "file_key"@,
                file_key@,
            ),
    {
        self.message_request(token, receive_id_type, receive_id, "file", "file_key", file_key)
    }

    fn upload(&self, token: &str, file_path: &str, file_name: &str, image: bool) -> (r: HttpRequest)
        ensures
            r@ == upload_request_of(self.config(), token@, file_path@, file_name@, image),
    {
        let mut url = if image {
            concat3(self.get_base_url(), "/open-apis/im/v1/images?access_token=", token)
        } else {
            concat3(self.get_base_url(), "/open-apis/im/v1/files?access_token=", token)
        };
        if image {
            url.append("&image_type=message");
        } else {
            url.append("&file_type=message");
        }
        let form = MultipartForm {
            text_fields: Pairs::new().build(),
            file_field: if image {
                "image".to_string()
            } else {
                "file".to_string()
            },
            file_path: file_path.to_string(),
            file_name: file_name.to_string(),
            mime_type: if image {
                Some("image/jpeg".to_string())
            } else {
                None
            },
        };
        HttpRequest::new(HttpMethod::Post, url).multipart(form)
    }

    /// The request that uploads the picture at `file_path`.
    pub fn upload_image(&self, token: &str, file_path: &str, file_name: &str) -> (r: HttpRequest)
        ensures
            r@ == upload_request_of(self.config(), token@, file_path@, file_name@, true),
    {
        self.upload(token, file_path, file_name, true)
    }

    /// The request that uploads the file at `file_path`.
    pub fn upload_file(&self, token: &str, file_path: &str, file_name: &str) -> (r: HttpRequest)
        ensures
            r@ == upload_request_of(self.config(), token@, file_path@, file_name@, false),
    {
        self.upload(token, file_path, file_name, false)
    }

    /// What has to go out to send the file at `file_path`, whose name is
    /// `file_name` and whose extension is `ext`: the upload, as a picture
    /// or as a file.
    pub fn media_upload(&self, file_path: &str, file_name: &str, ext: &str, now: i64) -> (r: Result<Outbound, String>)
        ensures
            outbound_view(r) == media_of_file(
                self.status(),
                self.config(),
                self.token(),
                file_path@,
                file_name@,
                ext@,
                now,
            ),
    {
        if !self.status.connected {
            return Err(not_connected());
        }
        match self.token.lookup(now) {
            None => Ok(Outbound::FetchToken(self.token_request())),
            Some(token) => {
                let lower = to_lowercase(ext);
                let image = is_image(lower.as_str());
                Ok(deliver_one(self.upload(token.as_str(), file_path, file_name, image)))
            },
        }
    }

    fn text_outbound(&self, chat: Option<&str>, text: &str, now: i64) -> (r: Result<Outbound, String>)
        ensures
            outbound_view(r) == message_of(self.status(), self.config(), self.token(), opt_str_text(chat), text@, now),
    {
        if !self.status.connected {
            return Err(not_connected());
        }
        match chat {
            None => Err("没有可用的聊天".to_string()),
            Some(chat_id) => match self.token.lookup(now) {
                None => Ok(Outbound::FetchToken(self.token_request())),
                Some(token) => Ok(deliver_one(self.send_message_api(token.as_str(), "chat_id", chat_id, text))),
            },
        }
    }

    /// The connection ended without a stop: the adapter is disconnected,
    /// and a reconnect is due after the delay handed out. After a stop no
    /// reconnect follows.
    pub fn connection_lost(&mut self) -> (r: (Vec<GatewayEvent>, Option<u64>))
        ensures
            final(self).policy().backoff().initial_ms() == old(self).policy().backoff().initial_ms(),
            final(self).policy().backoff().max_ms() == old(self).policy().backoff().max_ms(),
            final(self).status() == old(self).status().disconnected(),
            events_view(r.0@) == seq![GatewayEventView::Disconnected],
            final(self).config() == old(self).config(),
            final(self).token() == old(self).token(),
            final(self).last_seen() == old(self).last_seen(),
            final(self).policy().stopping() == old(self).policy().stopping(),
            old(self).policy().stopping() ==> r.1 is None && final(self).policy() == old(self).policy(),
            !old(self).policy().stopping() ==> r.1 is Some && r.1->0 == old(self).policy().backoff().next_ms()
                && final(self).policy().backoff().next_ms() == min_nat(
                2 * old(self).policy().backoff().next_ms(),
                old(self).policy().backoff().max_ms(),
            ),
    {
        let events = self.status.drop_connection();
        let delay = self.policy.connection_lost();
        (events, delay)
    }

    /// Enters the handshake again after a lost connection. Other than a
    /// planned start this keeps the reconnect delays where they are; after
    /// a stop it does nothing.
    pub fn reconnect(&mut self, now: i64) -> (report: StartReport)
        ensures
            match start_gate(old(self).status(), old(self).enabled() && !old(self).policy().stopping(), old(self).missing_credentials()) {
                StartGate::Skip => report@.result == Ok::<NextStepView, Seq<char>>(NextStepView::Nothing),
                StartGate::Rejected => report@.result == Err::<NextStepView, Seq<char>>(old(self).missing_credentials()->0),
                StartGate::Open => report@.result == Ok::<NextStepView, Seq<char>>(first_step_of(old(self).config(), old(self).token(), now)),
            },
            final(self).config() == old(self).config(),
            final(self).token() == old(self).token(),
            final(self).last_seen() == old(self).last_seen(),
            final(self).policy() == old(self).policy(),
            final(self).status() == status_after_gate(
                old(self).status(),
                old(self).enabled() && !old(self).policy().stopping(),
                old(self).missing_credentials(),
            ),
            report@.events == events_at_gate(
                old(self).status(),
                old(self).enabled() && !old(self).policy().stopping(),
                old(self).missing_credentials(),
            ),
    {
        let allowed = self.config.enabled && !self.policy.is_stopping();
        self.enter_handshake(allowed, now)
    }
}

impl Gateway for FeishuGateway {
    closed spec fn status(&self) -> GatewayStatusView {
        self.status@
    }

    open spec fn enabled(&self) -> bool {
        self.config().enabled
    }

    open spec fn missing_credentials(&self) -> Option<Seq<char>> {
        if self.config().app_id.len() == 0 || self.config().app_secret.len() == 0 {
            Some(missing_credentials_text())
        } else {
            None
        }
    }

    open spec fn reconnect_barred(&self) -> bool {
        self.policy().stopping()
    }

    open spec fn capabilities_spec(&self) -> Capabilities {
        Capabilities { media: true, edit: false, delete: false, history: false }
    }

    open spec fn notification_plan(&self, text: Seq<char>, now: i64) -> Result<OutboundView, Seq<char>> {
        message_of(self.status(), self.config(), self.token(), self.last_seen().chat_id, text, now)
    }

    open spec fn message_plan(&self, conversation_id: Seq<char>, text: Seq<char>, now: i64) -> Result<
        OutboundView,
        Seq<char>,
    > {
        message_of(self.status(), self.config(), self.token(), Some(conversation_id), text, now)
    }

    open spec fn media_plan(
        &self,
        conversation_id: Seq<char>,
        file_path: Seq<char>,
        file_name: Seq<char>,
        ext: Seq<char>,
        now: i64,
    ) -> Result<OutboundView, Seq<char>> {
        media_of_file(self.status(), self.config(), self.token(), file_path, file_name, ext, now)
    }

    open spec fn edit_plan(&self, conversation_id: Seq<char>, message_id: Seq<char>, new_text: Seq<char>) -> Result<
        OutboundView,
        Seq<char>,
    > {
        Err("飞书不支持编辑消息"@)
    }

    open spec fn delete_plan(&self, conversation_id: Seq<char>, message_id: Seq<char>) -> Result<
        OutboundView,
        Seq<char>,
    > {
        Err("飞书不支持删除消息"@)
    }

    open spec fn history_plan(&self, conversation_id: Seq<char>, limit: u32) -> Result<OutboundView, Seq<char>> {
        Err("飞书暂不支持获取历史消息"@)
    }

    fn capabilities(&self) -> (c: Capabilities) {
        Capabilities { media: true, edit: false, delete: false, history: false }
    }

    fn is_connected(&self) -> (connected: bool) {
        self.status.connected
    }

    fn get_status(&self) -> (status: GatewayStatus) {
        self.status.clone()
    }

    fn start(&mut self, now: i64) -> (report: StartReport)
        ensures
            final(self).policy().backoff().initial_ms() == old(self).policy().backoff().initial_ms(),
            final(self).policy().backoff().max_ms() == old(self).policy().backoff().max_ms(),
            final(self).config() == old(self).config(),
            final(self).token() == old(self).token(),
            final(self).last_seen() == old(self).last_seen(),
            start_gate(old(self).status(), old(self).enabled(), old(self).missing_credentials())
                == StartGate::Open ==> report@.result == Ok::<NextStepView, Seq<char>>(
                first_step_of(old(self).config(), old(self).token(), now),
            ) && final(self).policy().backoff().is_reset() && !final(self).policy().stopping(),
            start_gate(old(self).status(), old(self).enabled(), old(self).missing_credentials())
                != StartGate::Open ==> final(self).policy() == old(self).policy(),
    {
        let report = self.enter_handshake(self.config.enabled, now);
        match &report.result {
            Ok(NextStep::Connect(_)) => {
                self.policy.planned_start();
            },
            Ok(NextStep::Request(_)) => {
                self.policy.planned_start();
            },
            _ => {},
        }
        report
    }

    fn stop(&mut self) -> (events: Vec<GatewayEvent>)
        ensures
            final(self).config() == old(self).config(),
            final(self).token() is None,
            final(self).last_seen() == old(self).last_seen(),
            final(self).policy().stopping(),
            final(self).policy().backoff() == old(self).policy().backoff(),
    {
        self.policy.stop();
        self.token.clear();
        self.status.stop()
    }

    fn reconnect_if_needed(&mut self, now: i64) -> (report: StartReport)
        ensures
            final(self).policy().backoff().initial_ms() == old(self).policy().backoff().initial_ms(),
            final(self).policy().backoff().max_ms() == old(self).policy().backoff().max_ms(),
            !old(self).status().connected && !old(self).reconnect_barred() && start_gate(
                old(self).status(),
                old(self).enabled(),
                old(self).missing_credentials(),
            ) == StartGate::Open ==> report@.result == Ok::<NextStepView, Seq<char>>(
                first_step_of(old(self).config(), old(self).token(), now),
            )
                && final(self).policy().backoff().is_reset() && !final(self).policy().stopping(),
            old(self).status().connected || old(self).reconnect_barred() ==> final(self).policy() == old(self).policy(),
            final(self).config() == old(self).config(),
            final(self).token() == old(self).token(),
            final(self).last_seen() == old(self).last_seen(),
    {
        if !self.status.connected && !self.policy.is_stopping() {
            self.start(now)
        } else {
            report_skip()
        }
    }

    fn send_notification(&self, text: &str, now: i64) -> (r: Result<Outbound, String>)
        ensures
            outbound_view(r) == message_of(
                self.status(),
                self.config(),
                self.token(),
                self.last_seen().chat_id,
                text@,
                now,
            ),
    {
        let chat = match &self.last_chat_id {
            Some(c) => Some(c.as_str()),
            None => None,
        };
        self.text_outbound(chat, text, now)
    }

    fn send_message(&self, conversation_id: &str, text: &str, now: i64) -> (r: Result<Outbound, String>)
        ensures
            outbound_view(r) == message_of(
                self.status(),
                self.config(),
                self.token(),
                Some(conversation_id@),
                text@,
                now,
            ),
    {
        self.text_outbound(Some(conversation_id), text, now)
    }

    fn send_media_message(&self, conversation_id: &str, file_path: &str, now: i64) -> (r: Result<
        Outbound,
        String,
    >)
        ensures
            !self.status().connected ==> outbound_view(r) == Err::<OutboundView, Seq<char>>(
                not_connected_text(),
            ),
            self.status().connected && usable_token(self.token(), now) is None ==> outbound_view(r) == Ok::<
                OutboundView,
                Seq<char>,
            >(OutboundView::FetchToken(token_request_of(self.config()))),
            self.status().connected && usable_token(self.token(), now) is Some ==> r is Ok && r->Ok_0@ is Deliver
                && r->Ok_0@->Deliver_0.len() == 1,
    {
        let ext = path_extension(file_path);
        let name = match path_file_name(file_path) {
            Some(n) => n,
            None => "file".to_string(),
        };
        let r = self.media_upload(file_path, name.as_str(), ext.as_str(), now);
        assert(outbound_view(r) == self.media_plan(conversation_id@, file_path@, name@, ext@, now));
        r
    }

    fn edit_message(&self, conversation_id: &str, message_id: &str, new_text: &str) -> (r: Result<
        Outbound,
        String,
    >)
        ensures
            outbound_view(r) == Err::<OutboundView, Seq<char>>("飞书不支持编辑消息"@),
    {
        Err("飞书不支持编辑消息".to_string())
    }

    fn delete_message(&self, conversation_id: &str, message_id: &str) -> (r: Result<Outbound, String>)
        ensures
            outbound_view(r) == Err::<OutboundView, Seq<char>>("飞书不支持删除消息"@),
    {
        Err("飞书不支持删除消息".to_string())
    }

    fn get_message_history(&self, conversation_id: &str, limit: u32) -> (r: Result<Outbound, String>)
        ensures
            outbound_view(r) == Err::<OutboundView, Seq<char>>("飞书暂不支持获取历史消息"@),
    {
        Err("飞书暂不支持获取历史消息".to_string())
    }

    fn record_outbound(&mut self, now_ms: i64)
        ensures
            final(self).config() == old(self).config(),
            final(self).token() == old(self).token(),
            final(self).last_seen() == old(self).last_seen(),
            final(self).policy() == old(self).policy(),
    {
        self.status.touch_outbound(now_ms);
    }
}

} // verus!
