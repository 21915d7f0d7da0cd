//! The DingTalk adapter: a stream socket for inbound messages, the robot
//! API for sends, both under a token that is fetched by client credentials.

use vstd::prelude::*;
use crate::im::backoff::{min_nat, ReconnectPolicy, INITIAL_RECONNECT_DELAY_MS, MAX_RECONNECT_DELAY_MS};
use crate::im::gateway::{clone_opt_string, deliver_one, events_view, not_connected, not_connected_text, once, opt_str_text, opt_text, outbound_view, report_skip, start_gate, Capabilities, Gateway, GatewayEvent, GatewayEventView, GatewayStatus, GatewayStatusView, IMMessage, IMMessageView, NextStep, NextStepView, Outbound, OutboundView, StartGate, StartReport, StartReportView};
use crate::im::http::{json_list, HttpBodyView, HttpMethod, HttpRequest, HttpRequestView, Json, JsonView, MultipartForm, MultipartFormView, ObjectBuilder, Pairs};
use crate::im::text::{concat2, concat3, path_file_name, str_eq, text_or_empty};
use crate::im::token::{clamp_i64, token_step_of, usable_token, AccessTokenView, TokenCache, TokenStep, DEFAULT_TOKEN_LIFETIME_SECONDS};
use crate::im::gateway::{deliveries_view, events_at_gate, status_after_gate, Delivery, DeliveryView};

verus! {

/// What a `DingTalkConfig` holds.
pub struct DingTalkConfigView {
    pub enabled: bool,
    pub client_id: Seq<char>,
    pub client_secret: Seq<char>,
    pub agent_id: Option<Seq<char>>,
    pub robot_code: Option<Seq<char>>,
    pub message_type: Option<Seq<char>>,
    pub media_download_path: Option<Seq<char>>,
    pub debug: Option<bool>,
}

/// Configuration of the DingTalk adapter.
#[derive(Debug)]
pub struct DingTalkConfig {
    pub enabled: bool,
    pub client_id: String,
    pub client_secret: String,
    pub agent_id: Option<String>,
    pub robot_code: Option<String>,
    pub message_type: Option<String>,
    pub media_download_path: Option<String>,
    pub debug: Option<bool>,
}

impl View for DingTalkConfig {
    type V = DingTalkConfigView;

    open spec fn view(&self) -> DingTalkConfigView {
        DingTalkConfigView {
            enabled: self.enabled,
            client_id: self.client_id@,
            client_secret: self.client_secret@,
            agent_id: opt_text(self.agent_id),
            robot_code: opt_text(self.robot_code),
            message_type: opt_text(self.message_type),
            media_download_path: opt_text(self.media_download_path),
            debug: self.debug,
        }
    }
}

impl Default for DingTalkConfig {
    fn default() -> (c: DingTalkConfig)
        ensures
            c@ == (DingTalkConfigView {
                enabled: false,
                client_id: Seq::empty(),
                client_secret: Seq::empty(),
                agent_id: None,
                robot_code: None,
                message_type: Some("markdown"@),
                media_download_path: None,
                debug: Some(false),
            }),
    {
        DingTalkConfig {
            enabled: false,
            client_id: String::new(),
            client_secret: String::new(),
            agent_id: None,
            robot_code: None,
            message_type: Some("markdown".to_string()),
            media_download_path: None,
            debug: Some(false),
        }
    }
}

impl Clone for DingTalkConfig {
    fn clone(&self) -> (c: DingTalkConfig)
        ensures
            c@ == self@,
    {
        DingTalkConfig {
            enabled: self.enabled,
            client_id: self.client_id.clone(),
            client_secret: self.client_secret.clone(),
            agent_id: clone_opt_string(&self.agent_id),
            robot_code: clone_opt_string(&self.robot_code),
            message_type: clone_opt_string(&self.message_type),
            media_download_path: clone_opt_string(&self.media_download_path),
            debug: self.debug,
        }
    }
}

/// What a `DingTalkMediaAttachment` holds.
pub struct DingTalkMediaAttachmentView {
    pub media_type: Seq<char>,
    pub file_id: Option<Seq<char>>,
    pub download_code: Option<Seq<char>>,
    pub file_name: Option<Seq<char>>,
    pub file_size: Option<Seq<char>>,
    pub duration: Option<Seq<char>>,
    pub local_path: Option<Seq<char>>,
}

/// A file that came with a message.
#[derive(Debug)]
pub struct DingTalkMediaAttachment {
    pub media_type: String,
    pub file_id: Option<String>,
    pub download_code: Option<String>,
    pub file_name: Option<String>,
    pub file_size: Option<String>,
    pub duration: Option<String>,
    pub local_path: Option<String>,
}

impl View for DingTalkMediaAttachment {
    type V = DingTalkMediaAttachmentView;

    open spec fn view(&self) -> DingTalkMediaAttachmentView {
        DingTalkMediaAttachmentView {
            media_type: self.media_type@,
            file_id: opt_text(self.file_id),
            download_code: opt_text(self.download_code),
            file_name: opt_text(self.file_name),
            file_size: opt_text(self.file_size),
            duration: opt_text(self.duration),
            local_path: opt_text(self.local_path),
        }
    }
}

/// What a `DingTalkFile` holds.
pub struct DingTalkFileView {
    pub download_code: Option<Seq<char>>,
    pub file_id: Option<Seq<char>>,
    pub file_name: Option<Seq<char>>,
    pub file_size: Option<Seq<char>>,
    pub duration: Option<Seq<char>>,
}

/// One file of an inbound message, as the platform describes it.
#[derive(Debug)]
pub struct DingTalkFile {
    pub download_code: Option<String>,
    pub file_id: Option<String>,
    pub file_name: Option<String>,
    pub file_size: Option<String>,
    pub duration: Option<String>,
}

impl View for DingTalkFile {
    type V = DingTalkFileView;

    open spec fn view(&self) -> DingTalkFileView {
        DingTalkFileView {
            download_code: opt_text(self.download_code),
            file_id: opt_text(self.file_id),
            file_name: opt_text(self.file_name),
            file_size: opt_text(self.file_size),
            duration: opt_text(self.duration),
        }
    }
}

/// The view of an optional file.
pub open spec fn opt_file(o: Option<DingTalkFile>) -> Option<DingTalkFileView> {
    match o {
        Some(f) => Some(f@),
        None => None,
    }
}

/// What a `DingTalkInboundMessage` holds.
pub struct DingTalkInboundMessageView {
    pub msg_id: Seq<char>,
    pub create_at: Option<i64>,
    pub text: Option<Seq<char>>,
    pub recognition: Option<Seq<char>>,
    pub image: Option<DingTalkFileView>,
    pub voice: Option<DingTalkFileView>,
    pub file: Option<DingTalkFileView>,
    pub conversation_type: Option<Seq<char>>,
    pub conversation_id: Option<Seq<char>>,
    pub open_conversation_id: Option<Seq<char>>,
    pub sender_staff_id: Option<Seq<char>>,
    pub sender_nick: Option<Seq<char>>,
}

/// A message as the stream delivers it. `text` is the text of a text
/// message, `recognition` what the platform heard in a voice message.
#[derive(Debug)]
pub struct DingTalkInboundMessage {
    pub msg_id: String,
    pub create_at: Option<i64>,
    pub text: Option<String>,
    pub recognition: Option<String>,
    pub image: Option<DingTalkFile>,
    pub voice: Option<DingTalkFile>,
    pub file: Option<DingTalkFile>,
    pub conversation_type: Option<String>,
    pub conversation_id: Option<String>,
    pub open_conversation_id: Option<String>,
    pub sender_staff_id: Option<String>,
    pub sender_nick: Option<String>,
}

impl View for DingTalkInboundMessage {
    type V = DingTalkInboundMessageView;

    open spec fn view(&self) -> DingTalkInboundMessageView {
        DingTalkInboundMessageView {
            msg_id: self.msg_id@,
            create_at: self.create_at,
            text: opt_text(self.text),
            recognition: opt_text(self.recognition),
            image: opt_file(self.image),
            voice: opt_file(self.voice),
            file: opt_file(self.file),
            conversation_type: opt_text(self.conversation_type),
            conversation_id: opt_text(self.conversation_id),
            open_conversation_id: opt_text(self.open_conversation_id),
            sender_staff_id: opt_text(self.sender_staff_id),
            sender_nick: opt_text(self.sender_nick),
        }
    }
}

/// The attachments of a list, each by its view.
pub open spec fn attachments_view(list: Seq<DingTalkMediaAttachment>) -> Seq<DingTalkMediaAttachmentView> {
    Seq::new(list.len(), |i: int| list[i]@)
}

/// The attachment that stands for a file of the kind `media_type`: only a
/// file has a name, only a voice message a duration.
pub open spec fn attachment_of(media_type: Seq<char>, file: DingTalkFileView) -> DingTalkMediaAttachmentView {
    DingTalkMediaAttachmentView {
        media_type,
        file_id: file.file_id,
        download_code: file.download_code,
        file_name: if media_type == "file"@ {
            file.file_name
        } else {
            None
        },
        file_size: file.file_size,
        duration: if media_type == "voice"@ {
            file.duration
        } else {
            None
        },
        local_path: None,
    }
}

/// `list` with one more attachment where `file` is there and can be
/// downloaded.
pub open spec fn with_attachment(
    list: Seq<DingTalkMediaAttachmentView>,
    media_type: Seq<char>,
    file: Option<DingTalkFileView>,
) -> Seq<DingTalkMediaAttachmentView> {
    match file {
        Some(f) => if f.download_code is Some {
            list.push(attachment_of(media_type, f))
        } else {
            list
        },
        None => list,
    }
}

/// The files of a message in a fixed order: image, voice, file.
pub open spec fn media_of(message: DingTalkInboundMessageView) -> Seq<DingTalkMediaAttachmentView> {
    with_attachment(
        with_attachment(with_attachment(Seq::empty(), "image"@, message.image), "voice"@, message.voice),
        "file"@,
        message.file,
    )
}

fn push_attachment(list: &mut Vec<DingTalkMediaAttachment>, media_type: &str, file: &Option<DingTalkFile>)
    ensures
        attachments_view(final(list)@) == with_attachment(
            attachments_view(old(list)@),
            media_type@,
            opt_file(*file),
        ),
{
    match file {
        Some(f) => {
            if f.download_code.is_some() {
                let attachment = DingTalkMediaAttachment {
                    media_type: media_type.to_string(),
                    file_id: clone_opt_string(&f.file_id),
                    download_code: clone_opt_string(&f.download_code),
                    file_name: if str_eq(media_type, "file") {
                        clone_opt_string(&f.file_name)
                    } else {
                        None
                    },
                    file_size: clone_opt_string(&f.file_size),
                    duration: if str_eq(media_type, "voice") {
                        clone_opt_string(&f.duration)
                    } else {
                        None
                    },
                    local_path: None,
                };
                assert(attachment@ == attachment_of(media_type@, f@));
                list.push(attachment);
                assert(attachments_view(list@) =~= attachments_view(old(list)@).push(
                    attachment_of(media_type@, f@),
                ));
            }
        },
        None => {},
    }
}

/// The files that came with `message`.
pub fn extract_media_from_message(message: &DingTalkInboundMessage) -> (list: Vec<DingTalkMediaAttachment>)
    ensures
        attachments_view(list@) == media_of(message@),
{
    let mut list: Vec<DingTalkMediaAttachment> = Vec::new();
    assert(attachments_view(list@) =~= Seq::empty());
    push_attachment(&mut list, "image", &message.image);
    push_attachment(&mut list, "voice", &message.voice);
    push_attachment(&mut list, "file", &message.file);
    list
}

/// The conversation that a notification goes to.
#[derive(Debug)]
pub struct DingTalkConversation {
    pub conversation_type: String,
    pub conversation_id: String,
    pub open_conversation_id: Option<String>,
    pub sender_staff_id: Option<String>,
}

/// What a `DingTalkConversation` holds.
pub struct DingTalkConversationView {
    pub conversation_type: Seq<char>,
    pub conversation_id: Seq<char>,
    pub open_conversation_id: Option<Seq<char>>,
    pub sender_staff_id: Option<Seq<char>>,
}

impl View for DingTalkConversation {
    type V = DingTalkConversationView;

    open spec fn view(&self) -> DingTalkConversationView {
        DingTalkConversationView {
            conversation_type: self.conversation_type@,
            conversation_id: self.conversation_id@,
            open_conversation_id: opt_text(self.open_conversation_id),
            sender_staff_id: opt_text(self.sender_staff_id),
        }
    }
}

/// The request that fetches a token.
pub open spec fn token_request_of(config: DingTalkConfigView) -> HttpRequestView {
    HttpRequestView {
        method: HttpMethod::Post,
        url: "https://api.dingtalk.com/v1.0/oauth2/accessToken"@,
        query: Seq::empty(),
        headers: Seq::empty(),
        body: HttpBodyView::Json(
            JsonView::Object(
                Seq::empty().push(("appKey"@, JsonView::Text(config.client_id))).push(
                    ("appSecret"@, JsonView::Text(config.client_secret)),
                ),
            ),
        ),
    }
}

/// What the platform's answer to a token request holds.
pub struct TokenReplyView {
    pub errcode: i32,
    pub errmsg: Option<Seq<char>>,
    pub access_token: Option<Seq<char>>,
    pub expire_in: Option<i64>,
}

/// The platform's answer to a token request.
#[derive(Debug)]
pub struct TokenReply {
    pub errcode: i32,
    pub errmsg: Option<String>,
    pub access_token: Option<String>,
    pub expire_in: Option<i64>,
}

impl View for TokenReply {
    type V = TokenReplyView;

    open spec fn view(&self) -> TokenReplyView {
        TokenReplyView {
            errcode: self.errcode,
            errmsg: opt_text(self.errmsg),
            access_token: opt_text(self.access_token),
            expire_in: self.expire_in,
        }
    }
}

/// What a token answer read at `now` means: the token and its expiry, or an
/// error that quotes the answer's message. An answer without a lifetime
/// gets the default one.
pub open spec fn token_verdict(reply: TokenReplyView, now: i64) -> Result<AccessTokenView, Seq<char>> {
    if reply.errcode == 0 && reply.access_token is Some {
        Ok(
            AccessTokenView {
                token: reply.access_token->0,
                expires_at: clamp_i64(
                    now + match reply.expire_in {
                        Some(seconds) => seconds,
                        None => DEFAULT_TOKEN_LIFETIME_SECONDS,
                    },
                ),
            },
        )
    } else {
        Err("Failed to get access token: "@ + text_or_empty(reply.errmsg))
    }
}

/// The content of a message of the kind `msg_type`: markdown where it is
/// asked for, text for every other kind.
pub open spec fn message_param_of(content: Seq<char>, msg_type: Seq<char>) -> JsonView {
    if msg_type == "markdown"@ {
        JsonView::Object(
            Seq::empty().push(("msgtype"@, JsonView::Text("markdown"@))).push(
                (
                    "markdown"@,
                    JsonView::Object(
                        Seq::empty().push(("title"@, JsonView::Text("通知"@))).push(
                            ("text"@, JsonView::Text(content)),
                        ),
                    ),
                ),
            ),
        )
    } else {
        JsonView::Object(
            Seq::empty().push(("msgtype"@, JsonView::Text("text"@))).push(
                ("text"@, JsonView::Object(Seq::empty().push(("content"@, JsonView::Text(content))))),
            ),
        )
    }
}

/// The request that sends `content` to one user.
pub open spec fn user_request_of(
    config: DingTalkConfigView,
    token: Seq<char>,
    user_id: Seq<char>,
    content: Seq<char>,
    msg_type: Seq<char>,
) -> HttpRequestView {
    HttpRequestView {
        method: HttpMethod::Post,
        url: "https://api.dingtalk.com/v1.0/robot/oToMessages/batchSend?access_token="@ + token,
        query: Seq::empty(),
        headers: Seq::empty(),
        body: HttpBodyView::Json(
            JsonView::Object(
                Seq::empty().push(("robotCode"@, JsonView::Text(text_or_empty(config.robot_code)))).push(
                    ("userIds"@, JsonView::List(Seq::empty().push(JsonView::Text(user_id)))),
                ).push(("msgKey"@, JsonView::Text(msg_type))).push(
                    ("msgParam"@, JsonView::Encoded(Box::new(message_param_of(content, msg_type)))),
                ),
            ),
        ),
    }
}

/// The request that sends `content` into a group.
pub open spec fn group_request_of(
    config: DingTalkConfigView,
    token: Seq<char>,
    open_conversation_id: Seq<char>,
    content: Seq<char>,
    msg_type: Seq<char>,
) -> HttpRequestView {
    HttpRequestView {
        method: HttpMethod::Post,
        url: "https://api.dingtalk.com/v1.0/robot/groupMessages/send?access_token="@ + token,
        query: Seq::empty(),
        headers: Seq::empty(),
        body: HttpBodyView::Json(
            JsonView::Object(
                Seq::empty().push(("robotCode"@, JsonView::Text(text_or_empty(config.robot_code)))).push(
                    ("openConversationId"@, JsonView::Text(open_conversation_id)),
                ).push(("msgKey"@, JsonView::Text(msg_type))).push(
                    ("msgParam"@, JsonView::Encoded(Box::new(message_param_of(content, msg_type)))),
                ),
            ),
        ),
    }
}

/// The request that uploads the file at `file_path` as `media_type`.
pub open spec fn upload_request_of(
    config: DingTalkConfigView,
    token: Seq<char>,
    file_path: Seq<char>,
    file_name: Seq<char>,
    media_type: Seq<char>,
) -> HttpRequestView {
    HttpRequestView {
        method: HttpMethod::Post,
        url: "https://api.dingtalk.com/v1.0/robot/media/upload?access_token="@ + token + "&agentId="@
            + text_or_empty(config.agent_id),
        query: Seq::empty(),
        headers: Seq::empty(),
        body: HttpBodyView::Multipart(
            MultipartFormView {
                text_fields: Seq::empty().push(("type"@, media_type)),
                file_field: "media"@,
                file_path,
                file_name,
                mime_type: None,
            },
        ),
    }
}

/// The request that downloads the file behind `download_code`.
pub open spec fn download_request_of(token: Seq<char>, download_code: Seq<char>) -> HttpRequestView {
    HttpRequestView {
        method: HttpMethod::Get,
        url: "https://api.dingtalk.com/v1.0/robot/media/download?access_token="@ + token + "&downloadCode="@
            + download_code,
        query: Seq::empty(),
        headers: Seq::empty(),
        body: HttpBodyView::Empty,
    }
}

/// The address of the stream for a client with `token`.
pub open spec fn stream_url_of(token: Seq<char>) -> Seq<char> {
    "wss://api.dingtalk.com/v1.0/robot/stream?token="@ + token
}

/// An object without members.
pub open spec fn empty_object() -> JsonView {
    JsonView::Object(Seq::empty())
}

/// The frame that opens the stream.
pub open spec fn connect_frame_of() -> JsonView {
    JsonView::Object(Seq::empty().push(("type"@, JsonView::Text("connect"@))).push(("data"@, empty_object())))
}

/// The heartbeat frame.
pub open spec fn heartbeat_frame_of() -> JsonView {
    JsonView::Object(Seq::empty().push(("type"@, JsonView::Text("heartbeat"@))).push(("data"@, empty_object())))
}

/// The frame that acknowledges the stream message `message_id`.
pub open spec fn ack_frame_of(message_id: Seq<char>) -> JsonView {
    JsonView::Object(
        Seq::empty().push(("messageId"@, JsonView::Text(message_id))).push(("type"@, JsonView::Text("ack"@))).push(
            ("data"@, JsonView::Object(Seq::empty().push(("success"@, JsonView::Bool(true))))),
        ),
    )
}

/// The frame that opens the stream.
pub fn connect_frame() -> (j: Json)
    ensures
        j@ == connect_frame_of(),
{
    ObjectBuilder::new().text("type", "connect").with("data", ObjectBuilder::new().build()).build()
}

/// The heartbeat frame.
pub fn heartbeat_frame() -> (j: Json)
    ensures
        j@ == heartbeat_frame_of(),
{
    ObjectBuilder::new().text("type", "heartbeat").with("data", ObjectBuilder::new().build()).build()
}

/// The frame that acknowledges the stream message `message_id`.
pub fn ack_frame(message_id: &str) -> (j: Json)
    ensures
        j@ == ack_frame_of(message_id@),
{
    ObjectBuilder::new().text("messageId", message_id).text("type", "ack").with(
        "data",
        ObjectBuilder::new().flag("success", true).build(),
    ).build()
}

/// What the robot API's answer to a send means: code 0 is success, any
/// other code an error that quotes the answer's message.
pub fn check_robot_reply(errcode: i32, errmsg: Option<&str>) -> (r: Result<(), String>)
    ensures
        match r {
            Ok(_) => errcode == 0,
            Err(e) => errcode != 0 && e@ == "Send message failed: "@ + text_or_empty(opt_str_text(errmsg)),
        },
{
    if errcode == 0 {
        Ok(())
    } else {
        let detail = match errmsg {
            Some(m) => m,
            None => "",
        };
        proof {
            reveal_strlit("");
            assert(""@ =~= Seq::<char>::empty());
        }
        Err(concat2("Send message failed: ", detail))
    }
}

/// What the answer to an upload means: the media id, or an error that
/// quotes the answer's message.
pub fn check_upload_reply(errcode: i32, errmsg: Option<&str>, media_id: Option<String>) -> (r: Result<String, String>)
    ensures
        match r {
            Ok(id) => errcode == 0 && media_id is Some && id@ == media_id->0@,
            Err(e) => !(errcode == 0 && media_id is Some) && e@ == "Upload failed: "@ + text_or_empty(
                opt_str_text(errmsg),
            ),
        },
{
    let detail = match errmsg {
        Some(m) => m,
        None => "",
    };
    proof {
        reveal_strlit("");
        assert(""@ =~= Seq::<char>::empty());
    }
    if errcode == 0 {
        match media_id {
            Some(id) => Ok(id),
            None => Err(concat2("Upload failed: ", detail)),
        }
    } else {
        Err(concat2("Upload failed: ", detail))
    }
}

/// The text of a message: its text, else what the platform heard in it,
/// else nothing.
pub open spec fn content_of(message: DingTalkInboundMessageView) -> Seq<char> {
    match message.text {
        Some(t) => t,
        None => text_or_empty(message.recognition),
    }
}

/// Whether a message has anything to report: a text or a file.
pub open spec fn reportable(message: DingTalkInboundMessageView) -> bool {
    content_of(message).len() > 0 || media_of(message).len() > 0
}

/// The conversation that a notification goes to after `message` came in: a
/// message without a conversation id leaves it as it was. A message without
/// a conversation type counts as a chat with one person.
pub open spec fn conversation_after(
    last: Option<DingTalkConversationView>,
    message: DingTalkInboundMessageView,
) -> Option<DingTalkConversationView> {
    match message.conversation_id {
        Some(id) => Some(
            DingTalkConversationView {
                conversation_type: match message.conversation_type {
                    Some(t) => t,
                    None => "1"@,
                },
                conversation_id: id,
                open_conversation_id: message.open_conversation_id,
                sender_staff_id: message.sender_staff_id,
            },
        ),
        None => last,
    }
}

/// The normalized form of a message that came in at `now`.
pub open spec fn inbound_of(message: DingTalkInboundMessageView, now: i64) -> IMMessageView {
    IMMessageView {
        id: message.msg_id,
        platform: "dingtalk"@,
        channel_id: text_or_empty(message.conversation_id),
        user_id: text_or_empty(message.sender_staff_id),
        user_name: text_or_empty(message.sender_nick),
        content: content_of(message),
        timestamp: match message.create_at {
            Some(t) => t,
            None => now,
        },
        is_mention: false,
    }
}

/// The kind of message that the configuration asks for.
pub open spec fn msg_type_of(config: DingTalkConfigView) -> Seq<char> {
    match config.message_type {
        Some(t) => t,
        None => "text"@,
    }
}

/// The error of a send into a conversation that the adapter does not
/// track.
pub open spec fn unknown_conversation_text(conversation_id: Seq<char>) -> Seq<char> {
    "未找到会话: "@ + conversation_id
}

/// The error of a send into a tracked conversation of which the id that
/// the send needs is not known.
pub open spec fn unreachable_conversation_text(conversation_id: Seq<char>) -> Seq<char> {
    "会话缺少接收方: "@ + conversation_id
}

/// Whether a send can reach a conversation: a chat with one person needs
/// the sender's staff id, any other the open conversation id.
pub open spec fn reachable(conversation: DingTalkConversationView) -> bool {
    if conversation.conversation_type == "1"@ {
        conversation.sender_staff_id is Some
    } else {
        conversation.open_conversation_id is Some
    }
}

/// Where `text` goes for a conversation that can be reached: to the sender
/// in a chat with one person, into the group otherwise.
pub open spec fn route_of(
    config: DingTalkConfigView,
    token: Seq<char>,
    conversation: DingTalkConversationView,
    text: Seq<char>,
) -> DeliveryView {
    if conversation.conversation_type == "1"@ {
        once(user_request_of(config, token, conversation.sender_staff_id->0, text, msg_type_of(config)))
    } else {
        once(group_request_of(config, token, conversation.open_conversation_id->0, text, msg_type_of(config)))
    }
}

/// What a send of `text` into a tracked conversation comes to at `now`: an
/// error where the conversation cannot be reached, a token fetch where no
/// token is at hand, and the one request otherwise.
pub open spec fn conversation_send_of(
    config: DingTalkConfigView,
    cached: Option<AccessTokenView>,
    conversation: DingTalkConversationView,
    text: Seq<char>,
    now: i64,
) -> Result<OutboundView, Seq<char>> {
    if !reachable(conversation) {
        Err(unreachable_conversation_text(conversation.conversation_id))
    } else {
        match usable_token(cached, now) {
            None => Ok(OutboundView::FetchToken(token_request_of(config))),
            Some(token) => Ok(OutboundView::Deliver(seq![route_of(config, token, conversation, text)])),
        }
    }
}

/// Whether `conversation_id` names the conversation that the adapter
/// tracks.
pub open spec fn tracks(last: Option<DingTalkConversationView>, conversation_id: Seq<char>) -> bool {
    last is Some && last->0.conversation_id == conversation_id
}

/// What a send of `text` into the last conversation comes to at `now`.
pub open spec fn notification_of(
    status: GatewayStatusView,
    config: DingTalkConfigView,
    cached: Option<AccessTokenView>,
    last: Option<DingTalkConversationView>,
    text: Seq<char>,
    now: i64,
) -> Result<OutboundView, Seq<char>> {
    if !status.connected {
        Err(not_connected_text())
    } else {
        match last {
            None => Err("没有可用的会话"@),
            Some(conversation) => conversation_send_of(config, cached, conversation, text, now),
        }
    }
}

/// What a send of `text` into `conversation_id` comes to at `now`: only
/// the last conversation is tracked, and a send into any other is an error
/// that names it.
pub open spec fn message_of(
    status: GatewayStatusView,
    config: DingTalkConfigView,
    cached: Option<AccessTokenView>,
    last: Option<DingTalkConversationView>,
    conversation_id: Seq<char>,
    text: Seq<char>,
    now: i64,
) -> Result<OutboundView, Seq<char>> {
    if !status.connected {
        Err(not_connected_text())
    } else {
        if tracks(last, conversation_id) {
            conversation_send_of(config, cached, last->0, text, now)
        } else {
            Err(unknown_conversation_text(conversation_id))
        }
    }
}

/// What sending the file at `file_path`, whose name is `file_name`, into
/// `conversation_id` comes to at `now`: the upload of the file, where the
/// conversation is the tracked one.
pub open spec fn media_of_file(
    status: GatewayStatusView,
    config: DingTalkConfigView,
    cached: Option<AccessTokenView>,
    last: Option<DingTalkConversationView>,
    conversation_id: Seq<char>,
    file_path: Seq<char>,
    file_name: Seq<char>,
    now: i64,
) -> Result<OutboundView, Seq<char>> {
    if !status.connected {
        Err(not_connected_text())
    } else if !tracks(last, conversation_id) {
        Err(unknown_conversation_text(conversation_id))
    } else {
        match usable_token(cached, now) {
            None => Ok(OutboundView::FetchToken(token_request_of(config))),
            Some(token) => Ok(
                OutboundView::Deliver(seq![once(upload_request_of(config, token, file_path, file_name, "file"@))]),
            ),
        }
    }
}

/// The error of a start without client credentials.
pub open spec fn missing_credentials_text() -> Seq<char> {
    "缺少必要的配置: client_id 或 client_secret"@
}

/// The first step of a handshake at `now`: the socket where a token is at
/// hand, the token otherwise.
pub open spec fn first_step_of(config: DingTalkConfigView, cached: Option<AccessTokenView>, now: i64) -> NextStepView {
    match usable_token(cached, now) {
        Some(token) => NextStepView::Connect(stream_url_of(token)),
        None => NextStepView::Request(token_request_of(config)),
    }
}

/// The DingTalk adapter.
pub struct DingTalkGateway {
    config: DingTalkConfig,
    status: GatewayStatus,
    token: TokenCache,
    last_conversation: Option<DingTalkConversation>,
    policy: ReconnectPolicy,
}

fn message_param(content: &str, msg_type: &str) -> (j: Json)
    ensures
        j@ == message_param_of(content@, msg_type@),
{
    if str_eq(msg_type, "markdown") {
        ObjectBuilder::new().text("msgtype", "markdown").with(
            "markdown",
            ObjectBuilder::new().text("title", "通知").text("text", content).build(),
        ).build()
    } else {
        ObjectBuilder::new().text("msgtype", "text").with(
            "text",
            ObjectBuilder::new().text("content", content).build(),
        ).build()
    }
}

fn opt_or_empty(o: &Option<String>) -> (r: &str)
    ensures
        r@ == text_or_empty(opt_text(*o)),
{
    proof {
        reveal_strlit("");
        assert(""@ =~= Seq::<char>::empty());
    }
    match o {
        Some(s) => s.as_str(),
        None => "",
    }
}

impl DingTalkGateway {
    /// The configuration.
    pub closed spec fn config(&self) -> DingTalkConfigView {
        self.config@
    }

    /// The cached token.
    pub closed spec fn token(&self) -> Option<AccessTokenView> {
        self.token@
    }

    /// The conversation that a notification goes to.
    pub closed spec fn last_conversation(&self) -> Option<DingTalkConversationView> {
        match self.last_conversation {
            Some(c) => Some(c@),
            None => None,
        }
    }

    /// The reconnect policy.
    pub closed spec fn policy(&self) -> ReconnectPolicy {
        self.policy
    }

    /// An adapter that was never started.
    pub fn new(config: DingTalkConfig) -> (g: DingTalkGateway)
        ensures
            g.policy().backoff().initial_ms() == INITIAL_RECONNECT_DELAY_MS,
            g.policy().backoff().max_ms() == MAX_RECONNECT_DELAY_MS,
            g.config() == config@,
            g.status() == GatewayStatusView::initial(),
            g.token() is None,
            g.last_conversation() is None,
            !g.policy().stopping(),
            g.policy().backoff().is_reset(),
    {
        DingTalkGateway {
            config,
            status: GatewayStatus::default(),
            token: TokenCache::new(),
            last_conversation: None,
            policy: ReconnectPolicy::new(),
        }
    }

    /// Replaces the configuration.
    pub fn set_config(&mut self, config: DingTalkConfig)
        ensures
            final(self).config() == config@,
            final(self).status() == old(self).status(),
            final(self).token() == old(self).token(),
            final(self).last_conversation() == old(self).last_conversation(),
            final(self).policy() == old(self).policy(),
    {
        self.config = config;
    }

    /// A copy of the configuration.
    pub fn get_config(&self) -> (c: DingTalkConfig)
        ensures
            c@ == self.config(),
    {
        self.config.clone()
    }

    fn token_request(&self) -> (r: HttpRequest)
        ensures
            r@ == token_request_of(self.config()),
    {
        let body = ObjectBuilder::new().text("appKey", self.config.client_id.as_str()).text(
            "appSecret",
            self.config.client_secret.as_str(),
        ).build();
        HttpRequest::new(HttpMethod::Post, "https://api.dingtalk.com/v1.0/oauth2/accessToken".to_string()).json(body)
    }

    /// Asks for the token at `now`, in seconds: the cached token while it
    /// has more than the safety margin left, else the request that fetches
    /// one.
    pub fn get_access_token(&self, now: i64) -> (step: TokenStep)
        ensures
            step@ == token_step_of(self.token(), now, token_request_of(self.config())),
    {
        match self.token.lookup(now) {
            Some(token) => TokenStep::Cached(token),
            None => TokenStep::Fetch(self.token_request()),
        }
    }

    /// Takes the platform's answer to a token request, read at `now`. A
    /// good answer replaces token and expiry together; a bad one is an
    /// error and leaves the cache as it was.
    pub fn accept_token_reply(&mut self, reply: &TokenReply, now: i64) -> (r: Result<String, String>)
        ensures
            final(self).config() == old(self).config(),
            final(self).status() == old(self).status(),
            final(self).last_conversation() == old(self).last_conversation(),
            final(self).policy() == old(self).policy(),
            match token_verdict(reply@, now) {
                Ok(fetched) => final(self).token() == Some(fetched) && r is Ok && r->Ok_0@ == fetched.token,
                Err(e) => final(self).token() == old(self).token() && r is Err && r->Err_0@ == e,
            },
    {
        if reply.errcode == 0 {
            match &reply.access_token {
                Some(token) => {
                    let lifetime = match reply.expire_in {
                        Some(seconds) => seconds,
                        None => DEFAULT_TOKEN_LIFETIME_SECONDS,
                    };
                    self.token.store(token.as_str(), lifetime, now);
                    return Ok(token.clone());
                },
                None => {},
            }
        }
        Err(concat2("Failed to get access token: ", opt_or_empty(&reply.errmsg)))
    }

    fn stream_url(token: &str) -> (url: String)
        ensures
            url@ == stream_url_of(token@),
    {
        concat2("wss://api.dingtalk.com/v1.0/robot/stream?token=", token)
    }

    fn first_step(&self, now: i64) -> (step: NextStep)
        ensures
            step@ == first_step_of(self.config(), self.token(), now),
    {
        match self.token.lookup(now) {
            Some(token) => NextStep::Connect(Self::stream_url(token.as_str())),
            None => NextStep::Request(self.token_request()),
        }
    }

    fn enter_handshake(&mut self, enabled: bool, now: i64) -> (report: StartReport)
        ensures
            final(self).config() == old(self).config(),
            final(self).token() == old(self).token(),
            final(self).last_conversation() == old(self).last_conversation(),
            final(self).policy() == old(self).policy(),
            final(self).status() == status_after_gate(old(self).status(), enabled, old(self).missing_credentials()),
            report@.events == events_at_gate(old(self).status(), enabled, old(self).missing_credentials()),
            match start_gate(old(self).status(), enabled, old(self).missing_credentials()) {
                StartGate::Skip => report@.result == Ok::<NextStepView, Seq<char>>(NextStepView::Nothing),
                StartGate::Rejected => report@.result == Err::<NextStepView, Seq<char>>(
                    old(self).missing_credentials()->0,
                ),
                StartGate::Open => report@.result == Ok::<NextStepView, Seq<char>>(
                    first_step_of(old(self).config(), old(self).token(), now),
                ),
            },
    {
        let missing = if self.config.client_id.as_str().is_empty() || self.config.client_secret.as_str().is_empty() {
            Some("缺少必要的配置: client_id 或 client_secret")
        } else {
            None
        };
        let (gate, events) = self.status.begin_start(enabled, missing);
        match gate {
            StartGate::Skip => StartReport { result: Ok(NextStep::Nothing), events },
            StartGate::Rejected => StartReport {
                result: Err("缺少必要的配置: client_id 或 client_secret".to_string()),
                events,
            },
            StartGate::Open => StartReport { result: Ok(self.first_step(now)), events },
        }
    }

    /// Takes the outcome of the token request of a start, read at `now`.
    /// A failure ends the start and is recorded and returned; a token asks
    /// for the socket to be opened.
    pub fn token_fetched(&mut self, reply: Result<TokenReply, String>, now: i64) -> (report: StartReport)
        ensures
            final(self).config() == old(self).config(),
            final(self).last_conversation() == old(self).last_conversation(),
            final(self).policy() == old(self).policy(),
            match reply {
                Ok(answer) => match token_verdict(answer@, now) {
                    Ok(fetched) => final(self).token() == Some(fetched) && final(self).status() == old(self).status() && report@ == (StartReportView {
                        result: Ok(NextStepView::Connect(stream_url_of(fetched.token))),
                        events: Seq::empty(),
                    }),
                    Err(e) => final(self).token() == old(self).token() && final(self).status() == old(self).status().failed("获取访问令牌失败: "@ + e) && report@ == (StartReportView {
                        result: Err(e),
                        events: seq![
                            GatewayEventView::Error("获取访问令牌失败: "@ + e),
                            GatewayEventView::StatusChanged(final(self).status()),
                        ],
                    }),
                },
                Err(e) => final(self).token() == old(self).token() && final(self).status() == old(self).status().failed("获取访问令牌失败: "@ + e@) && report@ == (StartReportView {
                    result: Err(e@),
                    events: seq![
                        GatewayEventView::Error("获取访问令牌失败: "@ + e@),
                        GatewayEventView::StatusChanged(final(self).status()),
                    ],
                }),
            },
    {
        let outcome = match reply {
            Ok(answer) => self.accept_token_reply(&answer, now),
            Err(e) => Err(e),
        };
        match outcome {
            Ok(token) => {
                let events: Vec<GatewayEvent> = Vec::new();
                assert(events_view(events@) =~= Seq::empty());
                StartReport { result: Ok(NextStep::Connect(Self::stream_url(token.as_str()))), events }
            },
            Err(e) => {
                let message = concat2("获取访问令牌失败: ", e.as_str());
                let events = self.status.fail_start(message.as_str());
                StartReport { result: Err(e), events }
            },
        }
    }

    /// Ends the start with the outcome of opening the socket. A failure is
    /// recorded and returned; a success connects the adapter at `now_ms`
    /// and asks for the opening frame to be sent.
    pub fn finish_start(&mut self, opened: Result<(), String>, now_ms: i64) -> (report: StartReport)
        ensures
            final(self).config() == old(self).config(),
            final(self).token() == old(self).token(),
            final(self).last_conversation() == old(self).last_conversation(),
            final(self).policy() == old(self).policy(),
            match opened {
                Ok(_) => final(self).status() == old(self).status().connected(now_ms) && report@ == (
                StartReportView {
                    result: Ok(NextStepView::Send(connect_frame_of())),
                    events: seq![
                        GatewayEventView::StatusChanged(final(self).status()),
                        GatewayEventView::Connected,
                    ],
                }),
                Err(e) => final(self).status() == old(self).status().failed(
                    "Stream连接失败: "@ + ("WebSocket connection failed: "@ + e@),
                ) && report@ == (StartReportView {
                    result: Err("WebSocket connection failed: "@ + e@),
                    events: seq![
                        GatewayEventView::Error("Stream连接失败: "@ + ("WebSocket connection failed: "@ + e@)),
                        GatewayEventView::StatusChanged(final(self).status()),
                    ],
                }),
            },
    {
        match opened {
            Ok(_) => {
                let events = self.status.complete_start(now_ms);
                StartReport { result: Ok(NextStep::Send(connect_frame())), events }
            },
            Err(e) => {
                let failure = concat2("WebSocket connection failed: ", e.as_str());
                let message = concat2("Stream连接失败: ", failure.as_str());
                let events = self.status.fail_start(message.as_str());
                StartReport { result: Err(failure), events }
            },
        }
    }

    /// Takes a message that came in at `now`, in seconds; `now_ms` is the
    /// same moment in milliseconds. A message without text and files is
    /// dropped. Any other becomes the last conversation, where it names
    /// one, and is reported.
    pub fn handle_inbound_message(&mut self, message: &DingTalkInboundMessage, now: i64, now_ms: i64) -> (events: Vec<
        GatewayEvent,
    >)
        ensures
            final(self).config() == old(self).config(),
            final(self).token() == old(self).token(),
            final(self).policy() == old(self).policy(),
            !reportable(message@) ==> final(self).status() == old(self).status() && final(self).last_conversation() == old(self).last_conversation() && events_view(events@) == Seq::<
                GatewayEventView,
            >::empty(),
            reportable(message@) ==> final(self).status() == (GatewayStatusView {
                last_inbound_at: Some(now_ms),
                ..old(self).status()
            }) && final(self).last_conversation() == conversation_after(
                old(self).last_conversation(),
                message@,
            ) && events_view(events@) == seq![GatewayEventView::Message(inbound_of(message@, now))],
    {
        let mut events: Vec<GatewayEvent> = Vec::new();
        let content = match &message.text {
            Some(t) => t.clone(),
            None => match &message.recognition {
                Some(r) => r.clone(),
                None => String::new(),
            },
        };
        let attachments = extract_media_from_message(message);
        assert(attachments_view(attachments@).len() == attachments@.len());
        if content.as_str().is_empty() && attachments.len() == 0 {
            assert(events_view(events@) =~= Seq::empty());
            return events;
        }
        match &message.conversation_id {
            Some(id) => {
                self.last_conversation = Some(
                    DingTalkConversation {
                        conversation_type: match &message.conversation_type {
                            Some(t) => t.clone(),
                            None => "1".to_string(),
                        },
                        conversation_id: id.clone(),
                        open_conversation_id: clone_opt_string(&message.open_conversation_id),
                        sender_staff_id: clone_opt_string(&message.sender_staff_id),
                    },
                );
            },
            None => {},
        }
        let inbound = IMMessage {
            id: message.msg_id.clone(),
            platform: "dingtalk".to_string(),
            channel_id: opt_or_empty(&message.conversation_id).to_string(),
            user_id: opt_or_empty(&message.sender_staff_id).to_string(),
            user_name: opt_or_empty(&message.sender_nick).to_string(),
            content,
            timestamp: match message.create_at {
                Some(t) => t,
                None => now,
            },
            is_mention: false,
        };
        self.status.touch_inbound(now_ms);
        let ghost reported = inbound@;
        events.push(GatewayEvent::Message(inbound));
        assert(events_view(events@) =~= seq![GatewayEventView::Message(reported)]);
        events
    }

    /// Takes a stream message: it is acknowledged at once, and the message
    /// inside, where it could be read, is handled.
    pub fn handle_stream_message(
        &mut self,
        message_id: &str,
        inbound: Option<&DingTalkInboundMessage>,
        now: i64,
        now_ms: i64,
    ) -> (r: (Json, Vec<GatewayEvent>))
        ensures
            r.0@ == ack_frame_of(message_id@),
            final(self).config() == old(self).config(),
            final(self).token() == old(self).token(),
            final(self).policy() == old(self).policy(),
            inbound is None || !reportable(inbound->0@) ==> final(self).status() == old(self).status() && final(self).last_conversation() == old(self).last_conversation() && events_view(r.1@) == Seq::<
                GatewayEventView,
            >::empty(),
            inbound is Some && reportable(inbound->0@) ==> final(self).status() == (GatewayStatusView {
                last_inbound_at: Some(now_ms),
                ..old(self).status()
            }) && final(self).last_conversation() == conversation_after(
                old(self).last_conversation(),
                inbound->0@,
            ) && events_view(r.1@) == seq![GatewayEventView::Message(inbound_of(inbound->0@, now))],
    {
        let ack = ack_frame(message_id);
        match inbound {
            Some(message) => {
                let events = self.handle_inbound_message(message, now, now_ms);
                (ack, events)
            },
            None => {
                let events: Vec<GatewayEvent> = Vec::new();
                assert(events_view(events@) =~= Seq::empty());
                (ack, events)
            },
        }
    }

    /// The request that sends `content` to one user.
    pub fn send_message_to_user(&self, token: &str, user_id: &str, content: &str, msg_type: &str) -> (r: HttpRequest)
        ensures
            r@ == user_request_of(self.config(), token@, user_id@, content@, msg_type@),
    {
        let mut users: Vec<Json> = Vec::new();
        users.push(Json::Text(user_id.to_string()));
        let list = json_list(users);
        assert(list@->List_0 =~= Seq::empty().push(JsonView::Text(user_id@)));
        let body = ObjectBuilder::new().text("robotCode", opt_or_empty(&self.config.robot_code)).with(
            "userIds",
            list,
        ).text("msgKey", msg_type).with("msgParam", Json::Encoded(Box::new(message_param(content, msg_type)))).build();
        HttpRequest::new(
            HttpMethod::Post,
            concat2("https://api.dingtalk.com/v1.0/robot/oToMessages/batchSend?access_token=", token),
        ).json(body)
    }

    /// The request that sends `content` into a group.
    pub fn send_message_to_group(&self, token: &str, open_conversation_id: &str, content: &str, msg_type: &str) -> (r:
        HttpRequest)
        ensures
            r@ == group_request_of(self.config(), token@, open_conversation_id@, content@, msg_type@),
    {
        let body = ObjectBuilder::new().text("robotCode", opt_or_empty(&self.config.robot_code)).text(
            "openConversationId",
            open_conversation_id,
        ).text("msgKey", msg_type).with("msgParam", Json::Encoded(Box::new(message_param(content, msg_type)))).build();
        HttpRequest::new(
            HttpMethod::Post,
            concat2("https://api.dingtalk.com/v1.0/robot/groupMessages/send?access_token=", token),
        ).json(body)
    }

    /// The request that uploads the file at `file_path`, whose name is
    /// `file_name`, as `media_type`.
    pub fn upload_media(&self, token: &str, file_path: &str, file_name: &str, media_type: &str) -> (r: HttpRequest)
        ensures
            r@ == upload_request_of(self.config(), token@, file_path@, file_name@, media_type@),
    {
        let mut url = concat3(
            "https://api.dingtalk.com/v1.0/robot/media/upload?access_token=",
            token,
            "&agentId=",
        );
        url.append(opt_or_empty(&self.config.agent_id));
        let form = MultipartForm {
            text_fields: Pairs::new().with("type", media_type).build(),
            file_field: "media".to_string(),
            file_path: file_path.to_string(),
            file_name: file_name.to_string(),
            mime_type: None,
        };
        HttpRequest::new(HttpMethod::Post, url).multipart(form)
    }

    /// The request that downloads the file behind `download_code`.
    pub fn download_media(&self, token: &str, download_code: &str) -> (r: HttpRequest)
        ensures
            r@ == download_request_of(token@, download_code@),
    {
        let mut url = concat3(
            "https://api.dingtalk.com/v1.0/robot/media/download?access_token=",
            token,
            "&downloadCode=",
        );
        url.append(download_code);
        HttpRequest::new(HttpMethod::Get, url)
    }

    /// Whether `conversation_id` names the tracked conversation.
    fn is_tracked(&self, conversation_id: &str) -> (r: bool)
        ensures
            r == tracks(self.last_conversation(), conversation_id@),
    {
        match &self.last_conversation {
            None => false,
            Some(conversation) => str_eq(conversation.conversation_id.as_str(), conversation_id),
        }
    }

    /// What has to go out to send the file at `file_path`, whose name is
    /// `file_name`, into `conversation_id`: the upload of the file. A
    /// conversation that is not tracked is an error that names it.
    pub fn media_upload(&self, conversation_id: &str, file_path: &str, file_name: &str, now: i64) -> (r: Result<
        Outbound,
        String,
    >)
        ensures
            outbound_view(r) == media_of_file(
                self.status(),
                self.config(),
                self.token(),
                self.last_conversation(),
                conversation_id@,
                file_path@,
                file_name@,
                now,
            ),
    {
        if !self.status.connected {
            return Err(not_connected());
        }
        if !self.is_tracked(conversation_id) {
            return Err(concat2("未找到会话: ", conversation_id));
        }
        match self.token.lookup(now) {
            None => Ok(Outbound::FetchToken(self.token_request())),
            Some(token) => Ok(deliver_one(self.upload_media(token.as_str(), file_path, file_name, "file"))),
        }
    }

    fn send_into(&self, conversation: &DingTalkConversation, text: &str, now: i64) -> (r: Result<Outbound, String>)
        ensures
            outbound_view(r) == conversation_send_of(self.config(), self.token(), conversation@, text@, now),
    {
        let msg_type = match &self.config.message_type {
            Some(t) => t.as_str(),
            None => "text",
        };
        let single = str_eq(conversation.conversation_type.as_str(), "1");
        let target = if single {
            &conversation.sender_staff_id
        } else {
            &conversation.open_conversation_id
        };
        let target = match target {
            None => {
                return Err(concat2("会话缺少接收方: ", conversation.conversation_id.as_str()));
            },
            Some(t) => t.as_str(),
        };
        let token = match self.token.lookup(now) {
            None => {
                return Ok(Outbound::FetchToken(self.token_request()));
            },
            Some(token) => token,
        };
        let request = if single {
            self.send_message_to_user(token.as_str(), target, text, msg_type)
        } else {
            self.send_message_to_group(token.as_str(), target, text, msg_type)
        };
        Ok(deliver_one(request))
    }

    /// The connection ended without a stop: the adapter is disconnected,
    /// and a reconnect is due after the delay handed out. After a stop no
    /// reconnect follows.
    pub fn connection_lost(&mut self) -> (r: (Vec<GatewayEvent>, Option<u64>))
        ensures
            final(self).policy().backoff().initial_ms() == old(self).policy().backoff().initial_ms(),
            final(self).policy().backoff().max_ms() == old(self).policy().backoff().max_ms(),
            final(self).status() == old(self).status().disconnected(),
            events_view(r.0@) == seq![GatewayEventView::Disconnected],
            final(self).config() == old(self).config(),
            final(self).token() == old(self).token(),
            final(self).last_conversation() == old(self).last_conversation(),
            final(self).policy().stopping() == old(self).policy().stopping(),
            old(self).policy().stopping() ==> r.1 is None && final(self).policy() == old(self).policy(),
            !old(self).policy().stopping() ==> r.1 is Some && r.1->0 == old(self).policy().backoff().next_ms()
                && final(self).policy().backoff().next_ms() == min_nat(
                2 * old(self).policy().backoff().next_ms(),
                old(self).policy().backoff().max_ms(),
            ),
    {
        let events = self.status.drop_connection();
        let delay = self.policy.connection_lost();
        (events, delay)
    }

    /// Enters the handshake again after a lost connection. Other than a
    /// planned start this keeps the reconnect delays where they are; after
    /// a stop it does nothing.
    pub fn reconnect(&mut self, now: i64) -> (report: StartReport)
        ensures
            match start_gate(old(self).status(), old(self).enabled() && !old(self).policy().stopping(), old(self).missing_credentials()) {
                StartGate::Skip => report@.result == Ok::<NextStepView, Seq<char>>(NextStepView::Nothing),
                StartGate::Rejected => report@.result == Err::<NextStepView, Seq<char>>(old(self).missing_credentials()->0),
                StartGate::Open => report@.result == Ok::<NextStepView, Seq<char>>(first_step_of(old(self).config(), old(self).token(), now)),
            },
            final(self).config() == old(self).config(),
            final(self).token() == old(self).token(),
            final(self).last_conversation() == old(self).last_conversation(),
            final(self).policy() == old(self).policy(),
            final(self).status() == status_after_gate(
                old(self).status(),
                old(self).enabled() && !old(self).policy().stopping(),
                old(self).missing_credentials(),
            ),
            report@.events == events_at_gate(
                old(self).status(),
                old(self).enabled() && !old(self).policy().stopping(),
                old(self).missing_credentials(),
            ),
    {
        let allowed = self.config.enabled && !self.policy.is_stopping();
        self.enter_handshake(allowed, now)
    }
}

impl Gateway for DingTalkGateway {
    closed spec fn status(&self) -> GatewayStatusView {
        self.status@
    }

    open spec fn enabled(&self) -> bool {
        self.config().enabled
    }

    open spec fn missing_credentials(&self) -> Option<Seq<char>> {
        if self.config().client_id.len() == 0 || self.config().client_secret.len() == 0 {
            Some(missing_credentials_text())
        } else {
            None
        }
    }

    open spec fn reconnect_barred(&self) -> bool {
        self.policy().stopping()
    }

    open spec fn capabilities_spec(&self) -> Capabilities {
        Capabilities { media: true, edit: false, delete: false, history: false }
    }

    open spec fn notification_plan(&self, text: Seq<char>, now: i64) -> Result<OutboundView, Seq<char>> {
        notification_of(self.status(), self.config(), self.token(), self.last_conversation(), text, now)
    }

    open spec fn message_plan(&self, conversation_id: Seq<char>, text: Seq<char>, now: i64) -> Result<
        OutboundView,
        Seq<char>,
    > {
        message_of(self.status(), self.config(), self.token(), self.last_conversation(), conversation_id, text, now)
    }

    open spec fn media_plan(
        &self,
        conversation_id: Seq<char>,
        file_path: Seq<char>,
        file_name: Seq<char>,
        ext: Seq<char>,
        now: i64,
    ) -> Result<OutboundView, Seq<char>> {
        media_of_file(
            self.status(),
            self.config(),
            self.token(),
            self.last_conversation(),
            conversation_id,
            file_path,
            file_name,
            now,
        )
    }

    open spec fn edit_plan(&self, conversation_id: Seq<char>, message_id: Seq<char>, new_text: Seq<char>) -> Result<
        OutboundView,
        Seq<char>,
    > {
        Err("DingTalk 不支持编辑消息"@)
    }

    open spec fn delete_plan(&self, conversation_id: Seq<char>, message_id: Seq<char>) -> Result<
        OutboundView,
        Seq<char>,
    > {
        Err("DingTalk 不支持删除消息"@)
    }

    open spec fn history_plan(&self, conversation_id: Seq<char>, limit: u32) -> Result<OutboundView, Seq<char>> {
        Err("DingTalk 不支持获取历史消息"@)
    }

    fn capabilities(&self) -> (c: Capabilities) {
        Capabilities { media: true, edit: false, delete: false, history: false }
    }

    fn is_connected(&self) -> (connected: bool) {
        self.status.connected
    }

    fn get_status(&self) -> (status: GatewayStatus) {
        self.status.clone()
    }

    fn start(&mut self, now: i64) -> (report: StartReport)
        ensures
            final(self).policy().backoff().initial_ms() == old(self).policy().backoff().initial_ms(),
            final(self).policy().backoff().max_ms() == old(self).policy().backoff().max_ms(),
            final(self).config() == old(self).config(),
            final(self).token() == old(self).token(),
            final(self).last_conversation() == old(self).last_conversation(),
            start_gate(old(self).status(), old(self).enabled(), old(self).missing_credentials())
                == StartGate::Open ==> report@.result == Ok::<NextStepView, Seq<char>>(
                first_step_of(old(self).config(), old(self).token(), now),
            ) && final(self).policy().backoff().is_reset() && !final(self).policy().stopping(),
            start_gate(old(self).status(), old(self).enabled(), old(self).missing_credentials())
                != StartGate::Open ==> final(self).policy() == old(self).policy(),
    {
        let ghost gate = start_gate(self.status(), self.enabled(), self.missing_credentials());
        let report = self.enter_handshake(self.config.enabled, now);
        match &report.result {
            Ok(NextStep::Connect(_)) => {
                self.policy.planned_start();
            },
            Ok(NextStep::Request(_)) => {
                self.policy.planned_start();
            },
            _ => {},
        }
        report
    }

    fn stop(&mut self) -> (events: Vec<GatewayEvent>)
        ensures
            final(self).config() == old(self).config(),
            final(self).token() is None,
            final(self).last_conversation() == old(self).last_conversation(),
            final(self).policy().stopping(),
            final(self).policy().backoff() == old(self).policy().backoff(),
    {
        self.policy.stop();
        self.token.clear();
        self.status.stop()
    }

    fn reconnect_if_needed(&mut self, now: i64) -> (report: StartReport)
        ensures
            final(self).policy().backoff().initial_ms() == old(self).policy().backoff().initial_ms(),
            final(self).policy().backoff().max_ms() == old(self).policy().backoff().max_ms(),
            !old(self).status().connected && !old(self).reconnect_barred() && start_gate(
                old(self).status(),
                old(self).enabled(),
                old(self).missing_credentials(),
            ) == StartGate::Open ==> report@.result == Ok::<NextStepView, Seq<char>>(
                first_step_of(old(self).config(), old(self).token(), now),
            )
                && final(self).policy().backoff().is_reset() && !final(self).policy().stopping(),
            old(self).status().connected || old(self).reconnect_barred() ==> final(self).policy() == old(self).policy(),
            final(self).config() == old(self).config(),
            final(self).token() == old(self).token(),
            final(self).last_conversation() == old(self).last_conversation(),
    {
        if !self.status.connected && !self.policy.is_stopping() {
            self.start(now)
        } else {
            report_skip()
        }
    }

    fn send_notification(&self, text: &str, now: i64) -> (r: Result<Outbound, String>)
        ensures
            outbound_view(r) == notification_of(
                self.status(),
                self.config(),
                self.token(),
                self.last_conversation(),
                text@,
                now,
            ),
    {
        if !self.status.connected {
            return Err(not_connected());
        }
        match &self.last_conversation {
            None => Err("没有可用的会话".to_string()),
            Some(conversation) => self.send_into(conversation, text, now),
        }
    }

    fn send_message(&self, conversation_id: &str, text: &str, now: i64) -> (r: Result<Outbound, String>)
        ensures
            outbound_view(r) == message_of(
                self.status(),
                self.config(),
                self.token(),
                self.last_conversation(),
                conversation_id@,
                text@,
                now,
            ),
    {
        if !self.status.connected {
            return Err(not_connected());
        }
        match &self.last_conversation {
            None => Err(concat2("未找到会话: ", conversation_id)),
            Some(conversation) => {
                if str_eq(conversation.conversation_id.as_str(), conversation_id) {
                    self.send_into(conversation, text, now)
                } else {
                    Err(concat2("未找到会话: ", conversation_id))
                }
            },
        }
    }

    fn send_media_message(&self, conversation_id: &str, file_path: &str, now: i64) -> (r: Result<
        Outbound,
        String,
    >)
        ensures
            !self.status().connected ==> outbound_view(r) == Err::<OutboundView, Seq<char>>(
                not_connected_text(),
            ),
            self.status().connected && !tracks(self.last_conversation(), conversation_id@) ==> outbound_view(r)
                == Err::<OutboundView, Seq<char>>(unknown_conversation_text(conversation_id@)),
            self.status().connected && tracks(self.last_conversation(), conversation_id@) && usable_token(
                self.token(),
                now,
            ) is None ==> outbound_view(r) == Ok::<OutboundView, Seq<char>>(
                OutboundView::FetchToken(token_request_of(self.config())),
            ),
            self.status().connected && tracks(self.last_conversation(), conversation_id@) && usable_token(
                self.token(),
                now,
            ) is Some ==> r is Ok && r->Ok_0@ is Deliver && r->Ok_0@->Deliver_0.len() == 1,
    {
        let name = match path_file_name(file_path) {
            Some(n) => n,
            None => "file".to_string(),
        };
        let r = self.media_upload(conversation_id, file_path, name.as_str(), now);
        assert(outbound_view(r) == self.media_plan(conversation_id@, file_path@, name@, Seq::empty(), now));
        r
    }

    fn edit_message(&self, conversation_id: &str, message_id: &str, new_text: &str) -> (r: Result<
        Outbound,
        String,
    >)
        ensures
            outbound_view(r) == Err::<OutboundView, Seq<char>>("DingTalk 不支持编辑消息"@),
    {
        Err("DingTalk 不支持编辑消息".to_string())
    }

    fn delete_message(&self, conversation_id: &str, message_id: &str) -> (r: Result<Outbound, String>)
        ensures
            outbound_view(r) == Err::<OutboundView, Seq<char>>("DingTalk 不支持删除消息"@),
    {
        Err("DingTalk 不支持删除消息".to_string())
    }

    fn get_message_history(&self, conversation_id: &str, limit: u32) -> (r: Result<Outbound, String>)
        ensures
            outbound_view(r) == Err::<OutboundView, Seq<char>>("DingTalk 不支持获取历史消息"@),
    {
        Err("DingTalk 不支持获取历史消息".to_string())
    }

    fn record_outbound(&mut self, now_ms: i64)
        ensures
            final(self).config() == old(self).config(),
            final(self).token() == old(self).token(),
            final(self).last_conversation() == old(self).last_conversation(),
            final(self).policy() == old(self).policy(),
    {
        self.status.touch_outbound(now_ms);
    }
}

} // verus!
