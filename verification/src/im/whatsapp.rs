//! The WhatsApp adapter: outbound through the Cloud API. Inbound messages
//! reach the application by a webhook that is not part of this library.

use vstd::prelude::*;
use crate::im::gateway::{clone_opt_string, deliver_one, not_connected, once, not_connected_text, opt_str_text, opt_text, outbound_view, report_skip, start_gate, Capabilities, Gateway, GatewayEvent, GatewayEventView, GatewayStatus, GatewayStatusView, NextStep, NextStepView, Outbound, OutboundView, StartGate, StartReport, StartReportView};
use crate::im::http::{HttpBodyView, HttpMethod, HttpRequest, HttpRequestView, Json, JsonView, MultipartForm, MultipartFormView, ObjectBuilder, Pairs};
use crate::im::text::{concat2, concat3, lowercase, path_extension, path_file_name, str_eq, text_or_empty, to_lowercase};

verus! {

/// What a `WhatsAppConfig` holds.
pub struct WhatsAppConfigView {
    pub enabled: bool,
    pub phone_number_id: Option<Seq<char>>,
    pub access_token: Option<Seq<char>>,
    pub debug: Option<bool>,
    pub media_download_path: Option<Seq<char>>,
}

/// Configuration of the WhatsApp adapter.
#[derive(Debug)]
pub struct WhatsAppConfig {
    pub enabled: bool,
    pub phone_number_id: Option<String>,
    pub access_token: Option<String>,
    pub debug: Option<bool>,
    pub media_download_path: Option<String>,
}

impl View for WhatsAppConfig {
    type V = WhatsAppConfigView;

    open spec fn view(&self) -> WhatsAppConfigView {
        WhatsAppConfigView {
            enabled: self.enabled,
            phone_number_id: opt_text(self.phone_number_id),
            access_token: opt_text(self.access_token),
            debug: self.debug,
            media_download_path: opt_text(self.media_download_path),
        }
    }
}

impl Default for WhatsAppConfig {
    fn default() -> (c: WhatsAppConfig)
        ensures
            c@ == (WhatsAppConfigView {
                enabled: false,
                phone_number_id: None,
                access_token: None,
                debug: Some(false),
                media_download_path: None,
            }),
    {
        WhatsAppConfig {
            enabled: false,
            phone_number_id: None,
            access_token: None,
            debug: Some(false),
            media_download_path: None,
        }
    }
}

impl Clone for WhatsAppConfig {
    fn clone(&self) -> (c: WhatsAppConfig)
        ensures
            c@ == self@,
    {
        WhatsAppConfig {
            enabled: self.enabled,
            phone_number_id: clone_opt_string(&self.phone_number_id),
            access_token: clone_opt_string(&self.access_token),
            debug: self.debug,
            media_download_path: clone_opt_string(&self.media_download_path),
        }
    }
}

/// One reply button of an interactive message.
#[derive(Debug)]
pub struct InteractiveButton {
    pub button_type: String,
    pub id: String,
    pub title: String,
}

/// The JSON form of a button.
pub open spec fn button_json(button_type: Seq<char>, id: Seq<char>, title: Seq<char>) -> JsonView {
    JsonView::Object(
        Seq::empty().push(("type"@, JsonView::Text(button_type))).push(("id"@, JsonView::Text(id))).push(
            ("title"@, JsonView::Text(title)),
        ),
    )
}

impl InteractiveButton {
    /// The button as the platform wants it.
    pub fn to_json(&self) -> (j: Json)
        ensures
            j@ == button_json(self.button_type@, self.id@, self.title@),
    {
        ObjectBuilder::new().text("type", self.button_type.as_str()).text("id", self.id.as_str()).text(
            "title",
            self.title.as_str(),
        ).build()
    }
}

/// The kinds of media message that the platform knows.
#[derive(Debug, Clone, Copy, PartialEq, Eq, Structural)]
pub enum MediaKind {
    Image,
    Video,
    Audio,
    Document,
}

/// The kind of message that carries a file with the extension `ext`, given
/// in lower case; nothing for an extension that the platform does not take.
pub open spec fn media_kind_of(ext: Seq<char>) -> Option<MediaKind> {
    if ext == "jpg"@ || ext == "jpeg"@ || ext == "png"@ || ext == "gif"@ || ext == "webp"@ {
        Some(MediaKind::Image)
    } else if ext == "mp4"@ || ext == "avi"@ || ext == "mov"@ {
        Some(MediaKind::Video)
    } else if ext == "mp3"@ || ext == "wav"@ || ext == "ogg"@ || ext == "aac"@ {
        Some(MediaKind::Audio)
    } else if ext == "pdf"@ || ext == "doc"@ || ext == "docx"@ || ext == "xls"@ || ext == "xlsx"@ || ext
        == "ppt"@ || ext == "pptx"@ || ext == "txt"@ || ext == "zip"@ || ext == "rar"@ {
        Some(MediaKind::Document)
    } else {
        None
    }
}

/// The kind of message for a file extension in lower case.
pub fn media_kind(ext: &str) -> (kind: Option<MediaKind>)
    ensures
        kind == media_kind_of(ext@),
{
    if str_eq(ext, "jpg") || str_eq(ext, "jpeg") || str_eq(ext, "png") || str_eq(ext, "gif") || str_eq(
        ext,
        "webp",
    ) {
        Some(MediaKind::Image)
    } else if str_eq(ext, "mp4") || str_eq(ext, "avi") || str_eq(ext, "mov") {
        Some(MediaKind::Video)
    } else if str_eq(ext, "mp3") || str_eq(ext, "wav") || str_eq(ext, "ogg") || str_eq(ext, "aac") {
        Some(MediaKind::Audio)
    } else if str_eq(ext, "pdf") || str_eq(ext, "doc") || str_eq(ext, "docx") || str_eq(ext, "xls")
        || str_eq(ext, "xlsx") || str_eq(ext, "ppt") || str_eq(ext, "pptx") || str_eq(ext, "txt")
        || str_eq(ext, "zip") || str_eq(ext, "rar") {
        Some(MediaKind::Document)
    } else {
        None
    }
}

/// The content type under which a file with the extension `ext`, given in
/// lower case, is uploaded.
pub open spec fn upload_mime_of(ext: Seq<char>) -> Seq<char> {
    if ext == "jpg"@ || ext == "jpeg"@ {
        "image/jpeg"@
    } else if ext == "png"@ {
        "image/png"@
    } else if ext == "gif"@ {
        "image/gif"@
    } else if ext == "webp"@ {
        "image/webp"@
    } else if ext == "mp4"@ {
        "video/mp4"@
    } else if ext == "mp3"@ {
        "audio/mpeg"@
    } else if ext == "ogg"@ {
        "audio/ogg"@
    } else if ext == "pdf"@ {
        "application/pdf"@
    } else if ext == "doc"@ {
        "application/msword"@
    } else if ext == "docx"@ {
        "application/vnd.openxmlformats-officedocument.wordprocessingml.document"@
    } else {
        "application/octet-stream"@
    }
}

/// The content type for a file extension in lower case.
pub fn upload_mime(ext: &str) -> (mime: &'static str)
    ensures
        mime@ == upload_mime_of(ext@),
{
    if str_eq(ext, "jpg") || str_eq(ext, "jpeg") {
        "image/jpeg"
    } else if str_eq(ext, "png") {
        "image/png"
    } else if str_eq(ext, "gif") {
        "image/gif"
    } else if str_eq(ext, "webp") {
        "image/webp"
    } else if str_eq(ext, "mp4") {
        "video/mp4"
    } else if str_eq(ext, "mp3") {
        "audio/mpeg"
    } else if str_eq(ext, "ogg") {
        "audio/ogg"
    } else if str_eq(ext, "pdf") {
        "application/pdf"
    } else if str_eq(ext, "doc") {
        "application/msword"
    } else if str_eq(ext, "docx") {
        "application/vnd.openxmlformats-officedocument.wordprocessingml.document"
    } else {
        "application/octet-stream"
    }
}

/// Where the Cloud API answers.
pub open spec fn graph_base() -> Seq<char> {
    "https://graph.facebook.com/v18.0/"@
}

/// The address of `endpoint` under the configured phone number.
pub open spec fn api_url_of(config: WhatsAppConfigView, endpoint: Seq<char>) -> Seq<char> {
    graph_base() + text_or_empty(config.phone_number_id) + endpoint
}

/// The headers that authorise a request.
pub open spec fn auth_headers_of(config: WhatsAppConfigView) -> Seq<(Seq<char>, Seq<char>)> {
    Seq::empty().push(("Authorization"@, "Bearer "@ + text_or_empty(config.access_token))).push(
        ("Content-Type"@, "application/json"@),
    )
}

/// The request that asks the platform who the token belongs to.
pub open spec fn verify_request_of(config: WhatsAppConfigView) -> HttpRequestView {
    HttpRequestView {
        method: HttpMethod::Get,
        url: "https://graph.facebook.com/v18.0/me"@,
        query: Seq::empty(),
        headers: auth_headers_of(config),
        body: HttpBodyView::Empty,
    }
}

/// A message of the kind `kind` to `to`, with `payload` under the kind's
/// name.
pub open spec fn envelope(to: Seq<char>, kind: Seq<char>, payload: JsonView) -> JsonView {
    JsonView::Object(
        Seq::empty().push(("messaging_product"@, JsonView::Text("whatsapp"@))).push(
            ("to"@, JsonView::Text(to)),
        ).push(("type"@, JsonView::Text(kind))).push((kind, payload)),
    )
}

/// The request that sends a message of the kind `kind`.
pub open spec fn message_request_of(
    config: WhatsAppConfigView,
    to: Seq<char>,
    kind: Seq<char>,
    payload: JsonView,
) -> HttpRequestView {
    HttpRequestView {
        method: HttpMethod::Post,
        url: api_url_of(config, "/messages"@),
        query: Seq::empty(),
        headers: auth_headers_of(config),
        body: HttpBodyView::Json(envelope(to, kind, payload)),
    }
}

/// The payload of a text message.
pub open spec fn text_payload(text: Seq<char>) -> JsonView {
    JsonView::Object(Seq::empty().push(("body"@, JsonView::Text(text))))
}

/// The payload that names an uploaded file, with a caption and a file name
/// where there are any.
pub open spec fn media_payload(
    media_id: Seq<char>,
    caption: Option<Seq<char>>,
    filename: Option<Seq<char>>,
) -> JsonView {
    let base = Seq::empty().push(("id"@, JsonView::Text(media_id)));
    let captioned = match caption {
        Some(c) => base.push(("caption"@, JsonView::Text(c))),
        None => base,
    };
    JsonView::Object(
        match filename {
            Some(f) => captioned.push(("filename"@, JsonView::Text(f))),
            None => captioned,
        },
    )
}

/// The message that carries an uploaded file of the kind `kind`. Audio takes
/// no caption; only a document takes a file name.
pub open spec fn media_message_of(
    config: WhatsAppConfigView,
    to: Seq<char>,
    kind: MediaKind,
    media_id: Seq<char>,
    caption: Option<Seq<char>>,
    filename: Option<Seq<char>>,
) -> HttpRequestView {
    match kind {
        MediaKind::Image => message_request_of(config, to, "image"@, media_payload(media_id, caption, None)),
        MediaKind::Video => message_request_of(config, to, "video"@, media_payload(media_id, caption, None)),
        MediaKind::Audio => message_request_of(config, to, "audio"@, media_payload(media_id, None, None)),
        MediaKind::Document => message_request_of(
            config,
            to,
            "document"@,
            media_payload(media_id, caption, filename),
        ),
    }
}

/// The request that uploads the file at `file_path`.
pub open spec fn upload_request_of(
    config: WhatsAppConfigView,
    file_path: Seq<char>,
    file_name: Seq<char>,
    ext: Seq<char>,
) -> HttpRequestView {
    HttpRequestView {
        method: HttpMethod::Post,
        url: "https://graph.facebook.com/v18.0/me/media"@,
        query: Seq::empty(),
        headers: auth_headers_of(config),
        body: HttpBodyView::Multipart(
            MultipartFormView {
                text_fields: Seq::empty().push(("messaging_product"@, "whatsapp"@)),
                file_field: "file"@,
                file_path,
                file_name,
                mime_type: Some(upload_mime_of(ext)),
            },
        ),
    }
}

/// The payload of an interactive list.
pub open spec fn list_payload(title: Seq<char>, description: Seq<char>, button_text: Seq<char>) -> JsonView {
    JsonView::Object(
        Seq::empty().push(("type"@, JsonView::Text("list"@))).push(
            (
                "header"@,
                JsonView::Object(
                    Seq::empty().push(("type"@, JsonView::Text("text"@))).push(
                        ("text"@, JsonView::Text(title)),
                    ),
                ),
            ),
        ).push(("body"@, JsonView::Object(Seq::empty().push(("text"@, JsonView::Text(description)))))).push(
            (
                "action"@,
                JsonView::Object(
                    Seq::empty().push(("button"@, JsonView::Text(button_text))).push(
                        ("sections"@, JsonView::List(Seq::empty())),
                    ),
                ),
            ),
        ),
    )
}

/// The members that an interactive message may end with: a header and a
/// footer, where there are any.
pub open spec fn with_header_footer(
    base: Seq<(Seq<char>, JsonView)>,
    header: Option<Seq<char>>,
    footer: Option<Seq<char>>,
) -> Seq<(Seq<char>, JsonView)> {
    let headed = match header {
        Some(h) => base.push(
            (
                "header"@,
                JsonView::Object(
                    Seq::empty().push(("type"@, JsonView::Text("text"@))).push(("text"@, JsonView::Text(h))),
                ),
            ),
        ),
        None => base,
    };
    match footer {
        Some(f) => headed.push(("footer"@, JsonView::Object(Seq::empty().push(("text"@, JsonView::Text(f)))))),
        None => headed,
    }
}

/// The payload of a message with reply buttons.
pub open spec fn buttons_payload(
    header: Option<Seq<char>>,
    body: Seq<char>,
    footer: Option<Seq<char>>,
    buttons: Seq<JsonView>,
) -> JsonView {
    JsonView::Object(
        with_header_footer(
            Seq::empty().push(("type"@, JsonView::Text("button"@))).push(
                ("body"@, JsonView::Object(Seq::empty().push(("text"@, JsonView::Text(body))))),
            ).push(("action"@, JsonView::Object(Seq::empty().push(("buttons"@, JsonView::List(buttons)))))),
            header,
            footer,
        ),
    )
}

/// The payload of a catalog message.
pub open spec fn catalog_payload(
    body: Seq<char>,
    footer: Option<Seq<char>>,
    catalog_id: Seq<char>,
    product_id: Option<Seq<char>>,
) -> JsonView {
    let action = Seq::empty().push(("catalog_id"@, JsonView::Text(catalog_id)));
    JsonView::Object(
        with_header_footer(
            Seq::empty().push(("type"@, JsonView::Text("catalog_message"@))).push(
                ("body"@, JsonView::Object(Seq::empty().push(("text"@, JsonView::Text(body))))),
            ).push(
                (
                    "action"@,
                    JsonView::Object(
                        match product_id {
                            Some(p) => action.push(("product_id"@, JsonView::Text(p))),
                            None => action,
                        },
                    ),
                ),
            ),
            None,
            footer,
        ),
    )
}

/// The payload of a template message.
pub open spec fn template_payload(name: Seq<char>, language: Seq<char>, components: Option<JsonView>) -> JsonView {
    let base = Seq::empty().push(("name"@, JsonView::Text(name))).push(
        ("language"@, JsonView::Object(Seq::empty().push(("code"@, JsonView::Text(language))))),
    );
    JsonView::Object(
        match components {
            Some(c) => base.push(("components"@, c)),
            None => base,
        },
    )
}

/// The error of a start without a phone number id.
pub open spec fn missing_phone_text() -> Seq<char> {
    "缺少必要的配置: phone_number_id"@
}

/// The error of a start without an access token.
pub open spec fn missing_token_text() -> Seq<char> {
    "缺少必要的配置: access_token"@
}

/// Whether an optional text is missing or empty.
pub open spec fn absent(o: Option<Seq<char>>) -> bool {
    o is None || o->0.len() == 0
}

/// The error of a start with `config`, where credentials are missing.
pub open spec fn missing_of(config: WhatsAppConfigView) -> Option<Seq<char>> {
    if absent(config.phone_number_id) {
        Some(missing_phone_text())
    } else if absent(config.access_token) {
        Some(missing_token_text())
    } else {
        None
    }
}

/// What the answer to the credentials check means: any status but success is
/// an error that quotes the status.
pub open spec fn verify_verdict(success: bool, status_line: Seq<char>) -> Result<(), Seq<char>> {
    if success {
        Ok(())
    } else {
        Err("Failed to verify credentials: "@ + status_line)
    }
}

/// What a send of `text` to the last conversation comes to.
pub open spec fn notification_of(
    status: GatewayStatusView,
    config: WhatsAppConfigView,
    last_chat: Option<Seq<char>>,
    text: Seq<char>,
) -> Result<OutboundView, Seq<char>> {
    if !status.connected {
        Err(not_connected_text())
    } else {
        match last_chat {
            Some(chat) => Ok(
                OutboundView::Deliver(seq![once(message_request_of(config, chat, "text"@, text_payload(text)))]),
            ),
            None => Err("需要指定收件人"@),
        }
    }
}

/// What a send of `text` to `to` comes to.
pub open spec fn message_of(
    status: GatewayStatusView,
    config: WhatsAppConfigView,
    to: Seq<char>,
    text: Seq<char>,
) -> Result<OutboundView, Seq<char>> {
    if !status.connected {
        Err(not_connected_text())
    } else {
        Ok(OutboundView::Deliver(seq![once(message_request_of(config, to, "text"@, text_payload(text)))]))
    }
}

/// The WhatsApp adapter.
pub struct WhatsAppGateway {
    config: WhatsAppConfig,
    status: GatewayStatus,
    phone_number_id: Option<String>,
    last_chat_id: Option<String>,
}

fn is_absent(o: &Option<String>) -> (b: bool)
    ensures
        b == absent(opt_text(*o)),
{
    match o {
        Some(s) => s.as_str().is_empty(),
        None => true,
    }
}

impl WhatsAppGateway {
    /// The configuration.
    pub closed spec fn config(&self) -> WhatsAppConfigView {
        self.config@
    }

    /// The phone number id that the last successful start confirmed.
    pub closed spec fn phone_number_id(&self) -> Option<Seq<char>> {
        opt_text(self.phone_number_id)
    }

    /// The conversation that a notification goes to.
    pub closed spec fn last_chat(&self) -> Option<Seq<char>> {
        opt_text(self.last_chat_id)
    }

    /// An adapter that was never started.
    pub fn new(config: WhatsAppConfig) -> (g: WhatsAppGateway)
        ensures
            g.config() == config@,
            g.status() == GatewayStatusView::initial(),
            g.phone_number_id() is None,
            g.last_chat() is None,
    {
        WhatsAppGateway { config, status: GatewayStatus::default(), phone_number_id: None, last_chat_id: None }
    }

    /// Replaces the configuration.
    pub fn set_config(&mut self, config: WhatsAppConfig)
        ensures
            final(self).config() == config@,
            final(self).status() == old(self).status(),
            final(self).phone_number_id() == old(self).phone_number_id(),
            final(self).last_chat() == old(self).last_chat(),
    {
        self.config = config;
    }

    /// A copy of the configuration.
    pub fn get_config(&self) -> (c: WhatsAppConfig)
        ensures
            c@ == self.config(),
    {
        self.config.clone()
    }

    /// The address of `endpoint` under the configured phone number.
    pub fn get_api_url(&self, endpoint: &str) -> (url: String)
        ensures
            url@ == api_url_of(self.config(), endpoint@),
    {
        let id = match &self.config.phone_number_id {
            Some(s) => s.as_str(),
            None => "",
        };
        proof {
            reveal_strlit("");
            assert(""@ =~= Seq::<char>::empty());
        }
        concat3("https://graph.facebook.com/v18.0/", id, endpoint)
    }

    fn with_auth(&self, request: HttpRequest) -> (r: HttpRequest)
        requires
            request@.headers == Seq::<(Seq<char>, Seq<char>)>::empty(),
        ensures
            r@ == (HttpRequestView { headers: auth_headers_of(self.config()), ..request@ }),
    {
        let token = match &self.config.access_token {
            Some(s) => s.as_str(),
            None => "",
        };
        proof {
            reveal_strlit("");
            assert(""@ =~= Seq::<char>::empty());
        }
        let bearer = concat2("Bearer ", token);
        request.header("Authorization", bearer.as_str()).header("Content-Type", "application/json")
    }

    /// The request that asks the platform who the token belongs to.
    pub fn verify_credentials(&self) -> (r: HttpRequest)
        ensures
            r@ == verify_request_of(self.config()),
    {
        self.with_auth(HttpRequest::new(HttpMethod::Get, "https://graph.facebook.com/v18.0/me".to_string()))
    }

    /// Reads the answer to the credentials check.
    pub fn check_verify_reply(success: bool, status_line: &str) -> (r: Result<(), String>)
        ensures
            match r {
                Ok(_) => verify_verdict(success, status_line@) is Ok,
                Err(e) => verify_verdict(success, status_line@) == Err::<(), Seq<char>>(e@),
            },
    {
        if success {
            Ok(())
        } else {
            Err(concat2("Failed to verify credentials: ", status_line))
        }
    }

    fn message_request(&self, to: &str, kind: &str, payload: Json) -> (r: HttpRequest)
        ensures
            r@ == message_request_of(self.config(), to@, kind@, payload@),
    {
        let body = ObjectBuilder::new().text("messaging_product", "whatsapp").text("to", to).text(
            "type",
            kind,
        ).with(kind, payload).build();
        self.with_auth(HttpRequest::new(HttpMethod::Post, self.get_api_url("/messages"))).json(body)
    }

    /// The request that sends `text` to `to`.
    pub fn send_text(&self, to: &str, text: &str) -> (r: HttpRequest)
        ensures
            r@ == message_request_of(self.config(), to@, "text"@, text_payload(text@)),
    {
        let payload = ObjectBuilder::new().text("body", text).build();
        self.message_request(to, "text", payload)
    }

    fn media_object(media_id: &str, caption: Option<&str>, filename: Option<&str>) -> (j: Json)
        ensures
            j@ == media_payload(media_id@, opt_str_text(caption), opt_str_text(filename)),
    {
        let base = ObjectBuilder::new().text("id", media_id);
        let captioned = match caption {
            Some(c) => base.text("caption", c),
            None => base,
        };
        let named = match filename {
            Some(f) => captioned.text("filename", f),
            None => captioned,
        };
        named.build()
    }

    /// The request that sends an uploaded image.
    pub fn send_image_message(&self, to: &str, media_id: &str, caption: Option<&str>) -> (r: HttpRequest)
        ensures
            r@ == media_message_of(self.config(), to@, MediaKind::Image, media_id@, opt_str_text(caption), None),
    {
        self.message_request(to, "image", Self::media_object(media_id, caption, None))
    }

    /// The request that sends an uploaded video.
    pub fn send_video_message(&self, to: &str, media_id: &str, caption: Option<&str>) -> (r: HttpRequest)
        ensures
            r@ == media_message_of(self.config(), to@, MediaKind::Video, media_id@, opt_str_text(caption), None),
    {
        self.message_request(to, "video", Self::media_object(media_id, caption, None))
    }

    /// The request that sends an uploaded sound file.
    pub fn send_audio_message(&self, to: &str, media_id: &str) -> (r: HttpRequest)
        ensures
            r@ == media_message_of(self.config(), to@, MediaKind::Audio, media_id@, None, None),
    {
        self.message_request(to, "audio", Self::media_object(media_id, None, None))
    }

    /// The request that sends an uploaded document.
    pub fn send_document_message(
        &self,
        to: &str,
        media_id: &str,
        caption: Option<&str>,
        filename: Option<&str>,
    ) -> (r: HttpRequest)
        ensures
            r@ == media_message_of(
                self.config(),
                to@,
                MediaKind::Document,
                media_id@,
                opt_str_text(caption),
                opt_str_text(filename),
            ),
    {
        self.message_request(to, "document", Self::media_object(media_id, caption, filename))
    }

    /// The request that sends an uploaded sticker.
    pub fn send_sticker_message(&self, to: &str, media_id: &str) -> (r: HttpRequest)
        ensures
            r@ == message_request_of(self.config(), to@, "sticker"@, media_payload(media_id@, None, None)),
    {
        self.message_request(to, "sticker", Self::media_object(media_id, None, None))
    }

    /// The request that uploads the file at `file_path`, whose name is
    /// `file_name` and whose extension, in lower case, is `ext`.
    pub fn upload_media(&self, file_path: &str, file_name: &str, ext: &str) -> (r: HttpRequest)
        ensures
            r@ == upload_request_of(self.config(), file_path@, file_name@, ext@),
    {
        let form = MultipartForm {
            text_fields: Pairs::new().with("messaging_product", "whatsapp").build(),
            file_field: "file".to_string(),
            file_path: file_path.to_string(),
            file_name: file_name.to_string(),
            mime_type: Some(upload_mime(ext).to_string()),
        };
        self.with_auth(
            HttpRequest::new(HttpMethod::Post, "https://graph.facebook.com/v18.0/me/media".to_string()),
        ).multipart(form)
    }

    /// The request that asks where the uploaded file `media_id` can be
    /// downloaded.
    pub fn get_media_info(&self, media_id: &str) -> (r: HttpRequest)
        ensures
            r@ == (HttpRequestView {
                method: HttpMethod::Get,
                url: graph_base() + media_id@,
                query: Seq::empty(),
                headers: auth_headers_of(self.config()),
                body: HttpBodyView::Empty,
            }),
    {
        self.with_auth(HttpRequest::new(HttpMethod::Get, concat2("https://graph.facebook.com/v18.0/", media_id)))
    }

    /// The request that downloads a file from the address that the platform
    /// named for it; without an address there is nothing to download.
    pub fn download_media(&self, url: Option<&str>) -> (r: Result<HttpRequest, String>)
        ensures
            match r {
                Ok(request) => url is Some && request@ == (HttpRequestView {
                    method: HttpMethod::Get,
                    url: url->0@,
                    query: Seq::empty(),
                    headers: Seq::empty(),
                    body: HttpBodyView::Empty,
                }),
                Err(e) => url is None && e@ == "Media URL not available"@,
            },
    {
        match url {
            Some(u) => Ok(HttpRequest::new(HttpMethod::Get, u.to_string())),
            None => Err("Media URL not available".to_string()),
        }
    }

    /// The message that follows an upload: the kind of message goes by the
    /// extension `ext`, given in lower case, and an extension that the
    /// platform does not take is an error.
    pub fn media_message(
        &self,
        to: &str,
        media_id: &str,
        ext: &str,
        file_name: Option<&str>,
        caption: Option<&str>,
    ) -> (r: Result<HttpRequest, String>)
        ensures
            match r {
                Ok(request) => media_kind_of(ext@) is Some && request@ == media_message_of(
                    self.config(),
                    to@,
                    media_kind_of(ext@)->0,
                    media_id@,
                    opt_str_text(caption),
                    opt_str_text(file_name),
                ),
                Err(e) => media_kind_of(ext@) is None && e@ == "不支持的文件类型"@,
            },
    {
        match media_kind(ext) {
            Some(MediaKind::Image) => Ok(self.send_image_message(to, media_id, caption)),
            Some(MediaKind::Video) => Ok(self.send_video_message(to, media_id, caption)),
            Some(MediaKind::Audio) => Ok(self.send_audio_message(to, media_id)),
            Some(MediaKind::Document) => Ok(self.send_document_message(to, media_id, caption, file_name)),
            None => Err("不支持的文件类型".to_string()),
        }
    }

    /// The request that sends an interactive list.
    pub fn send_interactive_list_message(&self, to: &str, title: &str, description: &str, button_text: &str) -> (r:
        HttpRequest)
        ensures
            r@ == message_request_of(
                self.config(),
                to@,
                "interactive"@,
                list_payload(title@, description@, button_text@),
            ),
    {
        let header = ObjectBuilder::new().text("type", "text").text("text", title).build();
        let body = ObjectBuilder::new().text("text", description).build();
        let sections = crate::im::http::json_list(Vec::new());
        assert(sections@->List_0 =~= Seq::<JsonView>::empty());
        let action = ObjectBuilder::new().text("button", button_text).with("sections", sections).build();
        let payload = ObjectBuilder::new().text("type", "list").with("header", header).with("body", body).with(
            "action",
            action,
        ).build();
        self.message_request(to, "interactive", payload)
    }

    fn finish_interactive(base: ObjectBuilder, header: Option<&str>, footer: Option<&str>) -> (j: Json)
        ensures
            j@ == JsonView::Object(with_header_footer(base@, opt_str_text(header), opt_str_text(footer))),
    {
        let headed = match header {
            Some(h) => base.with("header", ObjectBuilder::new().text("type", "text").text("text", h).build()),
            None => base,
        };
        let footed = match footer {
            Some(f) => headed.with("footer", ObjectBuilder::new().text("text", f).build()),
            None => headed,
        };
        footed.build()
    }

    /// The request that sends a message with reply buttons.
    pub fn send_interactive_buttons_message(
        &self,
        to: &str,
        header_text: Option<&str>,
        body_text: &str,
        footer_text: Option<&str>,
        buttons: &Vec<InteractiveButton>,
    ) -> (r: HttpRequest)
        ensures
            r@ == message_request_of(
                self.config(),
                to@,
                "interactive"@,
                buttons_payload(
                    opt_str_text(header_text),
                    body_text@,
                    opt_str_text(footer_text),
                    Seq::new(
                        buttons@.len(),
                        |i: int| button_json(buttons@[i].button_type@, buttons@[i].id@, buttons@[i].title@),
                    ),
                ),
            ),
    {
        let mut items: Vec<Json> = Vec::new();
        let mut i: usize = 0;
        while i < buttons.len()
            invariant
                i <= buttons.len(),
                items.len() == i,
                forall|j: int|
                    0 <= j < i ==> (#[trigger] items@[j])@ == button_json(
                        buttons@[j].button_type@,
                        buttons@[j].id@,
                        buttons@[j].title@,
                    ),
            decreases buttons.len() - i,
        {
            items.push(buttons[i].to_json());
            i += 1;
        }
        let list = crate::im::http::json_list(items);
        assert(list@->List_0 =~= Seq::new(
            buttons@.len(),
            |i: int| button_json(buttons@[i].button_type@, buttons@[i].id@, buttons@[i].title@),
        ));
        let base = ObjectBuilder::new().text("type", "button").with(
            "body",
            ObjectBuilder::new().text("text", body_text).build(),
        ).with("action", ObjectBuilder::new().with("buttons", list).build());
        let payload = Self::finish_interactive(base, header_text, footer_text);
        self.message_request(to, "interactive", payload)
    }

    /// The request that sends a catalog message.
    pub fn send_interactive_catalog_message(
        &self,
        to: &str,
        body_text: &str,
        footer_text: Option<&str>,
        catalog_id: &str,
        product_id: Option<&str>,
    ) -> (r: HttpRequest)
        ensures
            r@ == message_request_of(
                self.config(),
                to@,
                "interactive"@,
                catalog_payload(body_text@, opt_str_text(footer_text), catalog_id@, opt_str_text(product_id)),
            ),
    {
        let action = ObjectBuilder::new().text("catalog_id", catalog_id);
        let action = match product_id {
            Some(p) => action.text("product_id", p),
            None => action,
        };
        let base = ObjectBuilder::new().text("type", "catalog_message").with(
            "body",
            ObjectBuilder::new().text("text", body_text).build(),
        ).with("action", action.build());
        let payload = Self::finish_interactive(base, None, footer_text);
        self.message_request(to, "interactive", payload)
    }

    /// The request that sends a template message.
    pub fn send_template_message(
        &self,
        to: &str,
        template_name: &str,
        language_code: &str,
        components: Option<Json>,
    ) -> (r: HttpRequest)
        ensures
            r@ == message_request_of(
                self.config(),
                to@,
                "template"@,
                template_payload(
                    template_name@,
                    language_code@,
                    match components {
                        Some(c) => Some(c@),
                        None => None,
                    },
                ),
            ),
    {
        let base = ObjectBuilder::new().text("name", template_name).with(
            "language",
            ObjectBuilder::new().text("code", language_code).build(),
        );
        let payload = match components {
            Some(c) => base.with("components", c).build(),
            None => base.build(),
        };
        self.message_request(to, "template", payload)
    }

    /// Ends the start with the outcome of the credentials check. A failure
    /// is recorded and returned; a success connects the adapter at `now_ms`
    /// and keeps the phone number id.
    pub fn finish_start(&mut self, verified: Result<(), String>, now_ms: i64) -> (report: StartReport)
        ensures
            final(self).config() == old(self).config(),
            final(self).last_chat() == old(self).last_chat(),
            match verified {
                Ok(_) => final(self).status() == old(self).status().connected(now_ms) && final(self).phone_number_id() == old(self).config().phone_number_id && report@ == (StartReportView {
                    result: Ok(NextStepView::Nothing),
                    events: seq![
                        GatewayEventView::StatusChanged(final(self).status()),
                        GatewayEventView::Connected,
                    ],
                }),
                Err(e) => final(self).status() == old(self).status().failed("验证凭据失败: "@ + e@) && final(self).phone_number_id() == old(self).phone_number_id() && report@ == (StartReportView {
                    result: Err(e@),
                    events: seq![
                        GatewayEventView::Error("验证凭据失败: "@ + e@),
                        GatewayEventView::StatusChanged(final(self).status()),
                    ],
                }),
            },
    {
        match verified {
            Ok(_) => {
                self.phone_number_id = clone_opt_string(&self.config.phone_number_id);
                let events = self.status.complete_start(now_ms);
                StartReport { result: Ok(NextStep::Nothing), events }
            },
            Err(e) => {
                let message = concat2("验证凭据失败: ", e.as_str());
                let events = self.status.fail_start(message.as_str());
                StartReport { result: Err(e), events }
            },
        }
    }

    /// What has to go out to send the file at `file_path`, whose name is
    /// `file_name` and whose extension is `ext`, to `to`: the upload. The
    /// message itself follows the upload, see `media_message`.
    pub fn media_upload(&self, to: &str, file_path: &str, file_name: &str, ext: &str) -> (r: Result<
        Outbound,
        String,
    >)
        ensures
            outbound_view(r) == if !self.status().connected {
                Err::<OutboundView, Seq<char>>(not_connected_text())
            } else {
                Ok::<OutboundView, Seq<char>>(
                    OutboundView::Deliver(
                        seq![once(upload_request_of(self.config(), file_path@, file_name@, lowercase(ext@)))],
                    ),
                )
            },
    {
        if !self.status.connected {
            return Err(not_connected());
        }
        let lower = to_lowercase(ext);
        Ok(deliver_one(self.upload_media(file_path, file_name, lower.as_str())))
    }
}

impl Gateway for WhatsAppGateway {
    closed spec fn status(&self) -> GatewayStatusView {
        self.status@
    }

    open spec fn enabled(&self) -> bool {
        self.config().enabled
    }

    open spec fn missing_credentials(&self) -> Option<Seq<char>> {
        missing_of(self.config())
    }

    open spec fn reconnect_barred(&self) -> bool {
        false
    }

    open spec fn capabilities_spec(&self) -> Capabilities {
        Capabilities { media: true, edit: false, delete: false, history: false }
    }

    open spec fn notification_plan(&self, text: Seq<char>, now: i64) -> Result<OutboundView, Seq<char>> {
        notification_of(self.status(), self.config(), self.last_chat(), text)
    }

    open spec fn message_plan(&self, conversation_id: Seq<char>, text: Seq<char>, now: i64) -> Result<
        OutboundView,
        Seq<char>,
    > {
        message_of(self.status(), self.config(), conversation_id, text)
    }

    open spec fn media_plan(
        &self,
        conversation_id: Seq<char>,
        file_path: Seq<char>,
        file_name: Seq<char>,
        ext: Seq<char>,
        now: i64,
    ) -> Result<OutboundView, Seq<char>> {
        if !self.status().connected {
            Err(not_connected_text())
        } else {
            Ok(
                OutboundView::Deliver(
                    seq![once(upload_request_of(self.config(), file_path, file_name, lowercase(ext)))],
                ),
            )
        }
    }

    open spec fn edit_plan(&self, conversation_id: Seq<char>, message_id: Seq<char>, new_text: Seq<char>) -> Result<
        OutboundView,
        Seq<char>,
    > {
        Err("WhatsApp 不支持编辑消息"@)
    }

    open spec fn delete_plan(&self, conversation_id: Seq<char>, message_id: Seq<char>) -> Result<
        OutboundView,
        Seq<char>,
    > {
        Err("WhatsApp 不支持删除消息"@)
    }

    open spec fn history_plan(&self, conversation_id: Seq<char>, limit: u32) -> Result<OutboundView, Seq<char>> {
        Err("WhatsApp 不支持获取历史消息"@)
    }

    fn capabilities(&self) -> (c: Capabilities) {
        Capabilities { media: true, edit: false, delete: false, history: false }
    }

    fn is_connected(&self) -> (connected: bool) {
        self.status.connected
    }

    fn get_status(&self) -> (status: GatewayStatus) {
        self.status.clone()
    }

    fn start(&mut self, now: i64) -> (report: StartReport)
        ensures
            final(self).config() == old(self).config(),
            final(self).phone_number_id() == old(self).phone_number_id(),
            final(self).last_chat() == old(self).last_chat(),
            start_gate(old(self).status(), old(self).enabled(), old(self).missing_credentials())
                == StartGate::Open ==> report@.result == Ok::<NextStepView, Seq<char>>(
                NextStepView::Request(verify_request_of(old(self).config())),
            ),
    {
        let missing = if is_absent(&self.config.phone_number_id) {
            Some("缺少必要的配置: phone_number_id")
        } else if is_absent(&self.config.access_token) {
            Some("缺少必要的配置: access_token")
        } else {
            None
        };
        let (gate, events) = self.status.begin_start(self.config.enabled, missing);
        match gate {
            StartGate::Skip => StartReport { result: Ok(NextStep::Nothing), events },
            StartGate::Rejected => {
                let message = match missing {
                    Some(m) => m.to_string(),
                    None => String::new(),
                };
                StartReport { result: Err(message), events }
            },
            StartGate::Open => StartReport {
                result: Ok(NextStep::Request(self.verify_credentials())),
                events,
            },
        }
    }

    fn stop(&mut self) -> (events: Vec<GatewayEvent>)
        ensures
            final(self).config() == old(self).config(),
            final(self).phone_number_id() == old(self).phone_number_id(),
            final(self).last_chat() == old(self).last_chat(),
    {
        self.status.stop()
    }

    fn reconnect_if_needed(&mut self, now: i64) -> (report: StartReport)
        ensures
            final(self).phone_number_id() == old(self).phone_number_id(),
            final(self).last_chat() == old(self).last_chat(),
            !old(self).status().connected && start_gate(
                old(self).status(),
                old(self).enabled(),
                old(self).missing_credentials(),
            ) == StartGate::Open ==> report@.result == Ok::<NextStepView, Seq<char>>(
                NextStepView::Request(verify_request_of(old(self).config())),
            ),
            final(self).config() == old(self).config(),
    {
        if !self.status.connected {
            self.start(now)
        } else {
            report_skip()
        }
    }

    fn send_notification(&self, text: &str, now: i64) -> (r: Result<Outbound, String>)
        ensures
            outbound_view(r) == notification_of(self.status(), self.config(), self.last_chat(), text@),
    {
        if !self.status.connected {
            return Err(not_connected());
        }
        match &self.last_chat_id {
            Some(chat) => Ok(deliver_one(self.send_text(chat.as_str(), text))),
            None => Err("需要指定收件人".to_string()),
        }
    }

    fn send_message(&self, conversation_id: &str, text: &str, now: i64) -> (r: Result<Outbound, String>)
        ensures
            outbound_view(r) == message_of(self.status(), self.config(), conversation_id@, text@),
    {
        if !self.status.connected {
            return Err(not_connected());
        }
        Ok(deliver_one(self.send_text(conversation_id, text)))
    }

    fn send_media_message(&self, conversation_id: &str, file_path: &str, now: i64) -> (r: Result<
        Outbound,
        String,
    >)
        ensures
            !self.status().connected ==> outbound_view(r) == Err::<OutboundView, Seq<char>>(
                not_connected_text(),
            ),
            self.status().connected ==> r is Ok && r->Ok_0@ is Deliver && r->Ok_0@->Deliver_0.len() == 1 && ({
                let request = r->Ok_0@->Deliver_0[0].request;
                &&& request.method == HttpMethod::Post
                &&& request.url == "https://graph.facebook.com/v18.0/me/media"@
                &&& request.headers == auth_headers_of(self.config())
                &&& request.body is Multipart
                &&& request.body->Multipart_0.file_path == file_path@
            }),
    {
        let ext = path_extension(file_path);
        let name = match path_file_name(file_path) {
            Some(n) => n,
            None => "file".to_string(),
        };
        let r = self.media_upload(conversation_id, file_path, name.as_str(), ext.as_str());
        assert(outbound_view(r) == self.media_plan(conversation_id@, file_path@, name@, ext@, now));
        r
    }

    fn edit_message(&self, conversation_id: &str, message_id: &str, new_text: &str) -> (r: Result<
        Outbound,
        String,
    >)
        ensures
            outbound_view(r) == Err::<OutboundView, Seq<char>>("WhatsApp 不支持编辑消息"@),
    {
        Err("WhatsApp 不支持编辑消息".to_string())
    }

    fn delete_message(&self, conversation_id: &str, message_id: &str) -> (r: Result<Outbound, String>)
        ensures
            outbound_view(r) == Err::<OutboundView, Seq<char>>("WhatsApp 不支持删除消息"@),
    {
        Err("WhatsApp 不支持删除消息".to_string())
    }

    fn get_message_history(&self, conversation_id: &str, limit: u32) -> (r: Result<Outbound, String>)
        ensures
            outbound_view(r) == Err::<OutboundView, Seq<char>>("WhatsApp 不支持获取历史消息"@),
    {
        Err("WhatsApp 不支持获取历史消息".to_string())
    }

    fn record_outbound(&mut self, now_ms: i64)
        ensures
            final(self).config() == old(self).config(),
            final(self).phone_number_id() == old(self).phone_number_id(),
            final(self).last_chat() == old(self).last_chat(),
    {
        self.status.touch_outbound(now_ms);
    }
}

} // verus!
