//! The Telegram adapter: long polling for updates, the Bot API for sends.

use vstd::prelude::*;
use vstd::string::*;
use crate::im::gateway::{clone_opt_string, deliveries_view, deliver_one, once, Delivery, DeliveryView, events_view, messages_view, not_connected, not_connected_text, opt_str_text, opt_text, outbound_view, report_skip, seen_recently, start_gate, Capabilities, Gateway, GatewayEvent, GatewayEventView, GatewayStatus, GatewayStatusView, IMMessage, IMMessageView, MessageDeduplicationCache, NextStep, NextStepView, Outbound, OutboundView, StartGate, StartReport, StartReportView};
use crate::im::http::{json_opt_number, HttpBodyView, HttpMethod, HttpRequest, HttpRequestView, Json, JsonView, ObjectBuilder};
use crate::im::text::{chars_of, concat2, concat3, decimal_text, i64_to_string, last_index_of, lemma_last_index_of, lowercase, parse_i64, parsed_i64, path_extension, path_file_name, rfind_char, str_eq, text_or_empty, to_lowercase};

verus! {

/// What a `TelegramConfig` holds.
pub struct TelegramConfigView {
    pub enabled: bool,
    pub bot_token: Seq<char>,
    pub debug: Option<bool>,
    pub media_download_path: Option<Seq<char>>,
}

/// Configuration of the Telegram adapter.
#[derive(Debug)]
pub struct TelegramConfig {
    pub enabled: bool,
    pub bot_token: String,
    pub debug: Option<bool>,
    pub media_download_path: Option<String>,
}

impl View for TelegramConfig {
    type V = TelegramConfigView;

    open spec fn view(&self) -> TelegramConfigView {
        TelegramConfigView {
            enabled: self.enabled,
            bot_token: self.bot_token@,
            debug: self.debug,
            media_download_path: opt_text(self.media_download_path),
        }
    }
}

impl Default for TelegramConfig {
    fn default() -> (c: TelegramConfig)
        ensures
            c@ == (TelegramConfigView {
                enabled: false,
                bot_token: Seq::empty(),
                debug: Some(false),
                media_download_path: None,
            }),
    {
        TelegramConfig { enabled: false, bot_token: String::new(), debug: Some(false), media_download_path: None }
    }
}

impl Clone for TelegramConfig {
    fn clone(&self) -> (c: TelegramConfig)
        ensures
            c@ == self@,
    {
        TelegramConfig {
            enabled: self.enabled,
            bot_token: self.bot_token.clone(),
            debug: self.debug,
            media_download_path: clone_opt_string(&self.media_download_path),
        }
    }
}

/// What a `TelegramMediaAttachment` holds.
pub struct TelegramMediaAttachmentView {
    pub media_type: Seq<char>,
    pub file_id: Seq<char>,
    pub file_name: Option<Seq<char>>,
    pub mime_type: Option<Seq<char>>,
    pub width: Option<i32>,
    pub height: Option<i32>,
    pub duration: Option<i32>,
    pub file_size: Option<i32>,
    pub local_path: Option<Seq<char>>,
}

/// A file that came with a message.
#[derive(Debug)]
pub struct TelegramMediaAttachment {
    pub media_type: String,
    pub file_id: String,
    pub file_name: Option<String>,
    pub mime_type: Option<String>,
    pub width: Option<i32>,
    pub height: Option<i32>,
    pub duration: Option<i32>,
    pub file_size: Option<i32>,
    pub local_path: Option<String>,
}

impl View for TelegramMediaAttachment {
    type V = TelegramMediaAttachmentView;

    open spec fn view(&self) -> TelegramMediaAttachmentView {
        TelegramMediaAttachmentView {
            media_type: self.media_type@,
            file_id: self.file_id@,
            file_name: opt_text(self.file_name),
            mime_type: opt_text(self.mime_type),
            width: self.width,
            height: self.height,
            duration: self.duration,
            file_size: self.file_size,
            local_path: opt_text(self.local_path),
        }
    }
}

/// What a `TelegramFile` holds.
pub struct TelegramFileView {
    pub file_id: Seq<char>,
    pub name: Option<Seq<char>>,
    pub mime_type: Option<Seq<char>>,
    pub width: Option<i32>,
    pub height: Option<i32>,
    pub duration: Option<i32>,
    pub file_size: Option<i32>,
}

/// One file of an inbound message, as the platform describes it. `name` is
/// the file name of a document and the title of a sound file.
#[derive(Debug)]
pub struct TelegramFile {
    pub file_id: String,
    pub name: Option<String>,
    pub mime_type: Option<String>,
    pub width: Option<i32>,
    pub height: Option<i32>,
    pub duration: Option<i32>,
    pub file_size: Option<i32>,
}

impl View for TelegramFile {
    type V = TelegramFileView;

    open spec fn view(&self) -> TelegramFileView {
        TelegramFileView {
            file_id: self.file_id@,
            name: opt_text(self.name),
            mime_type: opt_text(self.mime_type),
            width: self.width,
            height: self.height,
            duration: self.duration,
            file_size: self.file_size,
        }
    }
}

/// What a `TelegramSender` holds.
pub struct TelegramSenderView {
    pub id: i64,
    pub is_bot: bool,
    pub first_name: Option<Seq<char>>,
}

/// Who sent a message.
#[derive(Debug)]
pub struct TelegramSender {
    pub id: i64,
    pub is_bot: bool,
    pub first_name: Option<String>,
}

impl View for TelegramSender {
    type V = TelegramSenderView;

    open spec fn view(&self) -> TelegramSenderView {
        TelegramSenderView { id: self.id, is_bot: self.is_bot, first_name: opt_text(self.first_name) }
    }
}

/// The views of an optional file.
pub open spec fn opt_file(o: Option<TelegramFile>) -> Option<TelegramFileView> {
    match o {
        Some(f) => Some(f@),
        None => None,
    }
}

/// What a `TelegramMessage` holds.
pub struct TelegramMessageView {
    pub message_id: i64,
    pub chat_id: i64,
    pub from: Option<TelegramSenderView>,
    pub text: Option<Seq<char>>,
    pub caption: Option<Seq<char>>,
    pub date: i64,
    pub photo: Option<Seq<TelegramFileView>>,
    pub video: Option<TelegramFileView>,
    pub audio: Option<TelegramFileView>,
    pub voice: Option<TelegramFileView>,
    pub document: Option<TelegramFileView>,
    pub sticker: Option<TelegramFileView>,
}

/// A message as the platform delivers it. `photo` lists the sizes of one
/// picture, the largest last.
#[derive(Debug)]
pub struct TelegramMessage {
    pub message_id: i64,
    pub chat_id: i64,
    pub from: Option<TelegramSender>,
    pub text: Option<String>,
    pub caption: Option<String>,
    pub date: i64,
    pub photo: Option<Vec<TelegramFile>>,
    pub video: Option<TelegramFile>,
    pub audio: Option<TelegramFile>,
    pub voice: Option<TelegramFile>,
    pub document: Option<TelegramFile>,
    pub sticker: Option<TelegramFile>,
}

impl View for TelegramMessage {
    type V = TelegramMessageView;

    open spec fn view(&self) -> TelegramMessageView {
        TelegramMessageView {
            message_id: self.message_id,
            chat_id: self.chat_id,
            from: match self.from {
                Some(s) => Some(s@),
                None => None,
            },
            text: opt_text(self.text),
            caption: opt_text(self.caption),
            date: self.date,
            photo: match self.photo {
                Some(sizes) => Some(Seq::new(sizes@.len(), |i: int| sizes@[i]@)),
                None => None,
            },
            video: opt_file(self.video),
            audio: opt_file(self.audio),
            voice: opt_file(self.voice),
            document: opt_file(self.document),
            sticker: opt_file(self.sticker),
        }
    }
}

/// What a `TelegramUpdate` holds.
pub struct TelegramUpdateView {
    pub update_id: i64,
    pub message: Option<TelegramMessageView>,
}

/// One update of a poll.
#[derive(Debug)]
pub struct TelegramUpdate {
    pub update_id: i64,
    pub message: Option<TelegramMessage>,
}

impl View for TelegramUpdate {
    type V = TelegramUpdateView;

    open spec fn view(&self) -> TelegramUpdateView {
        TelegramUpdateView {
            update_id: self.update_id,
            message: match self.message {
                Some(m) => Some(m@),
                None => None,
            },
        }
    }
}

/// The updates of a list, each by its view.
pub open spec fn updates_view(updates: Seq<TelegramUpdate>) -> Seq<TelegramUpdateView> {
    Seq::new(updates.len(), |i: int| updates[i]@)
}

/// The attachments of a list, each by its view.
pub open spec fn attachments_view(list: Seq<TelegramMediaAttachment>) -> Seq<TelegramMediaAttachmentView> {
    Seq::new(list.len(), |i: int| list[i]@)
}

/// The attachment that stands for a file of the kind `media_type`. A photo
/// is a JPEG and a sticker a WebP picture whatever the platform says; only
/// a document and a sound file have a name.
pub open spec fn attachment_of(media_type: Seq<char>, file: TelegramFileView) -> TelegramMediaAttachmentView {
    TelegramMediaAttachmentView {
        media_type,
        file_id: file.file_id,
        file_name: if media_type == "audio"@ || media_type == "document"@ {
            file.name
        } else {
            None
        },
        mime_type: if media_type == "photo"@ {
            Some("image/jpeg"@)
        } else if media_type == "sticker"@ {
            Some("image/webp"@)
        } else {
            file.mime_type
        },
        width: if media_type == "photo"@ || media_type == "video"@ || media_type == "sticker"@ {
            file.width
        } else {
            None
        },
        height: if media_type == "photo"@ || media_type == "video"@ || media_type == "sticker"@ {
            file.height
        } else {
            None
        },
        duration: if media_type == "video"@ || media_type == "audio"@ || media_type == "voice"@ {
            file.duration
        } else {
            None
        },
        file_size: file.file_size,
        local_path: None,
    }
}

/// `list` with one more attachment where `file` is there.
pub open spec fn with_attachment(
    list: Seq<TelegramMediaAttachmentView>,
    media_type: Seq<char>,
    file: Option<TelegramFileView>,
) -> Seq<TelegramMediaAttachmentView> {
    match file {
        Some(f) => list.push(attachment_of(media_type, f)),
        None => list,
    }
}

/// The largest size of a picture, where the message has one.
pub open spec fn best_photo(photo: Option<Seq<TelegramFileView>>) -> Option<TelegramFileView> {
    match photo {
        Some(sizes) => if sizes.len() > 0 {
            Some(sizes.last())
        } else {
            None
        },
        None => None,
    }
}

/// The files of a message in a fixed order: photo, video, audio, voice,
/// document, sticker.
pub open spec fn media_of(message: TelegramMessageView) -> Seq<TelegramMediaAttachmentView> {
    with_attachment(
        with_attachment(
            with_attachment(
                with_attachment(
                    with_attachment(
                        with_attachment(Seq::empty(), "photo"@, best_photo(message.photo)),
                        "video"@,
                        message.video,
                    ),
                    "audio"@,
                    message.audio,
                ),
                "voice"@,
                message.voice,
            ),
            "document"@,
            message.document,
        ),
        "sticker"@,
        message.sticker,
    )
}

fn push_attachment(list: &mut Vec<TelegramMediaAttachment>, media_type: &str, file: &TelegramFile)
    ensures
        attachments_view(final(list)@) == attachments_view(old(list)@).push(attachment_of(media_type@, file@)),
{
    let named = str_eq(media_type, "audio") || str_eq(media_type, "document");
    let sized = str_eq(media_type, "photo") || str_eq(media_type, "video") || str_eq(media_type, "sticker");
    let timed = str_eq(media_type, "video") || str_eq(media_type, "audio") || str_eq(media_type, "voice");
    let mime_type = if str_eq(media_type, "photo") {
        Some("image/jpeg".to_string())
    } else if str_eq(media_type, "sticker") {
        Some("image/webp".to_string())
    } else {
        clone_opt_string(&file.mime_type)
    };
    let attachment = TelegramMediaAttachment {
        media_type: media_type.to_string(),
        file_id: file.file_id.clone(),
        file_name: if named {
            clone_opt_string(&file.name)
        } else {
            None
        },
        mime_type,
        width: if sized {
            file.width
        } else {
            None
        },
        height: if sized {
            file.height
        } else {
            None
        },
        duration: if timed {
            file.duration
        } else {
            None
        },
        file_size: file.file_size,
        local_path: None,
    };
    assert(attachment@ == attachment_of(media_type@, file@));
    list.push(attachment);
    assert(attachments_view(list@) =~= attachments_view(old(list)@).push(attachment_of(media_type@, file@)));
}

fn push_opt_attachment(list: &mut Vec<TelegramMediaAttachment>, media_type: &str, file: &Option<TelegramFile>)
    ensures
        attachments_view(final(list)@) == with_attachment(
            attachments_view(old(list)@),
            media_type@,
            opt_file(*file),
        ),
{
    match file {
        Some(f) => push_attachment(list, media_type, f),
        None => {},
    }
}

/// The files that came with `message`.
pub fn extract_media_from_message(message: &TelegramMessage) -> (list: Vec<TelegramMediaAttachment>)
    ensures
        attachments_view(list@) == media_of(message@),
{
    let mut list: Vec<TelegramMediaAttachment> = Vec::new();
    assert(attachments_view(list@) =~= Seq::empty());
    match &message.photo {
        Some(sizes) => {
            if sizes.len() > 0 {
                push_attachment(&mut list, "photo", &sizes[sizes.len() - 1]);
            }
        },
        None => {},
    }
    push_opt_attachment(&mut list, "video", &message.video);
    push_opt_attachment(&mut list, "audio", &message.audio);
    push_opt_attachment(&mut list, "voice", &message.voice);
    push_opt_attachment(&mut list, "document", &message.document);
    push_opt_attachment(&mut list, "sticker", &message.sticker);
    list
}

/// Where a text that is longer than `max` is cut, and how many characters
/// are dropped behind the cut: at the last line break among the first `max`
/// characters, else at the last space among them, else after `max`
/// characters with nothing dropped.
pub open spec fn cut_of(s: Seq<char>, max: int) -> (int, int) {
    if last_index_of(s, '\n', max) >= 0 {
        (last_index_of(s, '\n', max), 1)
    } else if last_index_of(s, ' ', max) >= 0 {
        (last_index_of(s, ' ', max), 1)
    } else {
        (max, 0)
    }
}

/// The pieces that a text is sent in where no piece may hold more than
/// `max` characters.
pub open spec fn split_of(s: Seq<char>, max: int) -> Seq<Seq<char>>
    decreases s.len(),
    when max > 0
{
    if s.len() == 0 {
        Seq::empty()
    } else if s.len() <= max {
        Seq::empty().push(s)
    } else {
        let cut = cut_of(s, max);
        if 0 <= cut.0 <= s.len() && 0 < cut.0 + cut.1 <= s.len() {
            Seq::empty().push(s.take(cut.0)) + split_of(s.skip(cut.0 + cut.1), max)
        } else {
            Seq::empty()
        }
    }
}

/// The texts of a list of strings.
pub open spec fn texts_view(list: Seq<String>) -> Seq<Seq<char>> {
    Seq::new(list.len(), |i: int| list[i]@)
}

/// A cut stands within the first `max` characters and leaves less text
/// behind than there was.
pub proof fn lemma_cut_of(s: Seq<char>, max: int)
    requires
        0 < max < s.len(),
    ensures
        0 <= cut_of(s, max).0 <= max,
        0 < cut_of(s, max).0 + cut_of(s, max).1 <= s.len(),
{
    lemma_last_index_of(s, '\n', max);
    lemma_last_index_of(s, ' ', max);
}

/// No piece of a split text holds more than `max` characters.
pub proof fn lemma_split_pieces_fit(s: Seq<char>, max: int)
    requires
        max > 0,
    ensures
        forall|i: int| 0 <= i < split_of(s, max).len() ==> (#[trigger] split_of(s, max)[i]).len() <= max,
    decreases s.len(),
{
    if s.len() > max {
        lemma_cut_of(s, max);
        let cut = cut_of(s, max);
        let tail = split_of(s.skip(cut.0 + cut.1), max);
        lemma_split_pieces_fit(s.skip(cut.0 + cut.1), max);
        let all = Seq::empty().push(s.take(cut.0)) + tail;
        assert(split_of(s, max) == all);
        assert forall|i: int| 0 <= i < all.len() implies (#[trigger] all[i]).len() <= max by {
            if i > 0 {
                assert(all[i] == tail[i - 1]);
            }
        }
    }
}

/// Cuts `text` into pieces of at most `max_length` characters, at a line
/// break where there is one, else at a space, else anywhere.
pub fn split_message(text: &str, max_length: usize) -> (chunks: Vec<String>)
    requires
        max_length > 0,
    ensures
        texts_view(chunks@) == split_of(text@, max_length as int),
{
    let chars = chars_of(text);
    let mut chunks: Vec<String> = Vec::new();
    let mut start: usize = 0;
    assert(texts_view(chunks@) =~= Seq::empty());
    assert(text@.skip(0) =~= text@);
    while start < chars.len()
        invariant
            start <= chars.len(),
            chars@ == text@,
            max_length > 0,
            split_of(text@, max_length as int) == texts_view(chunks@) + split_of(
                text@.skip(start as int),
                max_length as int,
            ),
        decreases chars.len() - start,
    {
        let ghost rest = text@.skip(start as int);
        let remaining = chars.len() - start;
        if remaining <= max_length {
            let piece = text.substring_char(start, chars.len());
            assert(piece@ =~= rest);
            let ghost before = texts_view(chunks@);
            chunks.push(piece.to_string());
            proof {
                assert(texts_view(chunks@) =~= before.push(rest));
                assert(rest.skip(rest.len() as int) =~= Seq::<char>::empty());
                assert(text@.skip(chars.len() as int) =~= Seq::<char>::empty());
                assert(split_of(rest, max_length as int) =~= Seq::empty().push(rest));
                assert(split_of(Seq::<char>::empty(), max_length as int) =~= Seq::<Seq<char>>::empty());
                assert(before + Seq::empty().push(rest) =~= before.push(rest) + Seq::<Seq<char>>::empty());
            }
            start = chars.len();
        } else {
            let mut window: Vec<char> = Vec::new();
            let mut k: usize = 0;
            while k < max_length
                invariant
                    k <= max_length,
                    start + max_length < chars.len(),
                    window@ == chars@.subrange(start as int, start + k),
                decreases max_length - k,
            {
                window.push(chars[start + k]);
                assert(window@ =~= chars@.subrange(start as int, start + k + 1));
                k += 1;
            }
            proof {
                lemma_same_prefix(rest, window@, '\n', max_length as int);
                lemma_same_prefix(rest, window@, ' ', max_length as int);
                lemma_cut_of(rest, max_length as int);
            }
            let (cut, drop): (usize, usize) = match rfind_char(&window, '\n', max_length) {
                Some(pos) => (pos, 1),
                None => match rfind_char(&window, ' ', max_length) {
                    Some(pos) => (pos, 1),
                    None => (max_length, 0),
                },
            };
            assert(cut as int == cut_of(rest, max_length as int).0);
            assert(drop as int == cut_of(rest, max_length as int).1);
            let piece = text.substring_char(start, start + cut);
            assert(piece@ =~= rest.take(cut as int));
            let ghost before = texts_view(chunks@);
            chunks.push(piece.to_string());
            proof {
                assert(texts_view(chunks@) =~= before.push(rest.take(cut as int)));
                assert(rest.skip(cut + drop) =~= text@.skip(start + cut + drop));
                assert(before + (Seq::empty().push(rest.take(cut as int)) + split_of(
                    rest.skip(cut + drop),
                    max_length as int,
                )) =~= before.push(rest.take(cut as int)) + split_of(rest.skip(cut + drop), max_length as int));
            }
            start = start + cut + drop;
        }
    }
    proof {
        assert(text@.skip(start as int) =~= Seq::<char>::empty());
        assert(texts_view(chunks@) + Seq::<Seq<char>>::empty() =~= texts_view(chunks@));
    }
    chunks
}

/// The last `c` among the first `limit` characters is the same in two texts
/// that agree on those characters.
pub proof fn lemma_same_prefix(a: Seq<char>, b: Seq<char>, c: char, limit: int)
    requires
        0 <= limit <= a.len(),
        limit <= b.len(),
        forall|i: int| 0 <= i < limit ==> a[i] == b[i],
    ensures
        last_index_of(a, c, limit) == last_index_of(b, c, limit),
    decreases limit,
{
    if limit > 0 {
        lemma_same_prefix(a, b, c, limit - 1);
    }
}

/// The address of the Bot API method `method` for the bot with `token`.
pub open spec fn api_url_of(token: Seq<char>, method: Seq<char>) -> Seq<char> {
    "https://api.telegram.org/bot"@ + token + "/"@ + method
}

/// The address from which the file at `file_path` is downloaded.
pub open spec fn file_url_of(token: Seq<char>, file_path: Seq<char>) -> Seq<char> {
    "https://api.telegram.org/file/bot"@ + token + "/"@ + file_path
}

/// A request that posts `body` to `method`.
pub open spec fn post_of(token: Seq<char>, method: Seq<char>, body: JsonView) -> HttpRequestView {
    HttpRequestView {
        method: HttpMethod::Post,
        url: api_url_of(token, method),
        query: Seq::empty(),
        headers: Seq::empty(),
        body: HttpBodyView::Json(body),
    }
}

/// A request that reads `method` with the parameters `query`.
pub open spec fn get_of(token: Seq<char>, method: Seq<char>, query: Seq<(Seq<char>, Seq<char>)>) -> HttpRequestView {
    HttpRequestView {
        method: HttpMethod::Get,
        url: api_url_of(token, method),
        query,
        headers: Seq::empty(),
        body: HttpBodyView::Empty,
    }
}

/// An optional number as JSON.
pub open spec fn opt_number_json(n: Option<i64>) -> JsonView {
    match n {
        Some(v) => JsonView::Number(v as int),
        None => JsonView::Null,
    }
}

/// The body of a text message that the platform renders as Markdown.
pub open spec fn markdown_body(chat_id: i64, text: Seq<char>, reply_to: Option<i64>) -> JsonView {
    JsonView::Object(
        Seq::empty().push(("chat_id"@, JsonView::Number(chat_id as int))).push(("text"@, JsonView::Text(text))).push(
            ("parse_mode"@, JsonView::Text("Markdown"@)),
        ).push(("reply_to_message_id"@, opt_number_json(reply_to))),
    )
}

/// The body of a text message that the platform shows as it is.
pub open spec fn plain_body(chat_id: i64, text: Seq<char>, reply_to: Option<i64>) -> JsonView {
    JsonView::Object(
        Seq::empty().push(("chat_id"@, JsonView::Number(chat_id as int))).push(("text"@, JsonView::Text(text))).push(
            ("reply_to_message_id"@, opt_number_json(reply_to)),
        ),
    )
}

/// How a text goes out: as Markdown up to `attempts` times, two seconds
/// apart, and as plain text where Markdown never got through.
pub open spec fn text_delivery_of(
    token: Seq<char>,
    chat_id: i64,
    text: Seq<char>,
    reply_to: Option<i64>,
    attempts: u32,
) -> crate::im::gateway::DeliveryView {
    crate::im::gateway::DeliveryView {
        request: post_of(token, "sendMessage"@, markdown_body(chat_id, text, reply_to)),
        attempts,
        retry_delay_ms: RETRY_DELAY_MS,
        fallback: Some(post_of(token, "sendMessage"@, plain_body(chat_id, text, reply_to))),
    }
}

/// How often a text is tried as Markdown.
pub const SEND_ATTEMPTS: u32 = 3;

/// The pause between two tries, in milliseconds.
pub const RETRY_DELAY_MS: u64 = 2000;

/// No piece of a notification holds more characters than this.
pub const MAX_MESSAGE_LENGTH: usize = 4000;

/// How long the platform holds a poll open, in seconds.
pub const POLL_TIMEOUT_SECONDS: i64 = 30;

/// Repeats are recognised for this many seconds.
pub const DEDUP_TTL_SECONDS: i64 = 60;

/// What follows a try.
#[derive(Debug, Clone, Copy, PartialEq, Eq, Structural)]
pub enum RetryStep {
    /// The message is out.
    Done,
    /// Try again after this many milliseconds.
    RetryAfter(u64),
    /// Give Markdown up and send the fallback.
    Fallback,
}

/// What follows try number `attempt`, counted from 1, of `max_retries`.
pub open spec fn retry_step_of(attempt: u32, max_retries: u32, succeeded: bool) -> RetryStep {
    if succeeded {
        RetryStep::Done
    } else if attempt < max_retries {
        RetryStep::RetryAfter(RETRY_DELAY_MS)
    } else {
        RetryStep::Fallback
    }
}

/// What follows try number `attempt`, counted from 1, of `max_retries`.
pub fn retry_step(attempt: u32, max_retries: u32, succeeded: bool) -> (step: RetryStep)
    ensures
        step == retry_step_of(attempt, max_retries, succeeded),
{
    if succeeded {
        RetryStep::Done
    } else if attempt < max_retries {
        RetryStep::RetryAfter(RETRY_DELAY_MS)
    } else {
        RetryStep::Fallback
    }
}

/// The Bot API method that sends a file of the kind `media_type`.
pub open spec fn media_method_of(media_type: Seq<char>) -> Option<Seq<char>> {
    if media_type == "photo"@ {
        Some("sendPhoto"@)
    } else if media_type == "video"@ {
        Some("sendVideo"@)
    } else if media_type == "audio"@ {
        Some("sendAudio"@)
    } else if media_type == "voice"@ {
        Some("sendVoice"@)
    } else if media_type == "document"@ {
        Some("sendDocument"@)
    } else if media_type == "sticker"@ {
        Some("sendSticker"@)
    } else {
        None
    }
}

/// The Bot API method that sends a file of the kind `media_type`.
pub fn media_method(media_type: &str) -> (method: Option<&'static str>)
    ensures
        opt_str_text(method) == media_method_of(media_type@),
{
    if str_eq(media_type, "photo") {
        Some("sendPhoto")
    } else if str_eq(media_type, "video") {
        Some("sendVideo")
    } else if str_eq(media_type, "audio") {
        Some("sendAudio")
    } else if str_eq(media_type, "voice") {
        Some("sendVoice")
    } else if str_eq(media_type, "document") {
        Some("sendDocument")
    } else if str_eq(media_type, "sticker") {
        Some("sendSticker")
    } else {
        None
    }
}

/// The body of a message that carries the file `file_id`: a caption is
/// rendered as Markdown.
pub open spec fn media_body(
    chat_id: i64,
    media_type: Seq<char>,
    file_id: Seq<char>,
    caption: Option<Seq<char>>,
    reply_to: Option<i64>,
) -> JsonView {
    let base = Seq::empty().push(("chat_id"@, JsonView::Number(chat_id as int))).push(
        (media_type, JsonView::Text(file_id)),
    );
    let captioned = match caption {
        Some(c) => base.push(("caption"@, JsonView::Text(c))).push(("parse_mode"@, JsonView::Text("Markdown"@))),
        None => base,
    };
    JsonView::Object(
        match reply_to {
            Some(r) => captioned.push(("reply_to_message_id"@, JsonView::Number(r as int))),
            None => captioned,
        },
    )
}

/// What sending the file `file_id` as `media_type` comes to.
pub open spec fn media_request_of(
    token: Seq<char>,
    chat_id: i64,
    media_type: Seq<char>,
    file_id: Seq<char>,
    caption: Option<Seq<char>>,
    reply_to: Option<i64>,
) -> Result<HttpRequestView, Seq<char>> {
    match media_method_of(media_type) {
        Some(method) => Ok(post_of(token, method, media_body(chat_id, media_type, file_id, caption, reply_to))),
        None => Err("Unknown media type: "@ + media_type),
    }
}

/// The kind of message that carries a file with the extension `ext`, given
/// in lower case.
pub open spec fn media_type_of(ext: Seq<char>) -> Seq<char> {
    if ext == "jpg"@ || ext == "jpeg"@ || ext == "png"@ || ext == "gif"@ || ext == "bmp"@ || ext == "webp"@ {
        "photo"@
    } else if ext == "mp4"@ || ext == "avi"@ || ext == "mov"@ || ext == "webm"@ {
        "video"@
    } else if ext == "mp3"@ || ext == "ogg"@ || ext == "wav"@ || ext == "m4a"@ || ext == "aac"@ {
        "audio"@
    } else {
        "document"@
    }
}

/// The kind of message for a file extension in lower case.
pub fn media_type_for(ext: &str) -> (media_type: &'static str)
    ensures
        media_type@ == media_type_of(ext@),
{
    if str_eq(ext, "jpg") || str_eq(ext, "jpeg") || str_eq(ext, "png") || str_eq(ext, "gif") || str_eq(
        ext,
        "bmp",
    ) || str_eq(ext, "webp") {
        "photo"
    } else if str_eq(ext, "mp4") || str_eq(ext, "avi") || str_eq(ext, "mov") || str_eq(ext, "webm") {
        "video"
    } else if str_eq(ext, "mp3") || str_eq(ext, "ogg") || str_eq(ext, "wav") || str_eq(ext, "m4a") || str_eq(
        ext,
        "aac",
    ) {
        "audio"
    } else {
        "document"
    }
}

/// The parameters of a poll that asks for the updates from `offset` on.
pub open spec fn poll_query_of(offset: i64) -> Seq<(Seq<char>, Seq<char>)> {
    Seq::empty().push(("offset"@, decimal_text(offset as int))).push(("timeout"@, "30"@)).push(
        ("allowed_updates"@, "message,edited_message"@),
    )
}

/// The body that edits a message.
pub open spec fn edit_body(chat_id: i64, message_id: i64, text: Seq<char>) -> JsonView {
    JsonView::Object(
        Seq::empty().push(("chat_id"@, JsonView::Number(chat_id as int))).push(
            ("message_id"@, JsonView::Number(message_id as int)),
        ).push(("text"@, JsonView::Text(text))),
    )
}

/// The body that deletes a message.
pub open spec fn delete_body(chat_id: i64, message_id: i64) -> JsonView {
    JsonView::Object(
        Seq::empty().push(("chat_id"@, JsonView::Number(chat_id as int))).push(
            ("message_id"@, JsonView::Number(message_id as int)),
        ),
    )
}

/// The body that asks for the history of a chat.
pub open spec fn history_body(chat_id: i64, limit: u32) -> JsonView {
    JsonView::Object(
        Seq::empty().push(("chat_id"@, JsonView::Number(chat_id as int))).push(
            ("limit"@, JsonView::Number(limit as int)),
        ),
    )
}

/// The address of the Bot API method `method` for the bot with `token`.
pub fn api_url(token: &str, method: &str) -> (url: String)
    ensures
        url@ == api_url_of(token@, method@),
{
    let mut url = concat3("https://api.telegram.org/bot", token, "/");
    url.append(method);
    url
}

/// The address from which the file at `file_path` is downloaded.
pub fn file_url(token: &str, file_path: &str) -> (url: String)
    ensures
        url@ == file_url_of(token@, file_path@),
{
    let mut url = concat3("https://api.telegram.org/file/bot", token, "/");
    url.append(file_path);
    url
}

fn post(token: &str, method: &str, body: Json) -> (r: HttpRequest)
    ensures
        r@ == post_of(token@, method@, body@),
{
    HttpRequest::new(HttpMethod::Post, api_url(token, method)).json(body)
}

fn markdown_request(token: &str, chat_id: i64, text: &str, reply_to: Option<i64>) -> (r: HttpRequest)
    ensures
        r@ == post_of(token@, "sendMessage"@, markdown_body(chat_id, text@, reply_to)),
{
    let body = ObjectBuilder::new().number("chat_id", chat_id).text("text", text).text(
        "parse_mode",
        "Markdown",
    ).with("reply_to_message_id", json_opt_number(reply_to)).build();
    post(token, "sendMessage", body)
}

fn plain_request(token: &str, chat_id: i64, text: &str, reply_to: Option<i64>) -> (r: HttpRequest)
    ensures
        r@ == post_of(token@, "sendMessage"@, plain_body(chat_id, text@, reply_to)),
{
    let body = ObjectBuilder::new().number("chat_id", chat_id).text("text", text).with(
        "reply_to_message_id",
        json_opt_number(reply_to),
    ).build();
    post(token, "sendMessage", body)
}

/// What the polling of an adapter remembers.
pub struct PollStateView {
    /// The offset of the next poll: one past the last update seen.
    pub offset: i64,
    /// The chat of the last message of a person.
    pub last_chat: Option<i64>,
    /// When each message id was last let through.
    pub seen: Map<Seq<char>, i64>,
}

/// The offset that asks for what follows the update `update_id`.
pub open spec fn offset_past(update_id: i64) -> i64 {
    if update_id < i64::MAX {
        (update_id + 1) as i64
    } else {
        i64::MAX
    }
}

/// The text of a message: its text, else its caption, else nothing.
pub open spec fn content_of(message: TelegramMessageView) -> Seq<char> {
    match message.text {
        Some(t) => t,
        None => text_or_empty(message.caption),
    }
}

/// The normalized form of a message of a person; nothing for a message of a
/// bot or without a sender.
pub open spec fn inbound_of(message: TelegramMessageView) -> Option<IMMessageView> {
    match message.from {
        Some(sender) => if sender.is_bot {
            None
        } else {
            Some(
                IMMessageView {
                    id: decimal_text(message.message_id as int),
                    platform: "telegram"@,
                    channel_id: decimal_text(message.chat_id as int),
                    user_id: decimal_text(sender.id as int),
                    user_name: text_or_empty(sender.first_name),
                    content: content_of(message),
                    timestamp: message.date,
                    is_mention: false,
                },
            )
        },
        None => None,
    }
}

/// What one update does at `now`: the offset moves past it; a message of a
/// person becomes the last conversation and is let through unless its id
/// was let through less than `DEDUP_TTL_SECONDS` before.
pub open spec fn step_of(state: PollStateView, update: TelegramUpdateView, now: i64) -> (
    PollStateView,
    Option<IMMessageView>,
) {
    let offset = offset_past(update.update_id);
    match update.message {
        None => (PollStateView { offset, ..state }, None),
        Some(message) => match inbound_of(message) {
            None => (PollStateView { offset, ..state }, None),
            Some(inbound) => if seen_recently(state.seen, inbound.id, now, DEDUP_TTL_SECONDS) {
                (PollStateView { offset, last_chat: Some(message.chat_id), seen: state.seen }, None)
            } else {
                (
                    PollStateView {
                        offset,
                        last_chat: Some(message.chat_id),
                        seen: state.seen.insert(inbound.id, now),
                    },
                    Some(inbound),
                )
            },
        },
    }
}

/// What the updates of one poll do at `now`, taken in order: the state after
/// them and the messages let through.
pub open spec fn run_of(state: PollStateView, updates: Seq<TelegramUpdateView>, now: i64) -> (
    PollStateView,
    Seq<IMMessageView>,
)
    decreases updates.len(),
{
    if updates.len() == 0 {
        (state, Seq::empty())
    } else {
        let before = run_of(state, updates.drop_last(), now);
        let last = step_of(before.0, updates.last(), now);
        (
            last.0,
            match last.1 {
                Some(m) => before.1.push(m),
                None => before.1,
            },
        )
    }
}

/// The events that report `messages`.
pub open spec fn message_events(messages: Seq<IMMessageView>) -> Seq<GatewayEventView> {
    Seq::new(messages.len(), |i: int| GatewayEventView::Message(messages[i]))
}

/// A first delivery of a message of a person whose id was not seen of late
/// is let through. An update that was let through and is delivered a second
/// time less than `DEDUP_TTL_SECONDS` later is not let through again.
pub proof fn lemma_redelivery_is_dropped(state: PollStateView, update: TelegramUpdateView, first: i64, second: i64)
    requires
        first <= second,
        second - first < DEDUP_TTL_SECONDS,
    ensures
        step_of(state, update, first).1 is Some ==> step_of(
            step_of(state, update, first).0,
            update,
            second,
        ).1 is None,
        update.message is Some && inbound_of(update.message->0) is Some && !seen_recently(
            state.seen,
            inbound_of(update.message->0)->0.id,
            first,
            DEDUP_TTL_SECONDS,
        ) ==> step_of(state, update, first).1 == inbound_of(update.message->0),
{
}

/// Two deliveries of one update in one poll let at most one message through.
pub proof fn lemma_one_message_per_update(state: PollStateView, update: TelegramUpdateView, now: i64)
    ensures
        run_of(state, Seq::empty().push(update).push(update), now).1.len() <= 1,
        run_of(state, Seq::empty().push(update).push(update), now).1 == run_of(
            state,
            Seq::empty().push(update),
            now,
        ).1,
{
    let two = Seq::empty().push(update).push(update);
    let one = Seq::empty().push(update);
    assert(two.drop_last() =~= one);
    assert(one.drop_last() =~= Seq::<TelegramUpdateView>::empty());
    reveal_with_fuel(run_of, 3);
}

/// What a message of the history reads as where it has no text: the file id
/// of its picture, video, document or sound file, or a placeholder.
pub open spec fn history_content_of(message: TelegramMessageView) -> Seq<char> {
    match message.text {
        Some(t) => t,
        None => match message.photo {
            Some(sizes) => if sizes.len() > 0 {
                sizes.last().file_id
            } else {
                "[Photo]"@
            },
            None => match message.video {
                Some(v) => v.file_id,
                None => match message.document {
                    Some(d) => d.file_id,
                    None => match message.audio {
                        Some(a) => a.file_id,
                        None => "[Media]"@,
                    },
                },
            },
        },
    }
}

/// The normalized form of a message of the history of the chat `chat_id`.
pub open spec fn history_entry_of(chat_id: i64, message: TelegramMessageView) -> IMMessageView {
    IMMessageView {
        id: decimal_text(message.message_id as int),
        platform: "telegram"@,
        channel_id: decimal_text(chat_id as int),
        user_id: match message.from {
            Some(s) => decimal_text(s.id as int),
            None => Seq::empty(),
        },
        user_name: match message.from {
            Some(s) => match s.first_name {
                Some(n) => n,
                None => "Unknown"@,
            },
            None => "Unknown"@,
        },
        content: history_content_of(message),
        timestamp: message.date,
        is_mention: false,
    }
}

fn content_string(message: &TelegramMessage) -> (r: String)
    ensures
        r@ == content_of(message@),
{
    match &message.text {
        Some(t) => t.clone(),
        None => match &message.caption {
            Some(c) => c.clone(),
            None => String::new(),
        },
    }
}

fn inbound_message(message: &TelegramMessage) -> (r: Option<IMMessage>)
    ensures
        match r {
            Some(m) => inbound_of(message@) == Some(m@),
            None => inbound_of(message@) is None,
        },
{
    match &message.from {
        Some(sender) => {
            if sender.is_bot {
                None
            } else {
                let user_name = match &sender.first_name {
                    Some(n) => n.clone(),
                    None => String::new(),
                };
                Some(
                    IMMessage {
                        id: i64_to_string(message.message_id),
                        platform: "telegram".to_string(),
                        channel_id: i64_to_string(message.chat_id),
                        user_id: i64_to_string(sender.id),
                        user_name,
                        content: content_string(message),
                        timestamp: message.date,
                        is_mention: false,
                    },
                )
            }
        },
        None => None,
    }
}

fn history_entry(chat_id: i64, message: &TelegramMessage) -> (r: IMMessage)
    ensures
        r@ == history_entry_of(chat_id, message@),
{
    let content = match &message.text {
        Some(t) => t.clone(),
        None => match &message.photo {
            Some(sizes) => {
                if sizes.len() > 0 {
                    sizes[sizes.len() - 1].file_id.clone()
                } else {
                    "[Photo]".to_string()
                }
            },
            None => match &message.video {
                Some(v) => v.file_id.clone(),
                None => match &message.document {
                    Some(d) => d.file_id.clone(),
                    None => match &message.audio {
                        Some(a) => a.file_id.clone(),
                        None => "[Media]".to_string(),
                    },
                },
            },
        },
    };
    let user_id = match &message.from {
        Some(s) => i64_to_string(s.id),
        None => String::new(),
    };
    let user_name = match &message.from {
        Some(s) => match &s.first_name {
            Some(n) => n.clone(),
            None => "Unknown".to_string(),
        },
        None => "Unknown".to_string(),
    };
    IMMessage {
        id: i64_to_string(message.message_id),
        platform: "telegram".to_string(),
        channel_id: i64_to_string(chat_id),
        user_id,
        user_name,
        content,
        timestamp: message.date,
        is_mention: false,
    }
}

/// Reads the answer to a request for the history of the chat `chat_id`: an
/// answer that is not `ok` or lists nothing is an error.
pub fn history_from_reply(chat_id: i64, ok: bool, result: &Option<Vec<TelegramMessage>>) -> (r: Result<
    Vec<IMMessage>,
    String,
>)
    ensures
        match r {
            Ok(list) => ok && *result is Some && messages_view(list@) == Seq::new(
                result->0@.len(),
                |i: int| history_entry_of(chat_id, result->0@[i]@),
            ),
            Err(e) => (!ok || *result is None) && e@ == "Failed to get message history"@,
        },
{
    if !ok {
        return Err("Failed to get message history".to_string());
    }
    match result {
        None => Err("Failed to get message history".to_string()),
        Some(messages) => {
            let mut list: Vec<IMMessage> = Vec::new();
            let mut i: usize = 0;
            while i < messages.len()
                invariant
                    i <= messages.len(),
                    list.len() == i,
                    forall|j: int| 0 <= j < i ==> (#[trigger] list@[j])@ == history_entry_of(chat_id, messages@[j]@),
                decreases messages.len() - i,
            {
                list.push(history_entry(chat_id, &messages[i]));
                i += 1;
            }
            assert(messages_view(list@) =~= Seq::new(
                messages@.len(),
                |i: int| history_entry_of(chat_id, messages@[i]@),
            ));
            Ok(list)
        },
    }
}

/// Reads the answer to `getMe` and to `getFile`: an answer that is not `ok`
/// or names nothing is the error `failure`.
pub fn check_lookup_reply(ok: bool, has_result: bool, failure: &str) -> (r: Result<(), String>)
    ensures
        match r {
            Ok(_) => ok && has_result,
            Err(e) => !(ok && has_result) && e@ == failure@,
        },
{
    if ok && has_result {
        Ok(())
    } else {
        Err(failure.to_string())
    }
}

/// Reads the answer to an edit or a delete: any status but success is an
/// error that quotes the status behind `prefix`.
pub fn check_status_reply(success: bool, prefix: &str, status_line: &str) -> (r: Result<(), String>)
    ensures
        match r {
            Ok(_) => success,
            Err(e) => !success && e@ == prefix@ + status_line@,
        },
{
    if success {
        Ok(())
    } else {
        Err(concat2(prefix, status_line))
    }
}

/// What a send of `text` into the last conversation comes to: the text goes
/// out in pieces of at most `MAX_MESSAGE_LENGTH` characters.
pub open spec fn notification_of(
    status: GatewayStatusView,
    token: Seq<char>,
    last_chat: Option<i64>,
    text: Seq<char>,
) -> Result<OutboundView, Seq<char>> {
    if !status.connected {
        Err(not_connected_text())
    } else {
        match last_chat {
            None => Err("未找到聊天ID"@),
            Some(chat_id) => {
                let pieces = split_of(text, MAX_MESSAGE_LENGTH as int);
                Ok(
                    OutboundView::Deliver(
                        Seq::new(
                            pieces.len(),
                            |i: int| text_delivery_of(token, chat_id, pieces[i], None, SEND_ATTEMPTS),
                        ),
                    ),
                )
            },
        }
    }
}

/// What a send of `text` into `conversation_id` comes to.
pub open spec fn message_of(
    status: GatewayStatusView,
    token: Seq<char>,
    conversation_id: Seq<char>,
    text: Seq<char>,
) -> Result<OutboundView, Seq<char>> {
    if !status.connected {
        Err(not_connected_text())
    } else {
        match parsed_i64(conversation_id) {
            None => Err("无效的会话ID"@),
            Some(chat_id) => Ok(
                OutboundView::Deliver(seq![text_delivery_of(token, chat_id, text, None, SEND_ATTEMPTS)]),
            ),
        }
    }
}

/// What sending the file named `file_name`, whose extension is `ext`, into
/// `conversation_id` comes to: the kind of message goes by the extension,
/// and the file's name stands for the file and for its caption.
pub open spec fn media_of_file(
    status: GatewayStatusView,
    token: Seq<char>,
    conversation_id: Seq<char>,
    file_name: Seq<char>,
    ext: Seq<char>,
) -> Result<OutboundView, Seq<char>> {
    if !status.connected {
        Err(not_connected_text())
    } else {
        match parsed_i64(conversation_id) {
            None => Err("无效的会话ID"@),
            Some(chat_id) => match media_request_of(
                token,
                chat_id,
                media_type_of(lowercase(ext)),
                file_name,
                Some(file_name),
                None,
            ) {
                Ok(request) => Ok(OutboundView::Deliver(seq![once(request)])),
                Err(e) => Err(e),
            },
        }
    }
}

/// What an edit of the message `message_id` comes to.
pub open spec fn edit_of(
    status: GatewayStatusView,
    token: Seq<char>,
    conversation_id: Seq<char>,
    message_id: Seq<char>,
    text: Seq<char>,
) -> Result<OutboundView, Seq<char>> {
    if !status.connected {
        Err(not_connected_text())
    } else {
        match parsed_i64(conversation_id) {
            None => Err("无效的会话ID"@),
            Some(chat_id) => match parsed_i64(message_id) {
                None => Err("无效的消息ID"@),
                Some(id) => Ok(
                    OutboundView::Deliver(seq![once(post_of(token, "editMessageText"@, edit_body(chat_id, id, text)))]),
                ),
            },
        }
    }
}

/// What deleting the message `message_id` comes to.
pub open spec fn delete_of(
    status: GatewayStatusView,
    token: Seq<char>,
    conversation_id: Seq<char>,
    message_id: Seq<char>,
) -> Result<OutboundView, Seq<char>> {
    if !status.connected {
        Err(not_connected_text())
    } else {
        match parsed_i64(conversation_id) {
            None => Err("无效的会话ID"@),
            Some(chat_id) => match parsed_i64(message_id) {
                None => Err("无效的消息ID"@),
                Some(id) => Ok(
                    OutboundView::Deliver(seq![once(post_of(token, "deleteMessage"@, delete_body(chat_id, id)))]),
                ),
            },
        }
    }
}

/// What asking for the history of `conversation_id` comes to.
pub open spec fn history_of(
    status: GatewayStatusView,
    token: Seq<char>,
    conversation_id: Seq<char>,
    limit: u32,
) -> Result<OutboundView, Seq<char>> {
    if !status.connected {
        Err(not_connected_text())
    } else {
        match parsed_i64(conversation_id) {
            None => Err("无效的会话ID"@),
            Some(chat_id) => Ok(
                OutboundView::Deliver(seq![once(post_of(token, "getChatHistory"@, history_body(chat_id, limit)))]),
            ),
        }
    }
}

/// The Telegram adapter.
pub struct TelegramGateway {
    config: TelegramConfig,
    status: GatewayStatus,
    offset: i64,
    last_chat_id: Option<i64>,
    deduplication_cache: MessageDeduplicationCache,
}

impl TelegramGateway {
    /// The configuration.
    pub closed spec fn config(&self) -> TelegramConfigView {
        self.config@
    }

    /// What the polling remembers.
    pub closed spec fn poll_state(&self) -> PollStateView {
        PollStateView { offset: self.offset, last_chat: self.last_chat_id, seen: self.deduplication_cache@ }
    }

    /// An adapter that was never started.
    pub fn new(config: TelegramConfig) -> (g: TelegramGateway)
        ensures
            g.config() == config@,
            g.status() == GatewayStatusView::initial(),
            g.poll_state() == (PollStateView { offset: 0, last_chat: None, seen: Map::empty() }),
    {
        TelegramGateway {
            config,
            status: GatewayStatus::default(),
            offset: 0,
            last_chat_id: None,
            deduplication_cache: MessageDeduplicationCache::new(),
        }
    }

    /// Replaces the configuration.
    pub fn set_config(&mut self, config: TelegramConfig)
        ensures
            final(self).config() == config@,
            final(self).status() == old(self).status(),
            final(self).poll_state() == old(self).poll_state(),
    {
        self.config = config;
    }

    /// A copy of the configuration.
    pub fn get_config(&self) -> (c: TelegramConfig)
        ensures
            c@ == self.config(),
    {
        self.config.clone()
    }

    /// The address of the Bot API method `method`.
    pub fn get_api_url(&self, method: &str) -> (url: String)
        ensures
            url@ == api_url_of(self.config().bot_token, method@),
    {
        api_url(self.config.bot_token.as_str(), method)
    }

    /// The request that asks the platform who the bot is.
    pub fn get_me(&self) -> (r: HttpRequest)
        ensures
            r@ == get_of(self.config().bot_token, "getMe"@, Seq::empty()),
    {
        HttpRequest::new(HttpMethod::Get, self.get_api_url("getMe"))
    }

    /// The request that asks where the file `file_id` can be downloaded.
    pub fn get_file(&self, file_id: &str) -> (r: HttpRequest)
        ensures
            r@ == get_of(self.config().bot_token, "getFile"@, Seq::empty().push(("file_id"@, file_id@))),
    {
        HttpRequest::new(HttpMethod::Get, self.get_api_url("getFile")).param("file_id", file_id)
    }

    /// The request that downloads the file at `file_path`.
    pub fn download_file(&self, file_path: &str) -> (r: HttpRequest)
        ensures
            r@ == (HttpRequestView {
                method: HttpMethod::Get,
                url: file_url_of(self.config().bot_token, file_path@),
                query: Seq::empty(),
                headers: Seq::empty(),
                body: HttpBodyView::Empty,
            }),
    {
        HttpRequest::new(HttpMethod::Get, file_url(self.config.bot_token.as_str(), file_path))
    }

    /// The next poll: it asks for the updates past the last one seen.
    pub fn poll_request(&self) -> (r: HttpRequest)
        ensures
            r@ == get_of(self.config().bot_token, "getUpdates"@, poll_query_of(self.poll_state().offset)),
    {
        let offset = i64_to_string(self.offset);
        HttpRequest::new(HttpMethod::Get, self.get_api_url("getUpdates")).param("offset", offset.as_str()).param(
            "timeout",
            "30",
        ).param("allowed_updates", "message,edited_message")
    }

    /// How `text` goes out to `chat_id`: as Markdown up to `max_retries`
    /// times, then as plain text.
    pub fn send_message_with_retry(&self, chat_id: i64, text: &str, reply_to_message_id: Option<i64>, max_retries: u32) -> (d:
        Delivery)
        ensures
            d@ == text_delivery_of(self.config().bot_token, chat_id, text@, reply_to_message_id, max_retries),
    {
        let token = self.config.bot_token.as_str();
        Delivery {
            request: markdown_request(token, chat_id, text, reply_to_message_id),
            attempts: max_retries,
            retry_delay_ms: RETRY_DELAY_MS,
            fallback: Some(plain_request(token, chat_id, text, reply_to_message_id)),
        }
    }

    /// How `text` goes out to `chat_id`.
    pub fn send_text_message(&self, chat_id: i64, text: &str, reply_to_message_id: Option<i64>) -> (d: Delivery)
        ensures
            d@ == text_delivery_of(self.config().bot_token, chat_id, text@, reply_to_message_id, SEND_ATTEMPTS),
    {
        self.send_message_with_retry(chat_id, text, reply_to_message_id, SEND_ATTEMPTS)
    }

    /// The request that sends the file `file_id` as `media_type`; a kind
    /// that the platform does not know is an error.
    pub fn send_media(
        &self,
        chat_id: i64,
        media_type: &str,
        file_id: &str,
        caption: Option<&str>,
        reply_to_message_id: Option<i64>,
    ) -> (r: Result<HttpRequest, String>)
        ensures
            match r {
                Ok(request) => media_request_of(
                    self.config().bot_token,
                    chat_id,
                    media_type@,
                    file_id@,
                    opt_str_text(caption),
                    reply_to_message_id,
                ) == Ok::<HttpRequestView, Seq<char>>(request@),
                Err(e) => media_request_of(
                    self.config().bot_token,
                    chat_id,
                    media_type@,
                    file_id@,
                    opt_str_text(caption),
                    reply_to_message_id,
                ) == Err::<HttpRequestView, Seq<char>>(e@),
            },
    {
        match media_method(media_type) {
            None => Err(concat2("Unknown media type: ", media_type)),
            Some(method) => {
                let base = ObjectBuilder::new().number("chat_id", chat_id).text(media_type, file_id);
                let captioned = match caption {
                    Some(c) => base.text("caption", c).text("parse_mode", "Markdown"),
                    None => base,
                };
                let body = match reply_to_message_id {
                    Some(r) => captioned.number("reply_to_message_id", r).build(),
                    None => captioned.build(),
                };
                Ok(post(self.config.bot_token.as_str(), method, body))
            },
        }
    }

    /// Takes the updates of one poll at `now`, in seconds. The offset moves
    /// past every update. A message of a person becomes the last
    /// conversation and is reported, unless its id was reported less than
    /// `DEDUP_TTL_SECONDS` before.
    pub fn handle_updates(&mut self, updates: &Vec<TelegramUpdate>, now: i64) -> (events: Vec<GatewayEvent>)
        ensures
            final(self).poll_state() == run_of(old(self).poll_state(), updates_view(updates@), now).0,
            events_view(events@) == message_events(
                run_of(old(self).poll_state(), updates_view(updates@), now).1,
            ),
            final(self).config() == old(self).config(),
            final(self).status() == old(self).status(),
    {
        let mut events: Vec<GatewayEvent> = Vec::new();
        let ghost start = self.poll_state();
        let ghost all = updates_view(updates@);
        let ghost mut let_through: Seq<IMMessageView> = Seq::empty();
        let mut i: usize = 0;
        assert(all.take(0) =~= Seq::<TelegramUpdateView>::empty());
        assert(events_view(events@) =~= message_events(let_through));
        while i < updates.len()
            invariant
                i <= updates.len(),
                all == updates_view(updates@),
                run_of(start, all.take(i as int), now) == (self.poll_state(), let_through),
                events_view(events@) == message_events(let_through),
                self.config() == old(self).config(),
                self.status() == old(self).status(),
            decreases updates.len() - i,
        {
            let update = &updates[i];
            proof {
                assert(all.take(i + 1).drop_last() =~= all.take(i as int));
                assert(all.take(i + 1).last() == update@);
            }
            let ghost before = self.poll_state();
            self.offset = if update.update_id < i64::MAX {
                update.update_id + 1
            } else {
                i64::MAX
            };
            match &update.message {
                None => {},
                Some(message) => {
                    match inbound_message(message) {
                        None => {},
                        Some(inbound) => {
                            self.last_chat_id = Some(message.chat_id);
                            let duplicate = self.deduplication_cache.check_and_mark(
                                inbound.id.as_str(),
                                now,
                                DEDUP_TTL_SECONDS,
                            );
                            if !duplicate {
                                let ghost shown = events_view(events@);
                                let ghost passed = let_through;
                                let ghost message = inbound@;
                                proof {
                                    let_through = let_through.push(message);
                                }
                                events.push(GatewayEvent::Message(inbound));
                                assert(events_view(events@) =~= shown.push(GatewayEventView::Message(message)));
                                assert(message_events(passed).push(GatewayEventView::Message(message))
                                    =~= message_events(let_through));
                            }
                        },
                    }
                },
            }
            assert(step_of(before, update@, now) == (self.poll_state(), step_of(before, update@, now).1));
            i += 1;
        }
        assert(all.take(updates.len() as int) =~= all);
        events
    }

    /// Drops what the polling remembers of messages that were let through
    /// `SWEEP_TTL_SECONDS` ago or earlier.
    pub fn sweep(&mut self, now: i64)
        ensures
            final(self).poll_state() == (PollStateView {
                seen: crate::im::gateway::swept(old(self).poll_state().seen, now),
                ..old(self).poll_state()
            }),
            final(self).config() == old(self).config(),
            final(self).status() == old(self).status(),
    {
        self.deduplication_cache.cleanup(now);
    }

    /// Ends the start with the outcome of the identity check. A failure is
    /// recorded and returned; a success connects the adapter at `now_ms`
    /// and asks for polling to begin.
    pub fn finish_start(&mut self, identity: Result<(), String>, now_ms: i64) -> (report: StartReport)
        ensures
            final(self).config() == old(self).config(),
            final(self).poll_state() == old(self).poll_state(),
            match identity {
                Ok(_) => final(self).status() == old(self).status().connected(now_ms) && report@ == (
                StartReportView {
                    result: Ok(NextStepView::Poll),
                    events: seq![
                        GatewayEventView::StatusChanged(final(self).status()),
                        GatewayEventView::Connected,
                    ],
                }),
                Err(e) => final(self).status() == old(self).status().failed("验证 bot token 失败: "@ + e@)
                    && report@ == (StartReportView {
                    result: Err(e@),
                    events: seq![
                        GatewayEventView::Error("验证 bot token 失败: "@ + e@),
                        GatewayEventView::StatusChanged(final(self).status()),
                    ],
                }),
            },
    {
        match identity {
            Ok(_) => {
                let events = self.status.complete_start(now_ms);
                StartReport { result: Ok(NextStep::Poll), events }
            },
            Err(e) => {
                let message = concat2("验证 bot token 失败: ", e.as_str());
                let events = self.status.fail_start(message.as_str());
                StartReport { result: Err(e), events }
            },
        }
    }

    /// What has to go out to send the file named `file_name`, whose
    /// extension is `ext`, into `conversation_id`.
    pub fn media_message(&self, conversation_id: &str, file_name: &str, ext: &str) -> (r: Result<Outbound, String>)
        ensures
            outbound_view(r) == media_of_file(
                self.status(),
                self.config().bot_token,
                conversation_id@,
                file_name@,
                ext@,
            ),
    {
        if !self.status.connected {
            return Err(not_connected());
        }
        match parse_i64(conversation_id) {
            None => Err("无效的会话ID".to_string()),
            Some(chat_id) => {
                let lower = to_lowercase(ext);
                let media_type = media_type_for(lower.as_str());
                match self.send_media(chat_id, media_type, file_name, Some(file_name), None) {
                    Ok(request) => Ok(deliver_one(request)),
                    Err(e) => Err(e),
                }
            },
        }
    }
}

fn deliver_text(d: Delivery) -> (o: Outbound)
    ensures
        o@ == OutboundView::Deliver(seq![d@]),
{
    let mut list: Vec<Delivery> = Vec::new();
    list.push(d);
    assert(deliveries_view(list@) =~= seq![d@]);
    Outbound::Deliver(list)
}

impl Gateway for TelegramGateway {
    closed spec fn status(&self) -> GatewayStatusView {
        self.status@
    }

    open spec fn enabled(&self) -> bool {
        self.config().enabled
    }

    open spec fn missing_credentials(&self) -> Option<Seq<char>> {
        if self.config().bot_token.len() == 0 {
            Some("缺少必要的配置: bot_token"@)
        } else {
            None
        }
    }

    open spec fn reconnect_barred(&self) -> bool {
        true
    }

    open spec fn capabilities_spec(&self) -> Capabilities {
        Capabilities { media: true, edit: true, delete: true, history: true }
    }

    open spec fn notification_plan(&self, text: Seq<char>, now: i64) -> Result<OutboundView, Seq<char>> {
        notification_of(self.status(), self.config().bot_token, self.poll_state().last_chat, text)
    }

    open spec fn message_plan(&self, conversation_id: Seq<char>, text: Seq<char>, now: i64) -> Result<
        OutboundView,
        Seq<char>,
    > {
        message_of(self.status(), self.config().bot_token, conversation_id, text)
    }

    open spec fn media_plan(
        &self,
        conversation_id: Seq<char>,
        file_path: Seq<char>,
        file_name: Seq<char>,
        ext: Seq<char>,
        now: i64,
    ) -> Result<OutboundView, Seq<char>> {
        media_of_file(self.status(), self.config().bot_token, conversation_id, file_name, ext)
    }

    open spec fn edit_plan(&self, conversation_id: Seq<char>, message_id: Seq<char>, new_text: Seq<char>) -> Result<
        OutboundView,
        Seq<char>,
    > {
        edit_of(self.status(), self.config().bot_token, conversation_id, message_id, new_text)
    }

    open spec fn delete_plan(&self, conversation_id: Seq<char>, message_id: Seq<char>) -> Result<
        OutboundView,
        Seq<char>,
    > {
        delete_of(self.status(), self.config().bot_token, conversation_id, message_id)
    }

    open spec fn history_plan(&self, conversation_id: Seq<char>, limit: u32) -> Result<OutboundView, Seq<char>> {
        history_of(self.status(), self.config().bot_token, conversation_id, limit)
    }

    fn capabilities(&self) -> (c: Capabilities) {
        Capabilities { media: true, edit: true, delete: true, history: true }
    }

    fn is_connected(&self) -> (connected: bool) {
        self.status.connected
    }

    fn get_status(&self) -> (status: GatewayStatus) {
        self.status.clone()
    }

    fn start(&mut self, now: i64) -> (report: StartReport)
        ensures
            final(self).config() == old(self).config(),
            final(self).poll_state() == old(self).poll_state(),
            start_gate(old(self).status(), old(self).enabled(), old(self).missing_credentials())
                == StartGate::Open ==> report@.result == Ok::<NextStepView, Seq<char>>(
                NextStepView::Request(get_of(old(self).config().bot_token, "getMe"@, Seq::empty())),
            ),
    {
        let missing = if self.config.bot_token.as_str().is_empty() {
            Some("缺少必要的配置: bot_token")
        } else {
            None
        };
        let (gate, events) = self.status.begin_start(self.config.enabled, missing);
        match gate {
            StartGate::Skip => StartReport { result: Ok(NextStep::Nothing), events },
            StartGate::Rejected => StartReport { result: Err("缺少必要的配置: bot_token".to_string()), events },
            StartGate::Open => StartReport { result: Ok(NextStep::Request(self.get_me())), events },
        }
    }

    fn stop(&mut self) -> (events: Vec<GatewayEvent>)
        ensures
            final(self).config() == old(self).config(),
            final(self).poll_state() == old(self).poll_state(),
    {
        self.status.stop()
    }

    fn reconnect_if_needed(&mut self, now: i64) -> (report: StartReport)
        ensures
            final(self).config() == old(self).config(),
            final(self).poll_state() == old(self).poll_state(),
    {
        report_skip()
    }

    fn send_notification(&self, text: &str, now: i64) -> (r: Result<Outbound, String>)
        ensures
            outbound_view(r) == notification_of(
                self.status(),
                self.config().bot_token,
                self.poll_state().last_chat,
                text@,
            ),
    {
        if !self.status.connected {
            return Err(not_connected());
        }
        match self.last_chat_id {
            None => Err("未找到聊天ID".to_string()),
            Some(chat_id) => {
                let chunks = split_message(text, MAX_MESSAGE_LENGTH);
                let ghost pieces = split_of(text@, MAX_MESSAGE_LENGTH as int);
                let mut list: Vec<Delivery> = Vec::new();
                let mut i: usize = 0;
                while i < chunks.len()
                    invariant
                        i <= chunks.len(),
                        list.len() == i,
                        texts_view(chunks@) == pieces,
                        forall|j: int|
                            0 <= j < i ==> (#[trigger] list@[j])@ == text_delivery_of(
                                self.config().bot_token,
                                chat_id,
                                pieces[j],
                                None,
                                SEND_ATTEMPTS,
                            ),
                    decreases chunks.len() - i,
                {
                    assert(texts_view(chunks@)[i as int] == chunks@[i as int]@);
                    list.push(self.send_text_message(chat_id, chunks[i].as_str(), None));
                    i += 1;
                }
                assert(texts_view(chunks@).len() == chunks@.len());
                assert(deliveries_view(list@) =~= Seq::new(
                    pieces.len(),
                    |i: int| text_delivery_of(self.config().bot_token, chat_id, pieces[i], None, SEND_ATTEMPTS),
                ));
                Ok(Outbound::Deliver(list))
            },
        }
    }

    fn send_message(&self, conversation_id: &str, text: &str, now: i64) -> (r: Result<Outbound, String>)
        ensures
            outbound_view(r) == message_of(self.status(), self.config().bot_token, conversation_id@, text@),
    {
        if !self.status.connected {
            return Err(not_connected());
        }
        match parse_i64(conversation_id) {
            None => Err("无效的会话ID".to_string()),
            Some(chat_id) => Ok(deliver_text(self.send_text_message(chat_id, text, None))),
        }
    }

    fn send_media_message(&self, conversation_id: &str, file_path: &str, now: i64) -> (r: Result<
        Outbound,
        String,
    >)
        ensures
            !self.status().connected ==> outbound_view(r) == Err::<OutboundView, Seq<char>>(
                not_connected_text(),
            ),
            self.status().connected && parsed_i64(conversation_id@) is None ==> outbound_view(r) == Err::<
                OutboundView,
                Seq<char>,
            >("无效的会话ID"@),
            self.status().connected && parsed_i64(conversation_id@) is Some ==> r is Ok,
    {
        let ext = path_extension(file_path);
        let name = match path_file_name(file_path) {
            Some(n) => n,
            None => "file".to_string(),
        };
        let r = self.media_message(conversation_id, name.as_str(), ext.as_str());
        assert(outbound_view(r) == self.media_plan(conversation_id@, file_path@, name@, ext@, now));
        r
    }

    fn edit_message(&self, conversation_id: &str, message_id: &str, new_text: &str) -> (r: Result<
        Outbound,
        String,
    >)
        ensures
            outbound_view(r) == edit_of(
                self.status(),
                self.config().bot_token,
                conversation_id@,
                message_id@,
                new_text@,
            ),
    {
        if !self.status.connected {
            return Err(not_connected());
        }
        match parse_i64(conversation_id) {
            None => Err("无效的会话ID".to_string()),
            Some(chat_id) => match parse_i64(message_id) {
                None => Err("无效的消息ID".to_string()),
                Some(id) => {
                    let body = ObjectBuilder::new().number("chat_id", chat_id).number("message_id", id).text(
                        "text",
                        new_text,
                    ).build();
                    Ok(deliver_one(post(self.config.bot_token.as_str(), "editMessageText", body)))
                },
            },
        }
    }

    fn delete_message(&self, conversation_id: &str, message_id: &str) -> (r: Result<Outbound, String>)
        ensures
            outbound_view(r) == delete_of(self.status(), self.config().bot_token, conversation_id@, message_id@),
    {
        if !self.status.connected {
            return Err(not_connected());
        }
        match parse_i64(conversation_id) {
            None => Err("无效的会话ID".to_string()),
            Some(chat_id) => match parse_i64(message_id) {
                None => Err("无效的消息ID".to_string()),
                Some(id) => {
                    let body = ObjectBuilder::new().number("chat_id", chat_id).number("message_id", id).build();
                    Ok(deliver_one(post(self.config.bot_token.as_str(), "deleteMessage", body)))
                },
            },
        }
    }

    fn get_message_history(&self, conversation_id: &str, limit: u32) -> (r: Result<Outbound, String>)
        ensures
            outbound_view(r) == history_of(self.status(), self.config().bot_token, conversation_id@, limit),
    {
        if !self.status.connected {
            return Err(not_connected());
        }
        match parse_i64(conversation_id) {
            None => Err("无效的会话ID".to_string()),
            Some(chat_id) => {
                let body = ObjectBuilder::new().number("chat_id", chat_id).number("limit", limit as i64).build();
                Ok(deliver_one(post(self.config.bot_token.as_str(), "getChatHistory", body)))
            },
        }
    }

    fn record_outbound(&mut self, now_ms: i64)
        ensures
            final(self).config() == old(self).config(),
            final(self).poll_state() == old(self).poll_state(),
    {
        self.status.touch_outbound(now_ms);
    }
}

} // verus!
