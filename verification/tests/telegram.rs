use ggai::im::gateway::{Gateway, GatewayEvent, NextStep, Outbound};
use ggai::im::http::{HttpBody, HttpMethod, Json};
use ggai::im::telegram::{
    api_url, check_lookup_reply, check_status_reply, extract_media_from_message, file_url,
    history_from_reply, media_method, media_type_for, retry_step, split_message, RetryStep,
    TelegramConfig, TelegramFile, TelegramGateway, TelegramMessage, TelegramSender, TelegramUpdate,
};

fn show(j: &Json) -> String {
    match j {
        Json::Null => "null".to_string(),
        Json::Bool(b) => format!("{}", b),
        Json::Number(n) => format!("{}", n),
        Json::Text(s) => format!("{:?}", s),
        Json::Encoded(inner) => format!("enc({})", show(inner)),
        Json::List(items) => {
            let parts: Vec<String> = items.iter().map(show).collect();
            format!("[{}]", parts.join(","))
        }
        Json::Object(members) => {
            let parts: Vec<String> =
                members.iter().map(|(k, v)| format!("{:?}:{}", k, show(v))).collect();
            format!("{{{}}}", parts.join(","))
        }
    }
}

fn body(b: &HttpBody) -> String {
    match b {
        HttpBody::Json(j) => show(j),
        HttpBody::Empty => "empty".to_string(),
        HttpBody::Multipart(_) => "multipart".to_string(),
    }
}

fn gateway() -> TelegramGateway {
    TelegramGateway::new(TelegramConfig {
        enabled: true,
        bot_token: "TOKEN".to_string(),
        debug: None,
        media_download_path: None,
    })
}

fn connected() -> TelegramGateway {
    let mut g = gateway();
    g.start(0);
    g.finish_start(Ok(()), 1);
    g
}

fn file(id: &str) -> TelegramFile {
    TelegramFile {
        file_id: id.to_string(),
        name: Some("name".to_string()),
        mime_type: Some("mime/type".to_string()),
        width: Some(1),
        height: Some(2),
        duration: Some(3),
        file_size: Some(4),
    }
}

fn message(id: i64, text: Option<&str>, is_bot: bool) -> TelegramMessage {
    TelegramMessage {
        message_id: id,
        chat_id: -100,
        from: Some(TelegramSender { id: 7, is_bot, first_name: Some("Ann".to_string()) }),
        text: text.map(|t| t.to_string()),
        caption: None,
        date: 1700000000,
        photo: None,
        video: None,
        audio: None,
        voice: None,
        document: None,
        sticker: None,
    }
}

fn update(update_id: i64, m: Option<TelegramMessage>) -> TelegramUpdate {
    TelegramUpdate { update_id, message: m }
}

#[test]
fn start_verifies_identity_then_polls() {
    let mut g = gateway();
    let report = g.start(0);
    match report.result {
        Ok(NextStep::Request(r)) => {
            assert_eq!(r.method, HttpMethod::Get);
            assert_eq!(r.url, "https://api.telegram.org/botTOKEN/getMe");
        }
        _ => panic!(),
    }
    let done = g.finish_start(Ok(()), 9);
    assert!(matches!(done.result, Ok(NextStep::Poll)));
    assert!(g.is_connected());
}

#[test]
fn failed_identity_check_records_the_error() {
    let mut g = gateway();
    g.start(0);
    let done = g.finish_start(Err("Failed to get bot info".to_string()), 9);
    assert_eq!(done.result.unwrap_err(), "Failed to get bot info");
    let s = g.get_status();
    assert!(!s.starting && !s.connected);
    assert_eq!(s.error, Some("验证 bot token 失败: Failed to get bot info".to_string()));
    assert!(matches!(&done.events[0], GatewayEvent::Error(e) if e == "验证 bot token 失败: Failed to get bot info"));
}

#[test]
fn same_update_twice_within_ttl_gives_one_message() {
    let mut g = connected();
    let first = g.handle_updates(&vec![update(10, Some(message(5, Some("hi"), false)))], 1000);
    let second = g.handle_updates(&vec![update(10, Some(message(5, Some("hi"), false)))], 1030);
    assert_eq!(first.len(), 1);
    assert_eq!(second.len(), 0);
    match &first[0] {
        GatewayEvent::Message(m) => {
            assert_eq!(m.id, "5");
            assert_eq!(m.platform, "telegram");
            assert_eq!(m.channel_id, "-100");
            assert_eq!(m.user_id, "7");
            assert_eq!(m.user_name, "Ann");
            assert_eq!(m.content, "hi");
            assert_eq!(m.timestamp, 1700000000);
            assert!(!m.is_mention);
        }
        _ => panic!(),
    }
}

#[test]
fn same_update_twice_in_one_poll_gives_one_message() {
    let mut g = connected();
    let events = g.handle_updates(
        &vec![update(10, Some(message(5, Some("hi"), false))), update(10, Some(message(5, Some("hi"), false)))],
        1000,
    );
    assert_eq!(events.len(), 1);
}

#[test]
fn sweep_forgets_old_messages() {
    let mut g = connected();
    assert_eq!(g.handle_updates(&vec![update(1, Some(message(5, Some("hi"), false)))], 1000).len(), 1);
    assert!(g.handle_updates(&vec![update(1, Some(message(5, Some("hi"), false)))], 1001).is_empty());
    g.sweep(1299);
    assert!(g.handle_updates(&vec![update(1, Some(message(5, Some("hi"), false)))], 1001).is_empty());
    g.sweep(1300);
    assert_eq!(g.handle_updates(&vec![update(1, Some(message(5, Some("hi"), false)))], 1001).len(), 1);
}

#[test]
fn update_after_ttl_is_let_through_again() {
    let mut g = connected();
    assert_eq!(g.handle_updates(&vec![update(10, Some(message(5, Some("hi"), false)))], 1000).len(), 1);
    assert_eq!(g.handle_updates(&vec![update(10, Some(message(5, Some("hi"), false)))], 1061).len(), 1);
}

#[test]
fn offset_moves_past_every_update_and_bots_are_skipped() {
    let mut g = connected();
    let events = g.handle_updates(
        &vec![
            update(3, None),
            update(4, Some(message(1, Some("bot"), true))),
            update(9, Some(TelegramMessage { from: None, ..message(2, Some("nobody"), false) })),
        ],
        50,
    );
    assert!(events.is_empty());
    let poll = g.poll_request();
    assert_eq!(poll.url, "https://api.telegram.org/botTOKEN/getUpdates");
    assert_eq!(
        poll.query,
        vec![
            ("offset".to_string(), "10".to_string()),
            ("timeout".to_string(), "30".to_string()),
            ("allowed_updates".to_string(), "message,edited_message".to_string()),
        ]
    );
    // Nobody wrote, so there is no conversation to notify.
    assert_eq!(g.send_notification("x", 0).unwrap_err(), "未找到聊天ID");
    g.handle_updates(&vec![update(i64::MAX, None)], 50);
    assert_eq!(g.poll_request().query[0].1, i64::MAX.to_string());
}

#[test]
fn first_poll_starts_at_zero_and_caption_stands_for_text() {
    let mut g = connected();
    assert_eq!(g.poll_request().query[0].1, "0");
    let mut m = message(-8, None, false);
    m.caption = Some("cap".to_string());
    let events = g.handle_updates(&vec![update(1, Some(m))], 0);
    assert!(matches!(&events[0], GatewayEvent::Message(m) if m.content == "cap" && m.id == "-8"));
    let mut m = message(9, None, false);
    m.from = Some(TelegramSender { id: i64::MIN, is_bot: false, first_name: None });
    let events = g.handle_updates(&vec![update(2, Some(m))], 0);
    assert!(matches!(&events[0], GatewayEvent::Message(m)
        if m.content.is_empty() && m.user_name.is_empty() && m.user_id == "-9223372036854775808"));
}

#[test]
fn notification_goes_to_the_last_chat_in_pieces() {
    let mut g = connected();
    g.handle_updates(&vec![update(1, Some(message(5, Some("hi"), false)))], 0);
    let long = format!("{}\n{}", "a".repeat(3000), "b".repeat(3000));
    match g.send_notification(&long, 0).unwrap() {
        Outbound::Deliver(list) => {
            assert_eq!(list.len(), 2);
            assert_eq!(list[0].attempts, 3);
            assert_eq!(list[0].retry_delay_ms, 2000);
            assert_eq!(
                body(&list[0].request.body),
                format!(
                    "{{\"chat_id\":-100,\"text\":\"{}\",\"parse_mode\":\"Markdown\",\"reply_to_message_id\":null}}",
                    "a".repeat(3000)
                )
            );
            assert_eq!(
                body(&list[1].fallback.as_ref().unwrap().body),
                format!("{{\"chat_id\":-100,\"text\":\"{}\",\"reply_to_message_id\":null}}", "b".repeat(3000))
            );
            assert_eq!(list[0].request.url, "https://api.telegram.org/botTOKEN/sendMessage");
        }
        _ => panic!(),
    }
}

#[test]
fn send_message_checks_connection_and_chat_id() {
    let g = gateway();
    assert_eq!(g.send_message("1", "x", 0).unwrap_err(), "网关未连接");
    let g = connected();
    assert_eq!(g.send_message("abc", "x", 0).unwrap_err(), "无效的会话ID");
    assert_eq!(g.send_message("", "x", 0).unwrap_err(), "无效的会话ID");
    match g.send_message("-42", "x", 0).unwrap() {
        Outbound::Deliver(list) => {
            assert_eq!(list.len(), 1);
            assert!(body(&list[0].request.body).starts_with("{\"chat_id\":-42,"));
        }
        _ => panic!(),
    }
    let d = g.send_message_with_retry(1, "t", Some(9), 5);
    assert_eq!(d.attempts, 5);
    assert_eq!(
        body(&d.request.body),
        "{\"chat_id\":1,\"text\":\"t\",\"parse_mode\":\"Markdown\",\"reply_to_message_id\":9}"
    );
}

#[test]
fn edit_delete_and_history_requests() {
    let g = connected();
    assert_eq!(g.edit_message("1", "x", "t").unwrap_err(), "无效的消息ID");
    assert_eq!(g.edit_message("x", "1", "t").unwrap_err(), "无效的会话ID");
    assert_eq!(g.delete_message("1", "").unwrap_err(), "无效的消息ID");
    assert_eq!(g.get_message_history("q", 5).unwrap_err(), "无效的会话ID");
    assert_eq!(gateway().edit_message("1", "1", "t").unwrap_err(), "网关未连接");
    match g.edit_message("1", "2", "new").unwrap() {
        Outbound::Deliver(list) => {
            assert_eq!(list[0].request.url, "https://api.telegram.org/botTOKEN/editMessageText");
            assert_eq!(body(&list[0].request.body), "{\"chat_id\":1,\"message_id\":2,\"text\":\"new\"}");
        }
        _ => panic!(),
    }
    match g.delete_message("1", "2").unwrap() {
        Outbound::Deliver(list) => {
            assert_eq!(list[0].request.url, "https://api.telegram.org/botTOKEN/deleteMessage");
            assert_eq!(body(&list[0].request.body), "{\"chat_id\":1,\"message_id\":2}");
        }
        _ => panic!(),
    }
    match g.get_message_history("1", 50).unwrap() {
        Outbound::Deliver(list) => {
            assert_eq!(list[0].request.url, "https://api.telegram.org/botTOKEN/getChatHistory");
            assert_eq!(body(&list[0].request.body), "{\"chat_id\":1,\"limit\":50}");
        }
        _ => panic!(),
    }
}

#[test]
fn media_goes_by_extension() {
    let g = connected();
    match g.send_media_message("5", "/tmp/Pic.JPG", 0).unwrap() {
        Outbound::Deliver(list) => {
            assert_eq!(list[0].request.url, "https://api.telegram.org/botTOKEN/sendPhoto");
            assert_eq!(
                body(&list[0].request.body),
                "{\"chat_id\":5,\"photo\":\"Pic.JPG\",\"caption\":\"Pic.JPG\",\"parse_mode\":\"Markdown\"}"
            );
        }
        _ => panic!(),
    }
    match g.media_message("5", "a.bin", "bin").unwrap() {
        Outbound::Deliver(list) => {
            assert_eq!(list[0].request.url, "https://api.telegram.org/botTOKEN/sendDocument")
        }
        _ => panic!(),
    }
    assert_eq!(g.send_media_message("x", "/a.png", 0).unwrap_err(), "无效的会话ID");
    assert_eq!(gateway().send_media_message("1", "/a.png", 0).unwrap_err(), "网关未连接");
    assert_eq!(media_type_for("jpg"), "photo");
    assert_eq!(media_type_for("webm"), "video");
    assert_eq!(media_type_for("m4a"), "audio");
    assert_eq!(media_type_for(""), "document");
    assert_eq!(media_type_for("JPG"), "document");
    assert_eq!(media_method("voice"), Some("sendVoice"));
    assert_eq!(media_method("sticker"), Some("sendSticker"));
    assert_eq!(media_method("gif"), None);
    assert_eq!(g.send_media(1, "gif", "f", None, None).unwrap_err(), "Unknown media type: gif");
    let r = g.send_media(1, "video", "f", None, Some(3)).unwrap();
    assert_eq!(body(&r.body), "{\"chat_id\":1,\"video\":\"f\",\"reply_to_message_id\":3}");
}

#[test]
fn split_message_prefers_line_breaks_then_spaces() {
    assert_eq!(split_message("", 5), Vec::<String>::new());
    assert_eq!(split_message("abc", 5), vec!["abc"]);
    assert_eq!(split_message("abcde", 5), vec!["abcde"]);
    assert_eq!(split_message("ab\ncd ef", 5), vec!["ab", "cd ef"]);
    assert_eq!(split_message("ab cd\nef", 5), vec!["ab", "cd\nef"]);
    assert_eq!(split_message("ab cd\nefg", 5), vec!["ab", "cd", "efg"]);
    assert_eq!(split_message("abcdefgh", 3), vec!["abc", "def", "gh"]);
    assert_eq!(split_message("\nabcdef", 3), vec!["", "abc", "def"]);
    assert_eq!(split_message("你好世界你好", 4), vec!["你好世界", "你好"]);
    assert_eq!(split_message("ab", 1), vec!["a", "b"]);
}

#[test]
fn extract_media_lists_files_in_order() {
    let mut m = message(1, None, false);
    m.photo = Some(vec![file("small"), file("large")]);
    m.video = Some(file("v"));
    m.audio = Some(file("a"));
    m.voice = Some(file("vo"));
    m.document = Some(file("d"));
    m.sticker = Some(file("s"));
    let list = extract_media_from_message(&m);
    let kinds: Vec<&str> = list.iter().map(|a| a.media_type.as_str()).collect();
    assert_eq!(kinds, vec!["photo", "video", "audio", "voice", "document", "sticker"]);
    assert_eq!(list[0].file_id, "large");
    assert_eq!(list[0].mime_type, Some("image/jpeg".to_string()));
    assert_eq!(list[0].file_name, None);
    assert_eq!(list[0].duration, None);
    assert_eq!(list[0].width, Some(1));
    assert_eq!(list[1].duration, Some(3));
    assert_eq!(list[1].mime_type, Some("mime/type".to_string()));
    assert_eq!(list[2].file_name, Some("name".to_string()));
    assert_eq!(list[2].width, None);
    assert_eq!(list[3].file_name, None);
    assert_eq!(list[4].file_name, Some("name".to_string()));
    assert_eq!(list[4].duration, None);
    assert_eq!(list[5].mime_type, Some("image/webp".to_string()));
    assert_eq!(list[5].file_size, Some(4));
    assert_eq!(list[5].local_path, None);
    let mut empty = message(1, None, false);
    empty.photo = Some(vec![]);
    assert!(extract_media_from_message(&empty).is_empty());
}

#[test]
fn retry_steps() {
    assert_eq!(retry_step(1, 3, true), RetryStep::Done);
    assert_eq!(retry_step(1, 3, false), RetryStep::RetryAfter(2000));
    assert_eq!(retry_step(2, 3, false), RetryStep::RetryAfter(2000));
    assert_eq!(retry_step(3, 3, false), RetryStep::Fallback);
    assert_eq!(retry_step(3, 3, true), RetryStep::Done);
    assert_eq!(retry_step(0, 0, false), RetryStep::Fallback);
}

#[test]
fn history_is_read_from_the_reply() {
    let mut with_photo = message(2, None, false);
    with_photo.photo = Some(vec![file("thumb"), file("full")]);
    let mut empty_photo = message(3, None, false);
    empty_photo.photo = Some(vec![]);
    let mut audio = message(4, None, false);
    audio.audio = Some(file("au"));
    audio.from = None;
    let plain = message(5, None, false);
    let list = history_from_reply(
        77,
        true,
        &Some(vec![message(1, Some("t"), true), with_photo, empty_photo, audio, plain]),
    )
    .unwrap();
    let contents: Vec<&str> = list.iter().map(|m| m.content.as_str()).collect();
    assert_eq!(contents, vec!["t", "full", "[Photo]", "au", "[Media]"]);
    assert_eq!(list[0].channel_id, "77");
    assert_eq!(list[0].user_id, "7");
    assert_eq!(list[3].user_id, "");
    assert_eq!(list[3].user_name, "Unknown");
    assert_eq!(history_from_reply(1, false, &Some(vec![])).unwrap_err(), "Failed to get message history");
    assert_eq!(history_from_reply(1, true, &None).unwrap_err(), "Failed to get message history");
}

#[test]
fn replies_and_addresses() {
    assert!(check_lookup_reply(true, true, "Failed to get file").is_ok());
    assert_eq!(check_lookup_reply(true, false, "Failed to get file").unwrap_err(), "Failed to get file");
    assert_eq!(check_lookup_reply(false, true, "Failed to get bot info").unwrap_err(), "Failed to get bot info");
    assert!(check_status_reply(true, "Failed to edit message: ", "200 OK").is_ok());
    assert_eq!(
        check_status_reply(false, "Failed to edit message: ", "400 Bad Request").unwrap_err(),
        "Failed to edit message: 400 Bad Request"
    );
    assert_eq!(api_url("T", "getMe"), "https://api.telegram.org/botT/getMe");
    assert_eq!(file_url("T", "a/b.png"), "https://api.telegram.org/file/botT/a/b.png");
    let g = gateway();
    assert_eq!(g.get_file("F").query, vec![("file_id".to_string(), "F".to_string())]);
    assert_eq!(g.download_file("p").url, "https://api.telegram.org/file/botTOKEN/p");
    assert_eq!(g.get_api_url("x"), "https://api.telegram.org/botTOKEN/x");
}

#[test]
fn chat_id_is_an_optional_sign_and_digits_that_fit() {
    let g = connected();
    for bad in ["+", "-", " 5", "5 ", "1.0", "0x10", "--5", "9223372036854775808", "-9223372036854775809", "５"] {
        assert_eq!(g.send_message(bad, "x", 0).unwrap_err(), "无效的会话ID", "{bad}");
    }
    for (good, id) in [
        ("+5", "5"),
        ("-0", "0"),
        ("007", "7"),
        ("9223372036854775807", "9223372036854775807"),
        ("-9223372036854775808", "-9223372036854775808"),
    ] {
        match g.send_message(good, "x", 0).unwrap() {
            Outbound::Deliver(list) => {
                assert_eq!(list.len(), 1);
                assert!(body(&list[0].request.body).contains(&format!("\"chat_id\":{id},")), "{good}");
            }
            _ => panic!(),
        }
    }
}
