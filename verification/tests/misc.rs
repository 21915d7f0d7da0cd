use ggai::crypto::{get_verification_email_template, get_verification_email_text, ClientCrypto};
use ggai::im::gateway::{GatewayEvent, IMMessage};
use ggai::im::http::{HttpBody, HttpMethod, HttpReply, Json};
use ggai::im::logging::{LogConfig, LogLevel, Logger};
use ggai::im::message_handler::{
    chat_reply, cowork_reply, MessageHandler, MessageHandlerConfig, MessageMode,
};
use ggai::im::whatsapp::{
    media_kind, upload_mime, InteractiveButton, MediaKind, WhatsAppConfig, WhatsAppGateway,
};
use ggai::im::gateway::{Gateway, Outbound};
use ggai::im_gateway::{
    platform_from_lower, platform_to_str, str_to_platform, IMPlatform, ImGatewayConfig,
    ImGatewayManager, ImGatewayStatus, TelegramConfig,
};
use ggai::shell::ShellExecutor;
use ggai::storage::{KvStore, KvStoreData, TuptupConfig};

fn show(j: &Json) -> String {
    match j {
        Json::Null => "null".to_string(),
        Json::Bool(b) => format!("{}", b),
        Json::Number(n) => format!("{}", n),
        Json::Text(s) => format!("{:?}", s),
        Json::Encoded(inner) => format!("enc({})", show(inner)),
        Json::List(items) => {
            let parts: Vec<String> = items.iter().map(show).collect();
            format!("[{}]", parts.join(","))
        }
        Json::Object(members) => {
            let parts: Vec<String> =
                members.iter().map(|(k, v)| format!("{:?}:{}", k, show(v))).collect();
            format!("{{{}}}", parts.join(","))
        }
    }
}

fn body(b: &HttpBody) -> String {
    match b {
        HttpBody::Json(j) => show(j),
        HttpBody::Empty => "empty".to_string(),
        HttpBody::Multipart(_) => "multipart".to_string(),
    }
}

fn message(content: &str) -> IMMessage {
    IMMessage {
        id: "test_id".to_string(),
        platform: "TestPlatform".to_string(),
        channel_id: "test_channel".to_string(),
        user_id: "test_user".to_string(),
        user_name: "Test User".to_string(),
        content: content.to_string(),
        timestamp: 1234567890,
        is_mention: false,
    }
}

#[test]
fn test_message_handler() {
    let config = MessageHandlerConfig { mode: MessageMode::Chat, enabled: true };
    let handler = MessageHandler::new(config);
    let chat_result = handler.handle_message(message("你好"));
    assert!(chat_result.is_ok());
    assert!(chat_result.unwrap().contains("你好"));

    let cowork_config = MessageHandlerConfig { mode: MessageMode::Cowork, enabled: true };
    let cowork_handler = MessageHandler::new(cowork_config);
    let cowork_result = cowork_handler.handle_message(message("任务测试任务"));
    assert!(cowork_result.is_ok());
    assert!(cowork_result.unwrap().contains("已创建任务"));
}

#[test]
fn chat_replies() {
    assert_eq!(chat_reply(&message("say hello!"), "T"), "你好！我是TestPlatform的助手，有什么可以帮助你的吗？");
    assert_eq!(chat_reply(&message("what time is it"), "2024-01-02 03:04:05"), "当前时间: 2024-01-02 03:04:05");
    assert_eq!(chat_reply(&message("现在时间"), "T"), "当前时间: T");
    assert!(chat_reply(&message("help"), "T").starts_with("我可以帮助你处理消息"));
    assert!(chat_reply(&message("请帮助我"), "T").ends_with("3. 帮助/help - 查看帮助信息"));
    assert_eq!(chat_reply(&message("random"), "T"), "收到消息: random");
    assert_eq!(chat_reply(&message(""), "T"), "收到消息: ");
    // A greeting wins over everything else.
    assert!(chat_reply(&message("hello, time to help"), "T").starts_with("你好"));
    assert_eq!(chat_reply(&message("Hello"), "T"), "收到消息: Hello");
}

#[test]
fn cowork_replies() {
    assert_eq!(cowork_reply(&message("任务测试任务")), "Cowork模式: 已创建任务: 测试");
    assert_eq!(cowork_reply(&message("task  write the task report ")), "Cowork模式: 已创建任务: write the  report");
    assert_eq!(cowork_reply(&message("提醒 开会")), "Cowork模式: 已设置提醒: 开会");
    assert_eq!(cowork_reply(&message("remind me")), "Cowork模式: 已设置提醒: me");
    assert_eq!(cowork_reply(&message("笔记")), "Cowork模式: 已创建笔记: ");
    assert_eq!(cowork_reply(&message("note: x")), "Cowork模式: 已创建笔记: : x");
    assert_eq!(cowork_reply(&message("a task")), "Cowork模式: 收到任务指令: a task");
    assert_eq!(cowork_reply(&message("")), "Cowork模式: 收到任务指令: ");
}

#[test]
fn handler_config_and_events() {
    let mut handler = MessageHandler::new_default();
    assert_eq!(handler.get_config(), MessageHandlerConfig { mode: MessageMode::Chat, enabled: true });
    assert_eq!(handler.handle_event(GatewayEvent::Message(message("x"))), Some("收到消息: x".to_string()));
    assert_eq!(handler.handle_event(GatewayEvent::Connected), None);
    assert_eq!(handler.handle_event(GatewayEvent::Error("e".to_string())), None);
    handler.set_config(MessageHandlerConfig { mode: MessageMode::Cowork, enabled: false });
    assert_eq!(handler.handle_message(message("x")).unwrap_err(), "消息处理器未启用");
    assert_eq!(handler.reply_at(&message("x"), "T").unwrap_err(), "消息处理器未启用");
    assert_eq!(handler.handle_event(GatewayEvent::Message(message("x"))), None);
    let time_reply = MessageHandler::new_default().handle_message(message("time")).unwrap();
    assert!(time_reply.starts_with("当前时间: "));
    assert_eq!(time_reply.chars().count(), "当前时间: ".chars().count() + 19);
}

#[test]
fn log_lines() {
    let logger = Logger::new_default();
    assert_eq!(logger.info("IMManager", "started", "1.5"), Some("[1.5] [INFO] [IMManager] started".to_string()));
    assert_eq!(logger.error("m", "", ""), Some("[] [ERROR] [m] ".to_string()));
    assert_eq!(logger.warn("m", "w", "t"), Some("[t] [WARN] [m] w".to_string()));
    assert_eq!(logger.debug("m", "d", "t"), None);
    assert_eq!(logger.trace("m", "d", "t"), None);
    let mut logger = Logger::new(LogConfig { enabled: true, level: LogLevel::Trace, file_path: None });
    assert_eq!(logger.trace("m", "x", "t"), Some("[t] [TRACE] [m] x".to_string()));
    assert_eq!(logger.debug("m", "x", "t"), Some("[t] [DEBUG] [m] x".to_string()));
    logger.set_config(LogConfig { enabled: false, level: LogLevel::Trace, file_path: Some("f".to_string()) });
    assert_eq!(logger.error("m", "x", "t"), None);
    assert_eq!(logger.get_config().file_path, Some("f".to_string()));
    assert_eq!(logger.line(LogLevel::Error, "m", "x", "t"), None);
    assert_eq!(LogLevel::Warn.as_str(), "WARN");
    assert!(LogLevel::Trace.rank() < LogLevel::Error.rank());
    let d = LogConfig::default();
    assert!(d.enabled && d.level == LogLevel::Info && d.file_path.is_none());
}

#[test]
fn platforms_by_name() {
    assert_eq!(str_to_platform("DingTalk"), Some(IMPlatform::DingTalk));
    assert_eq!(str_to_platform("FEISHU"), Some(IMPlatform::Feishu));
    assert_eq!(str_to_platform("telegram"), Some(IMPlatform::Telegram));
    assert_eq!(str_to_platform("Discord"), Some(IMPlatform::Discord));
    assert_eq!(str_to_platform("wework"), Some(IMPlatform::WeWork));
    assert_eq!(str_to_platform("whatsapp"), None);
    assert_eq!(str_to_platform(""), None);
    assert_eq!(platform_from_lower("DingTalk"), None);
    for p in [
        IMPlatform::DingTalk,
        IMPlatform::Feishu,
        IMPlatform::Telegram,
        IMPlatform::Discord,
        IMPlatform::WeWork,
    ] {
        assert_eq!(str_to_platform(&platform_to_str(&p)), Some(p));
    }
    assert_eq!(platform_to_str(&IMPlatform::WeWork), "wework");
}

#[test]
fn test_im_gateway_initialization() {
    let _im_gateway_manager = ImGatewayManager::new();
    assert!(true, "IM gateway manager initialization should succeed");
}

#[test]
fn test_im_gateway_config() {
    let im_gateway_manager = ImGatewayManager::new();
    let config = im_gateway_manager.get_config();
    assert!(config.host == "127.0.0.1", "Default host should be 127.0.0.1");
    assert!(config.port == 8081, "Default port should be 8081");
}

#[test]
fn shell_gateway_manager_tracks_status() {
    let mut m = ImGatewayManager::new();
    assert!(!m.is_any_connected());
    assert_eq!(m.get_status().overall, "disconnected");
    assert_eq!(m.send_notification(IMPlatform::Telegram, "x").unwrap_err(), "Platform not connected");
    let mut status = ImGatewayStatus::default();
    status.telegram.connected = true;
    status.overall = "connected".to_string();
    m.update_status(status);
    assert!(m.is_any_connected());
    assert!(m.is_connected(IMPlatform::Telegram));
    assert!(!m.is_connected(IMPlatform::Discord));
    assert_eq!(m.send_notification(IMPlatform::Telegram, "x"), Ok(true));
    m.record_launch(true);
    assert_eq!(m.get_status().overall, "starting");
    assert!(m.is_any_connected());
    m.record_launch(false);
    assert_eq!(m.get_status().overall, "error");
    m.record_exit();
    assert_eq!(m.get_status().overall, "disconnected");
    assert!(m.is_connected(IMPlatform::Telegram));
    m.mark_stopped();
    assert!(!m.is_any_connected());
    assert_eq!(m.get_status().overall, "disconnected");
    let mut config = ImGatewayConfig::default();
    assert_eq!(config.settings.unwrap().max_message_length, 2000);
    assert!(m.start_all_enabled().is_empty());
    config.telegram = Some(TelegramConfig { enabled: true, bot_token: "t".to_string() });
    config.discord = Some(ggai::im_gateway::DiscordConfig { enabled: false, bot_token: "t".to_string() });
    config.wework = Some(ggai::im_gateway::WeWorkConfig {
        enabled: true,
        corp_id: "c".to_string(),
        agent_id: "a".to_string(),
        secret: "s".to_string(),
    });
    m.set_config(config);
    assert_eq!(m.start_all_enabled(), vec![IMPlatform::Telegram, IMPlatform::WeWork]);
}

#[test]
fn verification_mail() {
    assert_eq!(get_verification_email_text("123456"), "123456\n\nExpires in 5 minutes.");
    assert_eq!(get_verification_email_text(""), "\n\nExpires in 5 minutes.");
    let page = get_verification_email_template("654321");
    assert!(page.starts_with("<!DOCTYPE html>\n<html>\n<head>\n    <meta charset=\"UTF-8\">"));
    assert!(page.contains("letter-spacing: 4px;\">654321</h1>"));
    assert!(page.ends_with("This code expires in 5 minutes.</p>\n</body>\n</html>"));
    assert_eq!(ClientCrypto::with_secret("s3").secret_text(), "s3");
    assert_eq!(ShellExecutor::new(), ShellExecutor {});
}

#[test]
fn key_value_store() {
    let mut store = KvStore::new(KvStoreData::new());
    assert_eq!(store.get("k"), None);
    store.set("k", "v");
    store.set("k2", "");
    assert_eq!(store.get("k"), Some("v".to_string()));
    store.set("k", "w");
    assert_eq!(store.get("k"), Some("w".to_string()));
    assert_eq!(store.get("k2"), Some(String::new()));
    store.remove("k");
    store.remove("missing");
    assert_eq!(store.get("k"), None);
    assert_eq!(store.get("k2"), Some(String::new()));
    let c = TuptupConfig::default();
    assert!(c.api_key.is_none() && c.api_secret.is_none() && c.user_id.is_none());
}

#[test]
fn http_reply_status() {
    let reply = |status: u16| HttpReply { status, status_line: String::new(), body: String::new() };
    assert!(reply(200).succeeded());
    assert!(reply(299).succeeded());
    assert!(!reply(199).succeeded());
    assert!(!reply(300).succeeded());
    assert!(!reply(404).succeeded());
}

fn whatsapp() -> WhatsAppGateway {
    let mut g = WhatsAppGateway::new(WhatsAppConfig {
        enabled: true,
        phone_number_id: Some("PID".to_string()),
        access_token: Some("AT".to_string()),
        debug: None,
        media_download_path: None,
    });
    g.start(0);
    g.finish_start(Ok(()), 1);
    g
}

#[test]
fn whatsapp_requests() {
    let g = whatsapp();
    assert_eq!(g.get_api_url("/messages"), "https://graph.facebook.com/v18.0/PID/messages");
    let v = g.verify_credentials();
    assert_eq!(v.method, HttpMethod::Get);
    assert_eq!(v.url, "https://graph.facebook.com/v18.0/me");
    assert_eq!(
        v.headers,
        vec![
            ("Authorization".to_string(), "Bearer AT".to_string()),
            ("Content-Type".to_string(), "application/json".to_string()),
        ]
    );
    assert_eq!(
        body(&g.send_text("491", "hi").body),
        "{\"messaging_product\":\"whatsapp\",\"to\":\"491\",\"type\":\"text\",\"text\":{\"body\":\"hi\"}}"
    );
    assert_eq!(
        body(&g.send_image_message("1", "M", Some("cap")).body),
        "{\"messaging_product\":\"whatsapp\",\"to\":\"1\",\"type\":\"image\",\"image\":{\"id\":\"M\",\"caption\":\"cap\"}}"
    );
    assert_eq!(
        body(&g.send_document_message("1", "M", None, Some("f.pdf")).body),
        "{\"messaging_product\":\"whatsapp\",\"to\":\"1\",\"type\":\"document\",\"document\":{\"id\":\"M\",\"filename\":\"f.pdf\"}}"
    );
    assert!(body(&g.send_audio_message("1", "M").body).ends_with("\"audio\":{\"id\":\"M\"}}"));
    assert!(body(&g.send_sticker_message("1", "M").body).ends_with("\"sticker\":{\"id\":\"M\"}}"));
    assert!(body(&g.send_video_message("1", "M", None).body).ends_with("\"video\":{\"id\":\"M\"}}"));
    assert_eq!(
        body(&g.send_interactive_list_message("1", "T", "D", "B").body),
        "{\"messaging_product\":\"whatsapp\",\"to\":\"1\",\"type\":\"interactive\",\"interactive\":{\"type\":\"list\",\"header\":{\"type\":\"text\",\"text\":\"T\"},\"body\":{\"text\":\"D\"},\"action\":{\"button\":\"B\",\"sections\":[]}}}"
    );
    let buttons = vec![InteractiveButton {
        button_type: "reply".to_string(),
        id: "b1".to_string(),
        title: "Yes".to_string(),
    }];
    assert_eq!(
        body(&g.send_interactive_buttons_message("1", Some("H"), "B", Some("F"), &buttons).body),
        "{\"messaging_product\":\"whatsapp\",\"to\":\"1\",\"type\":\"interactive\",\"interactive\":{\"type\":\"button\",\"body\":{\"text\":\"B\"},\"action\":{\"buttons\":[{\"type\":\"reply\",\"id\":\"b1\",\"title\":\"Yes\"}]},\"header\":{\"type\":\"text\",\"text\":\"H\"},\"footer\":{\"text\":\"F\"}}}"
    );
    assert_eq!(
        body(&g.send_interactive_catalog_message("1", "B", None, "CAT", Some("P")).body),
        "{\"messaging_product\":\"whatsapp\",\"to\":\"1\",\"type\":\"interactive\",\"interactive\":{\"type\":\"catalog_message\",\"body\":{\"text\":\"B\"},\"action\":{\"catalog_id\":\"CAT\",\"product_id\":\"P\"}}}"
    );
    assert_eq!(
        body(&g.send_template_message("1", "tpl", "en", None).body),
        "{\"messaging_product\":\"whatsapp\",\"to\":\"1\",\"type\":\"template\",\"template\":{\"name\":\"tpl\",\"language\":{\"code\":\"en\"}}}"
    );
    assert!(body(&g.send_template_message("1", "tpl", "en", Some(Json::List(vec![]))).body)
        .ends_with("\"components\":[]}}"));
}

#[test]
fn whatsapp_media() {
    let g = whatsapp();
    match g.send_media_message("491", "/tmp/Clip.MP4", 0).unwrap() {
        Outbound::Deliver(list) => {
            assert_eq!(list[0].request.url, "https://graph.facebook.com/v18.0/me/media");
            match &list[0].request.body {
                HttpBody::Multipart(f) => {
                    assert_eq!(f.file_name, "Clip.MP4");
                    assert_eq!(f.mime_type, Some("video/mp4".to_string()));
                    assert_eq!(f.text_fields, vec![("messaging_product".to_string(), "whatsapp".to_string())]);
                }
                _ => panic!(),
            }
        }
        _ => panic!(),
    }
    assert!(g.media_message("1", "M", "png", Some("a.png"), Some("c")).is_ok());
    assert_eq!(
        body(&g.media_message("1", "M", "zip", Some("a.zip"), None).unwrap().body),
        "{\"messaging_product\":\"whatsapp\",\"to\":\"1\",\"type\":\"document\",\"document\":{\"id\":\"M\",\"filename\":\"a.zip\"}}"
    );
    assert_eq!(g.media_message("1", "M", "exe", None, None).unwrap_err(), "不支持的文件类型");
    assert_eq!(g.media_message("1", "M", "", None, None).unwrap_err(), "不支持的文件类型");
    assert_eq!(media_kind("jpeg"), Some(MediaKind::Image));
    assert_eq!(media_kind("mov"), Some(MediaKind::Video));
    assert_eq!(media_kind("aac"), Some(MediaKind::Audio));
    assert_eq!(media_kind("pptx"), Some(MediaKind::Document));
    assert_eq!(media_kind("bmp"), None);
    assert_eq!(upload_mime("jpg"), "image/jpeg");
    assert_eq!(upload_mime("docx"), "application/vnd.openxmlformats-officedocument.wordprocessingml.document");
    assert_eq!(upload_mime("xyz"), "application/octet-stream");
    assert_eq!(g.send_notification("x", 0).unwrap_err(), "需要指定收件人");
    assert_eq!(g.get_media_info("MID").url, "https://graph.facebook.com/v18.0/MID");
    assert_eq!(g.download_media(Some("https://cdn/x")).unwrap().url, "https://cdn/x");
    assert_eq!(g.download_media(None).unwrap_err(), "Media URL not available");
    assert!(WhatsAppGateway::check_verify_reply(true, "200 OK").is_ok());
    assert_eq!(
        WhatsAppGateway::check_verify_reply(false, "401 Unauthorized").unwrap_err(),
        "Failed to verify credentials: 401 Unauthorized"
    );
    let mut fresh = WhatsAppGateway::new(WhatsAppConfig::default());
    assert_eq!(fresh.send_media_message("1", "/a.png", 0).unwrap_err(), "网关未连接");
    fresh.set_config(WhatsAppConfig {
        enabled: true,
        phone_number_id: Some("1".to_string()),
        access_token: Some("a".to_string()),
        debug: None,
        media_download_path: None,
    });
    fresh.start(0);
    let r = fresh.finish_start(Err("bad".to_string()), 0);
    assert_eq!(r.result.unwrap_err(), "bad");
    assert_eq!(fresh.get_status().error, Some("验证凭据失败: bad".to_string()));
}

#[test]
fn file_system_keeps_its_base_directory() {
    let files = ggai::filesystem::FileSystem::new("/srv/app".to_string());
    assert_eq!(files.get_base_dir(), "/srv/app");
    let empty = ggai::filesystem::FileSystem::new(String::new());
    assert_eq!(empty.get_base_dir(), "");
}

#[test]
fn storage_paths_stand_under_their_directories() {
    let sep = std::path::MAIN_SEPARATOR;
    let s = ggai::storage::Storage::new("data".to_string(), "cfg".to_string());
    assert_eq!(s.get_app_config_path(), format!("cfg{sep}config.json"));
    assert_eq!(s.get_tuptup_config_path(), format!("cfg{sep}tuptup.json"));
    assert_eq!(s.get_skills_config_path(), format!("cfg{sep}skills.json"));
    assert_eq!(s.get_skills_dir(), format!("data{sep}SKILLs"));
    assert_eq!(s.get_kv_store_path(), format!("data{sep}kv_store.json"));
    assert_eq!(s.get_logs_dir(), format!("data{sep}logs"));
}

#[test]
fn storage_paths_end_with_the_file_name_whatever_the_directory() {
    let sep = std::path::MAIN_SEPARATOR;
    let closed = ggai::storage::Storage::new(format!("data{sep}"), String::new());
    assert_eq!(closed.get_logs_dir(), format!("data{sep}logs"));
    assert_eq!(closed.get_app_config_path(), "config.json");
    assert!(closed.get_kv_store_path().ends_with("kv_store.json"));
}
