use ggai::im::dingtalk::{DingTalkConfig, DingTalkGateway, TokenReply};
use ggai::im::discord::{DiscordConfig, DiscordGateway};
use ggai::im::feishu::{FeishuConfig, FeishuGateway};
use ggai::im::gateway::{Gateway, GatewayEvent, NextStep, Outbound};
use ggai::im::http::{HttpBody, HttpMethod, Json};
use ggai::im::telegram::{TelegramConfig, TelegramGateway};
use ggai::im::wework::{WeWorkConfig, WeWorkGateway};
use ggai::im::whatsapp::{WhatsAppConfig, WhatsAppGateway};
use ggai::im::AnyGateway;

fn show(j: &Json) -> String {
    match j {
        Json::Null => "null".to_string(),
        Json::Bool(b) => format!("{}", b),
        Json::Number(n) => format!("{}", n),
        Json::Text(s) => format!("{:?}", s),
        Json::Encoded(inner) => format!("enc({})", show(inner)),
        Json::List(items) => {
            let parts: Vec<String> = items.iter().map(show).collect();
            format!("[{}]", parts.join(","))
        }
        Json::Object(members) => {
            let parts: Vec<String> =
                members.iter().map(|(k, v)| format!("{:?}:{}", k, show(v))).collect();
            format!("{{{}}}", parts.join(","))
        }
    }
}

fn dingtalk_config() -> DingTalkConfig {
    DingTalkConfig {
        enabled: true,
        client_id: "test_client_id".to_string(),
        client_secret: "test_client_secret".to_string(),
        agent_id: None,
        robot_code: None,
        message_type: Some("markdown".to_string()),
        media_download_path: None,
        debug: Some(false),
    }
}

fn feishu_config() -> FeishuConfig {
    FeishuConfig {
        enabled: true,
        app_id: "test_app_id".to_string(),
        app_secret: "test_app_secret".to_string(),
        domain: Some("feishu".to_string()),
        encrypt_key: None,
        verification_token: None,
        render_mode: Some("text".to_string()),
        media_download_path: None,
        debug: Some(false),
    }
}

fn connected(mut g: AnyGateway) -> AnyGateway {
    match &mut g {
        AnyGateway::WeWork(w) => {
            w.start(0);
            w.finish_start(Ok(()), 1);
        }
        AnyGateway::WhatsApp(w) => {
            w.start(0);
            w.finish_start(Ok(()), 1);
        }
        AnyGateway::Telegram(t) => {
            t.start(0);
            t.finish_start(Ok(()), 1);
        }
        AnyGateway::Discord(d) => {
            d.start(0);
            d.identity_checked(Ok("bot".to_string()));
            d.finish_start(Ok(()), 1);
        }
        AnyGateway::DingTalk(d) => {
            d.start(0);
            d.token_fetched(
                Ok(TokenReply {
                    errcode: 0,
                    errmsg: None,
                    access_token: Some("tok".to_string()),
                    expire_in: Some(7200),
                }),
                0,
            );
            d.finish_start(Ok(()), 1);
        }
        AnyGateway::Feishu(f) => {
            f.start(0);
            f.token_fetched(
                Ok(ggai::im::feishu::TokenReply {
                    code: 0,
                    message: None,
                    data: Some(ggai::im::feishu::TokenData {
                        token: Some("tok".to_string()),
                        expire: Some(7200),
                    }),
                }),
                0,
            );
            f.finish_start(Ok(()), 1);
        }
    }
    g
}

fn all_enabled() -> Vec<AnyGateway> {
    vec![
        AnyGateway::DingTalk(DingTalkGateway::new(dingtalk_config())),
        AnyGateway::Feishu(FeishuGateway::new(feishu_config())),
        AnyGateway::Telegram(TelegramGateway::new(TelegramConfig {
            enabled: true,
            bot_token: "t".to_string(),
            debug: None,
            media_download_path: None,
        })),
        AnyGateway::Discord(DiscordGateway::new(DiscordConfig {
            enabled: true,
            bot_token: "t".to_string(),
            debug: None,
        })),
        AnyGateway::WeWork(WeWorkGateway::new(WeWorkConfig {
            enabled: true,
            webhook_url: "https://hook".to_string(),
            debug: None,
        })),
        AnyGateway::WhatsApp(WhatsAppGateway::new(WhatsAppConfig {
            enabled: true,
            phone_number_id: Some("1".to_string()),
            access_token: Some("a".to_string()),
            debug: None,
            media_download_path: None,
        })),
    ]
}

#[test]
fn test_dingtalk_gateway() {
    let gateway = DingTalkGateway::new(dingtalk_config());
    let retrieved_config = gateway.get_config();
    assert_eq!(retrieved_config.enabled, true);
    assert_eq!(retrieved_config.client_id, "test_client_id");
    assert_eq!(retrieved_config.client_secret, "test_client_secret");
}

#[test]
fn test_feishu_gateway() {
    let gateway = FeishuGateway::new(feishu_config());
    let retrieved_config = gateway.get_config();
    assert_eq!(retrieved_config.enabled, true);
    assert_eq!(retrieved_config.app_id, "test_app_id");
    assert_eq!(retrieved_config.app_secret, "test_app_secret");
    assert_eq!(retrieved_config.domain, Some("feishu".to_string()));
}

#[test]
fn test_telegram_gateway() {
    let config = TelegramConfig {
        enabled: true,
        bot_token: "test_bot_token".to_string(),
        media_download_path: None,
        debug: Some(false),
    };
    let gateway = TelegramGateway::new(config);
    let retrieved_config = gateway.get_config();
    assert_eq!(retrieved_config.enabled, true);
    assert_eq!(retrieved_config.bot_token, "test_bot_token");
}

#[test]
fn test_discord_gateway() {
    let config =
        DiscordConfig { enabled: true, bot_token: "test_bot_token".to_string(), debug: Some(false) };
    let gateway = DiscordGateway::new(config);
    let retrieved_config = gateway.get_config();
    assert_eq!(retrieved_config.enabled, true);
    assert_eq!(retrieved_config.bot_token, "test_bot_token");
}

#[test]
fn test_whatsapp_gateway() {
    let config = WhatsAppConfig {
        enabled: true,
        phone_number_id: Some("test_phone_number_id".to_string()),
        access_token: Some("test_access_token".to_string()),
        debug: Some(false),
        media_download_path: None,
    };
    let gateway = WhatsAppGateway::new(config);
    let retrieved_config = gateway.get_config();
    assert_eq!(retrieved_config.enabled, true);
    assert_eq!(retrieved_config.phone_number_id, Some("test_phone_number_id".to_string()));
    assert_eq!(retrieved_config.access_token, Some("test_access_token".to_string()));
}

#[test]
fn config_defaults() {
    let d = DingTalkConfig::default();
    assert!(!d.enabled && d.client_id.is_empty());
    assert_eq!(d.message_type, Some("markdown".to_string()));
    assert_eq!(d.debug, Some(false));
    let f = FeishuConfig::default();
    assert_eq!(f.domain, Some("feishu".to_string()));
    assert_eq!(f.render_mode, Some("text".to_string()));
    let t = TelegramConfig::default();
    assert!(!t.enabled && t.bot_token.is_empty());
    let w = WeWorkConfig::default();
    assert!(w.webhook_url.is_empty());
    let wa = WhatsAppConfig::default();
    assert_eq!(wa.phone_number_id, None);
    assert_eq!(DiscordConfig::default().debug, Some(false));
}

#[test]
fn stop_leaves_every_adapter_disconnected_without_error() {
    for g in all_enabled() {
        let mut g = connected(g);
        assert!(g.is_connected());
        let events = g.stop();
        assert_eq!(events.len(), 2);
        assert!(matches!(events[1], GatewayEvent::Disconnected));
        assert!(!g.is_connected());
        let status = g.get_status();
        assert!(!status.connected);
        assert!(!status.starting);
        assert_eq!(status.error, None);
        // A second stop changes nothing and emits nothing.
        assert!(g.stop().is_empty());
    }
}

#[test]
fn stop_during_start_and_after_failure_clears_the_status() {
    for mut g in all_enabled() {
        g.start(0);
        assert!(g.get_status().starting);
        let events = g.stop();
        assert_eq!(events.len(), 2);
        let status = g.get_status();
        assert!(!status.connected && !status.starting);
        assert_eq!(status.error, None);
    }
    let mut w = WeWorkGateway::new(WeWorkConfig {
        enabled: true,
        webhook_url: "u".to_string(),
        debug: None,
    });
    w.start(0);
    w.finish_start(Err("no".to_string()), 1);
    assert_eq!(w.get_status().error, Some("Webhook 测试失败: no".to_string()));
    w.stop();
    assert_eq!(w.get_status().error, None);
}

#[test]
fn start_on_a_connected_adapter_does_nothing() {
    for g in all_enabled() {
        let mut g = connected(g);
        let before = g.get_status();
        let report = g.start(5);
        assert!(matches!(report.result, Ok(NextStep::Nothing)));
        assert!(report.events.is_empty());
        let after = g.get_status();
        assert!(after.connected && !after.starting);
        assert_eq!(after.started_at, before.started_at);
        assert_eq!(after.error, None);
    }
}

#[test]
fn start_on_a_disabled_adapter_does_nothing() {
    let mut g = TelegramGateway::new(TelegramConfig::default());
    let report = g.start(0);
    assert!(matches!(report.result, Ok(NextStep::Nothing)));
    assert!(report.events.is_empty());
    assert!(!g.get_status().starting);
    let mut d = DingTalkGateway::new(DingTalkConfig::default());
    assert!(matches!(d.start(0).result, Ok(NextStep::Nothing)));
}

#[test]
fn start_without_credentials_fails_at_once() {
    let mut t = TelegramGateway::new(TelegramConfig {
        enabled: true,
        bot_token: String::new(),
        debug: None,
        media_download_path: None,
    });
    let report = t.start(0);
    assert_eq!(report.result.unwrap_err(), "缺少必要的配置: bot_token");
    assert_eq!(report.events.len(), 2);
    let s = t.get_status();
    assert!(!s.starting && !s.connected);
    assert_eq!(s.error, Some("缺少必要的配置: bot_token".to_string()));
    assert_eq!(s.last_error, Some("缺少必要的配置: bot_token".to_string()));

    let mut cfg = dingtalk_config();
    cfg.client_secret = String::new();
    let mut d = DingTalkGateway::new(cfg);
    assert_eq!(d.start(0).result.unwrap_err(), "缺少必要的配置: client_id 或 client_secret");

    let mut cfg = feishu_config();
    cfg.app_id = String::new();
    let mut f = FeishuGateway::new(cfg);
    assert_eq!(f.start(0).result.unwrap_err(), "缺少必要的配置: app_id 或 app_secret");

    let mut w = WeWorkGateway::new(WeWorkConfig { enabled: true, webhook_url: String::new(), debug: None });
    assert_eq!(w.start(0).result.unwrap_err(), "缺少必要的配置: Webhook URL");

    let mut wa = WhatsAppGateway::new(WhatsAppConfig {
        enabled: true,
        phone_number_id: Some(String::new()),
        access_token: Some("a".to_string()),
        debug: None,
        media_download_path: None,
    });
    assert_eq!(wa.start(0).result.unwrap_err(), "缺少必要的配置: phone_number_id");
    let mut wa = WhatsAppGateway::new(WhatsAppConfig {
        enabled: true,
        phone_number_id: Some("1".to_string()),
        access_token: None,
        debug: None,
        media_download_path: None,
    });
    assert_eq!(wa.start(0).result.unwrap_err(), "缺少必要的配置: access_token");

    let mut dc = DiscordGateway::new(DiscordConfig { enabled: true, bot_token: String::new(), debug: None });
    assert_eq!(dc.start(0).result.unwrap_err(), "缺少必要的配置: bot_token");
}

#[test]
fn wework_start_sends_a_trial_message() {
    let mut w = WeWorkGateway::new(WeWorkConfig {
        enabled: true,
        webhook_url: "https://hook".to_string(),
        debug: None,
    });
    let report = w.start(0);
    assert_eq!(report.events.len(), 1);
    match report.result {
        Ok(NextStep::Request(r)) => {
            assert_eq!(r.method, HttpMethod::Post);
            assert_eq!(r.url, "https://hook");
            match &r.body {
                HttpBody::Json(j) => assert_eq!(
                    show(j),
                    "{\"msgtype\":\"text\",\"text\":{\"content\":\"企业微信网关已启动\"}}"
                ),
                _ => panic!("json expected"),
            }
        }
        _ => panic!("request expected"),
    }
    let done = w.finish_start(Ok(()), 77);
    assert!(matches!(done.result, Ok(NextStep::Nothing)));
    assert!(matches!(done.events[1], GatewayEvent::Connected));
    assert_eq!(w.get_status().started_at, Some(77));
}

#[test]
fn wework_sends_and_capabilities() {
    let w = WeWorkGateway::new(WeWorkConfig {
        enabled: true,
        webhook_url: "https://hook".to_string(),
        debug: None,
    });
    assert_eq!(w.send_message("c", "hi", 0).unwrap_err(), "网关未连接");
    let md = w.send_markdown_message("**x**").unwrap();
    match &md.body {
        HttpBody::Json(j) => {
            assert_eq!(show(j), "{\"msgtype\":\"markdown\",\"markdown\":{\"content\":\"**x**\"}}")
        }
        _ => panic!(),
    }
    let other = w.send_webhook_message("x", "card").unwrap();
    match &other.body {
        HttpBody::Json(j) => assert_eq!(show(j), "{\"msgtype\":\"text\",\"text\":{\"content\":\"x\"}}"),
        _ => panic!(),
    }
    assert_eq!(w.send_media_message("c", "/a.png", 0).unwrap_err(), "企业微信 Webhook 不支持发送媒体消息");
    assert_eq!(w.edit_message("c", "1", "x").unwrap_err(), "企业微信 Webhook 不支持编辑消息");
    assert_eq!(w.delete_message("c", "1").unwrap_err(), "企业微信 Webhook 不支持删除消息");
    assert_eq!(w.get_message_history("c", 5).unwrap_err(), "企业微信 Webhook 不支持获取历史消息");
    let caps = w.capabilities();
    assert!(!caps.media && !caps.edit && !caps.delete && !caps.history);
    let empty = WeWorkGateway::new(WeWorkConfig::default());
    assert_eq!(empty.send_text_message("x").unwrap_err(), "Webhook URL 不能为空");
    assert!(WeWorkGateway::check_webhook_reply(0, None).is_ok());
    assert_eq!(
        WeWorkGateway::check_webhook_reply(93000, Some("invalid")).unwrap_err(),
        "Failed to send message: invalid"
    );
    assert_eq!(WeWorkGateway::check_webhook_reply(1, None).unwrap_err(), "Failed to send message: ");
}

#[test]
fn wework_connected_send_and_record() {
    let g = connected(AnyGateway::WeWork(WeWorkGateway::new(WeWorkConfig {
        enabled: true,
        webhook_url: "https://hook".to_string(),
        debug: None,
    })));
    let mut g = g;
    match g.send_notification("hello", 0).unwrap() {
        Outbound::Deliver(list) => {
            assert_eq!(list.len(), 1);
            assert_eq!(list[0].attempts, 1);
            assert!(list[0].fallback.is_none());
            assert_eq!(list[0].request.url, "https://hook");
        }
        _ => panic!(),
    }
    g.record_outbound(123);
    assert_eq!(g.get_status().last_outbound_at, Some(123));
}

#[test]
fn unsupported_operations_answer_with_errors() {
    let d = DingTalkGateway::new(dingtalk_config());
    assert_eq!(d.edit_message("c", "m", "t").unwrap_err(), "DingTalk 不支持编辑消息");
    assert_eq!(d.delete_message("c", "m").unwrap_err(), "DingTalk 不支持删除消息");
    assert_eq!(d.get_message_history("c", 1).unwrap_err(), "DingTalk 不支持获取历史消息");
    let f = FeishuGateway::new(feishu_config());
    assert_eq!(f.edit_message("c", "m", "t").unwrap_err(), "飞书不支持编辑消息");
    assert_eq!(f.delete_message("c", "m").unwrap_err(), "飞书不支持删除消息");
    assert_eq!(f.get_message_history("c", 1).unwrap_err(), "飞书暂不支持获取历史消息");
    let w = WhatsAppGateway::new(WhatsAppConfig::default());
    assert_eq!(w.edit_message("c", "m", "t").unwrap_err(), "WhatsApp 不支持编辑消息");
    assert_eq!(w.delete_message("c", "m").unwrap_err(), "WhatsApp 不支持删除消息");
    assert_eq!(w.get_message_history("c", 1).unwrap_err(), "WhatsApp 不支持获取历史消息");
}

#[test]
fn reconnect_if_needed_starts_only_disconnected_adapters() {
    let mut w = WeWorkGateway::new(WeWorkConfig {
        enabled: true,
        webhook_url: "u".to_string(),
        debug: None,
    });
    assert!(matches!(w.reconnect_if_needed(0).result, Ok(NextStep::Request(_))));
    w.finish_start(Ok(()), 0);
    assert!(matches!(w.reconnect_if_needed(0).result, Ok(NextStep::Nothing)));
    // Polling heals itself: Telegram never reconnects on request.
    let mut t = TelegramGateway::new(TelegramConfig {
        enabled: true,
        bot_token: "t".to_string(),
        debug: None,
        media_download_path: None,
    });
    assert!(matches!(t.reconnect_if_needed(0).result, Ok(NextStep::Nothing)));
    assert!(!t.get_status().starting);
    // After a stop DingTalk holds reconnects back until the next start.
    let mut d = DingTalkGateway::new(dingtalk_config());
    d.stop();
    assert!(matches!(d.reconnect_if_needed(0).result, Ok(NextStep::Nothing)));
    assert!(matches!(d.start(0).result, Ok(NextStep::Request(_))));
}
