use ggai::im::connectivity_test::{AuthProbe, ConnectivityCheck, ConnectivityTester};
use ggai::im::dingtalk::{DingTalkConfig, DingTalkGateway};
use ggai::im::discord::{DiscordConfig, DiscordGateway};
use ggai::im::feishu::{FeishuConfig, FeishuGateway};
use ggai::im::gateway::{Gateway, GatewayEvent, IMMessage, NextStep, Outbound};
use ggai::im::message_handler::{MessageHandler, MessageHandlerConfig, MessageMode};
use ggai::im::network_monitor::{NetworkMonitor, NetworkMonitorConfig, NetworkStatus};
use ggai::im::telegram::{TelegramConfig, TelegramGateway};
use ggai::im::wework::{WeWorkConfig, WeWorkGateway};
use ggai::im::whatsapp::{WhatsAppConfig, WhatsAppGateway};
use ggai::im::{
    notification_outcome, test_connectivity_of_kind, AnyGateway, IMManager, IMManagerConfig,
    ManagerError,
};

fn dingtalk() -> DingTalkGateway {
    DingTalkGateway::new(DingTalkConfig {
        enabled: true,
        client_id: "test_client_id".to_string(),
        client_secret: "test_client_secret".to_string(),
        agent_id: None,
        robot_code: None,
        message_type: Some("markdown".to_string()),
        media_download_path: None,
        debug: Some(false),
    })
}

fn feishu() -> FeishuGateway {
    FeishuGateway::new(FeishuConfig {
        enabled: true,
        app_id: "test_app_id".to_string(),
        app_secret: "test_app_secret".to_string(),
        domain: Some("feishu".to_string()),
        encrypt_key: None,
        verification_token: None,
        render_mode: Some("text".to_string()),
        media_download_path: None,
        debug: Some(false),
    })
}

fn whatsapp() -> WhatsAppGateway {
    WhatsAppGateway::new(WhatsAppConfig {
        enabled: true,
        phone_number_id: Some("test_phone_number_id".to_string()),
        access_token: Some("test_access_token".to_string()),
        debug: Some(false),
        media_download_path: None,
    })
}

fn wework(url: &str) -> WeWorkGateway {
    WeWorkGateway::new(WeWorkConfig { enabled: true, webhook_url: url.to_string(), debug: None })
}

fn telegram(token: &str) -> TelegramGateway {
    TelegramGateway::new(TelegramConfig {
        enabled: true,
        bot_token: token.to_string(),
        debug: None,
        media_download_path: None,
    })
}

fn codes(checks: &Vec<ConnectivityCheck>) -> Vec<&str> {
    checks.iter().map(|c| c.code.as_str()).collect()
}

#[test]
fn test_im_manager() {
    let mut manager = IMManager::new_default();
    manager.add_gateway("dingtalk", AnyGateway::DingTalk(dingtalk()));
    let gateway_names = manager.get_gateway_names();
    assert!(gateway_names.contains(&"dingtalk".to_string()));
    let gateway = manager.get_gateway("dingtalk");
    assert!(gateway.is_some());
}

#[test]
fn test_connectivity_tester() {
    let tester = ConnectivityTester::new();
    let failed = AuthProbe::Failed("Failed to get access token: invalid".to_string());

    let dingtalk_result = tester.test_dingtalk(&dingtalk(), &failed, 0);
    assert_eq!(dingtalk_result.platform, "DingTalk");
    assert_eq!(dingtalk_result.verdict, "fail");

    let feishu_result = tester.test_feishu(&feishu(), &failed, 0);
    assert_eq!(feishu_result.platform, "Feishu");
    assert_eq!(feishu_result.verdict, "fail");

    let whatsapp_result = tester.test_whatsapp(&whatsapp(), &AuthProbe::Rejected("401 Unauthorized".to_string()), 0);
    assert_eq!(whatsapp_result.platform, "WhatsApp");
    assert_eq!(whatsapp_result.verdict, "fail");
}

#[test]
fn disabled_adapter_fails_with_one_check() {
    let tester = ConnectivityTester::new();
    let g = TelegramGateway::new(TelegramConfig::default());
    let result = tester.test_telegram(&g, &AuthProbe::Passed, 123);
    assert_eq!(result.verdict, "fail");
    assert_eq!(result.tested_at, 123);
    assert_eq!(codes(&result.checks), vec!["gateway_enabled"]);
    assert_eq!(result.checks[0].level, "fail");
    assert_eq!(result.checks[0].message, "网关未启用");
    assert_eq!(result.checks[0].suggestion, Some("请启用该网关".to_string()));
    let w = WeWorkGateway::new(WeWorkConfig::default());
    assert_eq!(codes(&tester.test_wework(&w, 0).checks), vec!["gateway_enabled"]);
}

#[test]
fn missing_credentials_fail_with_one_check() {
    let tester = ConnectivityTester::new();
    let result = tester.test_telegram(&telegram(""), &AuthProbe::Passed, 0);
    assert_eq!(result.verdict, "fail");
    assert_eq!(codes(&result.checks), vec!["missing_credentials"]);
    assert_eq!(result.checks[0].message, "缺少必要配置项: bot_token");
    let result = tester.test_wework(&wework(""), 0);
    assert_eq!(codes(&result.checks), vec!["missing_webhook_url"]);
    assert_eq!(result.checks[0].message, "缺少必要配置项: webhook_url");
    let wa = WhatsAppGateway::new(WhatsAppConfig {
        enabled: true,
        phone_number_id: None,
        access_token: Some("a".to_string()),
        debug: None,
        media_download_path: None,
    });
    let result = tester.test_whatsapp(&wa, &AuthProbe::Passed, 0);
    assert_eq!(result.checks[0].message, "缺少必要配置项: phone_number_id, access_token");
}

#[test]
fn failed_probe_fails_and_the_other_checks_still_run() {
    let tester = ConnectivityTester::new();
    let result = tester.test_dingtalk(&dingtalk(), &AuthProbe::Failed("unreachable".to_string()), 0);
    assert_eq!(result.verdict, "fail");
    assert_eq!(codes(&result.checks), vec!["auth_check", "gateway_running", "dingtalk_bot_membership_hint"]);
    assert_eq!(result.checks[0].level, "fail");
    assert_eq!(result.checks[0].message, "鉴权失败: unreachable");
    assert_eq!(result.checks[1].level, "warn");
    assert_eq!(result.checks[2].level, "info");
    let result = tester.test_discord(
        &DiscordGateway::new(DiscordConfig { enabled: true, bot_token: "t".to_string(), debug: None }),
        &AuthProbe::Rejected("401 Unauthorized".to_string()),
        0,
    );
    assert_eq!(result.checks[0].message, "鉴权失败: HTTP 401 Unauthorized");
    assert_eq!(result.checks[0].suggestion, Some("请检查 bot_token 是否正确".to_string()));
    assert_eq!(codes(&result.checks), vec!["auth_check", "gateway_running", "discord_group_requires_mention"]);
}

#[test]
fn verdict_is_warn_when_not_connected_and_pass_when_connected() {
    let tester = ConnectivityTester::new();
    let mut g = telegram("t");
    let result = tester.test_telegram(&g, &AuthProbe::Passed, 0);
    assert_eq!(result.verdict, "warn");
    assert_eq!(result.checks[0].message, "Telegram 鉴权通过");
    assert_eq!(result.checks[1].suggestion, Some("请检查网络连接".to_string()));
    g.start(0);
    g.finish_start(Ok(()), 0);
    let result = tester.test_telegram(&g, &AuthProbe::Passed, 0);
    assert_eq!(result.verdict, "pass");
    assert_eq!(codes(&result.checks), vec!["auth_check", "gateway_running", "telegram_privacy_mode_hint"]);
    let result = tester.test_feishu(&feishu(), &AuthProbe::Passed, 0);
    assert_eq!(
        codes(&result.checks),
        vec![
            "auth_check",
            "gateway_running",
            "feishu_group_requires_mention",
            "feishu_event_subscription_required"
        ]
    );
    let result = tester.test_wework(&wework("u"), 0);
    assert_eq!(codes(&result.checks), vec!["config_check", "gateway_running"]);
    assert_eq!(result.verdict, "warn");
}

#[test]
fn calculate_verdict_folds_levels() {
    let tester = ConnectivityTester::new();
    let check = |level: &str| ConnectivityCheck {
        code: "c".to_string(),
        level: level.to_string(),
        message: String::new(),
        suggestion: None,
    };
    assert_eq!(tester.calculate_verdict(&vec![]), "pass");
    assert_eq!(tester.calculate_verdict(&vec![check("info"), check("pass")]), "pass");
    assert_eq!(tester.calculate_verdict(&vec![check("pass"), check("warn")]), "warn");
    assert_eq!(tester.calculate_verdict(&vec![check("warn"), check("fail"), check("pass")]), "fail");
}

#[test]
fn manager_tests_by_name() {
    let mut m = IMManager::new_default();
    m.add_gateway("Telegram", AnyGateway::Telegram(telegram("t")));
    m.add_gateway("discord", AnyGateway::Telegram(telegram("t")));
    m.add_gateway("signal", AnyGateway::Telegram(telegram("t")));
    let r = m.test_gateway_connectivity("Telegram", &AuthProbe::Passed, 5).unwrap();
    assert_eq!(r.platform, "Telegram");
    assert!(matches!(
        m.test_gateway_connectivity("discord", &AuthProbe::Passed, 5),
        Err(ManagerError::TypeMismatch)
    ));
    match m.test_gateway_connectivity("signal", &AuthProbe::Passed, 5) {
        Err(e @ ManagerError::UnknownPlatform(_)) => assert_eq!(e.message(), "未知的网关类型: signal"),
        _ => panic!(),
    }
    match m.test_gateway_connectivity("nobody", &AuthProbe::Passed, 5) {
        Err(e @ ManagerError::UnknownGateway(_)) => assert_eq!(e.message(), "网关 nobody 不存在"),
        _ => panic!(),
    }
    assert_eq!(ManagerError::TypeMismatch.message(), "网关类型不匹配");
    let g = AnyGateway::WeWork(wework("u"));
    assert_eq!(test_connectivity_of_kind("wework", "x", &g, &AuthProbe::Passed, 1).unwrap().platform, "WeWork");
    assert!(test_connectivity_of_kind("WeWork", "x", &g, &AuthProbe::Passed, 1).is_err());
}

#[test]
fn start_all_tolerates_a_broken_adapter() {
    let mut m = IMManager::new(IMManagerConfig { enabled: true });
    m.add_gateway("broken", AnyGateway::Telegram(telegram("")));
    m.add_gateway("valid", AnyGateway::WeWork(wework("https://hook")));
    let reports = m.start_all(0);
    assert_eq!(reports.len(), 2);
    assert_eq!(reports[0].result.as_ref().unwrap_err(), "缺少必要的配置: bot_token");
    assert!(matches!(reports[1].result, Ok(NextStep::Request(_))));
    // The caller sends the trial message and hands the answer back.
    let names = m.get_gateway_names();
    assert_eq!(names, vec!["broken".to_string(), "valid".to_string()]);
    let mut m2 = IMManager::new(IMManagerConfig { enabled: true });
    m2.add_gateway("broken", AnyGateway::Telegram(telegram("")));
    let mut valid = wework("https://hook");
    valid.start(0);
    valid.finish_start(Ok(()), 10);
    m2.add_gateway("valid", AnyGateway::WeWork(valid));
    let reports = m2.start_all(0);
    assert!(reports[0].result.is_err());
    assert!(matches!(reports[1].result, Ok(NextStep::Nothing)));
    let status = m2.get_gateways_status();
    assert_eq!(status.len(), 2);
    assert_eq!(status[0].0, "broken");
    assert!(!status[0].1.connected);
    assert_eq!(status[0].1.error, Some("缺少必要的配置: bot_token".to_string()));
    assert_eq!(status[1].0, "valid");
    assert!(status[1].1.connected);
    assert_eq!(status[1].1.error, None);
    assert_eq!(m2.connected_flags(), vec![false, true]);
}

#[test]
fn start_all_does_nothing_when_the_manager_is_off() {
    let mut m = IMManager::new_default();
    m.add_gateway("w", AnyGateway::WeWork(wework("u")));
    assert!(m.start_all(0).is_empty());
    assert!(!m.get_gateways_status()[0].1.starting);
    assert!(!m.get_config().enabled);
    m.set_config(IMManagerConfig { enabled: true });
    assert_eq!(m.start_all(0).len(), 1);
    assert!(m.get_gateways_status()[0].1.starting);
}

#[test]
fn stop_all_stops_everything() {
    let mut m = IMManager::new(IMManagerConfig { enabled: true });
    let mut w = wework("u");
    w.start(0);
    w.finish_start(Ok(()), 0);
    m.add_gateway("a", AnyGateway::WeWork(w));
    m.add_gateway("b", AnyGateway::Telegram(telegram("t")));
    let events = m.stop_all();
    assert_eq!(events.len(), 2);
    assert_eq!(events[0].len(), 2);
    assert!(events[1].is_empty());
    assert_eq!(m.connected_flags(), vec![false, false]);
}

#[test]
fn start_and_stop_by_name() {
    let mut m = IMManager::new_default();
    m.add_gateway("w", AnyGateway::WeWork(wework("u")));
    assert!(matches!(m.start_gateway("w", 0).unwrap().result, Ok(NextStep::Request(_))));
    assert_eq!(m.stop_gateway("w").unwrap().len(), 2);
    match m.start_gateway("x", 0) {
        Err(e) => assert_eq!(e.message(), "网关 x 不存在"),
        Ok(_) => panic!(),
    }
    assert!(matches!(m.stop_gateway(""), Err(ManagerError::UnknownGateway(_))));
}

#[test]
fn send_message_tells_unknown_gateway_from_send_failure() {
    let mut m = IMManager::new_default();
    m.add_gateway("w", AnyGateway::WeWork(wework("u")));
    assert!(matches!(m.send_message("nobody", "c", "t", 0), Err(ManagerError::UnknownGateway(_))));
    match m.send_message("w", "c", "t", 0) {
        Err(ManagerError::Gateway(e)) => assert_eq!(e, "网关未连接"),
        _ => panic!(),
    }
    m.start_gateway("w", 0).unwrap();
    let mut w = wework("u");
    w.start(0);
    w.finish_start(Ok(()), 0);
    m.add_gateway("w", AnyGateway::WeWork(w));
    assert_eq!(m.len(), 1);
    assert!(matches!(m.send_message("w", "c", "t", 0), Ok(Outbound::Deliver(l)) if l.len() == 1));
}

#[test]
fn add_gateway_replaces_under_the_same_name() {
    let mut m = IMManager::new_default();
    m.add_gateway("a", AnyGateway::WeWork(wework("one")));
    m.add_gateway("b", AnyGateway::WeWork(wework("two")));
    m.add_gateway("a", AnyGateway::Telegram(telegram("t")));
    assert_eq!(m.get_gateway_names(), vec!["a".to_string(), "b".to_string()]);
    assert!(matches!(m.get_gateway("a"), Some(AnyGateway::Telegram(_))));
    assert!(matches!(m.gateway_at(1), AnyGateway::WeWork(_)));
    assert_eq!(m.position("b"), Some(1));
    assert_eq!(m.position("c"), None);
    assert!(m.get_gateway("A").is_none());
}

#[test]
fn notifications_go_to_connected_adapters_only() {
    let mut m = IMManager::new_default();
    m.add_gateway("off", AnyGateway::WeWork(wework("u")));
    let mut w = wework("https://hook");
    w.start(0);
    w.finish_start(Ok(()), 0);
    m.add_gateway("on", AnyGateway::WeWork(w));
    let mut t = telegram("t");
    t.start(0);
    t.finish_start(Ok(()), 0);
    m.add_gateway("tg", AnyGateway::Telegram(t));
    let list = m.send_notification("hi", 0);
    assert_eq!(list.len(), 2);
    assert_eq!(list[0].0, 1);
    assert!(list[0].1.is_ok());
    assert_eq!(list[1].0, 2);
    assert_eq!(list[1].1.as_ref().unwrap_err(), "未找到聊天ID");
    assert!(notification_outcome(1).is_ok());
    assert_eq!(notification_outcome(0).unwrap_err(), "没有网关可以发送通知");
    assert!(IMManager::new_default().send_notification("x", 0).is_empty());
}

#[test]
fn monitor_names_disconnected_adapters_while_the_network_is_up() {
    let mut monitor = NetworkMonitor::new_default();
    assert_eq!(monitor.get_network_status(), NetworkStatus::Disconnected);
    assert!(monitor.start());
    assert!(!monitor.start());
    assert!(monitor.is_running());
    let plan = monitor.tick(NetworkStatus::Disconnected, &vec![false, true]);
    assert!(!plan.stop && !plan.recovered && plan.reconnect.is_empty());
    let plan = monitor.tick(NetworkStatus::Connected, &vec![false, true, false]);
    assert!(plan.recovered);
    assert_eq!(plan.reconnect, vec![0, 2]);
    assert_eq!(monitor.get_network_status(), NetworkStatus::Connected);
    let plan = monitor.tick(NetworkStatus::Connected, &vec![true, false]);
    assert!(!plan.recovered);
    assert_eq!(plan.reconnect, vec![1]);
    let plan = monitor.tick(NetworkStatus::Connected, &vec![]);
    assert!(plan.reconnect.is_empty());
    monitor.stop();
    let plan = monitor.tick(NetworkStatus::Connected, &vec![false]);
    assert!(plan.stop && plan.reconnect.is_empty());
    assert!(!monitor.is_running());
    let c = NetworkMonitorConfig::default();
    assert!(c.enabled);
    assert_eq!(c.check_interval, 30);
    assert_eq!(c.reconnect_interval, 10);
    let mut m = NetworkMonitor::new(NetworkMonitorConfig { enabled: false, check_interval: 1, reconnect_interval: 1 });
    m.set_config(c);
    assert_eq!(m.get_config(), c);
}

#[test]
fn manager_tick_reconnects_through_the_monitor() {
    let mut m = IMManager::new(IMManagerConfig { enabled: true });
    assert!(m.monitor_tick(NetworkStatus::Connected, 0).is_none());
    m.set_network_monitor(NetworkMonitor::new_default());
    m.add_gateway("w", AnyGateway::WeWork(wework("u")));
    let mut on = wework("u");
    on.start(0);
    on.finish_start(Ok(()), 0);
    m.add_gateway("on", AnyGateway::WeWork(on));
    m.add_gateway("tg", AnyGateway::Telegram(telegram("t")));
    let down = m.monitor_tick(NetworkStatus::Disconnected, 0).unwrap();
    assert!(down.reports.is_empty());
    let up = m.monitor_tick(NetworkStatus::Connected, 0).unwrap();
    assert!(up.plan.recovered);
    assert_eq!(up.plan.reconnect, vec![0, 2]);
    assert_eq!(up.reports.len(), 3);
    assert!(matches!(up.reports[0].result, Ok(NextStep::Request(_))));
    assert!(matches!(up.reports[1].result, Ok(NextStep::Nothing)));
    assert!(matches!(up.reports[2].result, Ok(NextStep::Nothing)));
    assert_eq!(m.get_network_monitor().unwrap().get_network_status(), NetworkStatus::Connected);
    m.stop_network_monitor();
    let stopped = m.monitor_tick(NetworkStatus::Connected, 0).unwrap();
    assert!(stopped.plan.stop);
    assert!(stopped.reports.is_empty());
}

#[test]
fn replies_go_back_into_the_conversation() {
    let message = || IMMessage {
        id: "1".to_string(),
        platform: "wework".to_string(),
        channel_id: "conv".to_string(),
        user_id: "u".to_string(),
        user_name: "n".to_string(),
        content: "what".to_string(),
        timestamp: 0,
        is_mention: false,
    };
    let mut m = IMManager::new_default();
    let mut w = wework("https://hook");
    w.start(0);
    w.finish_start(Ok(()), 0);
    m.add_gateway("w", AnyGateway::WeWork(w));
    assert!(m.dispatch_event(0, GatewayEvent::Message(message()), 0).is_none());
    m.set_message_handler(MessageHandler::new_default());
    assert!(m.get_message_handler().is_some());
    match m.dispatch_event(0, GatewayEvent::Message(message()), 0) {
        Some(Ok(Outbound::Deliver(list))) => {
            assert_eq!(format!("{:?}", list[0].request.body).contains("收到消息: what"), true)
        }
        _ => panic!(),
    }
    assert!(m.dispatch_event(0, GatewayEvent::Connected, 0).is_none());
    assert!(m.dispatch_event(5, GatewayEvent::Message(message()), 0).is_none());
    m.set_message_handler(MessageHandler::new(MessageHandlerConfig { mode: MessageMode::Chat, enabled: false }));
    assert!(m.dispatch_event(0, GatewayEvent::Message(message()), 0).is_none());
}

#[test]
fn probe_is_due_for_an_enabled_adapter_with_credentials() {
    let mut m = IMManager::new_default();
    assert!(!m.probe_is_due("telegram"));
    m.add_gateway("telegram", AnyGateway::Telegram(telegram("t")));
    m.add_gateway("empty", AnyGateway::Telegram(telegram("")));
    m.add_gateway("dingtalk", AnyGateway::DingTalk(dingtalk()));
    m.add_gateway("feishu", AnyGateway::Feishu(feishu()));
    m.add_gateway("whatsapp", AnyGateway::WhatsApp(whatsapp()));
    m.add_gateway("wework", AnyGateway::WeWork(wework("u")));
    m.add_gateway("nowhere", AnyGateway::WeWork(wework("")));
    assert!(m.probe_is_due("telegram"));
    assert!(!m.probe_is_due("empty"));
    assert!(m.probe_is_due("dingtalk"));
    assert!(m.probe_is_due("feishu"));
    assert!(m.probe_is_due("whatsapp"));
    assert!(m.probe_is_due("wework"));
    assert!(!m.probe_is_due("nowhere"));
    assert!(!m.probe_is_due("Telegram"));

    let mut off = dingtalk().get_config();
    off.enabled = false;
    m.add_gateway("off", AnyGateway::DingTalk(DingTalkGateway::new(off)));
    assert!(!m.probe_is_due("off"));
    let mut half = dingtalk().get_config();
    half.client_secret = String::new();
    assert!(!AnyGateway::DingTalk(DingTalkGateway::new(half)).probe_is_due());
    let mut half = feishu().get_config();
    half.app_id = String::new();
    assert!(!AnyGateway::Feishu(FeishuGateway::new(half)).probe_is_due());
    let mut half = whatsapp().get_config();
    half.access_token = None;
    assert!(!AnyGateway::WhatsApp(WhatsAppGateway::new(half)).probe_is_due());

    // Where the probe is not due, its outcome does not change the result.
    let a = m.test_gateway_connectivity("off", &AuthProbe::Passed, 9);
    let b = m.test_gateway_connectivity("off", &AuthProbe::Failed("x".to_string()), 9);
    assert!(matches!(a, Err(ManagerError::UnknownPlatform(_))));
    assert!(matches!(b, Err(ManagerError::UnknownPlatform(_))));
    let g = AnyGateway::Telegram(telegram(""));
    let a = test_connectivity_of_kind("telegram", "t", &g, &AuthProbe::Passed, 9).unwrap();
    let b = test_connectivity_of_kind("telegram", "t", &g, &AuthProbe::Failed("x".to_string()), 9).unwrap();
    assert_eq!(a.verdict, "fail");
    assert_eq!(a.checks.len(), 1);
    assert_eq!(a.checks[0].code, b.checks[0].code);
    assert_eq!(a.checks[0].message, b.checks[0].message);
    assert_eq!(b.checks.len(), 1);
}
