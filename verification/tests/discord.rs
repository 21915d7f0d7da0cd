use ggai::im::discord::{
    content_type_for, history_from_reply, DiscordConfig, DiscordGateway, DiscordHistoryMessage,
};
use ggai::im::gateway::{Gateway, GatewayEvent, NextStep, Outbound};
use ggai::im::http::{HttpBody, HttpMethod, Json};

fn show(j: &Json) -> String {
    match j {
        Json::Null => "null".to_string(),
        Json::Bool(b) => format!("{}", b),
        Json::Number(n) => format!("{}", n),
        Json::Text(s) => format!("{:?}", s),
        Json::Encoded(inner) => format!("enc({})", show(inner)),
        Json::List(items) => {
            let parts: Vec<String> = items.iter().map(show).collect();
            format!("[{}]", parts.join(","))
        }
        Json::Object(members) => {
            let parts: Vec<String> =
                members.iter().map(|(k, v)| format!("{:?}:{}", k, show(v))).collect();
            format!("{{{}}}", parts.join(","))
        }
    }
}

fn gateway() -> DiscordGateway {
    DiscordGateway::new(DiscordConfig { enabled: true, bot_token: "TK".to_string(), debug: None })
}

fn connected() -> DiscordGateway {
    let mut g = gateway();
    g.start(0);
    g.identity_checked(Ok("BOT".to_string()));
    g.finish_start(Ok(()), 1);
    g
}

#[test]
fn start_checks_identity_then_opens_the_socket() {
    let mut g = gateway();
    match g.start(0).result {
        Ok(NextStep::Request(r)) => {
            assert_eq!(r.method, HttpMethod::Get);
            assert_eq!(r.url, "https://discord.com/api/v10/users/@me");
            assert_eq!(
                r.headers,
                vec![
                    ("Authorization".to_string(), "Bot TK".to_string()),
                    ("Content-Type".to_string(), "application/json".to_string()),
                ]
            );
        }
        _ => panic!(),
    }
    match g.identity_checked(Ok("BOT".to_string())).result {
        Ok(NextStep::Connect(url)) => assert_eq!(url, "wss://gateway.discord.gg/?v=10&encoding=json"),
        _ => panic!(),
    }
    assert!(g.get_status().starting);
    let done = g.finish_start(Ok(()), 5);
    assert!(matches!(done.result, Ok(NextStep::Nothing)));
    assert!(g.is_connected());
}

#[test]
fn start_failures_are_recorded() {
    let mut g = gateway();
    g.start(0);
    let r = g.identity_checked(Err("Failed to get user: 401 Unauthorized".to_string()));
    assert_eq!(r.result.unwrap_err(), "Failed to get user: 401 Unauthorized");
    assert_eq!(
        g.get_status().error,
        Some("验证 bot token 失败: Failed to get user: 401 Unauthorized".to_string())
    );
    let mut g = gateway();
    g.start(0);
    g.identity_checked(Ok("BOT".to_string()));
    let r = g.finish_start(Err("refused".to_string()), 1);
    assert_eq!(r.result.unwrap_err(), "refused");
    assert_eq!(g.get_status().error, Some("Gateway启动失败: refused".to_string()));
    assert!(!g.get_status().starting);
    assert!(DiscordGateway::check_user_reply(true, "200 OK").is_ok());
    assert_eq!(
        DiscordGateway::check_user_reply(false, "403 Forbidden").unwrap_err(),
        "Failed to get user: 403 Forbidden"
    );
}

#[test]
fn hello_sets_interval_and_asks_for_identify() {
    let mut g = connected();
    assert_eq!(g.heartbeat_interval_ms(), 41250);
    let out = g.handle_frame("{\"op\":10,\"d\":{\"heartbeat_interval\":45000},\"s\":null,\"t\":null}", 0);
    assert!(!out.reconnect);
    assert!(out.events.is_empty());
    assert_eq!(
        show(out.send.as_ref().unwrap()),
        "{\"op\":2,\"d\":{\"token\":\"TK\",\"intents\":513,\"properties\":{\"os\":\"desktop\",\"browser\":\"GloAI\",\"device\":\"GloAI\"}}}"
    );
    assert_eq!(g.heartbeat_interval_ms(), 45000);
    assert_eq!(show(&g.create_identify_payload()), show(out.send.as_ref().unwrap()));
    // A greeting without an interval asks for nothing.
    let out = g.handle_frame("{\"op\":10,\"d\":{}}", 0);
    assert!(out.send.is_none());
    let out = g.handle_frame("{\"op\":10,\"d\":{\"heartbeat_interval\":-5}}", 0);
    assert!(out.send.is_none());
    assert_eq!(g.heartbeat_interval_ms(), 45000);
}

#[test]
fn sequence_numbers_go_into_heartbeats() {
    let mut g = connected();
    assert_eq!(show(&g.create_heartbeat_payload()), "{\"op\":1,\"d\":null}");
    g.handle_frame("{\"op\":0,\"d\":{},\"s\":17,\"t\":\"READY\"}", 0);
    assert_eq!(show(&g.create_heartbeat_payload()), "{\"op\":1,\"d\":17}");
    g.handle_frame("{\"op\":11,\"d\":null}", 0);
    assert_eq!(show(&g.create_heartbeat_payload()), "{\"op\":1,\"d\":17}");
    g.handle_frame("{\"op\":0,\"d\":{},\"s\":18}", 0);
    assert_eq!(show(&g.create_heartbeat_payload()), "{\"op\":1,\"d\":18}");
}

#[test]
fn reconnect_and_invalid_session_end_the_connection() {
    let mut g = connected();
    assert!(g.handle_frame("{\"op\":7,\"d\":null}", 0).reconnect);
    assert!(g.handle_frame("{\"op\":9,\"d\":false}", 0).reconnect);
    assert!(!g.handle_frame("{\"op\":11,\"d\":null}", 0).reconnect);
}

#[test]
fn message_create_from_others_is_reported() {
    let mut g = connected();
    let frame = "{\"op\":0,\"s\":3,\"t\":\"MESSAGE_CREATE\",\"d\":{\"id\":\"m1\",\"channel_id\":\"c9\",\"content\":\"hello\",\"author\":{\"id\":\"u1\",\"username\":\"ann\"}}}";
    let out = g.handle_frame(frame, 1234);
    assert_eq!(out.events.len(), 1);
    match &out.events[0] {
        GatewayEvent::Message(m) => {
            assert_eq!(m.id, "m1");
            assert_eq!(m.platform, "discord");
            assert_eq!(m.channel_id, "c9");
            assert_eq!(m.user_id, "u1");
            assert_eq!(m.user_name, "ann");
            assert_eq!(m.content, "hello");
            assert_eq!(m.timestamp, 1234);
        }
        _ => panic!(),
    }
    // The channel is now the last conversation.
    match g.send_notification("pong", 0).unwrap() {
        Outbound::Deliver(list) => {
            assert_eq!(list[0].request.url, "https://discord.com/api/v10/channels/c9/messages");
            match &list[0].request.body {
                HttpBody::Json(j) => assert_eq!(show(j), "{\"content\":\"pong\"}"),
                _ => panic!(),
            }
        }
        _ => panic!(),
    }
}

#[test]
fn own_messages_empty_messages_and_other_events_are_ignored() {
    let mut g = connected();
    let own = "{\"op\":0,\"t\":\"MESSAGE_CREATE\",\"d\":{\"id\":\"m\",\"channel_id\":\"c\",\"content\":\"x\",\"author\":{\"id\":\"BOT\",\"username\":\"me\"}}}";
    assert!(g.handle_frame(own, 0).events.is_empty());
    let empty = "{\"op\":0,\"t\":\"MESSAGE_CREATE\",\"d\":{\"content\":\"\",\"author\":{\"id\":\"u\"}}}";
    assert!(g.handle_frame(empty, 0).events.is_empty());
    let no_content = "{\"op\":0,\"t\":\"MESSAGE_CREATE\",\"d\":{\"author\":{\"id\":\"u\"}}}";
    assert!(g.handle_frame(no_content, 0).events.is_empty());
    let other = "{\"op\":0,\"t\":\"TYPING_START\",\"d\":{\"content\":\"x\"}}";
    assert!(g.handle_frame(other, 0).events.is_empty());
    assert_eq!(g.send_notification("x", 0).unwrap_err(), "没有可用的聊天频道");
    // Missing members read as empty texts.
    let bare = "{\"op\":0,\"t\":\"MESSAGE_CREATE\",\"d\":{\"content\":\"x\"}}";
    let out = g.handle_frame(bare, 0);
    assert!(matches!(&out.events[0], GatewayEvent::Message(m)
        if m.id.is_empty() && m.user_id.is_empty() && m.channel_id.is_empty()));
}

#[test]
fn parsed_frames_are_handled_as_text_frames_are() {
    let mut g = connected();
    let doc: serde_json::Value = serde_json::from_str("{\"op\":7,\"d\":null,\"s\":4}").unwrap();
    let out = g.handle_payload(&doc, 0);
    assert!(out.reconnect);
    assert_eq!(show(&g.create_heartbeat_payload()), "{\"op\":1,\"d\":4}");
    let none: serde_json::Value = serde_json::from_str("[7]").unwrap();
    assert!(!g.handle_payload(&none, 0).reconnect);
}

#[test]
fn unreadable_frames_are_ignored() {
    let mut g = connected();
    for frame in [
        "",
        "not json",
        "[1,2]",
        "{\"d\":{}}",
        "{\"op\":\"10\",\"d\":{}}",
        "{\"op\":10}",
        "{\"op\":4294967296,\"d\":{}}",
        "{\"op\":0,\"d\":{},\"s\":\"x\"}",
        "{\"op\":0,\"d\":{},\"t\":5}",
        "{\"op\":1.5,\"d\":{}}",
    ] {
        let out = g.handle_frame(frame, 0);
        assert!(out.send.is_none() && !out.reconnect && out.events.is_empty(), "{}", frame);
    }
    assert_eq!(show(&g.create_heartbeat_payload()), "{\"op\":1,\"d\":null}");
}

#[test]
fn three_losses_double_the_delay_and_a_planned_start_resets_it() {
    let mut g = connected();
    let (events, d1) = g.connection_lost();
    assert!(matches!(&events[..], [GatewayEvent::Disconnected]));
    assert!(!g.is_connected());
    assert_eq!(d1, Some(3000));
    g.reconnect();
    g.identity_checked(Ok("BOT".to_string()));
    g.finish_start(Ok(()), 2);
    assert_eq!(g.connection_lost().1, Some(6000));
    assert!(matches!(g.reconnect().result, Ok(NextStep::Request(_))));
    assert_eq!(g.connection_lost().1, Some(12000));
    g.stop();
    assert_eq!(g.connection_lost().1, None);
    assert!(matches!(g.reconnect().result, Ok(NextStep::Nothing)));
    g.start(0);
    g.identity_checked(Ok("BOT".to_string()));
    g.finish_start(Ok(()), 3);
    assert_eq!(g.connection_lost().1, Some(3000));
}

#[test]
fn rest_requests() {
    let g = connected();
    match g.edit_message("c", "m", "t").unwrap() {
        Outbound::Deliver(list) => {
            let r = &list[0].request;
            assert_eq!(r.method, HttpMethod::Patch);
            assert_eq!(r.url, "https://discord.com/api/v10/channels/c/messages/m");
            assert_eq!(r.headers, vec![("Authorization".to_string(), "Bot TK".to_string())]);
        }
        _ => panic!(),
    }
    match g.delete_message("c", "m").unwrap() {
        Outbound::Deliver(list) => {
            assert_eq!(list[0].request.method, HttpMethod::Delete);
            assert!(matches!(list[0].request.body, HttpBody::Empty));
        }
        _ => panic!(),
    }
    match g.get_message_history("c", 25).unwrap() {
        Outbound::Deliver(list) => {
            assert_eq!(list[0].request.url, "https://discord.com/api/v10/channels/c/messages?limit=25")
        }
        _ => panic!(),
    }
    match g.get_message_history("c", 0).unwrap() {
        Outbound::Deliver(list) => assert!(list[0].request.url.ends_with("?limit=0")),
        _ => panic!(),
    }
    match g.get_message_history("c", u32::MAX).unwrap() {
        Outbound::Deliver(list) => assert!(list[0].request.url.ends_with("?limit=4294967295")),
        _ => panic!(),
    }
    match g.send_media_message("c", "/x/clip.MP4", 0).unwrap() {
        Outbound::Deliver(list) => match &list[0].request.body {
            HttpBody::Multipart(f) => {
                assert_eq!(f.file_name, "clip.MP4");
                assert_eq!(f.file_path, "/x/clip.MP4");
                assert_eq!(f.mime_type, Some("video/mp4".to_string()));
                assert_eq!(f.text_fields, vec![("content".to_string(), String::new())]);
                assert_eq!(f.file_field, "file");
            }
            _ => panic!(),
        },
        _ => panic!(),
    }
    let off = gateway();
    assert_eq!(off.send_message("c", "t", 0).unwrap_err(), "网关未连接");
    assert_eq!(off.get_message_history("c", 1).unwrap_err(), "网关未连接");
    assert_eq!(off.send_media_message("c", "/a", 0).unwrap_err(), "网关未连接");
    assert_eq!(content_type_for("png"), "image/png");
    assert_eq!(content_type_for("jpeg"), "image/png");
    assert_eq!(content_type_for("wav"), "audio/mpeg");
    assert_eq!(content_type_for("zip"), "application/octet-stream");
    assert_eq!(g.get_api_url("/x"), "https://discord.com/api/v10/x");
}

#[test]
fn history_carries_the_time_of_reading() {
    let list = history_from_reply(
        "chan",
        &vec![DiscordHistoryMessage {
            id: "1".to_string(),
            author_id: "a".to_string(),
            author_name: "n".to_string(),
            content: "c".to_string(),
        }],
        99,
    );
    assert_eq!(list.len(), 1);
    assert_eq!(list[0].channel_id, "chan");
    assert_eq!(list[0].timestamp, 99);
    assert_eq!(list[0].user_name, "n");
    assert!(history_from_reply("c", &vec![], 0).is_empty());
}
