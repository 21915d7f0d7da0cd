//! The unified gateway contract, its per-platform adapters and the registry
//! that dispatches between them.

pub mod backoff;
pub mod connectivity_test;
pub mod dingtalk;
pub mod discord;
pub mod feishu;
pub mod gateway;
pub mod http;
pub mod json;
pub mod keyed;
pub mod logging;
pub mod message_handler;
pub mod network_monitor;
pub mod stream;
pub mod text;
pub mod token;
pub mod telegram;
pub mod wework;
pub mod whatsapp;

use vstd::prelude::*;
use crate::im::connectivity_test::{dingtalk_result_of, discord_result_of, feishu_result_of, telegram_result_of, wework_result_of, whatsapp_result_of, AuthProbe, AuthProbeView, ConnectivityTestResult, ConnectivityTestResultView, ConnectivityTester};
use crate::im::dingtalk::DingTalkGateway;
use crate::im::discord::DiscordGateway;
use crate::im::feishu::FeishuGateway;
use crate::im::gateway::{answers_gate, events_at_gate, events_at_stop, events_view, outbound_view, start_gate, status_after_gate, Capabilities, Gateway, GatewayEvent, GatewayEventView, GatewayStatus, GatewayStatusView, NextStepView, Outbound, OutboundView, StartGate, StartReport, StartReportView};
use crate::im::logging::{LogConfigView, LogLevel, Logger};
use crate::im::message_handler::{answers, MessageHandler, MessageHandlerConfig};
use crate::im::network_monitor::{recovered_of, NetworkMonitor, NetworkMonitorView, NetworkStatus, TickPlan};
use crate::im::telegram::TelegramGateway;
use crate::im::text::{concat3, lowercase, str_eq, to_lowercase};
use crate::im::wework::WeWorkGateway;
use crate::im::whatsapp::WhatsAppGateway;

verus! {

/// Configuration of the manager.
#[derive(Debug, Clone, Copy, PartialEq, Eq, Structural)]
pub struct IMManagerConfig {
    pub enabled: bool,
}

impl Default for IMManagerConfig {
    fn default() -> (c: IMManagerConfig)
        ensures
            !c.enabled,
    {
        IMManagerConfig { enabled: false }
    }
}

/// An adapter of any platform.
pub enum AnyGateway {
    DingTalk(DingTalkGateway),
    Feishu(FeishuGateway),
    Telegram(TelegramGateway),
    Discord(DiscordGateway),
    WeWork(WeWorkGateway),
    WhatsApp(WhatsAppGateway),
}

impl Gateway for AnyGateway {
    open spec fn status(&self) -> GatewayStatusView {
        match self {
            AnyGateway::DingTalk(g) => g.status(),
            AnyGateway::Feishu(g) => g.status(),
            AnyGateway::Telegram(g) => g.status(),
            AnyGateway::Discord(g) => g.status(),
            AnyGateway::WeWork(g) => g.status(),
            AnyGateway::WhatsApp(g) => g.status(),
        }
    }

    open spec fn enabled(&self) -> bool {
        match self {
            AnyGateway::DingTalk(g) => g.enabled(),
            AnyGateway::Feishu(g) => g.enabled(),
            AnyGateway::Telegram(g) => g.enabled(),
            AnyGateway::Discord(g) => g.enabled(),
            AnyGateway::WeWork(g) => g.enabled(),
            AnyGateway::WhatsApp(g) => g.enabled(),
        }
    }

    open spec fn missing_credentials(&self) -> Option<Seq<char>> {
        match self {
            AnyGateway::DingTalk(g) => g.missing_credentials(),
            AnyGateway::Feishu(g) => g.missing_credentials(),
            AnyGateway::Telegram(g) => g.missing_credentials(),
            AnyGateway::Discord(g) => g.missing_credentials(),
            AnyGateway::WeWork(g) => g.missing_credentials(),
            AnyGateway::WhatsApp(g) => g.missing_credentials(),
        }
    }

    open spec fn reconnect_barred(&self) -> bool {
        match self {
            AnyGateway::DingTalk(g) => g.reconnect_barred(),
            AnyGateway::Feishu(g) => g.reconnect_barred(),
            AnyGateway::Telegram(g) => g.reconnect_barred(),
            AnyGateway::Discord(g) => g.reconnect_barred(),
            AnyGateway::WeWork(g) => g.reconnect_barred(),
            AnyGateway::WhatsApp(g) => g.reconnect_barred(),
        }
    }

    open spec fn capabilities_spec(&self) -> Capabilities {
        match self {
            AnyGateway::DingTalk(g) => g.capabilities_spec(),
            AnyGateway::Feishu(g) => g.capabilities_spec(),
            AnyGateway::Telegram(g) => g.capabilities_spec(),
            AnyGateway::Discord(g) => g.capabilities_spec(),
            AnyGateway::WeWork(g) => g.capabilities_spec(),
            AnyGateway::WhatsApp(g) => g.capabilities_spec(),
        }
    }

    open spec fn notification_plan(&self, text: Seq<char>, now: i64) -> Result<OutboundView, Seq<char>> {
        match self {
            AnyGateway::DingTalk(g) => g.notification_plan(text, now),
            AnyGateway::Feishu(g) => g.notification_plan(text, now),
            AnyGateway::Telegram(g) => g.notification_plan(text, now),
            AnyGateway::Discord(g) => g.notification_plan(text, now),
            AnyGateway::WeWork(g) => g.notification_plan(text, now),
            AnyGateway::WhatsApp(g) => g.notification_plan(text, now),
        }
    }

    open spec fn message_plan(&self, conversation_id: Seq<char>, text: Seq<char>, now: i64) -> Result<
        OutboundView,
        Seq<char>,
    > {
        match self {
            AnyGateway::DingTalk(g) => g.message_plan(conversation_id, text, now),
            AnyGateway::Feishu(g) => g.message_plan(conversation_id, text, now),
            AnyGateway::Telegram(g) => g.message_plan(conversation_id, text, now),
            AnyGateway::Discord(g) => g.message_plan(conversation_id, text, now),
            AnyGateway::WeWork(g) => g.message_plan(conversation_id, text, now),
            AnyGateway::WhatsApp(g) => g.message_plan(conversation_id, text, now),
        }
    }

    open spec fn media_plan(
        &self,
        conversation_id: Seq<char>,
        file_path: Seq<char>,
        file_name: Seq<char>,
        ext: Seq<char>,
        now: i64,
    ) -> Result<OutboundView, Seq<char>> {
                match self {
            AnyGateway::DingTalk(g) => g.media_plan(conversation_id, file_path, file_name, ext, now),
            AnyGateway::Feishu(g) => g.media_plan(conversation_id, file_path, file_name, ext, now),
            AnyGateway::Telegram(g) => g.media_plan(conversation_id, file_path, file_name, ext, now),
            AnyGateway::Discord(g) => g.media_plan(conversation_id, file_path, file_name, ext, now),
            AnyGateway::WeWork(g) => g.media_plan(conversation_id, file_path, file_name, ext, now),
            AnyGateway::WhatsApp(g) => g.media_plan(conversation_id, file_path, file_name, ext, now),
        }
    }

    open spec fn edit_plan(&self, conversation_id: Seq<char>, message_id: Seq<char>, new_text: Seq<char>) -> Result<
        OutboundView,
        Seq<char>,
    > {
                match self {
            AnyGateway::DingTalk(g) => g.edit_plan(conversation_id, message_id, new_text),
            AnyGateway::Feishu(g) => g.edit_plan(conversation_id, message_id, new_text),
            AnyGateway::Telegram(g) => g.edit_plan(conversation_id, message_id, new_text),
            AnyGateway::Discord(g) => g.edit_plan(conversation_id, message_id, new_text),
            AnyGateway::WeWork(g) => g.edit_plan(conversation_id, message_id, new_text),
            AnyGateway::WhatsApp(g) => g.edit_plan(conversation_id, message_id, new_text),
        }
    }

    open spec fn delete_plan(&self, conversation_id: Seq<char>, message_id: Seq<char>) -> Result<
        OutboundView,
        Seq<char>,
    > {
                match self {
            AnyGateway::DingTalk(g) => g.delete_plan(conversation_id, message_id),
            AnyGateway::Feishu(g) => g.delete_plan(conversation_id, message_id),
            AnyGateway::Telegram(g) => g.delete_plan(conversation_id, message_id),
            AnyGateway::Discord(g) => g.delete_plan(conversation_id, message_id),
            AnyGateway::WeWork(g) => g.delete_plan(conversation_id, message_id),
            AnyGateway::WhatsApp(g) => g.delete_plan(conversation_id, message_id),
        }
    }

    open spec fn history_plan(&self, conversation_id: Seq<char>, limit: u32) -> Result<OutboundView, Seq<char>> {
                match self {
            AnyGateway::DingTalk(g) => g.history_plan(conversation_id, limit),
            AnyGateway::Feishu(g) => g.history_plan(conversation_id, limit),
            AnyGateway::Telegram(g) => g.history_plan(conversation_id, limit),
            AnyGateway::Discord(g) => g.history_plan(conversation_id, limit),
            AnyGateway::WeWork(g) => g.history_plan(conversation_id, limit),
            AnyGateway::WhatsApp(g) => g.history_plan(conversation_id, limit),
        }
    }

    fn capabilities(&self) -> (c: Capabilities) {
        match self {
            AnyGateway::DingTalk(g) => g.capabilities(),
            AnyGateway::Feishu(g) => g.capabilities(),
            AnyGateway::Telegram(g) => g.capabilities(),
            AnyGateway::Discord(g) => g.capabilities(),
            AnyGateway::WeWork(g) => g.capabilities(),
            AnyGateway::WhatsApp(g) => g.capabilities(),
        }
    }

    fn is_connected(&self) -> (connected: bool) {
        match self {
            AnyGateway::DingTalk(g) => g.is_connected(),
            AnyGateway::Feishu(g) => g.is_connected(),
            AnyGateway::Telegram(g) => g.is_connected(),
            AnyGateway::Discord(g) => g.is_connected(),
            AnyGateway::WeWork(g) => g.is_connected(),
            AnyGateway::WhatsApp(g) => g.is_connected(),
        }
    }

    fn get_status(&self) -> (status: GatewayStatus) {
        match self {
            AnyGateway::DingTalk(g) => g.get_status(),
            AnyGateway::Feishu(g) => g.get_status(),
            AnyGateway::Telegram(g) => g.get_status(),
            AnyGateway::Discord(g) => g.get_status(),
            AnyGateway::WeWork(g) => g.get_status(),
            AnyGateway::WhatsApp(g) => g.get_status(),
        }
    }

    fn start(&mut self, now: i64) -> (report: StartReport)
        ensures
            final(self).same_platform(*old(self)),
    {
        match self {
            AnyGateway::DingTalk(g) => g.start(now),
            AnyGateway::Feishu(g) => g.start(now),
            AnyGateway::Telegram(g) => g.start(now),
            AnyGateway::Discord(g) => g.start(now),
            AnyGateway::WeWork(g) => g.start(now),
            AnyGateway::WhatsApp(g) => g.start(now),
        }
    }

    fn stop(&mut self) -> (events: Vec<GatewayEvent>)
        ensures
            final(self).same_platform(*old(self)),
    {
        match self {
            AnyGateway::DingTalk(g) => g.stop(),
            AnyGateway::Feishu(g) => g.stop(),
            AnyGateway::Telegram(g) => g.stop(),
            AnyGateway::Discord(g) => g.stop(),
            AnyGateway::WeWork(g) => g.stop(),
            AnyGateway::WhatsApp(g) => g.stop(),
        }
    }

    fn reconnect_if_needed(&mut self, now: i64) -> (report: StartReport)
        ensures
            final(self).same_platform(*old(self)),
    {
        match self {
            AnyGateway::DingTalk(g) => g.reconnect_if_needed(now),
            AnyGateway::Feishu(g) => g.reconnect_if_needed(now),
            AnyGateway::Telegram(g) => g.reconnect_if_needed(now),
            AnyGateway::Discord(g) => g.reconnect_if_needed(now),
            AnyGateway::WeWork(g) => g.reconnect_if_needed(now),
            AnyGateway::WhatsApp(g) => g.reconnect_if_needed(now),
        }
    }

    fn send_notification(&self, text: &str, now: i64) -> (r: Result<Outbound, String>) {
        match self {
            AnyGateway::DingTalk(g) => g.send_notification(text, now),
            AnyGateway::Feishu(g) => g.send_notification(text, now),
            AnyGateway::Telegram(g) => g.send_notification(text, now),
            AnyGateway::Discord(g) => g.send_notification(text, now),
            AnyGateway::WeWork(g) => g.send_notification(text, now),
            AnyGateway::WhatsApp(g) => g.send_notification(text, now),
        }
    }

    fn send_message(&self, conversation_id: &str, text: &str, now: i64) -> (r: Result<Outbound, String>) {
        match self {
            AnyGateway::DingTalk(g) => g.send_message(conversation_id, text, now),
            AnyGateway::Feishu(g) => g.send_message(conversation_id, text, now),
            AnyGateway::Telegram(g) => g.send_message(conversation_id, text, now),
            AnyGateway::Discord(g) => g.send_message(conversation_id, text, now),
            AnyGateway::WeWork(g) => g.send_message(conversation_id, text, now),
            AnyGateway::WhatsApp(g) => g.send_message(conversation_id, text, now),
        }
    }

    fn send_media_message(&self, conversation_id: &str, file_path: &str, now: i64) -> (r: Result<
        Outbound,
        String,
    >) {
        match self {
            AnyGateway::DingTalk(g) => {
                let r = g.send_media_message(conversation_id, file_path, now);
                proof {
                    let found = choose|file_name: Seq<char>, ext: Seq<char>|
                        outbound_view(r) == #[trigger] g.media_plan(
                            conversation_id@,
                            file_path@,
                            file_name,
                            ext,
                            now,
                        );
                    assert(outbound_view(r) == self.media_plan(
                        conversation_id@,
                        file_path@,
                        found.0,
                        found.1,
                        now,
                    ));
                }
                r
            },
            AnyGateway::Feishu(g) => {
                let r = g.send_media_message(conversation_id, file_path, now);
                proof {
                    let found = choose|file_name: Seq<char>, ext: Seq<char>|
                        outbound_view(r) == #[trigger] g.media_plan(
                            conversation_id@,
                            file_path@,
                            file_name,
                            ext,
                            now,
                        );
                    assert(outbound_view(r) == self.media_plan(
                        conversation_id@,
                        file_path@,
                        found.0,
                        found.1,
                        now,
                    ));
                }
                r
            },
            AnyGateway::Telegram(g) => {
                let r = g.send_media_message(conversation_id, file_path, now);
                proof {
                    let found = choose|file_name: Seq<char>, ext: Seq<char>|
                        outbound_view(r) == #[trigger] g.media_plan(
                            conversation_id@,
                            file_path@,
                            file_name,
                            ext,
                            now,
                        );
                    assert(outbound_view(r) == self.media_plan(
                        conversation_id@,
                        file_path@,
                        found.0,
                        found.1,
                        now,
                    ));
                }
                r
            },
            AnyGateway::Discord(g) => {
                let r = g.send_media_message(conversation_id, file_path, now);
                proof {
                    let found = choose|file_name: Seq<char>, ext: Seq<char>|
                        outbound_view(r) == #[trigger] g.media_plan(
                            conversation_id@,
                            file_path@,
                            file_name,
                            ext,
                            now,
                        );
                    assert(outbound_view(r) == self.media_plan(
                        conversation_id@,
                        file_path@,
                        found.0,
                        found.1,
                        now,
                    ));
                }
                r
            },
            AnyGateway::WeWork(g) => {
                let r = g.send_media_message(conversation_id, file_path, now);
                proof {
                    let found = choose|file_name: Seq<char>, ext: Seq<char>|
                        outbound_view(r) == #[trigger] g.media_plan(
                            conversation_id@,
                            file_path@,
                            file_name,
                            ext,
                            now,
                        );
                    assert(outbound_view(r) == self.media_plan(
                        conversation_id@,
                        file_path@,
                        found.0,
                        found.1,
                        now,
                    ));
                }
                r
            },
            AnyGateway::WhatsApp(g) => {
                let r = g.send_media_message(conversation_id, file_path, now);
                proof {
                    let found = choose|file_name: Seq<char>, ext: Seq<char>|
                        outbound_view(r) == #[trigger] g.media_plan(
                            conversation_id@,
                            file_path@,
                            file_name,
                            ext,
                            now,
                        );
                    assert(outbound_view(r) == self.media_plan(
                        conversation_id@,
                        file_path@,
                        found.0,
                        found.1,
                        now,
                    ));
                }
                r
            },
        }
    }

    fn edit_message(&self, conversation_id: &str, message_id: &str, new_text: &str) -> (r: Result<
        Outbound,
        String,
    >) {
        match self {
            AnyGateway::DingTalk(g) => g.edit_message(conversation_id, message_id, new_text),
            AnyGateway::Feishu(g) => g.edit_message(conversation_id, message_id, new_text),
            AnyGateway::Telegram(g) => g.edit_message(conversation_id, message_id, new_text),
            AnyGateway::Discord(g) => g.edit_message(conversation_id, message_id, new_text),
            AnyGateway::WeWork(g) => g.edit_message(conversation_id, message_id, new_text),
            AnyGateway::WhatsApp(g) => g.edit_message(conversation_id, message_id, new_text),
        }
    }

    fn delete_message(&self, conversation_id: &str, message_id: &str) -> (r: Result<Outbound, String>) {
        match self {
            AnyGateway::DingTalk(g) => g.delete_message(conversation_id, message_id),
            AnyGateway::Feishu(g) => g.delete_message(conversation_id, message_id),
            AnyGateway::Telegram(g) => g.delete_message(conversation_id, message_id),
            AnyGateway::Discord(g) => g.delete_message(conversation_id, message_id),
            AnyGateway::WeWork(g) => g.delete_message(conversation_id, message_id),
            AnyGateway::WhatsApp(g) => g.delete_message(conversation_id, message_id),
        }
    }

    fn get_message_history(&self, conversation_id: &str, limit: u32) -> (r: Result<Outbound, String>) {
        match self {
            AnyGateway::DingTalk(g) => g.get_message_history(conversation_id, limit),
            AnyGateway::Feishu(g) => g.get_message_history(conversation_id, limit),
            AnyGateway::Telegram(g) => g.get_message_history(conversation_id, limit),
            AnyGateway::Discord(g) => g.get_message_history(conversation_id, limit),
            AnyGateway::WeWork(g) => g.get_message_history(conversation_id, limit),
            AnyGateway::WhatsApp(g) => g.get_message_history(conversation_id, limit),
        }
    }

    fn record_outbound(&mut self, now_ms: i64)
        ensures
            final(self).same_platform(*old(self)),
    {
        match self {
            AnyGateway::DingTalk(g) => g.record_outbound(now_ms),
            AnyGateway::Feishu(g) => g.record_outbound(now_ms),
            AnyGateway::Telegram(g) => g.record_outbound(now_ms),
            AnyGateway::Discord(g) => g.record_outbound(now_ms),
            AnyGateway::WeWork(g) => g.record_outbound(now_ms),
            AnyGateway::WhatsApp(g) => g.record_outbound(now_ms),
        }
    }
}

impl AnyGateway {
    /// Whether a test of this adapter calls for the authentication probe.
    pub fn probe_is_due(&self) -> (due: bool)
        ensures
            due == probe_due_of(*self),
    {
        match self {
            AnyGateway::DingTalk(g) => {
                let c = g.get_config();
                c.enabled && !c.client_id.as_str().is_empty() && !c.client_secret.as_str().is_empty()
            },
            AnyGateway::Feishu(g) => {
                let c = g.get_config();
                c.enabled && !c.app_id.as_str().is_empty() && !c.app_secret.as_str().is_empty()
            },
            AnyGateway::Telegram(g) => {
                let c = g.get_config();
                c.enabled && !c.bot_token.as_str().is_empty()
            },
            AnyGateway::Discord(g) => {
                let c = g.get_config();
                c.enabled && !c.bot_token.as_str().is_empty()
            },
            AnyGateway::WeWork(g) => {
                let c = g.get_config();
                c.enabled && !c.webhook_url.as_str().is_empty()
            },
            AnyGateway::WhatsApp(g) => {
                let c = g.get_config();
                c.enabled && c.phone_number_id.is_some() && c.access_token.is_some()
            },
        }
    }

    /// Whether two adapters are of the same platform.
    pub open spec fn same_platform(&self, other: AnyGateway) -> bool {
        match (*self, other) {
            (AnyGateway::DingTalk(_), AnyGateway::DingTalk(_)) => true,
            (AnyGateway::Feishu(_), AnyGateway::Feishu(_)) => true,
            (AnyGateway::Telegram(_), AnyGateway::Telegram(_)) => true,
            (AnyGateway::Discord(_), AnyGateway::Discord(_)) => true,
            (AnyGateway::WeWork(_), AnyGateway::WeWork(_)) => true,
            (AnyGateway::WhatsApp(_), AnyGateway::WhatsApp(_)) => true,
            _ => false,
        }
    }
}

/// Whether `i` is the first place at which `name` stands in `names`.
pub open spec fn is_first(names: Seq<Seq<char>>, name: Seq<char>, i: int) -> bool {
    &&& 0 <= i < names.len()
    &&& names[i] == name
    &&& forall|j: int| 0 <= j < i ==> names[j] != name
}

/// The error for a name under which no adapter is registered.
pub open spec fn unknown_gateway_text(name: Seq<char>) -> Seq<char> {
    "网关 "@ + name + " 不存在"@
}

/// What a `ManagerError` holds.
pub enum ManagerErrorView {
    UnknownGateway(Seq<char>),
    TypeMismatch,
    UnknownPlatform(Seq<char>),
    Gateway(Seq<char>),
}

/// Why the manager could not do what it was asked.
#[derive(Debug)]
pub enum ManagerError {
    /// No adapter is registered under the name; the text says so.
    UnknownGateway(String),
    /// The adapter under the name is not of the platform that the name
    /// stands for.
    TypeMismatch,
    /// The name stands for no platform; the text says so.
    UnknownPlatform(String),
    /// The adapter answered with this error.
    Gateway(String),
}

impl View for ManagerError {
    type V = ManagerErrorView;

    open spec fn view(&self) -> ManagerErrorView {
        match self {
            ManagerError::UnknownGateway(m) => ManagerErrorView::UnknownGateway(m@),
            ManagerError::TypeMismatch => ManagerErrorView::TypeMismatch,
            ManagerError::UnknownPlatform(m) => ManagerErrorView::UnknownPlatform(m@),
            ManagerError::Gateway(e) => ManagerErrorView::Gateway(e@),
        }
    }
}

impl ManagerError {
    /// The error as text.
    pub fn message(&self) -> (m: String)
        ensures
            m@ == match self@ {
                ManagerErrorView::UnknownGateway(t) => t,
                ManagerErrorView::TypeMismatch => "网关类型不匹配"@,
                ManagerErrorView::UnknownPlatform(t) => t,
                ManagerErrorView::Gateway(e) => e,
            },
    {
        match self {
            ManagerError::UnknownGateway(t) => t.clone(),
            ManagerError::TypeMismatch => "网关类型不匹配".to_string(),
            ManagerError::UnknownPlatform(t) => t.clone(),
            ManagerError::Gateway(e) => e.clone(),
        }
    }
}

/// What a start does to an adapter and reports: the contract of `start`.
pub open spec fn started(before: AnyGateway, after: AnyGateway, report: StartReportView) -> bool {
    &&& after.same_platform(before)
    &&& after.enabled() == before.enabled()
    &&& after.missing_credentials() == before.missing_credentials()
    &&& after.status() == status_after_gate(before.status(), before.enabled(), before.missing_credentials())
    &&& report.events == events_at_gate(before.status(), before.enabled(), before.missing_credentials())
    &&& match start_gate(before.status(), before.enabled(), before.missing_credentials()) {
        StartGate::Skip => report.result == Ok::<NextStepView, Seq<char>>(NextStepView::Nothing),
        StartGate::Rejected => report.result == Err::<NextStepView, Seq<char>>(before.missing_credentials()->0),
        StartGate::Open => report.result is Ok && report.result->Ok_0 != NextStepView::Nothing,
    }
}

/// What a stop does to an adapter and emits: the contract of `stop`.
pub open spec fn stopped(before: AnyGateway, after: AnyGateway, events: Seq<GatewayEventView>) -> bool {
    &&& after.same_platform(before)
    &&& after.enabled() == before.enabled()
    &&& after.missing_credentials() == before.missing_credentials()
    &&& after.status() == before.status().stopped()
    &&& events == events_at_stop(before.status())
}

/// What asking an adapter to reconnect does: nothing where it is connected
/// or a reconnect is barred, a start otherwise.
pub open spec fn reconnected(before: AnyGateway, after: AnyGateway, report: StartReportView) -> bool {
    &&& after.same_platform(before)
    &&& after.enabled() == before.enabled()
    &&& after.missing_credentials() == before.missing_credentials()
    &&& if before.status().connected || before.reconnect_barred() {
        after.status() == before.status() && report == (StartReportView {
            result: Ok(NextStepView::Nothing),
            events: Seq::empty(),
        })
    } else {
        after.status() == status_after_gate(before.status(), before.enabled(), before.missing_credentials())
            && report.events == events_at_gate(before.status(), before.enabled(), before.missing_credentials())
            && answers_gate(before.status(), before.enabled(), before.missing_credentials(), report.result)
    }
}

/// The places of the connected adapters among the first `upto`, in order.
pub open spec fn connected_places(gateways: Seq<AnyGateway>, upto: int) -> Seq<usize>
    decreases upto,
{
    if upto <= 0 {
        Seq::empty()
    } else if gateways[upto - 1].status().connected {
        connected_places(gateways, upto - 1).push((upto - 1) as usize)
    } else {
        connected_places(gateways, upto - 1)
    }
}

/// The error of a notification that no adapter could send.
pub open spec fn nobody_sent_text() -> Seq<char> {
    "没有网关可以发送通知"@
}

/// The outcome of a notification that `successes` adapters have sent: an
/// error where none has.
pub fn notification_outcome(successes: usize) -> (r: Result<(), String>)
    ensures
        match r {
            Ok(_) => successes > 0,
            Err(e) => successes == 0 && e@ == nobody_sent_text(),
        },
{
    if successes == 0 {
        Err("没有网关可以发送通知".to_string())
    } else {
        Ok(())
    }
}

/// What a test of the adapter `gateway`, registered as `name`, comes to
/// where `kind` is the name in lower case: the name decides which platform
/// is tested, and the adapter has to be of that platform.
pub open spec fn connectivity_of(
    kind: Seq<char>,
    name: Seq<char>,
    gateway: AnyGateway,
    probe: AuthProbeView,
    tested_at: i64,
) -> Result<ConnectivityTestResultView, ManagerErrorView> {
    if kind == "dingtalk"@ {
        match gateway {
            AnyGateway::DingTalk(g) => Ok(dingtalk_result_of(g.config(), g.status().connected, probe, tested_at)),
            _ => Err(ManagerErrorView::TypeMismatch),
        }
    } else if kind == "feishu"@ {
        match gateway {
            AnyGateway::Feishu(g) => Ok(feishu_result_of(g.config(), g.status().connected, probe, tested_at)),
            _ => Err(ManagerErrorView::TypeMismatch),
        }
    } else if kind == "telegram"@ {
        match gateway {
            AnyGateway::Telegram(g) => Ok(telegram_result_of(g.config(), g.status().connected, probe, tested_at)),
            _ => Err(ManagerErrorView::TypeMismatch),
        }
    } else if kind == "discord"@ {
        match gateway {
            AnyGateway::Discord(g) => Ok(discord_result_of(g.config(), g.status().connected, probe, tested_at)),
            _ => Err(ManagerErrorView::TypeMismatch),
        }
    } else if kind == "wework"@ {
        match gateway {
            AnyGateway::WeWork(g) => Ok(wework_result_of(g.config(), g.status().connected, tested_at)),
            _ => Err(ManagerErrorView::TypeMismatch),
        }
    } else if kind == "whatsapp"@ {
        match gateway {
            AnyGateway::WhatsApp(g) => Ok(whatsapp_result_of(g.config(), g.status().connected, probe, tested_at)),
            _ => Err(ManagerErrorView::TypeMismatch),
        }
    } else {
        Err(ManagerErrorView::UnknownPlatform("未知的网关类型: "@ + name))
    }
}

/// Whether a test of `gateway` gets as far as the authentication probe:
/// the adapter is enabled and none of the credentials that the test looks
/// at is missing.
pub open spec fn probe_due_of(gateway: AnyGateway) -> bool {
    match gateway {
        AnyGateway::DingTalk(g) => g.config().enabled && g.config().client_id.len() != 0
            && g.config().client_secret.len() != 0,
        AnyGateway::Feishu(g) => g.config().enabled && g.config().app_id.len() != 0 && g.config().app_secret.len()
            != 0,
        AnyGateway::Telegram(g) => g.config().enabled && g.config().bot_token.len() != 0,
        AnyGateway::Discord(g) => g.config().enabled && g.config().bot_token.len() != 0,
        AnyGateway::WeWork(g) => g.config().enabled && g.config().webhook_url.len() != 0,
        AnyGateway::WhatsApp(g) => g.config().enabled && g.config().phone_number_id is Some
            && g.config().access_token is Some,
    }
}

/// Where the probe is not due its outcome does not enter the test: any two
/// outcomes give the same result.
pub proof fn lemma_probe_enters_only_when_due(
    kind: Seq<char>,
    name: Seq<char>,
    gateway: AnyGateway,
    first: AuthProbeView,
    second: AuthProbeView,
    tested_at: i64,
)
    requires
        !probe_due_of(gateway),
    ensures
        connectivity_of(kind, name, gateway, first, tested_at) == connectivity_of(
            kind,
            name,
            gateway,
            second,
            tested_at,
        ),
{
}

/// Where the probe is due and the name stands for the adapter's platform,
/// the checks of the test begin with the one that reports the probe, and
/// that check passes exactly when the probe did. WeWork has no probe: its
/// webhook cannot be asked whom it belongs to.
pub proof fn lemma_due_probe_is_reported(
    kind: Seq<char>,
    name: Seq<char>,
    gateway: AnyGateway,
    probe: AuthProbeView,
    tested_at: i64,
)
    requires
        probe_due_of(gateway),
        !(gateway is WeWork),
        connectivity_of(kind, name, gateway, probe, tested_at) is Ok,
    ensures
        ({
            let checks = connectivity_of(kind, name, gateway, probe, tested_at)->Ok_0.checks;
            checks.len() >= 2 && checks[0].code == "auth_check"@ && (checks[0].level == "pass"@ <==> probe
                == AuthProbeView::Passed)
        }),
{
    reveal_strlit("pass");
    reveal_strlit("fail");
    assert("pass"@[0] != "fail"@[0]);
}

/// Tests the adapter `gateway`, registered as `name`, where `kind` is the
/// name in lower case.
pub fn test_connectivity_of_kind(
    kind: &str,
    name: &str,
    gateway: &AnyGateway,
    probe: &AuthProbe,
    tested_at: i64,
) -> (r: Result<ConnectivityTestResult, ManagerError>)
    ensures
        match r {
            Ok(result) => connectivity_of(kind@, name@, *gateway, probe@, tested_at) == Ok::<
                ConnectivityTestResultView,
                ManagerErrorView,
            >(result@),
            Err(e) => connectivity_of(kind@, name@, *gateway, probe@, tested_at) == Err::<
                ConnectivityTestResultView,
                ManagerErrorView,
            >(e@),
        },
{
    let tester = ConnectivityTester::new();
    if str_eq(kind, "dingtalk") {
        match gateway {
            AnyGateway::DingTalk(g) => Ok(tester.test_dingtalk(g, probe, tested_at)),
            _ => Err(ManagerError::TypeMismatch),
        }
    } else if str_eq(kind, "feishu") {
        match gateway {
            AnyGateway::Feishu(g) => Ok(tester.test_feishu(g, probe, tested_at)),
            _ => Err(ManagerError::TypeMismatch),
        }
    } else if str_eq(kind, "telegram") {
        match gateway {
            AnyGateway::Telegram(g) => Ok(tester.test_telegram(g, probe, tested_at)),
            _ => Err(ManagerError::TypeMismatch),
        }
    } else if str_eq(kind, "discord") {
        match gateway {
            AnyGateway::Discord(g) => Ok(tester.test_discord(g, probe, tested_at)),
            _ => Err(ManagerError::TypeMismatch),
        }
    } else if str_eq(kind, "wework") {
        match gateway {
            AnyGateway::WeWork(g) => Ok(tester.test_wework(g, tested_at)),
            _ => Err(ManagerError::TypeMismatch),
        }
    } else if str_eq(kind, "whatsapp") {
        match gateway {
            AnyGateway::WhatsApp(g) => Ok(tester.test_whatsapp(g, probe, tested_at)),
            _ => Err(ManagerError::TypeMismatch),
        }
    } else {
        Err(ManagerError::UnknownPlatform(crate::im::text::concat2("未知的网关类型: ", name)))
    }
}

/// What a tick of the network monitor came to: the monitor's plan, and one
/// report for each adapter where adapters were asked to reconnect.
#[derive(Debug)]
pub struct MonitorTick {
    pub plan: TickPlan,
    pub reports: Vec<StartReport>,
}

/// One registered adapter.
pub struct GatewayEntry {
    name: String,
    gateway: AnyGateway,
}

/// The registry of adapters. An adapter is found under the name that it was
/// added with; the adapters keep the order in which their names came.
pub struct IMManager {
    config: IMManagerConfig,
    entries: Vec<GatewayEntry>,
    message_handler: Option<MessageHandler>,
    network_monitor: Option<NetworkMonitor>,
    logger: Logger,
}

impl IMManager {
    /// The configuration.
    pub closed spec fn config(&self) -> IMManagerConfig {
        self.config
    }

    /// The names, in the order in which they were added.
    pub closed spec fn names(&self) -> Seq<Seq<char>> {
        Seq::new(self.entries@.len(), |i: int| self.entries@[i].name@)
    }

    /// The adapters, in the order of their names.
    pub closed spec fn gateways(&self) -> Seq<AnyGateway> {
        Seq::new(self.entries@.len(), |i: int| self.entries@[i].gateway)
    }

    /// The message handler, where one is set.
    pub closed spec fn handler(&self) -> Option<MessageHandlerConfig> {
        match self.message_handler {
            Some(h) => Some(h.config()),
            None => None,
        }
    }

    /// The configuration of the logger.
    pub closed spec fn logger(&self) -> LogConfigView {
        self.logger.config()
    }

    /// The network monitor, where one is set.
    pub closed spec fn monitor(&self) -> Option<NetworkMonitorView> {
        match self.network_monitor {
            Some(m) => Some(m@),
            None => None,
        }
    }

    /// A manager without adapters.
    pub fn new(config: IMManagerConfig) -> (m: IMManager)
        ensures
            m.config() == config,
            m.names() == Seq::<Seq<char>>::empty(),
            m.gateways() == Seq::<AnyGateway>::empty(),
            m.handler() is None,
            m.monitor() is None,
            m.logger() == (LogConfigView { enabled: true, level: LogLevel::Info, file_path: None }),
    {
        let m = IMManager {
            config,
            entries: Vec::new(),
            message_handler: None,
            network_monitor: None,
            logger: Logger::new_default(),
        };
        assert(m.names() =~= Seq::<Seq<char>>::empty());
        assert(m.gateways() =~= Seq::<AnyGateway>::empty());
        m
    }

    /// A manager that is switched off.
    pub fn new_default() -> (m: IMManager)
        ensures
            !m.config().enabled,
            m.names() == Seq::<Seq<char>>::empty(),
            m.gateways() == Seq::<AnyGateway>::empty(),
    {
        IMManager::new(IMManagerConfig::default())
    }

    /// Replaces the configuration.
    pub fn set_config(&mut self, config: IMManagerConfig)
        ensures
            final(self).config() == config,
            final(self).logger() == old(self).logger(),
            final(self).names() == old(self).names(),
            final(self).gateways() == old(self).gateways(),
            final(self).handler() == old(self).handler(),
            final(self).monitor() == old(self).monitor(),
    {
        self.config = config;
    }

    /// The configuration.
    pub fn get_config(&self) -> (c: IMManagerConfig)
        ensures
            c == self.config(),
    {
        self.config
    }

    /// Sets the handler that answers the messages of every adapter.
    pub fn set_message_handler(&mut self, handler: MessageHandler)
        ensures
            final(self).handler() == Some(handler.config()),
            final(self).config() == old(self).config(),
            final(self).logger() == old(self).logger(),
            final(self).names() == old(self).names(),
            final(self).gateways() == old(self).gateways(),
            final(self).monitor() == old(self).monitor(),
    {
        self.message_handler = Some(handler);
    }

    /// The message handler, where one is set.
    pub fn get_message_handler(&self) -> (h: Option<&MessageHandler>)
        ensures
            match h {
                Some(handler) => self.handler() == Some(handler.config()),
                None => self.handler() is None,
            },
    {
        self.message_handler.as_ref()
    }

    /// Sets the network monitor.
    pub fn set_network_monitor(&mut self, monitor: NetworkMonitor)
        ensures
            final(self).monitor() == Some(monitor@),
            final(self).config() == old(self).config(),
            final(self).logger() == old(self).logger(),
            final(self).names() == old(self).names(),
            final(self).gateways() == old(self).gateways(),
            final(self).handler() == old(self).handler(),
    {
        self.network_monitor = Some(monitor);
    }

    /// The network monitor, where one is set.
    pub fn get_network_monitor(&self) -> (m: Option<&NetworkMonitor>)
        ensures
            match m {
                Some(monitor) => self.monitor() == Some(monitor@),
                None => self.monitor() is None,
            },
    {
        self.network_monitor.as_ref()
    }

    /// Begins the loop of the network monitor, where one is set and does not
    /// run yet. Only then may the caller start a loop.
    pub fn start_network_monitor(&mut self) -> (begun: bool)
        ensures
            begun == (old(self).monitor() is Some && !old(self).monitor()->0.is_running),
            old(self).monitor() is None ==> final(self).monitor() is None,
            old(self).monitor() is Some ==> final(self).monitor() == Some(
                NetworkMonitorView { is_running: true, ..old(self).monitor()->0 },
            ),
            final(self).config() == old(self).config(),
            final(self).logger() == old(self).logger(),
            final(self).names() == old(self).names(),
            final(self).gateways() == old(self).gateways(),
            final(self).handler() == old(self).handler(),
    {
        match &mut self.network_monitor {
            Some(monitor) => monitor.start(),
            None => false,
        }
    }

    /// Switches the network monitor off, where one is set.
    pub fn stop_network_monitor(&mut self)
        ensures
            old(self).monitor() is None ==> final(self).monitor() is None,
            old(self).monitor() is Some ==> final(self).monitor() is Some && !final(self).monitor()->0.config.enabled,
            final(self).config() == old(self).config(),
            final(self).logger() == old(self).logger(),
            final(self).names() == old(self).names(),
            final(self).gateways() == old(self).gateways(),
            final(self).handler() == old(self).handler(),
    {
        match &mut self.network_monitor {
            Some(monitor) => {
                monitor.stop();
            },
            None => {},
        }
    }

    /// Replaces the logger.
    pub fn set_logger(&mut self, logger: Logger)
        ensures
            final(self).logger() == logger.config(),
            final(self).config() == old(self).config(),
            final(self).names() == old(self).names(),
            final(self).gateways() == old(self).gateways(),
            final(self).handler() == old(self).handler(),
            final(self).monitor() == old(self).monitor(),
    {
        self.logger = logger;
    }

    /// The logger.
    pub fn get_logger(&self) -> (l: &Logger)
        ensures
            l.config() == self.logger(),
    {
        &self.logger
    }

    /// Where the adapter `name` stands.
    pub fn position(&self, name: &str) -> (r: Option<usize>)
        ensures
            match r {
                Some(i) => is_first(self.names(), name@, i as int),
                None => !self.names().contains(name@),
            },
    {
        let mut i: usize = 0;
        while i < self.entries.len()
            invariant
                i <= self.entries.len(),
                forall|j: int| 0 <= j < i ==> self.names()[j] != name@,
            decreases self.entries.len() - i,
        {
            if str_eq(self.entries[i].name.as_str(), name) {
                assert(self.names()[i as int] == name@);
                return Some(i);
            }
            i += 1;
        }
        None
    }

    /// Registers `gateway` under `name`. An adapter that is there under this
    /// name gives way and the name keeps its place; a new name goes to the
    /// end.
    pub fn add_gateway(&mut self, name: &str, gateway: AnyGateway)
        ensures
            final(self).config() == old(self).config(),
            final(self).logger() == old(self).logger(),
            final(self).handler() == old(self).handler(),
            final(self).monitor() == old(self).monitor(),
            !old(self).names().contains(name@) ==> final(self).names() == old(self).names().push(name@) && final(self).gateways() == old(self).gateways().push(gateway),
            forall|i: int|
                is_first(old(self).names(), name@, i) ==> final(self).names() == old(self).names() && final(self).gateways() == old(self).gateways().update(i, gateway),
    {
        match self.position(name) {
            Some(i) => {
                self.entries.set(i, GatewayEntry { name: name.to_string(), gateway });
                assert(self.names() =~= old(self).names());
                assert(self.gateways() =~= old(self).gateways().update(i as int, gateway));
            },
            None => {
                self.entries.push(GatewayEntry { name: name.to_string(), gateway });
                assert(self.names() =~= old(self).names().push(name@));
                assert(self.gateways() =~= old(self).gateways().push(gateway));
                assert forall|i: int| !is_first(old(self).names(), name@, i) by {
                    if 0 <= i < old(self).names().len() && old(self).names()[i] == name@ {
                        assert(old(self).names().contains(name@));
                    }
                }
            },
        }
    }

    /// The adapter registered under `name`.
    pub fn get_gateway(&self, name: &str) -> (r: Option<&AnyGateway>)
        ensures
            match r {
                Some(g) => exists|i: int| is_first(self.names(), name@, i) && *g == self.gateways()[i],
                None => !self.names().contains(name@),
            },
    {
        match self.position(name) {
            Some(i) => {
                assert(is_first(self.names(), name@, i as int) && self.entries@[i as int].gateway
                    == self.gateways()[i as int]);
                Some(&self.entries[i].gateway)
            },
            None => None,
        }
    }

    /// How many adapters are registered.
    pub fn len(&self) -> (n: usize)
        ensures
            n == self.names().len(),
            n == self.gateways().len(),
    {
        self.entries.len()
    }

    /// The adapter at the place `i`.
    pub fn gateway_at(&self, i: usize) -> (g: &AnyGateway)
        requires
            i < self.gateways().len(),
        ensures
            *g == self.gateways()[i as int],
    {
        &self.entries[i].gateway
    }

    /// The adapter at the place `i`, to work on.
    pub fn gateway_at_mut(&mut self, i: usize) -> (g: &mut AnyGateway)
        requires
            i < old(self).gateways().len(),
        ensures
            *g == old(self).gateways()[i as int],
            final(self).gateways() == old(self).gateways().update(i as int, *final(g)),
            final(self).names() == old(self).names(),
            final(self).config() == old(self).config(),
            final(self).logger() == old(self).logger(),
            final(self).handler() == old(self).handler(),
            final(self).monitor() == old(self).monitor(),
    {
        &mut self.entries[i].gateway
    }

    /// The names of the adapters, in the order in which they were added.
    pub fn get_gateway_names(&self) -> (list: Vec<String>)
        ensures
            list@.len() == self.names().len(),
            forall|i: int| 0 <= i < list@.len() ==> (#[trigger] list@[i])@ == self.names()[i],
    {
        let mut list: Vec<String> = Vec::new();
        let mut i: usize = 0;
        while i < self.entries.len()
            invariant
                i <= self.entries.len(),
                list@.len() == i,
                forall|j: int| 0 <= j < i ==> (#[trigger] list@[j])@ == self.names()[j],
            decreases self.entries.len() - i,
        {
            list.push(self.entries[i].name.clone());
            i += 1;
        }
        list
    }

    /// Whether each adapter is connected, in the order of the names.
    pub fn connected_flags(&self) -> (flags: Vec<bool>)
        ensures
            flags@.len() == self.gateways().len(),
            forall|i: int| 0 <= i < flags@.len() ==> flags@[i] == self.gateways()[i].status().connected,
    {
        let mut flags: Vec<bool> = Vec::new();
        let mut i: usize = 0;
        while i < self.entries.len()
            invariant
                i <= self.entries.len(),
                flags@.len() == i,
                forall|j: int| 0 <= j < i ==> flags@[j] == self.gateways()[j].status().connected,
            decreases self.entries.len() - i,
        {
            flags.push(self.entries[i].gateway.is_connected());
            i += 1;
        }
        flags
    }

    /// The status of every adapter, each with its name, in the order of the
    /// names.
    pub fn get_gateways_status(&self) -> (list: Vec<(String, GatewayStatus)>)
        ensures
            list@.len() == self.names().len(),
            forall|i: int|
                0 <= i < list@.len() ==> (#[trigger] list@[i]).0@ == self.names()[i] && list@[i].1@
                    == self.gateways()[i].status(),
    {
        let mut list: Vec<(String, GatewayStatus)> = Vec::new();
        let mut i: usize = 0;
        while i < self.entries.len()
            invariant
                i <= self.entries.len(),
                list@.len() == i,
                forall|j: int|
                    0 <= j < i ==> (#[trigger] list@[j]).0@ == self.names()[j] && list@[j].1@
                        == self.gateways()[j].status(),
            decreases self.entries.len() - i,
        {
            list.push((self.entries[i].name.clone(), self.entries[i].gateway.get_status()));
            i += 1;
        }
        list
    }

    /// Starts every adapter in the order of the names, at `now`. A manager
    /// that is switched off starts none. One adapter's failure does not
    /// keep the others from starting: there is one report for each.
    pub fn start_all(&mut self, now: i64) -> (reports: Vec<StartReport>)
        ensures
            final(self).config() == old(self).config(),
            final(self).logger() == old(self).logger(),
            final(self).names() == old(self).names(),
            final(self).handler() == old(self).handler(),
            final(self).monitor() == old(self).monitor(),
            final(self).gateways().len() == old(self).gateways().len(),
            !old(self).config().enabled ==> reports@.len() == 0 && final(self).gateways() == old(self).gateways(),
            old(self).config().enabled ==> reports@.len() == old(self).gateways().len() && forall|i: int|
                0 <= i < reports@.len() ==> started(
                    old(self).gateways()[i],
                    #[trigger] final(self).gateways()[i],
                    reports@[i]@,
                ),
    {
        let mut reports: Vec<StartReport> = Vec::new();
        if !self.config.enabled {
            return reports;
        }
        let mut i: usize = 0;
        while i < self.entries.len()
            invariant
                i <= self.entries.len(),
                self.entries.len() == old(self).entries.len(),
                self.config() == old(self).config(),
                self.logger() == old(self).logger(),
                self.names() == old(self).names(),
                self.handler() == old(self).handler(),
                self.monitor() == old(self).monitor(),
                reports@.len() == i,
                forall|j: int|
                    0 <= j < i ==> started(old(self).gateways()[j], #[trigger] self.gateways()[j], reports@[j]@),
                forall|j: int| i <= j < self.entries.len() ==> #[trigger] self.gateways()[j] == old(self).gateways()[j],
            decreases self.entries.len() - i,
        {
            let ghost before = *self;
            let report = self.entries[i].gateway.start(now);
            proof {
                assert(self.names() =~= before.names());
                assert(self.gateways()[i as int] == self.entries@[i as int].gateway);
                assert(before.gateways()[i as int] == before.entries@[i as int].gateway);
                assert forall|j: int| 0 <= j < self.entries.len() && j != i implies #[trigger] self.gateways()[j]
                    == before.gateways()[j] by {
                    assert(self.entries@[j] == before.entries@[j]);
                }
            }
            reports.push(report);
            i += 1;
        }
        reports
    }

    /// Stops every adapter in the order of the names. There is one list of
    /// events for each.
    pub fn stop_all(&mut self) -> (events: Vec<Vec<GatewayEvent>>)
        ensures
            final(self).config() == old(self).config(),
            final(self).logger() == old(self).logger(),
            final(self).names() == old(self).names(),
            final(self).handler() == old(self).handler(),
            final(self).monitor() == old(self).monitor(),
            final(self).gateways().len() == old(self).gateways().len(),
            events@.len() == old(self).gateways().len(),
            forall|i: int|
                0 <= i < events@.len() ==> stopped(
                    old(self).gateways()[i],
                    #[trigger] final(self).gateways()[i],
                    events_view(events@[i]@),
                ),
    {
        let mut events: Vec<Vec<GatewayEvent>> = Vec::new();
        let mut i: usize = 0;
        while i < self.entries.len()
            invariant
                i <= self.entries.len(),
                self.entries.len() == old(self).entries.len(),
                self.config() == old(self).config(),
                self.logger() == old(self).logger(),
                self.names() == old(self).names(),
                self.handler() == old(self).handler(),
                self.monitor() == old(self).monitor(),
                events@.len() == i,
                forall|j: int|
                    0 <= j < i ==> stopped(
                        old(self).gateways()[j],
                        #[trigger] self.gateways()[j],
                        events_view(events@[j]@),
                    ),
                forall|j: int| i <= j < self.entries.len() ==> #[trigger] self.gateways()[j] == old(self).gateways()[j],
            decreases self.entries.len() - i,
        {
            let ghost before = *self;
            let emitted = self.entries[i].gateway.stop();
            proof {
                assert(self.names() =~= before.names());
                assert(self.gateways()[i as int] == self.entries@[i as int].gateway);
                assert(before.gateways()[i as int] == before.entries@[i as int].gateway);
                assert forall|j: int| 0 <= j < self.entries.len() && j != i implies #[trigger] self.gateways()[j]
                    == before.gateways()[j] by {
                    assert(self.entries@[j] == before.entries@[j]);
                }
            }
            events.push(emitted);
            i += 1;
        }
        events
    }

    /// Asks every adapter that is not connected to reconnect, at `now`.
    /// There is one report for each adapter; a connected adapter is left
    /// alone.
    pub fn reconnect_disconnected(&mut self, now: i64) -> (reports: Vec<StartReport>)
        ensures
            final(self).config() == old(self).config(),
            final(self).logger() == old(self).logger(),
            final(self).names() == old(self).names(),
            final(self).handler() == old(self).handler(),
            final(self).monitor() == old(self).monitor(),
            final(self).gateways().len() == old(self).gateways().len(),
            reports@.len() == old(self).gateways().len(),
            forall|i: int|
                0 <= i < reports@.len() ==> reconnected(
                    old(self).gateways()[i],
                    #[trigger] final(self).gateways()[i],
                    reports@[i]@,
                ),
    {
        let mut reports: Vec<StartReport> = Vec::new();
        let mut i: usize = 0;
        while i < self.entries.len()
            invariant
                i <= self.entries.len(),
                self.entries.len() == old(self).entries.len(),
                self.config() == old(self).config(),
                self.logger() == old(self).logger(),
                self.names() == old(self).names(),
                self.handler() == old(self).handler(),
                self.monitor() == old(self).monitor(),
                reports@.len() == i,
                forall|j: int|
                    0 <= j < i ==> reconnected(
                        old(self).gateways()[j],
                        #[trigger] self.gateways()[j],
                        reports@[j]@,
                    ),
                forall|j: int| i <= j < self.entries.len() ==> #[trigger] self.gateways()[j] == old(self).gateways()[j],
            decreases self.entries.len() - i,
        {
            let ghost before = *self;
            let report = self.entries[i].gateway.reconnect_if_needed(now);
            proof {
                assert(self.names() =~= before.names());
                assert(self.gateways()[i as int] == self.entries@[i as int].gateway);
                assert(before.gateways()[i as int] == before.entries@[i as int].gateway);
                assert forall|j: int| 0 <= j < self.entries.len() && j != i implies #[trigger] self.gateways()[j]
                    == before.gateways()[j] by {
                    assert(self.entries@[j] == before.entries@[j]);
                }
            }
            reports.push(report);
            i += 1;
        }
        reports
    }
}

impl IMManager {
    fn unknown(name: &str) -> (e: ManagerError)
        ensures
            e@ == ManagerErrorView::UnknownGateway(unknown_gateway_text(name@)),
    {
        ManagerError::UnknownGateway(concat3("网关 ", name, " 不存在"))
    }

    /// Starts the adapter `name` at `now`. An unknown name is an error of
    /// its own.
    pub fn start_gateway(&mut self, name: &str, now: i64) -> (r: Result<StartReport, ManagerError>)
        ensures
            final(self).config() == old(self).config(),
            final(self).logger() == old(self).logger(),
            final(self).names() == old(self).names(),
            final(self).handler() == old(self).handler(),
            final(self).monitor() == old(self).monitor(),
            final(self).gateways().len() == old(self).gateways().len(),
            !old(self).names().contains(name@) ==> final(self).gateways() == old(self).gateways() && r is Err
                && r->Err_0@ == ManagerErrorView::UnknownGateway(unknown_gateway_text(name@)),
            forall|i: int|
                is_first(old(self).names(), name@, i) ==> r is Ok && started(
                    old(self).gateways()[i],
                    final(self).gateways()[i],
                    r->Ok_0@,
                ) && forall|j: int|
                    0 <= j < old(self).gateways().len() && j != i ==> #[trigger] final(self).gateways()[j] == old(self).gateways()[j],
    {
        match self.position(name) {
            None => {
                assert forall|i: int| !is_first(self.names(), name@, i) by {
                    if 0 <= i < self.names().len() && self.names()[i] == name@ {
                        assert(self.names().contains(name@));
                    }
                }
                Err(Self::unknown(name))
            },
            Some(i) => {
                let ghost before = *self;
                let report = self.entries[i].gateway.start(now);
                proof {
                    assert(self.names() =~= before.names());
                    assert(self.gateways()[i as int] == self.entries@[i as int].gateway);
                    assert(before.gateways()[i as int] == before.entries@[i as int].gateway);
                    assert forall|j: int| 0 <= j < self.entries.len() && j != i implies #[trigger] self.gateways()[j]
                        == before.gateways()[j] by {
                        assert(self.entries@[j] == before.entries@[j]);
                    }
                    assert(before.names().contains(name@));
                }
                Ok(report)
            },
        }
    }

    /// Stops the adapter `name`. An unknown name is an error of its own.
    pub fn stop_gateway(&mut self, name: &str) -> (r: Result<Vec<GatewayEvent>, ManagerError>)
        ensures
            final(self).config() == old(self).config(),
            final(self).logger() == old(self).logger(),
            final(self).names() == old(self).names(),
            final(self).handler() == old(self).handler(),
            final(self).monitor() == old(self).monitor(),
            final(self).gateways().len() == old(self).gateways().len(),
            !old(self).names().contains(name@) ==> final(self).gateways() == old(self).gateways() && r is Err
                && r->Err_0@ == ManagerErrorView::UnknownGateway(unknown_gateway_text(name@)),
            forall|i: int|
                is_first(old(self).names(), name@, i) ==> r is Ok && stopped(
                    old(self).gateways()[i],
                    final(self).gateways()[i],
                    events_view(r->Ok_0@),
                ) && forall|j: int|
                    0 <= j < old(self).gateways().len() && j != i ==> #[trigger] final(self).gateways()[j] == old(self).gateways()[j],
    {
        match self.position(name) {
            None => {
                assert forall|i: int| !is_first(self.names(), name@, i) by {
                    if 0 <= i < self.names().len() && self.names()[i] == name@ {
                        assert(self.names().contains(name@));
                    }
                }
                Err(Self::unknown(name))
            },
            Some(i) => {
                let ghost before = *self;
                let events = self.entries[i].gateway.stop();
                proof {
                    assert(self.names() =~= before.names());
                    assert(self.gateways()[i as int] == self.entries@[i as int].gateway);
                    assert(before.gateways()[i as int] == before.entries@[i as int].gateway);
                    assert forall|j: int| 0 <= j < self.entries.len() && j != i implies #[trigger] self.gateways()[j]
                        == before.gateways()[j] by {
                        assert(self.entries@[j] == before.entries@[j]);
                    }
                    assert(before.names().contains(name@));
                }
                Ok(events)
            },
        }
    }

    /// What has to go out to send `text` into the last conversation of
    /// every connected adapter, at `now`: for each connected adapter, in the
    /// order of the names, its place and what its send comes to.
    pub fn send_notification(&self, text: &str, now: i64) -> (list: Vec<(usize, Result<Outbound, String>)>)
        ensures
            list@.len() == connected_places(self.gateways(), self.gateways().len() as int).len(),
            forall|k: int|
                0 <= k < list@.len() ==> (#[trigger] list@[k]).0 == connected_places(
                    self.gateways(),
                    self.gateways().len() as int,
                )[k] && list@[k].0 < self.gateways().len() && outbound_view(list@[k].1) == self.gateways()[list@[k].0 as int].notification_plan(
                    text@,
                    now,
                ),
    {
        let mut list: Vec<(usize, Result<Outbound, String>)> = Vec::new();
        let mut i: usize = 0;
        while i < self.entries.len()
            invariant
                i <= self.entries.len(),
                list@.len() == connected_places(self.gateways(), i as int).len(),
                forall|k: int|
                    0 <= k < list@.len() ==> (#[trigger] list@[k]).0 == connected_places(self.gateways(), i as int)[k]
                        && list@[k].0 < i && outbound_view(list@[k].1) == self.gateways()[list@[k].0 as int].notification_plan(
                        text@,
                        now,
                    ),
            decreases self.entries.len() - i,
        {
            assert(self.gateways()[i as int] == self.entries@[i as int].gateway);
            if self.entries[i].gateway.is_connected() {
                let outcome = self.entries[i].gateway.send_notification(text, now);
                list.push((i, outcome));
            }
            i += 1;
        }
        list
    }

    /// What has to go out to send `text` into `conversation_id` through the
    /// adapter `gateway_name`. An unknown name is an error of its own, apart
    /// from every error of the adapter.
    pub fn send_message(&self, gateway_name: &str, conversation_id: &str, text: &str, now: i64) -> (r: Result<
        Outbound,
        ManagerError,
    >)
        ensures
            !self.names().contains(gateway_name@) ==> r is Err && r->Err_0@ == ManagerErrorView::UnknownGateway(
                unknown_gateway_text(gateway_name@),
            ),
            forall|i: int|
                is_first(self.names(), gateway_name@, i) ==> match self.gateways()[i].message_plan(
                    conversation_id@,
                    text@,
                    now,
                ) {
                    Ok(plan) => r is Ok && r->Ok_0@ == plan,
                    Err(e) => r is Err && r->Err_0@ == ManagerErrorView::Gateway(e),
                },
    {
        match self.position(gateway_name) {
            None => {
                assert forall|i: int| !is_first(self.names(), gateway_name@, i) by {
                    if 0 <= i < self.names().len() && self.names()[i] == gateway_name@ {
                        assert(self.names().contains(gateway_name@));
                    }
                }
                Err(Self::unknown(gateway_name))
            },
            Some(i) => {
                assert(self.gateways()[i as int] == self.entries@[i as int].gateway);
                assert(self.names().contains(gateway_name@));
                match self.entries[i].gateway.send_message(conversation_id, text, now) {
                    Ok(o) => Ok(o),
                    Err(e) => Err(ManagerError::Gateway(e)),
                }
            },
        }
    }

    /// Whether a test of the adapter `gateway_name` calls for the
    /// authentication probe: the name is registered, the adapter is enabled
    /// and none of the credentials that the test looks at is missing.
    pub fn probe_is_due(&self, gateway_name: &str) -> (due: bool)
        ensures
            !self.names().contains(gateway_name@) ==> !due,
            forall|i: int| is_first(self.names(), gateway_name@, i) ==> due == probe_due_of(self.gateways()[i]),
    {
        match self.position(gateway_name) {
            None => {
                assert forall|i: int| !is_first(self.names(), gateway_name@, i) by {
                    if 0 <= i < self.names().len() && self.names()[i] == gateway_name@ {
                        assert(self.names().contains(gateway_name@));
                    }
                }
                false
            },
            Some(i) => {
                assert(self.gateways()[i as int] == self.entries@[i as int].gateway);
                assert(self.names().contains(gateway_name@));
                self.entries[i].gateway.probe_is_due()
            },
        }
    }

    /// Tests the adapter `gateway_name` at `tested_at`; `probe` tells how
    /// the authentication probe went. The name in lower case decides which
    /// platform is tested.
    pub fn test_gateway_connectivity(&self, gateway_name: &str, probe: &AuthProbe, tested_at: i64) -> (r: Result<
        ConnectivityTestResult,
        ManagerError,
    >)
        ensures
            !self.names().contains(gateway_name@) ==> r is Err && r->Err_0@ == ManagerErrorView::UnknownGateway(
                unknown_gateway_text(gateway_name@),
            ),
            forall|i: int|
                is_first(self.names(), gateway_name@, i) ==> match connectivity_of(
                    lowercase(gateway_name@),
                    gateway_name@,
                    self.gateways()[i],
                    probe@,
                    tested_at,
                ) {
                    Ok(result) => r is Ok && r->Ok_0@ == result,
                    Err(e) => r is Err && r->Err_0@ == e,
                },
    {
        match self.position(gateway_name) {
            None => {
                assert forall|i: int| !is_first(self.names(), gateway_name@, i) by {
                    if 0 <= i < self.names().len() && self.names()[i] == gateway_name@ {
                        assert(self.names().contains(gateway_name@));
                    }
                }
                Err(Self::unknown(gateway_name))
            },
            Some(i) => {
                assert(self.gateways()[i as int] == self.entries@[i as int].gateway);
                assert(self.names().contains(gateway_name@));
                let kind = to_lowercase(gateway_name);
                test_connectivity_of_kind(kind.as_str(), gateway_name, &self.entries[i].gateway, probe, tested_at)
            },
        }
    }

    /// One tick of the network monitor at `now`; `current` tells whether
    /// the network can be reached. Without a monitor nothing happens. A
    /// monitor that was switched off stops. Otherwise, while the network
    /// can be reached, every adapter that is not connected is asked to
    /// reconnect: there is one report for each adapter.
    pub fn monitor_tick(&mut self, current: NetworkStatus, now: i64) -> (r: Option<MonitorTick>)
        ensures
            final(self).config() == old(self).config(),
            final(self).logger() == old(self).logger(),
            final(self).names() == old(self).names(),
            final(self).handler() == old(self).handler(),
            final(self).gateways().len() == old(self).gateways().len(),
            old(self).monitor() is None ==> r is None && final(self).monitor() is None && final(self).gateways()
                == old(self).gateways(),
            old(self).monitor() is Some ==> r is Some && final(self).monitor() is Some && r->0.plan.stop == !old(self).monitor()->0.config.enabled,
            old(self).monitor() is Some && old(self).monitor()->0.config.enabled ==> final(self).monitor()->0 == (
            NetworkMonitorView { network_status: current, ..old(self).monitor()->0 }) && r->0.plan.recovered
                == recovered_of(old(self).monitor()->0.network_status, current),
            r is Some && (r->0.plan.stop || current != NetworkStatus::Connected) ==> final(self).gateways() == old(self).gateways() && r->0.reports@.len() == 0,
            r is Some && !r->0.plan.stop && current == NetworkStatus::Connected ==> r->0.reports@.len() == old(self).gateways().len() && forall|i: int|
                0 <= i < r->0.reports@.len() ==> reconnected(
                    old(self).gateways()[i],
                    #[trigger] final(self).gateways()[i],
                    r->0.reports@[i]@,
                ),
    {
        let flags = self.connected_flags();
        let plan = match &mut self.network_monitor {
            None => {
                return None;
            },
            Some(monitor) => monitor.tick(current, &flags),
        };
        assert(self.names() =~= old(self).names());
        assert(self.gateways() =~= old(self).gateways());
        if plan.stop || current != NetworkStatus::Connected {
            return Some(MonitorTick { plan, reports: Vec::new() });
        }
        let reports = self.reconnect_disconnected(now);
        Some(MonitorTick { plan, reports })
    }

    /// Takes an event of the adapter at `place`, at `now`. A message is
    /// answered by the handler, and the answer goes back through the same
    /// adapter into the conversation that the message came from. Nothing
    /// goes out for any other event, without a handler, and where the
    /// handler is switched off.
    pub fn dispatch_event(&self, place: usize, event: GatewayEvent, now: i64) -> (r: Option<Result<Outbound, String>>)
        ensures
            match r {
                Some(out) => place < self.gateways().len() && self.handler() is Some && self.handler()->0.enabled
                    && event@ is Message && exists|reply: Seq<char>|
                    answers(self.handler()->0.mode, event@->Message_0, reply) && outbound_view(out)
                        == #[trigger] self.gateways()[place as int].message_plan(
                        event@->Message_0.channel_id,
                        reply,
                        now,
                    ),
                None => !(place < self.gateways().len() && self.handler() is Some && self.handler()->0.enabled
                    && event@ is Message),
            },
    {
        if place >= self.entries.len() {
            return None;
        }
        let handler = match &self.message_handler {
            None => {
                return None;
            },
            Some(h) => h,
        };
        let channel = match &event {
            GatewayEvent::Message(m) => m.channel_id.clone(),
            _ => {
                return None;
            },
        };
        let ghost seen = event@;
        match handler.handle_event(event) {
            None => None,
            Some(reply) => {
                assert(self.gateways()[place as int] == self.entries@[place as int].gateway);
                let out = self.entries[place].gateway.send_message(channel.as_str(), reply.as_str(), now);
                assert(answers(self.handler()->0.mode, seen->Message_0, reply@) && outbound_view(out)
                    == self.gateways()[place as int].message_plan(seen->Message_0.channel_id, reply@, now));
                Some(out)
            },
        }
    }
}

} // verus!
