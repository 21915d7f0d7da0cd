//! The WeWork adapter: outbound only, through a group robot's webhook.

use vstd::prelude::*;
use crate::im::gateway::{deliver_one, not_connected, once, not_connected_text, opt_str_text, outbound_view, report_skip, start_gate, Capabilities, Gateway, GatewayEvent, GatewayEventView, GatewayStatus, GatewayStatusView, NextStep, NextStepView, Outbound, OutboundView, StartGate, StartReport, StartReportView};
use crate::im::http::{HttpBodyView, HttpMethod, HttpRequest, HttpRequestView, JsonView, ObjectBuilder};
use crate::im::text::concat2;
use crate::im::text::str_eq;

verus! {

/// What a `WeWorkConfig` holds.
pub struct WeWorkConfigView {
    pub enabled: bool,
    pub webhook_url: Seq<char>,
    pub debug: Option<bool>,
}

/// Configuration of the WeWork adapter.
#[derive(Debug)]
pub struct WeWorkConfig {
    pub enabled: bool,
    pub webhook_url: String,
    pub debug: Option<bool>,
}

impl View for WeWorkConfig {
    type V = WeWorkConfigView;

    open spec fn view(&self) -> WeWorkConfigView {
        WeWorkConfigView { enabled: self.enabled, webhook_url: self.webhook_url@, debug: self.debug }
    }
}

impl Default for WeWorkConfig {
    fn default() -> (c: WeWorkConfig)
        ensures
            c@ == (WeWorkConfigView { enabled: false, webhook_url: Seq::empty(), debug: Some(false) }),
    {
        WeWorkConfig { enabled: false, webhook_url: String::new(), debug: Some(false) }
    }
}

impl Clone for WeWorkConfig {
    fn clone(&self) -> (c: WeWorkConfig)
        ensures
            c@ == self@,
    {
        WeWorkConfig { enabled: self.enabled, webhook_url: self.webhook_url.clone(), debug: self.debug }
    }
}

/// The text that the start sends to try the webhook.
pub open spec fn preflight_text() -> Seq<char> {
    "企业微信网关已启动"@
}

/// The error of a start without a webhook address.
pub open spec fn missing_webhook_text() -> Seq<char> {
    "缺少必要的配置: Webhook URL"@
}

/// The error of a send without a webhook address.
pub open spec fn empty_webhook_text() -> Seq<char> {
    "Webhook URL 不能为空"@
}

/// The payload of a webhook message: markdown where `msg_type` asks for it,
/// plain text for every other type.
pub open spec fn webhook_body(content: Seq<char>, msg_type: Seq<char>) -> JsonView {
    if msg_type == "markdown"@ {
        JsonView::Object(
            Seq::empty().push(("msgtype"@, JsonView::Text("markdown"@))).push(
                ("markdown"@, JsonView::Object(seq![("content"@, JsonView::Text(content))])),
            ),
        )
    } else {
        JsonView::Object(
            Seq::empty().push(("msgtype"@, JsonView::Text("text"@))).push(
                ("text"@, JsonView::Object(seq![("content"@, JsonView::Text(content))])),
            ),
        )
    }
}

/// The request that posts `content` to the webhook at `url`.
pub open spec fn webhook_request(url: Seq<char>, content: Seq<char>, msg_type: Seq<char>) -> HttpRequestView {
    HttpRequestView {
        method: HttpMethod::Post,
        url,
        query: Seq::empty(),
        headers: Seq::empty(),
        body: HttpBodyView::Json(webhook_body(content, msg_type)),
    }
}

/// What a send of `content` through `config` comes to.
pub open spec fn webhook_send(config: WeWorkConfigView, content: Seq<char>, msg_type: Seq<char>) -> Result<
    HttpRequestView,
    Seq<char>,
> {
    if config.webhook_url.len() == 0 {
        Err(empty_webhook_text())
    } else {
        Ok(webhook_request(config.webhook_url, content, msg_type))
    }
}

/// What a send of `text` on an adapter with `status` and `config` comes to.
pub open spec fn text_send(status: GatewayStatusView, config: WeWorkConfigView, text: Seq<char>) -> Result<
    OutboundView,
    Seq<char>,
> {
    if !status.connected {
        Err(not_connected_text())
    } else {
        match webhook_send(config, text, "text"@) {
            Ok(request) => Ok(OutboundView::Deliver(seq![once(request)])),
            Err(e) => Err(e),
        }
    }
}

/// What the webhook's answer means: code 0 is success, any other code an
/// error that quotes the answer's message.
pub open spec fn webhook_verdict(errcode: i32, errmsg: Option<Seq<char>>) -> Result<(), Seq<char>> {
    if errcode == 0 {
        Ok(())
    } else {
        Err(
            "Failed to send message: "@ + match errmsg {
                Some(m) => m,
                None => Seq::empty(),
            },
        )
    }
}

/// The WeWork adapter.
pub struct WeWorkGateway {
    config: WeWorkConfig,
    status: GatewayStatus,
}

impl WeWorkGateway {
    /// The configuration.
    pub closed spec fn config(&self) -> WeWorkConfigView {
        self.config@
    }

    /// An adapter that was never started.
    pub fn new(config: WeWorkConfig) -> (g: WeWorkGateway)
        ensures
            g.config() == config@,
            g.status() == GatewayStatusView::initial(),
    {
        WeWorkGateway { config, status: GatewayStatus::default() }
    }

    /// Replaces the configuration.
    pub fn set_config(&mut self, config: WeWorkConfig)
        ensures
            final(self).config() == config@,
            final(self).status() == old(self).status(),
    {
        self.config = config;
    }

    /// A copy of the configuration.
    pub fn get_config(&self) -> (c: WeWorkConfig)
        ensures
            c@ == self.config(),
    {
        self.config.clone()
    }

    /// The request that posts `content`, as text or as markdown, to the
    /// webhook.
    pub fn send_webhook_message(&self, content: &str, msg_type: &str) -> (r: Result<HttpRequest, String>)
        ensures
            match r {
                Ok(request) => webhook_send(self.config(), content@, msg_type@) == Ok::<
                    HttpRequestView,
                    Seq<char>,
                >(request@),
                Err(e) => webhook_send(self.config(), content@, msg_type@) == Err::<
                    HttpRequestView,
                    Seq<char>,
                >(e@),
            },
    {
        if self.config.webhook_url.as_str().is_empty() {
            return Err("Webhook URL 不能为空".to_string());
        }
        let inner = ObjectBuilder::new().text("content", content).build();
        let body = if str_eq(msg_type, "markdown") {
            ObjectBuilder::new().text("msgtype", "markdown").with("markdown", inner).build()
        } else {
            ObjectBuilder::new().text("msgtype", "text").with("text", inner).build()
        };
        Ok(HttpRequest::new(HttpMethod::Post, self.config.webhook_url.clone()).json(body))
    }

    /// The request that posts `content` as plain text.
    pub fn send_text_message(&self, content: &str) -> (r: Result<HttpRequest, String>)
        ensures
            match r {
                Ok(request) => webhook_send(self.config(), content@, "text"@) == Ok::<
                    HttpRequestView,
                    Seq<char>,
                >(request@),
                Err(e) => webhook_send(self.config(), content@, "text"@) == Err::<
                    HttpRequestView,
                    Seq<char>,
                >(e@),
            },
    {
        self.send_webhook_message(content, "text")
    }

    /// The request that posts `content` as markdown.
    pub fn send_markdown_message(&self, content: &str) -> (r: Result<HttpRequest, String>)
        ensures
            match r {
                Ok(request) => webhook_send(self.config(), content@, "markdown"@) == Ok::<
                    HttpRequestView,
                    Seq<char>,
                >(request@),
                Err(e) => webhook_send(self.config(), content@, "markdown"@) == Err::<
                    HttpRequestView,
                    Seq<char>,
                >(e@),
            },
    {
        self.send_webhook_message(content, "markdown")
    }

    /// Reads the webhook's answer.
    pub fn check_webhook_reply(errcode: i32, errmsg: Option<&str>) -> (r: Result<(), String>)
        ensures
            match r {
                Ok(_) => webhook_verdict(errcode, opt_str_text(errmsg)) is Ok,
                Err(e) => webhook_verdict(errcode, opt_str_text(errmsg)) == Err::<(), Seq<char>>(e@),
            },
    {
        if errcode == 0 {
            Ok(())
        } else {
            let detail = match errmsg {
                Some(m) => m,
                None => "",
            };
            proof {
                reveal_strlit("");
                assert(""@ =~= Seq::<char>::empty());
            }
            Err(concat2("Failed to send message: ", detail))
        }
    }

    /// Ends the start with the outcome of the trial message. A failure is
    /// recorded and returned; a success connects the adapter at `now_ms`.
    pub fn finish_start(&mut self, preflight: Result<(), String>, now_ms: i64) -> (report: StartReport)
        ensures
            final(self).config() == old(self).config(),
            match preflight {
                Ok(_) => final(self).status() == old(self).status().connected(now_ms) && report@ == (
                StartReportView {
                    result: Ok(NextStepView::Nothing),
                    events: seq![
                        GatewayEventView::StatusChanged(final(self).status()),
                        GatewayEventView::Connected,
                    ],
                }),
                Err(e) => final(self).status() == old(self).status().failed("Webhook 测试失败: "@ + e@)
                    && report@ == (StartReportView {
                    result: Err(e@),
                    events: seq![
                        GatewayEventView::Error("Webhook 测试失败: "@ + e@),
                        GatewayEventView::StatusChanged(final(self).status()),
                    ],
                }),
            },
    {
        match preflight {
            Ok(_) => {
                let events = self.status.complete_start(now_ms);
                StartReport { result: Ok(NextStep::Nothing), events }
            },
            Err(e) => {
                let message = concat2("Webhook 测试失败: ", e.as_str());
                let events = self.status.fail_start(message.as_str());
                StartReport { result: Err(e), events }
            },
        }
    }

    fn text_outbound(&self, text: &str) -> (r: Result<Outbound, String>)
        ensures
            outbound_view(r) == text_send(self.status(), self.config(), text@),
    {
        if !self.status.connected {
            return Err(not_connected());
        }
        match self.send_text_message(text) {
            Ok(request) => Ok(deliver_one(request)),
            Err(e) => Err(e),
        }
    }
}

impl Gateway for WeWorkGateway {
    closed spec fn status(&self) -> GatewayStatusView {
        self.status@
    }

    open spec fn enabled(&self) -> bool {
        self.config().enabled
    }

    open spec fn missing_credentials(&self) -> Option<Seq<char>> {
        if self.config().webhook_url.len() == 0 {
            Some(missing_webhook_text())
        } else {
            None
        }
    }

    open spec fn reconnect_barred(&self) -> bool {
        false
    }

    open spec fn capabilities_spec(&self) -> Capabilities {
        Capabilities { media: false, edit: false, delete: false, history: false }
    }

    open spec fn notification_plan(&self, text: Seq<char>, now: i64) -> Result<OutboundView, Seq<char>> {
        text_send(self.status(), self.config(), text)
    }

    open spec fn message_plan(&self, conversation_id: Seq<char>, text: Seq<char>, now: i64) -> Result<
        OutboundView,
        Seq<char>,
    > {
        text_send(self.status(), self.config(), text)
    }

    open spec fn media_plan(
        &self,
        conversation_id: Seq<char>,
        file_path: Seq<char>,
        file_name: Seq<char>,
        ext: Seq<char>,
        now: i64,
    ) -> Result<OutboundView, Seq<char>> {
        Err("企业微信 Webhook 不支持发送媒体消息"@)
    }

    open spec fn edit_plan(&self, conversation_id: Seq<char>, message_id: Seq<char>, new_text: Seq<char>) -> Result<
        OutboundView,
        Seq<char>,
    > {
        Err("企业微信 Webhook 不支持编辑消息"@)
    }

    open spec fn delete_plan(&self, conversation_id: Seq<char>, message_id: Seq<char>) -> Result<
        OutboundView,
        Seq<char>,
    > {
        Err("企业微信 Webhook 不支持删除消息"@)
    }

    open spec fn history_plan(&self, conversation_id: Seq<char>, limit: u32) -> Result<OutboundView, Seq<char>> {
        Err("企业微信 Webhook 不支持获取历史消息"@)
    }

    fn capabilities(&self) -> (c: Capabilities) {
        Capabilities { media: false, edit: false, delete: false, history: false }
    }

    fn is_connected(&self) -> (connected: bool) {
        self.status.connected
    }

    fn get_status(&self) -> (status: GatewayStatus) {
        self.status.clone()
    }

    fn start(&mut self, now: i64) -> (report: StartReport)
        ensures
            final(self).config() == old(self).config(),
            start_gate(old(self).status(), old(self).enabled(), old(self).missing_credentials())
                == StartGate::Open ==> report@.result == Ok::<NextStepView, Seq<char>>(
                NextStepView::Request(
                    webhook_request(old(self).config().webhook_url, preflight_text(), "text"@),
                ),
            ),
    {
        let missing = if self.config.webhook_url.as_str().is_empty() {
            Some("缺少必要的配置: Webhook URL")
        } else {
            None
        };
        let (gate, events) = self.status.begin_start(self.config.enabled, missing);
        match gate {
            StartGate::Skip => StartReport { result: Ok(NextStep::Nothing), events },
            StartGate::Rejected => StartReport {
                result: Err("缺少必要的配置: Webhook URL".to_string()),
                events,
            },
            StartGate::Open => {
                match self.send_text_message("企业微信网关已启动") {
                    Ok(request) => StartReport { result: Ok(NextStep::Request(request)), events },
                    Err(e) => StartReport { result: Err(e), events },
                }
            },
        }
    }

    fn stop(&mut self) -> (events: Vec<GatewayEvent>)
        ensures
            final(self).config() == old(self).config(),
    {
        self.status.stop()
    }

    fn reconnect_if_needed(&mut self, now: i64) -> (report: StartReport)
        ensures
            !old(self).status().connected && start_gate(
                old(self).status(),
                old(self).enabled(),
                old(self).missing_credentials(),
            ) == StartGate::Open ==> report@.result == Ok::<NextStepView, Seq<char>>(
                NextStepView::Request(webhook_request(old(self).config().webhook_url, preflight_text(), "text"@)),
            ),
            final(self).config() == old(self).config(),
    {
        if !self.status.connected {
            self.start(now)
        } else {
            report_skip()
        }
    }

    fn send_notification(&self, text: &str, now: i64) -> (r: Result<Outbound, String>)
        ensures
            outbound_view(r) == text_send(self.status(), self.config(), text@),
    {
        self.text_outbound(text)
    }

    fn send_message(&self, conversation_id: &str, text: &str, now: i64) -> (r: Result<Outbound, String>)
        ensures
            outbound_view(r) == text_send(self.status(), self.config(), text@),
    {
        self.text_outbound(text)
    }

    fn send_media_message(&self, conversation_id: &str, file_path: &str, now: i64) -> (r: Result<
        Outbound,
        String,
    >)
        ensures
            outbound_view(r) == Err::<OutboundView, Seq<char>>("企业微信 Webhook 不支持发送媒体消息"@),
    {
        let r: Result<Outbound, String> = Err("企业微信 Webhook 不支持发送媒体消息".to_string());
        assert(outbound_view(r) == self.media_plan(conversation_id@, file_path@, Seq::empty(), Seq::empty(), now));
        r
    }

    fn edit_message(&self, conversation_id: &str, message_id: &str, new_text: &str) -> (r: Result<
        Outbound,
        String,
    >)
        ensures
            outbound_view(r) == Err::<OutboundView, Seq<char>>("企业微信 Webhook 不支持编辑消息"@),
    {
        Err("企业微信 Webhook 不支持编辑消息".to_string())
    }

    fn delete_message(&self, conversation_id: &str, message_id: &str) -> (r: Result<Outbound, String>)
        ensures
            outbound_view(r) == Err::<OutboundView, Seq<char>>("企业微信 Webhook 不支持删除消息"@),
    {
        Err("企业微信 Webhook 不支持删除消息".to_string())
    }

    fn get_message_history(&self, conversation_id: &str, limit: u32) -> (r: Result<Outbound, String>)
        ensures
            outbound_view(r) == Err::<OutboundView, Seq<char>>("企业微信 Webhook 不支持获取历史消息"@),
    {
        Err("企业微信 Webhook 不支持获取历史消息".to_string())
    }

    fn record_outbound(&mut self, now_ms: i64)
        ensures
            final(self).config() == old(self).config(),
    {
        self.status.touch_outbound(now_ms);
    }
}

} // verus!
