//! The view that the desktop shell has of the gateways: one status for each
//! platform, and the configuration that the shell edits.

use vstd::prelude::*;
use crate::im::gateway::{clone_opt_string, opt_text};
use crate::im::text::{lowercase, str_eq, to_lowercase};

verus! {

/// The platforms that the shell knows.
#[derive(Debug, Clone, Copy, PartialEq, Eq, Structural)]
pub enum IMPlatform {
    DingTalk,
    Feishu,
    Telegram,
    Discord,
    WeWork,
}

/// What an `IMPlatformStatus` holds.
pub struct IMPlatformStatusView {
    pub enabled: bool,
    pub connected: bool,
    pub starting: bool,
    pub error: Option<Seq<char>>,
    pub started_at: Option<i64>,
    pub last_inbound_at: Option<i64>,
    pub last_outbound_at: Option<i64>,
    pub last_error: Option<Seq<char>>,
}

/// The status of one platform.
#[derive(Debug)]
pub struct IMPlatformStatus {
    pub enabled: bool,
    pub connected: bool,
    pub starting: bool,
    pub error: Option<String>,
    pub started_at: Option<i64>,
    pub last_inbound_at: Option<i64>,
    pub last_outbound_at: Option<i64>,
    pub last_error: Option<String>,
}

impl View for IMPlatformStatus {
    type V = IMPlatformStatusView;

    open spec fn view(&self) -> IMPlatformStatusView {
        IMPlatformStatusView {
            enabled: self.enabled,
            connected: self.connected,
            starting: self.starting,
            error: opt_text(self.error),
            started_at: self.started_at,
            last_inbound_at: self.last_inbound_at,
            last_outbound_at: self.last_outbound_at,
            last_error: opt_text(self.last_error),
        }
    }
}

/// The status of a platform that was never started.
pub open spec fn idle_status() -> IMPlatformStatusView {
    IMPlatformStatusView {
        enabled: false,
        connected: false,
        starting: false,
        error: None,
        started_at: None,
        last_inbound_at: None,
        last_outbound_at: None,
        last_error: None,
    }
}

impl Default for IMPlatformStatus {
    fn default() -> (s: IMPlatformStatus)
        ensures
            s@ == idle_status(),
    {
        IMPlatformStatus {
            enabled: false,
            connected: false,
            starting: false,
            error: None,
            started_at: None,
            last_inbound_at: None,
            last_outbound_at: None,
            last_error: None,
        }
    }
}

impl Clone for IMPlatformStatus {
    fn clone(&self) -> (s: IMPlatformStatus)
        ensures
            s@ == self@,
    {
        IMPlatformStatus {
            enabled: self.enabled,
            connected: self.connected,
            starting: self.starting,
            error: clone_opt_string(&self.error),
            started_at: self.started_at,
            last_inbound_at: self.last_inbound_at,
            last_outbound_at: self.last_outbound_at,
            last_error: clone_opt_string(&self.last_error),
        }
    }
}

/// DingTalk as the shell configures it.
#[derive(Debug, Clone)]
pub struct DingTalkConfig {
    pub enabled: bool,
    pub client_id: String,
    pub client_secret: String,
}

/// Feishu as the shell configures it.
#[derive(Debug, Clone)]
pub struct FeishuConfig {
    pub enabled: bool,
    pub app_id: String,
    pub app_secret: String,
    pub domain: String,
}

/// Telegram as the shell configures it.
#[derive(Debug, Clone)]
pub struct TelegramConfig {
    pub enabled: bool,
    pub bot_token: String,
}

/// Discord as the shell configures it.
#[derive(Debug, Clone)]
pub struct DiscordConfig {
    pub enabled: bool,
    pub bot_token: String,
}

/// WeWork as the shell configures it.
#[derive(Debug, Clone)]
pub struct WeWorkConfig {
    pub enabled: bool,
    pub corp_id: String,
    pub agent_id: String,
    pub secret: String,
}

/// Settings that hold for every platform.
#[derive(Debug, Clone, Copy, PartialEq, Eq, Structural)]
pub struct IMSettings {
    pub auto_reply: bool,
    pub mention_only: bool,
    pub max_message_length: u32,
}

/// A message as the shell shows it.
#[derive(Debug, Clone)]
pub struct IMMessage {
    pub id: String,
    pub platform: String,
    pub channel_id: String,
    pub user_id: String,
    pub user_name: String,
    pub content: String,
    pub timestamp: i64,
    pub is_mention: bool,
}

/// The configuration that the shell edits.
#[derive(Debug, Clone)]
pub struct ImGatewayConfig {
    pub enabled: bool,
    pub port: u16,
    pub host: String,
    pub dingtalk: Option<DingTalkConfig>,
    pub feishu: Option<FeishuConfig>,
    pub telegram: Option<TelegramConfig>,
    pub discord: Option<DiscordConfig>,
    pub wework: Option<WeWorkConfig>,
    pub settings: Option<IMSettings>,
}

impl Default for ImGatewayConfig {
    fn default() -> (c: ImGatewayConfig)
        ensures
            !c.enabled,
            c.port == 8081,
            c.host@ == "127.0.0.1"@,
            c.dingtalk is None,
            c.feishu is None,
            c.telegram is None,
            c.discord is None,
            c.wework is None,
            c.settings == Some(IMSettings { auto_reply: true, mention_only: true, max_message_length: 2000 }),
    {
        ImGatewayConfig {
            enabled: false,
            port: 8081,
            host: "127.0.0.1".to_string(),
            dingtalk: None,
            feishu: None,
            telegram: None,
            discord: None,
            wework: None,
            settings: Some(IMSettings { auto_reply: true, mention_only: true, max_message_length: 2000 }),
        }
    }
}

/// What an `ImGatewayStatus` holds.
pub struct ImGatewayStatusView {
    pub dingtalk: IMPlatformStatusView,
    pub feishu: IMPlatformStatusView,
    pub telegram: IMPlatformStatusView,
    pub discord: IMPlatformStatusView,
    pub wework: IMPlatformStatusView,
    pub overall: Seq<char>,
}

/// The status of every platform, and of the gateways as a whole.
#[derive(Debug)]
pub struct ImGatewayStatus {
    pub dingtalk: IMPlatformStatus,
    pub feishu: IMPlatformStatus,
    pub telegram: IMPlatformStatus,
    pub discord: IMPlatformStatus,
    pub wework: IMPlatformStatus,
    pub overall: String,
}

impl View for ImGatewayStatus {
    type V = ImGatewayStatusView;

    open spec fn view(&self) -> ImGatewayStatusView {
        ImGatewayStatusView {
            dingtalk: self.dingtalk@,
            feishu: self.feishu@,
            telegram: self.telegram@,
            discord: self.discord@,
            wework: self.wework@,
            overall: self.overall@,
        }
    }
}

/// The status before anything was started.
pub open spec fn disconnected_status() -> ImGatewayStatusView {
    ImGatewayStatusView {
        dingtalk: idle_status(),
        feishu: idle_status(),
        telegram: idle_status(),
        discord: idle_status(),
        wework: idle_status(),
        overall: "disconnected"@,
    }
}

impl Default for ImGatewayStatus {
    fn default() -> (s: ImGatewayStatus)
        ensures
            s@ == disconnected_status(),
    {
        ImGatewayStatus {
            dingtalk: IMPlatformStatus::default(),
            feishu: IMPlatformStatus::default(),
            telegram: IMPlatformStatus::default(),
            discord: IMPlatformStatus::default(),
            wework: IMPlatformStatus::default(),
            overall: "disconnected".to_string(),
        }
    }
}

impl Clone for ImGatewayStatus {
    fn clone(&self) -> (s: ImGatewayStatus)
        ensures
            s@ == self@,
    {
        ImGatewayStatus {
            dingtalk: self.dingtalk.clone(),
            feishu: self.feishu.clone(),
            telegram: self.telegram.clone(),
            discord: self.discord.clone(),
            wework: self.wework.clone(),
            overall: self.overall.clone(),
        }
    }
}

/// The status of `platform` within `status`.
pub open spec fn platform_status(status: ImGatewayStatusView, platform: IMPlatform) -> IMPlatformStatusView {
    match platform {
        IMPlatform::DingTalk => status.dingtalk,
        IMPlatform::Feishu => status.feishu,
        IMPlatform::Telegram => status.telegram,
        IMPlatform::Discord => status.discord,
        IMPlatform::WeWork => status.wework,
    }
}

/// The platform that a name in lower case stands for.
pub open spec fn platform_named(name: Seq<char>) -> Option<IMPlatform> {
    if name == "dingtalk"@ {
        Some(IMPlatform::DingTalk)
    } else if name == "feishu"@ {
        Some(IMPlatform::Feishu)
    } else if name == "telegram"@ {
        Some(IMPlatform::Telegram)
    } else if name == "discord"@ {
        Some(IMPlatform::Discord)
    } else if name == "wework"@ {
        Some(IMPlatform::WeWork)
    } else {
        None
    }
}

/// The name of a platform.
pub open spec fn platform_name(platform: IMPlatform) -> Seq<char> {
    match platform {
        IMPlatform::DingTalk => "dingtalk"@,
        IMPlatform::Feishu => "feishu"@,
        IMPlatform::Telegram => "telegram"@,
        IMPlatform::Discord => "discord"@,
        IMPlatform::WeWork => "wework"@,
    }
}

/// The platform that a name in lower case stands for.
pub fn platform_from_lower(name: &str) -> (p: Option<IMPlatform>)
    ensures
        p == platform_named(name@),
{
    if str_eq(name, "dingtalk") {
        Some(IMPlatform::DingTalk)
    } else if str_eq(name, "feishu") {
        Some(IMPlatform::Feishu)
    } else if str_eq(name, "telegram") {
        Some(IMPlatform::Telegram)
    } else if str_eq(name, "discord") {
        Some(IMPlatform::Discord)
    } else if str_eq(name, "wework") {
        Some(IMPlatform::WeWork)
    } else {
        None
    }
}

/// The platform that a name stands for, whatever its case.
pub fn str_to_platform(platform_str: &str) -> (p: Option<IMPlatform>)
    ensures
        p == platform_named(lowercase(platform_str@)),
{
    let lower = to_lowercase(platform_str);
    platform_from_lower(lower.as_str())
}

/// The name of a platform.
pub fn platform_to_str(platform: &IMPlatform) -> (name: String)
    ensures
        name@ == platform_name(*platform),
{
    match platform {
        IMPlatform::DingTalk => "dingtalk".to_string(),
        IMPlatform::Feishu => "feishu".to_string(),
        IMPlatform::Telegram => "telegram".to_string(),
        IMPlatform::Discord => "discord".to_string(),
        IMPlatform::WeWork => "wework".to_string(),
    }
}

/// The name of every platform stands for that platform.
pub proof fn lemma_platform_names_round_trip(platform: IMPlatform)
    ensures
        platform_named(platform_name(platform)) == Some(platform),
{
    reveal_strlit("dingtalk");
    reveal_strlit("feishu");
    reveal_strlit("telegram");
    reveal_strlit("discord");
    reveal_strlit("wework");
    match platform {
        IMPlatform::DingTalk => {},
        IMPlatform::Feishu => {
            assert("feishu"@.len() != "dingtalk"@.len());
        },
        IMPlatform::Telegram => {
            assert("telegram"@[0] != "dingtalk"@[0]);
            assert("telegram"@.len() != "feishu"@.len());
        },
        IMPlatform::Discord => {
            assert("discord"@.len() != "dingtalk"@.len());
            assert("discord"@.len() != "feishu"@.len());
            assert("discord"@.len() != "telegram"@.len());
        },
        IMPlatform::WeWork => {
            assert("wework"@.len() != "dingtalk"@.len());
            assert("wework"@[0] != "feishu"@[0]);
            assert("wework"@.len() != "telegram"@.len());
            assert("wework"@.len() != "discord"@.len());
        },
    }
}

/// The platforms that a configuration enables, in a fixed order.
pub open spec fn enabled_platforms_of(config: ImGatewayConfig) -> Seq<IMPlatform> {
    let a: Seq<IMPlatform> = if config.dingtalk is Some && config.dingtalk->0.enabled {
        Seq::empty().push(IMPlatform::DingTalk)
    } else {
        Seq::empty()
    };
    let b = if config.feishu is Some && config.feishu->0.enabled {
        a.push(IMPlatform::Feishu)
    } else {
        a
    };
    let c = if config.telegram is Some && config.telegram->0.enabled {
        b.push(IMPlatform::Telegram)
    } else {
        b
    };
    let d = if config.discord is Some && config.discord->0.enabled {
        c.push(IMPlatform::Discord)
    } else {
        c
    };
    if config.wework is Some && config.wework->0.enabled {
        d.push(IMPlatform::WeWork)
    } else {
        d
    }
}

/// Keeps the shell's configuration and the status of every platform.
pub struct ImGatewayManager {
    config: ImGatewayConfig,
    status: ImGatewayStatus,
}

impl ImGatewayManager {
    /// The configuration.
    pub closed spec fn config(&self) -> ImGatewayConfig {
        self.config
    }

    /// The status.
    pub closed spec fn status(&self) -> ImGatewayStatusView {
        self.status@
    }

    /// A manager with the default configuration and nothing connected.
    pub fn new() -> (m: ImGatewayManager)
        ensures
            m.status() == disconnected_status(),
            m.config().port == 8081,
            m.config().host@ == "127.0.0.1"@,
            !m.config().enabled,
    {
        ImGatewayManager { config: ImGatewayConfig::default(), status: ImGatewayStatus::default() }
    }

    /// The configuration.
    pub fn get_config(&self) -> &ImGatewayConfig
        returns
            &self.config(),
    {
        &self.config
    }

    /// Replaces the configuration.
    pub fn set_config(&mut self, config: ImGatewayConfig)
        ensures
            final(self).config() == config,
            final(self).status() == old(self).status(),
    {
        self.config = config;
    }

    /// A copy of the status.
    pub fn get_status(&self) -> (s: ImGatewayStatus)
        ensures
            s@ == self.status(),
    {
        self.status.clone()
    }

    /// Replaces the status.
    pub fn update_status(&mut self, status: ImGatewayStatus)
        ensures
            final(self).status() == status@,
            final(self).config() == old(self).config(),
    {
        self.status = status;
    }

    /// Records that the gateways were stopped: nothing is connected.
    pub fn mark_stopped(&mut self)
        ensures
            final(self).status() == disconnected_status(),
            final(self).config() == old(self).config(),
    {
        self.status = ImGatewayStatus::default();
    }

    /// Records how the launch of the gateway process went: `starting` after
    /// a launch, `error` where it could not be launched.
    pub fn record_launch(&mut self, launched: bool)
        ensures
            final(self).config() == old(self).config(),
            final(self).status() == (ImGatewayStatusView {
                overall: if launched {
                    "starting"@
                } else {
                    "error"@
                },
                ..old(self).status()
            }),
    {
        self.status.overall = if launched {
            "starting".to_string()
        } else {
            "error".to_string()
        };
    }

    /// Records that the gateway process has ended by itself.
    pub fn record_exit(&mut self)
        ensures
            final(self).config() == old(self).config(),
            final(self).status() == (ImGatewayStatusView { overall: "disconnected"@, ..old(self).status() }),
    {
        self.status.overall = "disconnected".to_string();
    }

    /// Whether any platform is connected.
    pub fn is_any_connected(&self) -> (b: bool)
        ensures
            b == (self.status().dingtalk.connected || self.status().feishu.connected
                || self.status().telegram.connected || self.status().discord.connected
                || self.status().wework.connected),
    {
        self.status.dingtalk.connected || self.status.feishu.connected || self.status.telegram.connected
            || self.status.discord.connected || self.status.wework.connected
    }

    /// Whether `platform` is connected.
    pub fn is_connected(&self, platform: IMPlatform) -> (b: bool)
        ensures
            b == platform_status(self.status(), platform).connected,
    {
        match platform {
            IMPlatform::DingTalk => self.status.dingtalk.connected,
            IMPlatform::Feishu => self.status.feishu.connected,
            IMPlatform::Telegram => self.status.telegram.connected,
            IMPlatform::Discord => self.status.discord.connected,
            IMPlatform::WeWork => self.status.wework.connected,
        }
    }

    /// Whether a notification can go to `platform`: only a connected
    /// platform takes one.
    pub fn send_notification(&self, platform: IMPlatform, text: &str) -> (r: Result<bool, String>)
        ensures
            match r {
                Ok(sent) => sent && platform_status(self.status(), platform).connected,
                Err(e) => !platform_status(self.status(), platform).connected && e@ == "Platform not connected"@,
            },
    {
        if !self.is_connected(platform) {
            return Err("Platform not connected".to_string());
        }
        Ok(true)
    }

    /// The platforms that `start_all_enabled` starts: those that the
    /// configuration enables.
    pub fn start_all_enabled(&self) -> (list: Vec<IMPlatform>)
        ensures
            list@ == enabled_platforms_of(self.config()),
    {
        let mut list: Vec<IMPlatform> = Vec::new();
        match &self.config.dingtalk {
            Some(c) => {
                if c.enabled {
                    list.push(IMPlatform::DingTalk);
                }
            },
            None => {},
        }
        match &self.config.feishu {
            Some(c) => {
                if c.enabled {
                    list.push(IMPlatform::Feishu);
                }
            },
            None => {},
        }
        match &self.config.telegram {
            Some(c) => {
                if c.enabled {
                    list.push(IMPlatform::Telegram);
                }
            },
            None => {},
        }
        match &self.config.discord {
            Some(c) => {
                if c.enabled {
                    list.push(IMPlatform::Discord);
                }
            },
            None => {},
        }
        match &self.config.wework {
            Some(c) => {
                if c.enabled {
                    list.push(IMPlatform::WeWork);
                }
            },
            None => {},
        }
        list
    }
}

} // verus!
