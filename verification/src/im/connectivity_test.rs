//! Diagnostics for one adapter: an ordered list of checks and the verdict
//! that they fold into.

use vstd::prelude::*;
use crate::im::dingtalk::{DingTalkConfigView, DingTalkGateway};
use crate::im::discord::{DiscordConfigView, DiscordGateway};
use crate::im::feishu::{FeishuConfigView, FeishuGateway};
use crate::im::gateway::{opt_str_text, opt_text, Gateway};
use crate::im::telegram::{TelegramConfigView, TelegramGateway};
use crate::im::text::{concat2, str_eq};
use crate::im::wework::{WeWorkConfigView, WeWorkGateway};
use crate::im::whatsapp::{WhatsAppConfigView, WhatsAppGateway};

verus! {

/// What a `ConnectivityCheck` holds.
pub struct ConnectivityCheckView {
    pub code: Seq<char>,
    pub level: Seq<char>,
    pub message: Seq<char>,
    pub suggestion: Option<Seq<char>>,
}

/// One check: what was looked at, how it went (`pass`, `warn`, `fail` or
/// `info`), and what to do about it.
#[derive(Debug)]
pub struct ConnectivityCheck {
    pub code: String,
    pub level: String,
    pub message: String,
    pub suggestion: Option<String>,
}

impl View for ConnectivityCheck {
    type V = ConnectivityCheckView;

    open spec fn view(&self) -> ConnectivityCheckView {
        ConnectivityCheckView {
            code: self.code@,
            level: self.level@,
            message: self.message@,
            suggestion: opt_text(self.suggestion),
        }
    }
}

/// The checks of a list, each by its view.
pub open spec fn checks_view(checks: Seq<ConnectivityCheck>) -> Seq<ConnectivityCheckView> {
    Seq::new(checks.len(), |i: int| checks[i]@)
}

/// What a `ConnectivityTestResult` holds.
pub struct ConnectivityTestResultView {
    pub platform: Seq<char>,
    pub tested_at: i64,
    pub verdict: Seq<char>,
    pub checks: Seq<ConnectivityCheckView>,
}

/// The outcome of a test: the checks in the order in which they ran, and
/// their verdict.
#[derive(Debug)]
pub struct ConnectivityTestResult {
    pub platform: String,
    pub tested_at: i64,
    pub verdict: String,
    pub checks: Vec<ConnectivityCheck>,
}

impl View for ConnectivityTestResult {
    type V = ConnectivityTestResultView;

    open spec fn view(&self) -> ConnectivityTestResultView {
        ConnectivityTestResultView {
            platform: self.platform@,
            tested_at: self.tested_at,
            verdict: self.verdict@,
            checks: checks_view(self.checks@),
        }
    }
}

/// How the authentication probe went.
#[derive(Debug)]
pub enum AuthProbe {
    /// The platform accepted the credentials.
    Passed,
    /// The platform answered with this status.
    Rejected(String),
    /// The platform could not be asked, or the token fetch failed.
    Failed(String),
}

/// What an `AuthProbe` holds.
pub enum AuthProbeView {
    Passed,
    Rejected(Seq<char>),
    Failed(Seq<char>),
}

impl View for AuthProbe {
    type V = AuthProbeView;

    open spec fn view(&self) -> AuthProbeView {
        match self {
            AuthProbe::Passed => AuthProbeView::Passed,
            AuthProbe::Rejected(s) => AuthProbeView::Rejected(s@),
            AuthProbe::Failed(e) => AuthProbeView::Failed(e@),
        }
    }
}

/// Whether a check of the level `level` is among `checks`.
pub open spec fn has_level(checks: Seq<ConnectivityCheckView>, level: Seq<char>) -> bool {
    exists|i: int| 0 <= i < checks.len() && (#[trigger] checks[i]).level == level
}

/// The verdict of `checks`: `fail` where a check failed, else `warn` where
/// one warned, else `pass`.
pub open spec fn verdict_of(checks: Seq<ConnectivityCheckView>) -> Seq<char> {
    if has_level(checks, "fail"@) {
        "fail"@
    } else if has_level(checks, "warn"@) {
        "warn"@
    } else {
        "pass"@
    }
}

/// The check that fails a disabled adapter.
pub open spec fn disabled_check() -> ConnectivityCheckView {
    ConnectivityCheckView {
        code: "gateway_enabled"@,
        level: "fail"@,
        message: "网关未启用"@,
        suggestion: Some("请启用该网关"@),
    }
}

/// The check that fails an adapter without its credentials.
pub open spec fn missing_check(code: Seq<char>, names: Seq<char>) -> ConnectivityCheckView {
    ConnectivityCheckView {
        code,
        level: "fail"@,
        message: "缺少必要配置项: "@ + names,
        suggestion: Some("请补全配置后重新测试连通性"@),
    }
}

/// The check that tells whether the adapter is connected.
pub open spec fn running_check(connected: bool, suggestion: Seq<char>) -> ConnectivityCheckView {
    if connected {
        ConnectivityCheckView {
            code: "gateway_running"@,
            level: "pass"@,
            message: "IM 渠道已启用且运行正常"@,
            suggestion: None,
        }
    } else {
        ConnectivityCheckView {
            code: "gateway_running"@,
            level: "warn"@,
            message: "IM 渠道已启用但当前未连接"@,
            suggestion: Some(suggestion),
        }
    }
}

/// The check that reports the authentication probe.
pub open spec fn auth_check(
    probe: AuthProbeView,
    passed: Seq<char>,
    rejected_hint: Seq<char>,
    failed_hint: Seq<char>,
) -> ConnectivityCheckView {
    match probe {
        AuthProbeView::Passed => ConnectivityCheckView {
            code: "auth_check"@,
            level: "pass"@,
            message: passed,
            suggestion: None,
        },
        AuthProbeView::Rejected(status) => ConnectivityCheckView {
            code: "auth_check"@,
            level: "fail"@,
            message: "鉴权失败: HTTP "@ + status,
            suggestion: Some(rejected_hint),
        },
        AuthProbeView::Failed(e) => ConnectivityCheckView {
            code: "auth_check"@,
            level: "fail"@,
            message: "鉴权失败: "@ + e,
            suggestion: Some(failed_hint),
        },
    }
}

/// A check that only informs.
pub open spec fn info_check(code: Seq<char>, message: Seq<char>, suggestion: Seq<char>) -> ConnectivityCheckView {
    ConnectivityCheckView { code, level: "info"@, message, suggestion: Some(suggestion) }
}

/// The check that passes a complete configuration.
pub open spec fn config_check(message: Seq<char>) -> ConnectivityCheckView {
    ConnectivityCheckView { code: "config_check"@, level: "pass"@, message, suggestion: None }
}

/// The outcome of a test. A disabled adapter and one without credentials
/// fail at once with that one check. Every other adapter gets all of
/// `checks`, and their verdict.
pub open spec fn battery_of(
    platform: Seq<char>,
    tested_at: i64,
    enabled: bool,
    missing: Option<ConnectivityCheckView>,
    checks: Seq<ConnectivityCheckView>,
) -> ConnectivityTestResultView {
    if !enabled {
        ConnectivityTestResultView {
            platform,
            tested_at,
            verdict: "fail"@,
            checks: Seq::empty().push(disabled_check()),
        }
    } else if missing is Some {
        ConnectivityTestResultView { platform, tested_at, verdict: "fail"@, checks: Seq::empty().push(missing->0) }
    } else {
        ConnectivityTestResultView { platform, tested_at, verdict: verdict_of(checks), checks }
    }
}

/// A disabled adapter fails with exactly one check, `gateway_enabled`.
pub proof fn lemma_disabled_fails(
    platform: Seq<char>,
    tested_at: i64,
    missing: Option<ConnectivityCheckView>,
    checks: Seq<ConnectivityCheckView>,
)
    ensures
        battery_of(platform, tested_at, false, missing, checks).verdict == "fail"@,
        battery_of(platform, tested_at, false, missing, checks).checks.len() == 1,
        battery_of(platform, tested_at, false, missing, checks).checks[0].code == "gateway_enabled"@,
{
}

/// An enabled adapter with its credentials whose authentication probe did
/// not pass fails; the probe's check is reported, and so is every check
/// behind it.
pub proof fn lemma_failed_probe_fails(
    platform: Seq<char>,
    tested_at: i64,
    probe: AuthProbeView,
    passed: Seq<char>,
    rejected_hint: Seq<char>,
    failed_hint: Seq<char>,
    others: Seq<ConnectivityCheckView>,
)
    requires
        probe != AuthProbeView::Passed,
    ensures
        ({
            let first = auth_check(probe, passed, rejected_hint, failed_hint);
            let result = battery_of(platform, tested_at, true, None, Seq::empty().push(first) + others);
            &&& result.verdict == "fail"@
            &&& result.checks.len() == 1 + others.len()
            &&& result.checks[0].code == "auth_check"@
            &&& result.checks[0].level == "fail"@
            &&& forall|i: int| 0 <= i < others.len() ==> result.checks[i + 1] == others[i]
        }),
{
    let first = auth_check(probe, passed, rejected_hint, failed_hint);
    let checks = Seq::empty().push(first) + others;
    assert(checks[0].level == "fail"@);
}

fn make_check(code: &str, level: &str, message: &str, suggestion: Option<&str>) -> (c: ConnectivityCheck)
    ensures
        c@ == (ConnectivityCheckView {
            code: code@,
            level: level@,
            message: message@,
            suggestion: opt_str_text(suggestion),
        }),
{
    ConnectivityCheck {
        code: code.to_string(),
        level: level.to_string(),
        message: message.to_string(),
        suggestion: match suggestion {
            Some(s) => Some(s.to_string()),
            None => None,
        },
    }
}

fn make_missing(code: &str, names: &str) -> (c: ConnectivityCheck)
    ensures
        c@ == missing_check(code@, names@),
{
    let message = concat2("缺少必要配置项: ", names);
    make_check(code, "fail", message.as_str(), Some("请补全配置后重新测试连通性"))
}

fn make_running(connected: bool, suggestion: &str) -> (c: ConnectivityCheck)
    ensures
        c@ == running_check(connected, suggestion@),
{
    if connected {
        make_check("gateway_running", "pass", "IM 渠道已启用且运行正常", None)
    } else {
        make_check("gateway_running", "warn", "IM 渠道已启用但当前未连接", Some(suggestion))
    }
}

fn make_auth(probe: &AuthProbe, passed: &str, rejected_hint: &str, failed_hint: &str) -> (c: ConnectivityCheck)
    ensures
        c@ == auth_check(probe@, passed@, rejected_hint@, failed_hint@),
{
    match probe {
        AuthProbe::Passed => make_check("auth_check", "pass", passed, None),
        AuthProbe::Rejected(status) => {
            let message = concat2("鉴权失败: HTTP ", status.as_str());
            make_check("auth_check", "fail", message.as_str(), Some(rejected_hint))
        },
        AuthProbe::Failed(e) => {
            let message = concat2("鉴权失败: ", e.as_str());
            make_check("auth_check", "fail", message.as_str(), Some(failed_hint))
        },
    }
}

fn make_info(code: &str, message: &str, suggestion: &str) -> (c: ConnectivityCheck)
    ensures
        c@ == info_check(code@, message@, suggestion@),
{
    make_check(code, "info", message, Some(suggestion))
}

fn any_level(checks: &Vec<ConnectivityCheck>, level: &str) -> (b: bool)
    ensures
        b == has_level(checks_view(checks@), level@),
{
    let mut i: usize = 0;
    while i < checks.len()
        invariant
            i <= checks.len(),
            forall|j: int| 0 <= j < i ==> (#[trigger] checks_view(checks@)[j]).level != level@,
        decreases checks.len() - i,
    {
        if str_eq(checks[i].level.as_str(), level) {
            assert(checks_view(checks@)[i as int].level == level@);
            return true;
        }
        i += 1;
    }
    false
}

/// Runs the checks of one adapter and folds them into a verdict.
pub struct ConnectivityTester {}

impl ConnectivityTester {
    /// A tester.
    pub fn new() -> ConnectivityTester {
        ConnectivityTester {  }
    }

    /// The verdict of `checks`: `fail` where a check failed, else `warn`
    /// where one warned, else `pass`.
    pub fn calculate_verdict(&self, checks: &Vec<ConnectivityCheck>) -> (verdict: String)
        ensures
            verdict@ == verdict_of(checks_view(checks@)),
    {
        if any_level(checks, "fail") {
            "fail".to_string()
        } else if any_level(checks, "warn") {
            "warn".to_string()
        } else {
            "pass".to_string()
        }
    }

    fn run(
        &self,
        platform: &str,
        tested_at: i64,
        enabled: bool,
        missing: Option<ConnectivityCheck>,
        checks: Vec<ConnectivityCheck>,
    ) -> (result: ConnectivityTestResult)
        ensures
            result@ == battery_of(
                platform@,
                tested_at,
                enabled,
                match missing {
                    Some(m) => Some(m@),
                    None => None,
                },
                checks_view(checks@),
            ),
    {
        if !enabled {
            let mut only: Vec<ConnectivityCheck> = Vec::new();
            only.push(make_check("gateway_enabled", "fail", "网关未启用", Some("请启用该网关")));
            assert(checks_view(only@) =~= Seq::empty().push(disabled_check()));
            return ConnectivityTestResult {
                platform: platform.to_string(),
                tested_at,
                verdict: "fail".to_string(),
                checks: only,
            };
        }
        match missing {
            Some(m) => {
                let ghost view = m@;
                let mut only: Vec<ConnectivityCheck> = Vec::new();
                only.push(m);
                assert(checks_view(only@) =~= Seq::empty().push(view));
                ConnectivityTestResult {
                    platform: platform.to_string(),
                    tested_at,
                    verdict: "fail".to_string(),
                    checks: only,
                }
            },
            None => {
                let verdict = self.calculate_verdict(&checks);
                ConnectivityTestResult { platform: platform.to_string(), tested_at, verdict, checks }
            },
        }
    }
}

/// A list of checks, built one check at a time.
struct Checks {
    list: Vec<ConnectivityCheck>,
}

impl View for Checks {
    type V = Seq<ConnectivityCheckView>;

    closed spec fn view(&self) -> Seq<ConnectivityCheckView> {
        checks_view(self.list@)
    }
}

impl Checks {
    fn new() -> (c: Checks)
        ensures
            c@ == Seq::<ConnectivityCheckView>::empty(),
    {
        let c = Checks { list: Vec::new() };
        assert(c@ =~= Seq::<ConnectivityCheckView>::empty());
        c
    }

    fn with(self, check: ConnectivityCheck) -> (c: Checks)
        ensures
            c@ == self@.push(check@),
    {
        let mut list = self.list;
        list.push(check);
        let c = Checks { list };
        assert(c@ =~= self@.push(check@));
        c
    }

    fn build(self) -> (v: Vec<ConnectivityCheck>)
        ensures
            checks_view(v@) == self@,
    {
        self.list
    }
}

/// The outcome of a test of the DingTalk adapter.
pub open spec fn dingtalk_result_of(
    config: DingTalkConfigView,
    connected: bool,
    probe: AuthProbeView,
    tested_at: i64,
) -> ConnectivityTestResultView {
    battery_of(
        "DingTalk"@,
        tested_at,
        config.enabled,
        if config.client_id.len() == 0 || config.client_secret.len() == 0 {
            Some(missing_check("missing_credentials"@, "client_id, client_secret"@))
        } else {
            None
        },
        Seq::empty().push(
            auth_check(
                probe,
                "钉钉鉴权通过"@,
                "请检查 ID/Secret 是否正确，且机器人权限已开通"@,
                "请检查 ID/Secret 是否正确，且机器人权限已开通"@,
            ),
        ).push(running_check(connected, "请检查网络、机器人配置和平台侧事件开关"@)).push(
            info_check(
                "dingtalk_bot_membership_hint"@,
                "钉钉机器人需被加入目标会话并具备发言权限"@,
                "请确认机器人在目标会话中，且企业权限配置允许收发消息"@,
            ),
        ),
    )
}

/// The outcome of a test of the Feishu adapter.
pub open spec fn feishu_result_of(
    config: FeishuConfigView,
    connected: bool,
    probe: AuthProbeView,
    tested_at: i64,
) -> ConnectivityTestResultView {
    battery_of(
        "Feishu"@,
        tested_at,
        config.enabled,
        if config.app_id.len() == 0 || config.app_secret.len() == 0 {
            Some(missing_check("missing_credentials"@, "app_id, app_secret"@))
        } else {
            None
        },
        Seq::empty().push(
            auth_check(
                probe,
                "飞书鉴权通过"@,
                "请检查 ID/Secret 是否正确，且机器人权限已开通"@,
                "请检查 ID/Secret 是否正确，且机器人权限已开通"@,
            ),
        ).push(running_check(connected, "请检查网络、机器人配置和平台侧事件开关"@)).push(
            info_check(
                "feishu_group_requires_mention"@,
                "飞书群聊中仅响应 @机器人的消息"@,
                "请在群聊中使用 @机器人 + 内容触发对话"@,
            ),
        ).push(
            info_check(
                "feishu_event_subscription_required"@,
                "飞书需要开启消息事件订阅（im.message.receive_v1）才能收消息"@,
                "请在飞书开发者后台确认事件订阅、权限和发布状态"@,
            ),
        ),
    )
}

/// The outcome of a test of the Telegram adapter.
pub open spec fn telegram_result_of(
    config: TelegramConfigView,
    connected: bool,
    probe: AuthProbeView,
    tested_at: i64,
) -> ConnectivityTestResultView {
    battery_of(
        "Telegram"@,
        tested_at,
        config.enabled,
        if config.bot_token.len() == 0 {
            Some(missing_check("missing_credentials"@, "bot_token"@))
        } else {
            None
        },
        Seq::empty().push(
            auth_check(probe, "Telegram 鉴权通过"@, "请检查 bot_token 是否正确"@, "请检查网络连接和 bot_token"@),
        ).push(running_check(connected, "请检查网络连接"@)).push(
            info_check(
                "telegram_privacy_mode_hint"@,
                "Telegram 可能受 Bot Privacy Mode 影响"@,
                "若群聊中不响应，请在 @BotFather 检查 Privacy Mode 配置"@,
            ),
        ),
    )
}

/// The outcome of a test of the Discord adapter.
pub open spec fn discord_result_of(
    config: DiscordConfigView,
    connected: bool,
    probe: AuthProbeView,
    tested_at: i64,
) -> ConnectivityTestResultView {
    battery_of(
        "Discord"@,
        tested_at,
        config.enabled,
        if config.bot_token.len() == 0 {
            Some(missing_check("missing_credentials"@, "bot_token"@))
        } else {
            None
        },
        Seq::empty().push(
            auth_check(probe, "Discord 鉴权通过"@, "请检查 bot_token 是否正确"@, "请检查网络连接和 bot_token"@),
        ).push(running_check(connected, "请检查网络连接"@)).push(
            info_check(
                "discord_group_requires_mention"@,
                "Discord 群聊中仅响应 @机器人的消息"@,
                "请在频道中使用 @机器人 + 内容触发对话"@,
            ),
        ),
    )
}

/// The outcome of a test of the WeWork adapter. A webhook cannot be asked
/// who it belongs to, so a complete configuration stands for the probe.
pub open spec fn wework_result_of(config: WeWorkConfigView, connected: bool, tested_at: i64) -> ConnectivityTestResultView {
    battery_of(
        "WeWork"@,
        tested_at,
        config.enabled,
        if config.webhook_url.len() == 0 {
            Some(missing_check("missing_webhook_url"@, "webhook_url"@))
        } else {
            None
        },
        Seq::empty().push(config_check("企业微信配置完整"@)).push(
            running_check(connected, "请检查 Webhook 服务器是否正常运行"@),
        ),
    )
}

/// The outcome of a test of the WhatsApp adapter.
pub open spec fn whatsapp_result_of(
    config: WhatsAppConfigView,
    connected: bool,
    probe: AuthProbeView,
    tested_at: i64,
) -> ConnectivityTestResultView {
    battery_of(
        "WhatsApp"@,
        tested_at,
        config.enabled,
        if config.phone_number_id is None || config.access_token is None {
            Some(missing_check("missing_credentials"@, "phone_number_id, access_token"@))
        } else {
            None
        },
        Seq::empty().push(
            auth_check(
                probe,
                "WhatsApp 鉴权通过"@,
                "请检查 access_token 是否正确"@,
                "请检查网络连接和 access_token"@,
            ),
        ).push(running_check(connected, "请检查 Webhook 服务器是否正常运行"@)),
    )
}

impl ConnectivityTester {
    /// Tests the DingTalk adapter at `tested_at`; `probe` tells how the
    /// token fetch went.
    pub fn test_dingtalk(&self, gateway: &DingTalkGateway, probe: &AuthProbe, tested_at: i64) -> (result:
        ConnectivityTestResult)
        ensures
            result@ == dingtalk_result_of(gateway.config(), gateway.status().connected, probe@, tested_at),
    {
        let config = gateway.get_config();
        let missing = if config.client_id.as_str().is_empty() || config.client_secret.as_str().is_empty() {
            Some(make_missing("missing_credentials", "client_id, client_secret"))
        } else {
            None
        };
        let checks = Checks::new().with(
            make_auth(
                probe,
                "钉钉鉴权通过",
                "请检查 ID/Secret 是否正确，且机器人权限已开通",
                "请检查 ID/Secret 是否正确，且机器人权限已开通",
            ),
        ).with(make_running(gateway.is_connected(), "请检查网络、机器人配置和平台侧事件开关")).with(
            make_info(
                "dingtalk_bot_membership_hint",
                "钉钉机器人需被加入目标会话并具备发言权限",
                "请确认机器人在目标会话中，且企业权限配置允许收发消息",
            ),
        ).build();
        self.run("DingTalk", tested_at, config.enabled, missing, checks)
    }

    /// Tests the Feishu adapter at `tested_at`; `probe` tells how the token
    /// fetch went.
    pub fn test_feishu(&self, gateway: &FeishuGateway, probe: &AuthProbe, tested_at: i64) -> (result:
        ConnectivityTestResult)
        ensures
            result@ == feishu_result_of(gateway.config(), gateway.status().connected, probe@, tested_at),
    {
        let config = gateway.get_config();
        let missing = if config.app_id.as_str().is_empty() || config.app_secret.as_str().is_empty() {
            Some(make_missing("missing_credentials", "app_id, app_secret"))
        } else {
            None
        };
        let checks = Checks::new().with(
            make_auth(
                probe,
                "飞书鉴权通过",
                "请检查 ID/Secret 是否正确，且机器人权限已开通",
                "请检查 ID/Secret 是否正确，且机器人权限已开通",
            ),
        ).with(make_running(gateway.is_connected(), "请检查网络、机器人配置和平台侧事件开关")).with(
            make_info(
                "feishu_group_requires_mention",
                "飞书群聊中仅响应 @机器人的消息",
                "请在群聊中使用 @机器人 + 内容触发对话",
            ),
        ).with(
            make_info(
                "feishu_event_subscription_required",
                "飞书需要开启消息事件订阅（im.message.receive_v1）才能收消息",
                "请在飞书开发者后台确认事件订阅、权限和发布状态",
            ),
        ).build();
        self.run("Feishu", tested_at, config.enabled, missing, checks)
    }

    /// Tests the Telegram adapter at `tested_at`; `probe` tells how the
    /// identity call went.
    pub fn test_telegram(&self, gateway: &TelegramGateway, probe: &AuthProbe, tested_at: i64) -> (result:
        ConnectivityTestResult)
        ensures
            result@ == telegram_result_of(gateway.config(), gateway.status().connected, probe@, tested_at),
    {
        let config = gateway.get_config();
        let missing = if config.bot_token.as_str().is_empty() {
            Some(make_missing("missing_credentials", "bot_token"))
        } else {
            None
        };
        let checks = Checks::new().with(
            make_auth(probe, "Telegram 鉴权通过", "请检查 bot_token 是否正确", "请检查网络连接和 bot_token"),
        ).with(make_running(gateway.is_connected(), "请检查网络连接")).with(
            make_info(
                "telegram_privacy_mode_hint",
                "Telegram 可能受 Bot Privacy Mode 影响",
                "若群聊中不响应，请在 @BotFather 检查 Privacy Mode 配置",
            ),
        ).build();
        self.run("Telegram", tested_at, config.enabled, missing, checks)
    }

    /// Tests the Discord adapter at `tested_at`; `probe` tells how the
    /// identity call went.
    pub fn test_discord(&self, gateway: &DiscordGateway, probe: &AuthProbe, tested_at: i64) -> (result:
        ConnectivityTestResult)
        ensures
            result@ == discord_result_of(gateway.config(), gateway.status().connected, probe@, tested_at),
    {
        let config = gateway.get_config();
        let missing = if config.bot_token.as_str().is_empty() {
            Some(make_missing("missing_credentials", "bot_token"))
        } else {
            None
        };
        let checks = Checks::new().with(
            make_auth(probe, "Discord 鉴权通过", "请检查 bot_token 是否正确", "请检查网络连接和 bot_token"),
        ).with(make_running(gateway.is_connected(), "请检查网络连接")).with(
            make_info(
                "discord_group_requires_mention",
                "Discord 群聊中仅响应 @机器人的消息",
                "请在频道中使用 @机器人 + 内容触发对话",
            ),
        ).build();
        self.run("Discord", tested_at, config.enabled, missing, checks)
    }

    /// Tests the WeWork adapter at `tested_at`.
    pub fn test_wework(&self, gateway: &WeWorkGateway, tested_at: i64) -> (result: ConnectivityTestResult)
        ensures
            result@ == wework_result_of(gateway.config(), gateway.status().connected, tested_at),
    {
        let config = gateway.get_config();
        let missing = if config.webhook_url.as_str().is_empty() {
            Some(make_missing("missing_webhook_url", "webhook_url"))
        } else {
            None
        };
        let checks = Checks::new().with(make_check("config_check", "pass", "企业微信配置完整", None)).with(
            make_running(gateway.is_connected(), "请检查 Webhook 服务器是否正常运行"),
        ).build();
        self.run("WeWork", tested_at, config.enabled, missing, checks)
    }

    /// Tests the WhatsApp adapter at `tested_at`; `probe` tells how the
    /// credentials check went.
    pub fn test_whatsapp(&self, gateway: &WhatsAppGateway, probe: &AuthProbe, tested_at: i64) -> (result:
        ConnectivityTestResult)
        ensures
            result@ == whatsapp_result_of(gateway.config(), gateway.status().connected, probe@, tested_at),
    {
        let config = gateway.get_config();
        let missing = if config.phone_number_id.is_none() || config.access_token.is_none() {
            Some(make_missing("missing_credentials", "phone_number_id, access_token"))
        } else {
            None
        };
        let checks = Checks::new().with(
            make_auth(probe, "WhatsApp 鉴权通过", "请检查 access_token 是否正确", "请检查网络连接和 access_token"),
        ).with(make_running(gateway.is_connected(), "请检查 Webhook 服务器是否正常运行")).build();
        self.run("WhatsApp", tested_at, config.enabled, missing, checks)
    }
}

} // verus!
