//! Configuration and status of the engine that runs beside the
//! application.

use vstd::prelude::*;
use crate::im::gateway::{clone_opt_string, opt_text};

verus! {

/// What a `GoClawConfig` holds.
pub struct GoClawConfigView {
    pub enabled: bool,
    pub binary_path: Option<Seq<char>>,
    pub auto_start: bool,
    pub ws_url: Seq<char>,
    pub http_url: Seq<char>,
    pub auto_reconnect: bool,
    pub start_timeout_ms: u64,
    pub ws_connect_timeout_ms: u64,
}

/// Configuration of the engine.
#[derive(Debug)]
pub struct GoClawConfig {
    pub enabled: bool,
    pub binary_path: Option<String>,
    pub auto_start: bool,
    pub ws_url: String,
    pub http_url: String,
    pub auto_reconnect: bool,
    pub start_timeout_ms: u64,
    pub ws_connect_timeout_ms: u64,
}

impl View for GoClawConfig {
    type V = GoClawConfigView;

    open spec fn view(&self) -> GoClawConfigView {
        GoClawConfigView {
            enabled: self.enabled,
            binary_path: opt_text(self.binary_path),
            auto_start: self.auto_start,
            ws_url: self.ws_url@,
            http_url: self.http_url@,
            auto_reconnect: self.auto_reconnect,
            start_timeout_ms: self.start_timeout_ms,
            ws_connect_timeout_ms: self.ws_connect_timeout_ms,
        }
    }
}

impl Default for GoClawConfig {
    fn default() -> (c: GoClawConfig)
        ensures
            c@ == (GoClawConfigView {
                enabled: true,
                binary_path: None,
                auto_start: true,
                ws_url: "ws://127.0.0.1:9876/ws"@,
                http_url: "http://127.0.0.1:9876"@,
                auto_reconnect: true,
                start_timeout_ms: 5000,
                ws_connect_timeout_ms: 10000,
            }),
    {
        GoClawConfig {
            enabled: true,
            binary_path: None,
            auto_start: true,
            ws_url: "ws://127.0.0.1:9876/ws".to_string(),
            http_url: "http://127.0.0.1:9876".to_string(),
            auto_reconnect: true,
            start_timeout_ms: 5000,
            ws_connect_timeout_ms: 10000,
        }
    }
}

impl Clone for GoClawConfig {
    fn clone(&self) -> (c: GoClawConfig)
        ensures
            c@ == self@,
    {
        GoClawConfig {
            enabled: self.enabled,
            binary_path: clone_opt_string(&self.binary_path),
            auto_start: self.auto_start,
            ws_url: self.ws_url.clone(),
            http_url: self.http_url.clone(),
            auto_reconnect: self.auto_reconnect,
            start_timeout_ms: self.start_timeout_ms,
            ws_connect_timeout_ms: self.ws_connect_timeout_ms,
        }
    }
}

/// Status of the engine.
#[derive(Debug, Clone)]
pub struct GoClawStatus {
    pub running: bool,
    pub connected: bool,
    pub binary_path: Option<String>,
    pub ws_url: String,
    pub http_url: String,
    pub error: Option<String>,
}

/// The status to show for an engine with `config`.
pub fn status_of(config: &GoClawConfig, running: bool, connected: bool, error: Option<String>) -> (s: GoClawStatus)
    ensures
        s.running == running,
        s.connected == connected,
        opt_text(s.binary_path) == config@.binary_path,
        s.ws_url@ == config@.ws_url,
        s.http_url@ == config@.http_url,
        s.error == error,
{
    GoClawStatus {
        running,
        connected,
        binary_path: clone_opt_string(&config.binary_path),
        ws_url: config.ws_url.clone(),
        http_url: config.http_url.clone(),
        error,
    }
}

} // verus!
