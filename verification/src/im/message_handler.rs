//! The handler that answers inbound messages: a small chat mode and a mode
//! for tasks, reminders and notes.

use vstd::prelude::*;
use crate::im::gateway::{GatewayEvent, IMMessage, IMMessageView};
use crate::im::text::{concat2, concat3, contains_text, local_time_text, replaced, starts_with_text, str_contains, str_replace, str_starts_with, str_trim, trimmed};

verus! {

/// How messages are answered.
#[derive(Debug, Clone, Copy, PartialEq, Eq, Structural)]
pub enum MessageMode {
    /// Small talk.
    Chat,
    /// Tasks, reminders and notes.
    Cowork,
}

/// Configuration of the handler.
#[derive(Debug, Clone, Copy, PartialEq, Eq, Structural)]
pub struct MessageHandlerConfig {
    pub mode: MessageMode,
    pub enabled: bool,
}

impl Default for MessageHandlerConfig {
    fn default() -> (c: MessageHandlerConfig)
        ensures
            c == (MessageHandlerConfig { mode: MessageMode::Chat, enabled: true }),
    {
        MessageHandlerConfig { mode: MessageMode::Chat, enabled: true }
    }
}

/// Whether a text greets.
pub open spec fn greets(content: Seq<char>) -> bool {
    contains_text(content, "你好"@) || contains_text(content, "hello"@)
}

/// Whether a text asks for the time.
pub open spec fn asks_time(content: Seq<char>) -> bool {
    !greets(content) && (contains_text(content, "时间"@) || contains_text(content, "time"@))
}

/// Whether a text asks for help.
pub open spec fn asks_help(content: Seq<char>) -> bool {
    !greets(content) && !asks_time(content) && (contains_text(content, "帮助"@) || contains_text(
        content,
        "help"@,
    ))
}

/// The help text.
pub open spec fn help_text() -> Seq<char> {
    "我可以帮助你处理消息，支持的命令：\n1. 你好/hello - 打招呼\n2. 时间/time - 获取当前时间\n3. 帮助/help - 查看帮助信息"@
}

/// The answer of the chat mode to `message` where the local time reads
/// `time`: a greeting is answered in the name of the platform, a question
/// for the time with the time, a call for help with the help text, and
/// anything else is echoed.
pub open spec fn chat_reply_of(message: IMMessageView, time: Seq<char>) -> Seq<char> {
    if greets(message.content) {
        "你好！我是"@ + message.platform + "的助手，有什么可以帮助你的吗？"@
    } else if asks_time(message.content) {
        "当前时间: "@ + time
    } else if asks_help(message.content) {
        help_text()
    } else {
        "收到消息: "@ + message.content
    }
}

/// What is left of a command when its keyword, in both spellings, is taken
/// out of it.
pub open spec fn command_rest(content: Seq<char>, word: Seq<char>, english: Seq<char>) -> Seq<char> {
    trimmed(replaced(replaced(content, word, Seq::empty()), english, Seq::empty()))
}

/// Whether a text begins with a keyword in one of its spellings.
pub open spec fn begins(content: Seq<char>, word: Seq<char>, english: Seq<char>) -> bool {
    starts_with_text(content, word) || starts_with_text(content, english)
}

/// The answer of the task mode to `message`: a task, a reminder or a note
/// is confirmed with what the command says, anything else is taken as an
/// instruction.
pub open spec fn cowork_reply_of(message: IMMessageView) -> Seq<char> {
    if begins(message.content, "任务"@, "task"@) {
        "Cowork模式: 已创建任务: "@ + command_rest(message.content, "任务"@, "task"@)
    } else if begins(message.content, "提醒"@, "remind"@) {
        "Cowork模式: 已设置提醒: "@ + command_rest(message.content, "提醒"@, "remind"@)
    } else if begins(message.content, "笔记"@, "note"@) {
        "Cowork模式: 已创建笔记: "@ + command_rest(message.content, "笔记"@, "note"@)
    } else {
        "Cowork模式: 收到任务指令: "@ + message.content
    }
}

/// The answer of the chat mode to `message` where the local time reads
/// `time`.
pub fn chat_reply(message: &IMMessage, time: &str) -> (reply: String)
    ensures
        reply@ == chat_reply_of(message@, time@),
{
    let content = message.content.as_str();
    if str_contains(content, "你好") || str_contains(content, "hello") {
        concat3("你好！我是", message.platform.as_str(), "的助手，有什么可以帮助你的吗？")
    } else if str_contains(content, "时间") || str_contains(content, "time") {
        concat2("当前时间: ", time)
    } else if str_contains(content, "帮助") || str_contains(content, "help") {
        "我可以帮助你处理消息，支持的命令：\n1. 你好/hello - 打招呼\n2. 时间/time - 获取当前时间\n3. 帮助/help - 查看帮助信息".to_string()
    } else {
        concat2("收到消息: ", content)
    }
}

fn rest_of_command(content: &str, word: &str, english: &str) -> (r: String)
    ensures
        r@ == command_rest(content@, word@, english@),
{
    proof {
        reveal_strlit("");
        assert(""@ =~= Seq::<char>::empty());
    }
    let first = str_replace(content, word, "");
    let second = str_replace(first.as_str(), english, "");
    str_trim(second.as_str())
}

/// The answer of the task mode to `message`.
pub fn cowork_reply(message: &IMMessage) -> (reply: String)
    ensures
        reply@ == cowork_reply_of(message@),
{
    let content = message.content.as_str();
    if str_starts_with(content, "任务") || str_starts_with(content, "task") {
        let rest = rest_of_command(content, "任务", "task");
        concat2("Cowork模式: 已创建任务: ", rest.as_str())
    } else if str_starts_with(content, "提醒") || str_starts_with(content, "remind") {
        let rest = rest_of_command(content, "提醒", "remind");
        concat2("Cowork模式: 已设置提醒: ", rest.as_str())
    } else if str_starts_with(content, "笔记") || str_starts_with(content, "note") {
        let rest = rest_of_command(content, "笔记", "note");
        concat2("Cowork模式: 已创建笔记: ", rest.as_str())
    } else {
        concat2("Cowork模式: 收到任务指令: ", content)
    }
}

/// The error of a handler that is switched off.
pub open spec fn disabled_text() -> Seq<char> {
    "消息处理器未启用"@
}

/// Whether `reply` is an answer to `message` in the mode `mode` at some
/// local time.
pub open spec fn answers(mode: MessageMode, message: IMMessageView, reply: Seq<char>) -> bool {
    match mode {
        MessageMode::Chat => exists|time: Seq<char>| reply == #[trigger] chat_reply_of(message, time),
        MessageMode::Cowork => reply == cowork_reply_of(message),
    }
}

/// Answers inbound messages.
pub struct MessageHandler {
    config: MessageHandlerConfig,
}

impl MessageHandler {
    /// The configuration.
    pub closed spec fn config(&self) -> MessageHandlerConfig {
        self.config
    }

    /// A handler with `config`.
    pub fn new(config: MessageHandlerConfig) -> (h: MessageHandler)
        ensures
            h.config() == config,
    {
        MessageHandler { config }
    }

    /// A handler in chat mode.
    pub fn new_default() -> (h: MessageHandler)
        ensures
            h.config() == (MessageHandlerConfig { mode: MessageMode::Chat, enabled: true }),
    {
        MessageHandler { config: MessageHandlerConfig::default() }
    }

    /// Replaces the configuration.
    pub fn set_config(&mut self, config: MessageHandlerConfig)
        ensures
            final(self).config() == config,
    {
        self.config = config;
    }

    /// The configuration.
    pub fn get_config(&self) -> (c: MessageHandlerConfig)
        ensures
            c == self.config(),
    {
        self.config
    }

    /// The answer to `message` where the local time reads `time`. A handler
    /// that is switched off answers with an error.
    pub fn reply_at(&self, message: &IMMessage, time: &str) -> (r: Result<String, String>)
        ensures
            match r {
                Ok(reply) => self.config().enabled && reply@ == match self.config().mode {
                    MessageMode::Chat => chat_reply_of(message@, time@),
                    MessageMode::Cowork => cowork_reply_of(message@),
                },
                Err(e) => !self.config().enabled && e@ == disabled_text(),
            },
    {
        if !self.config.enabled {
            return Err("消息处理器未启用".to_string());
        }
        match self.config.mode {
            MessageMode::Chat => Ok(chat_reply(message, time)),
            MessageMode::Cowork => Ok(cowork_reply(message)),
        }
    }

    /// The answer to `message` at the local time of the machine. A handler
    /// that is switched off answers with an error.
    pub fn handle_message(&self, message: IMMessage) -> (r: Result<String, String>)
        ensures
            match r {
                Ok(reply) => self.config().enabled && answers(self.config().mode, message@, reply@),
                Err(e) => !self.config().enabled && e@ == disabled_text(),
            },
    {
        let time = local_time_text();
        let r = self.reply_at(&message, time.as_str());
        proof {
            if r is Ok && self.config().mode == MessageMode::Chat {
                assert(r->Ok_0@ == chat_reply_of(message@, time@));
            }
        }
        r
    }

    /// Takes an event of an adapter: a message is answered, and the answer
    /// is handed out where there is one. Every other event is only looked
    /// at.
    pub fn handle_event(&self, event: GatewayEvent) -> (reply: Option<String>)
        ensures
            match reply {
                Some(text) => self.config().enabled && event@ is Message && answers(
                    self.config().mode,
                    event@->Message_0,
                    text@,
                ),
                None => !(self.config().enabled && event@ is Message),
            },
    {
        match event {
            GatewayEvent::Message(message) => match self.handle_message(message) {
                Ok(reply) => Some(reply),
                Err(_) => None,
            },
            _ => None,
        }
    }
}

} // verus!
