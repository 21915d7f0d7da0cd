//! What an adapter with a standing socket does with everything but a text
//! frame: answer a ping, send a heartbeat, or leave the loop.

use vstd::prelude::*;
use crate::im::http::{Json, JsonView};

verus! {

/// The time between two heartbeats, in seconds.
pub const HEARTBEAT_INTERVAL_SECONDS: u64 = 30;

/// What happened on the socket, other than a text frame.
#[derive(Debug)]
pub enum SocketEvent {
    /// The server closed the connection.
    Closed,
    /// The server sent a ping with this payload.
    Ping(Vec<u8>),
    /// Reading failed.
    Failed,
    /// The heartbeat timer fired.
    HeartbeatDue,
    /// A heartbeat could not be sent.
    SendFailed,
    /// The stop signal was seen.
    StopSeen,
    /// Any other frame.
    Other,
}

/// What a `SocketEvent` holds.
pub enum SocketEventView {
    Closed,
    Ping(Seq<u8>),
    Failed,
    HeartbeatDue,
    SendFailed,
    StopSeen,
    Other,
}

impl View for SocketEvent {
    type V = SocketEventView;

    open spec fn view(&self) -> SocketEventView {
        match self {
            SocketEvent::Closed => SocketEventView::Closed,
            SocketEvent::Ping(data) => SocketEventView::Ping(data@),
            SocketEvent::Failed => SocketEventView::Failed,
            SocketEvent::HeartbeatDue => SocketEventView::HeartbeatDue,
            SocketEvent::SendFailed => SocketEventView::SendFailed,
            SocketEvent::StopSeen => SocketEventView::StopSeen,
            SocketEvent::Other => SocketEventView::Other,
        }
    }
}

/// What a `SocketReply` holds.
pub enum SocketReplyView {
    Nothing,
    Pong(Seq<u8>),
    Send(JsonView),
    /// The loop ends; `planned` tells a stop from a loss.
    Exit { planned: bool },
}

/// What the loop does next.
#[derive(Debug)]
pub enum SocketReply {
    /// Go on.
    Nothing,
    /// Answer the ping with this payload.
    Pong(Vec<u8>),
    /// Send this frame.
    Send(Json),
    /// Leave the loop and tear the connection down. After a loss that was
    /// not planned the adapter schedules a reconnect.
    Exit { planned: bool },
}

impl View for SocketReply {
    type V = SocketReplyView;

    open spec fn view(&self) -> SocketReplyView {
        match self {
            SocketReply::Nothing => SocketReplyView::Nothing,
            SocketReply::Pong(data) => SocketReplyView::Pong(data@),
            SocketReply::Send(frame) => SocketReplyView::Send(frame@),
            SocketReply::Exit { planned } => SocketReplyView::Exit { planned: *planned },
        }
    }
}

/// What follows `event` on a socket whose heartbeat frame is `heartbeat`.
pub open spec fn socket_reply_of(event: SocketEventView, heartbeat: JsonView) -> SocketReplyView {
    match event {
        SocketEventView::Closed => SocketReplyView::Exit { planned: false },
        SocketEventView::Ping(data) => SocketReplyView::Pong(data),
        SocketEventView::Failed => SocketReplyView::Exit { planned: false },
        SocketEventView::HeartbeatDue => SocketReplyView::Send(heartbeat),
        SocketEventView::SendFailed => SocketReplyView::Exit { planned: false },
        SocketEventView::StopSeen => SocketReplyView::Exit { planned: true },
        SocketEventView::Other => SocketReplyView::Nothing,
    }
}

/// What follows `event` on a socket whose heartbeat frame is `heartbeat`.
pub fn socket_reply(event: SocketEvent, heartbeat: Json) -> (reply: SocketReply)
    ensures
        reply@ == socket_reply_of(event@, heartbeat@),
{
    match event {
        SocketEvent::Closed => SocketReply::Exit { planned: false },
        SocketEvent::Ping(data) => SocketReply::Pong(data),
        SocketEvent::Failed => SocketReply::Exit { planned: false },
        SocketEvent::HeartbeatDue => SocketReply::Send(heartbeat),
        SocketEvent::SendFailed => SocketReply::Exit { planned: false },
        SocketEvent::StopSeen => SocketReply::Exit { planned: true },
        SocketEvent::Other => SocketReply::Nothing,
    }
}

} // verus!
