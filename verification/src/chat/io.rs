use vstd::prelude::*;

use std::sync::Arc;

use crate::chat::ids::{RoomId, UserId};
use crate::chat::message::Message;
use crate::chat::status_codes::{NotifyCode, WebSocketError};

verus! {

/// Number a client gives a request, echoed in the reply to it.
pub type RequestId = u32;

/// What the server pushes to a websocket client.
#[derive(Debug, Clone)]
pub enum WebSocketMessage {
    NewMessage(Arc<Message>),
    NewParticipant(UserId),
    Notify { request_id: Option<RequestId>, code: NotifyCode },
    Error { request_id: Option<RequestId>, code: WebSocketError },
}

/// What a websocket client asks the server to do.
#[derive(Debug)]
pub enum UserAction {
    JoinRoom { room: RoomId },
    LeaveRoom { room: RoomId },
    LeaveAllRooms,
    SendMessage(Message),
}

/// A numbered client request.
#[derive(Debug)]
pub struct Request<T> {
    pub request: RequestId,
    pub data: T,
}

/// Outcome of one client request: a notification or an error.
pub type WebSocketResult = Result<NotifyCode, WebSocketError>;

} // verus!
