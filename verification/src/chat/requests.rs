use vstd::prelude::*;

use crate::chat::ids::{RoomId, UserId};
use crate::chat::message::Message;

verus! {

/// A websocket close code.
pub type CloseCode = u16;

/// Server events of the first version of the protocol.
#[derive(Debug, Clone)]
pub enum WebSocketMessage {
    NewMessage(Message),
    NewParticipant(UserId),
    Error(CloseCode),
}

/// Client requests of the first version of the protocol.
#[derive(Debug)]
pub enum Request {
    JoinRoom { room: RoomId },
    LeaveRoom { room: RoomId },
    LeaveAllRooms,
    SendMessage(Message),
}

} // verus!
