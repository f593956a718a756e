use vstd::prelude::*;

use crate::chat::ids::{RoomId, UserId};

verus! {

/// A chat message addressed to one room.
#[derive(Debug, Clone)]
pub struct Message {
    pub room: RoomId,
    pub user: UserId,
    pub content: String,
}

/// A chat room as it is described to users.
pub struct Room {
    pub name: String,
    pub description: String,
}

/// A chat user.
#[derive(Debug)]
pub struct User {
    pub name: String,
}

} // verus!
