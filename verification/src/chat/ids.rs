use vstd::prelude::*;

verus! {

/// Identifier of a chat room (the 128 bits of its UUID).
#[derive(Debug, Clone, Copy, PartialEq, Eq, Structural, Hash)]
pub struct RoomId(pub u128);

/// Identifier of a chat user (the 128 bits of its UUID).
#[derive(Debug, Clone, Copy, PartialEq, Eq, Structural, Hash)]
pub struct UserId(pub u128);

/// Identifier of a stored chat message (the 128 bits of its UUID).
#[derive(Debug, Clone, Copy, PartialEq, Eq, Structural, Hash)]
pub struct MessageId(pub u128);

} // verus!
