use vstd::prelude::*;

use crate::chat::ids::RoomId;

verus! {

/// Why the room registry could not serve a request.
#[derive(Debug, Clone, Copy, PartialEq, Eq, Structural)]
pub enum Error {
    /// No room with this id is registered.
    NotFound(RoomId),
    /// The room exists but nobody is listening to it.
    NoReceivers,
}

} // verus!
