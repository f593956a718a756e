use vstd::prelude::*;

verus! {

/// Room settings of the chat service.
#[derive(Debug, Clone, Copy)]
pub struct RoomConfig {
    pub max_rooms: u8,
}

} // verus!
