use vstd::prelude::*;

verus! {

/// Success codes sent back to a websocket client after a request.
#[derive(Debug, Clone, Copy, PartialEq, Eq, Structural)]
pub enum NotifyCode {
    RoomJoined,
    MessageRequestSent,
    OwnMessageSuccessfullyBroadcasted,
    RoomLeftGracefully,
    AllRoomsLeftGracefully,
}

/// Error codes sent back to a websocket client after a failed request.
#[derive(Debug, Clone, Copy, PartialEq, Eq, Structural)]
pub enum WebSocketError {
    NoRoomFound,
    InvalidRequest,
    RoomLimitReached,
    NonUTF8Request,
    RoomIsEmpty,
    UserIsntInAnyRoom,
    UserIsNotConnectedToGivenRoom,
    ActionDoesNotExist,
}

/// The numeric code of a notification.
pub open spec fn notify_code_value(c: NotifyCode) -> u16 {
    match c {
        NotifyCode::RoomJoined => 4200,
        NotifyCode::MessageRequestSent => 4201,
        NotifyCode::OwnMessageSuccessfullyBroadcasted => 4205,
        NotifyCode::RoomLeftGracefully => 4202,
        NotifyCode::AllRoomsLeftGracefully => 4203,
    }
}

/// The numeric code of an error.
pub open spec fn error_code_value(e: WebSocketError) -> u16 {
    match e {
        WebSocketError::NoRoomFound => 4402,
        WebSocketError::InvalidRequest => 4403,
        WebSocketError::RoomLimitReached => 4404,
        WebSocketError::NonUTF8Request => 4401,
        WebSocketError::RoomIsEmpty => 4405,
        WebSocketError::UserIsntInAnyRoom => 4406,
        WebSocketError::UserIsNotConnectedToGivenRoom => 4408,
        WebSocketError::ActionDoesNotExist => 4407,
    }
}

impl NotifyCode {
    /// The numeric code carried by this notification.
    pub fn code(&self) -> (r: u16)
        ensures
            r == notify_code_value(*self),
    {
        match self {
            NotifyCode::RoomJoined => 4200,
            NotifyCode::MessageRequestSent => 4201,
            NotifyCode::OwnMessageSuccessfullyBroadcasted => 4205,
            NotifyCode::RoomLeftGracefully => 4202,
            NotifyCode::AllRoomsLeftGracefully => 4203,
        }
    }
}

impl WebSocketError {
    /// The numeric code carried by this error.
    pub fn code(&self) -> (r: u16)
        ensures
            r == error_code_value(*self),
    {
        match self {
            WebSocketError::NoRoomFound => 4402,
            WebSocketError::InvalidRequest => 4403,
            WebSocketError::RoomLimitReached => 4404,
            WebSocketError::NonUTF8Request => 4401,
            WebSocketError::RoomIsEmpty => 4405,
            WebSocketError::UserIsntInAnyRoom => 4406,
            WebSocketError::UserIsNotConnectedToGivenRoom => 4408,
            WebSocketError::ActionDoesNotExist => 4407,
        }
    }
}

/// Distinct notifications carry distinct codes, distinct errors carry distinct
/// codes, and every notification code lies in 4200..4300 while every error code
/// lies in 4400..4500, so a client can tell them apart by number alone.
pub proof fn lemma_codes_are_distinct(a: NotifyCode, b: NotifyCode, e: WebSocketError, f: WebSocketError)
    ensures
        notify_code_value(a) == notify_code_value(b) ==> a == b,
        error_code_value(e) == error_code_value(f) ==> e == f,
        4200 <= notify_code_value(a) < 4300,
        4400 <= error_code_value(e) < 4500,
{
}

} // verus!
