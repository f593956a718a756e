use vstd::prelude::*;

use crate::chat::io::{RequestId, WebSocketMessage, WebSocketResult};
use crate::chat::status_codes::{NotifyCode, WebSocketError};

verus! {

/// The reply to the request numbered `id` whose outcome is `result`: a
/// notification on success, an error otherwise.
pub open spec fn reply_for(id: Option<RequestId>, result: WebSocketResult) -> WebSocketMessage {
    match result {
        Ok(code) => WebSocketMessage::Notify { request_id: id, code },
        Err(code) => WebSocketMessage::Error { request_id: id, code },
    }
}

/// Builds the replies to a client's requests, tagged with the number of the
/// request being answered. `tx` is the channel the replies are sent on.
pub struct Notifier<T> {
    pub id: Option<RequestId>,
    pub tx: T,
}

impl<T> Notifier<T> {
    /// The reply for the outcome of a request: a notification on success, an
    /// error otherwise.
    pub fn result(&self, result: WebSocketResult) -> (m: WebSocketMessage)
        ensures
            m == reply_for(self.id, result),
    {
        match result {
            Ok(success) => self.code(success),
            Err(err) => self.error(err),
        }
    }

    /// A notification for the current request.
    pub fn code(&self, code: NotifyCode) -> (m: WebSocketMessage)
        ensures
            m == (WebSocketMessage::Notify { request_id: self.id, code }),
    {
        WebSocketMessage::Notify { request_id: self.id, code }
    }

    /// An error for the current request.
    pub fn error(&self, err: WebSocketError) -> (m: WebSocketMessage)
        ensures
            m == (WebSocketMessage::Error { request_id: self.id, code: err }),
    {
        WebSocketMessage::Error { request_id: self.id, code: err }
    }

    /// Marks `id` as the request now being answered.
    pub fn set_id(&mut self, id: RequestId)
        ensures
            final(self).id == Some(id),
            final(self).tx == old(self).tx,
    {
        self.id = Some(id);
    }
}

} // verus!
