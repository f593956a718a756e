use vstd::prelude::*;

use crate::chat::connection::{handles_of, other_rooms, same_room, ConnectionHandler, HandlerStep};
use crate::chat::ids::RoomId;
use crate::chat::io::{Request, RequestId, UserAction, WebSocketMessage};
use crate::chat::message::Message;
use crate::chat::notifier::{reply_for, Notifier};
use crate::chat::rooms;
use crate::chat::status_codes::{NotifyCode, WebSocketError};

verus! {

/// The kinds of websocket frame a client can send.
pub enum IncomingFrame {
    Text(String),
    Binary,
    Ping,
    Pong,
    Close,
}

/// What to do with one incoming frame.
#[derive(Debug)]
pub enum FrameStep {
    /// Nothing to answer.
    Skip,
    /// Answer with this error for the current request.
    Reject(WebSocketError),
    /// Read this text as a request.
    Parse(String),
}

/// Sorts an incoming frame: text is read as a request, control frames (close,
/// ping, pong) are skipped, and any other frame is refused as not UTF-8.
pub fn classify_frame(frame: IncomingFrame) -> (r: FrameStep)
    ensures
        match frame {
            IncomingFrame::Text(t) => r matches FrameStep::Parse(s) && s@ == t@,
            IncomingFrame::Binary => r matches FrameStep::Reject(e) && e == WebSocketError::NonUTF8Request,
            _ => (r is Skip),
        },
{
    match frame {
        IncomingFrame::Text(text) => FrameStep::Parse(text),
        IncomingFrame::Close => FrameStep::Skip,
        IncomingFrame::Ping | IncomingFrame::Pong => FrameStep::Skip,
        IncomingFrame::Binary => FrameStep::Reject(WebSocketError::NonUTF8Request),
    }
}

/// What one websocket connection keeps while it reads requests: its room
/// subscriptions and the builder of its replies.
pub struct IncomeSession<H, T> {
    pub handler: ConnectionHandler<H>,
    pub notifier: Notifier<T>,
}

/// The outcome of joining a room once the registry has answered.
pub open spec fn join_outcome<H>(subscribed: Result<H, rooms::Error>) -> Result<NotifyCode, WebSocketError> {
    match subscribed {
        Ok(_) => Ok(NotifyCode::RoomJoined),
        Err(_) => Err(WebSocketError::NoRoomFound),
    }
}

/// The outcome of sending a message once the registry has tried to broadcast it.
pub open spec fn send_outcome(sent: Result<usize, rooms::Error>) -> Result<NotifyCode, WebSocketError> {
    match sent {
        Ok(_) => Ok(NotifyCode::MessageRequestSent),
        Err(_) => Err(WebSocketError::RoomIsEmpty),
    }
}

impl<H, T> IncomeSession<H, T> {
    /// A connection in no room, with the given room limit, replying on `tx`.
    pub fn new(max_rooms: u8, tx: T) -> (r: Self)
        ensures
            r.handler.connections@ == Seq::<(RoomId, H)>::empty(),
            r.handler.max_rooms == max_rooms,
            r.handler.wf(),
            r.notifier.id is None,
            r.notifier.tx == tx,
    {
        IncomeSession { handler: ConnectionHandler::new(max_rooms), notifier: Notifier { id: None, tx } }
    }

    /// Answers one request from start to end. The reply is the outcome of the
    /// request tagged with the request's number, and the subscriptions change as
    /// the request asks: joining asks `subscribe` for the room (unless the room
    /// limit is reached) and records the subscription it gives; leaving drops
    /// subscriptions, whose handles are handed back to be stopped; sending asks
    /// `broadcast` to deliver the message. Exactly one reply comes back.
    pub fn answer_request<F, G>(
        &mut self,
        request: Request<UserAction>,
        subscribe: F,
        broadcast: G,
    ) -> (r: (WebSocketMessage, Vec<H>)) where
        F: FnOnce(RoomId) -> Result<H, rooms::Error>,
        G: FnOnce(Message) -> Result<usize, rooms::Error>,

        requires
            old(self).handler.wf(),
            forall|room: RoomId| subscribe.requires((room,)),
            forall|message: Message| broadcast.requires((message,)),
        ensures
            final(self).handler.wf(),
            final(self).handler.max_rooms == old(self).handler.max_rooms,
            final(self).notifier.id == Some(request.request),
            final(self).notifier.tx == old(self).notifier.tx,
            ({
                let id = Some(request.request);
                let before = old(self).handler.connections@;
                let after = final(self).handler.connections@;
                match request.data {
                    UserAction::JoinRoom { room } => {
                        &&& r.1@.len() == 0
                        &&& if before.len() >= old(self).handler.max_rooms {
                            after == before && r.0 == reply_for(id, Err(WebSocketError::RoomLimitReached))
                        } else {
                            exists|s: Result<H, rooms::Error>| {
                                &&& #[trigger] subscribe.ensures((room,), s)
                                &&& r.0 == reply_for(id, join_outcome(s))
                                &&& match s {
                                    Ok(h) => {
                                        &&& after == before.push((room, h))
                                        &&& r.0 == (WebSocketMessage::Notify { request_id: id, code: NotifyCode::RoomJoined })
                                    },
                                    Err(_) => {
                                        &&& after == before
                                        &&& r.0 == (WebSocketMessage::Error { request_id: id, code: WebSocketError::NoRoomFound })
                                    },
                                }
                            }
                        }
                    },
                    UserAction::LeaveRoom { room } => if before.len() == 0 {
                        &&& after == before
                        &&& r.0 == reply_for(id, Err(WebSocketError::UserIsntInAnyRoom))
                        &&& r.1@.len() == 0
                    } else {
                        &&& after == before.filter(other_rooms(room))
                        &&& r.0 == reply_for(id, Ok(NotifyCode::RoomLeftGracefully))
                        &&& r.1@ == handles_of(before.filter(same_room(room)))
                    },
                    UserAction::LeaveAllRooms => if before.len() == 0 {
                        &&& after == before
                        &&& r.0 == reply_for(id, Err(WebSocketError::UserIsntInAnyRoom))
                        &&& r.1@.len() == 0
                    } else {
                        &&& after.len() == 0
                        &&& r.0 == reply_for(id, Ok(NotifyCode::AllRoomsLeftGracefully))
                        &&& r.1@ == handles_of(before)
                    },
                    UserAction::SendMessage(message) => {
                        &&& after == before
                        &&& r.1@.len() == 0
                        &&& exists|s: Result<usize, rooms::Error>| {
                            &&& #[trigger] broadcast.ensures((message,), s)
                            &&& r.0 == reply_for(id, send_outcome(s))
                            &&& match s {
                                Ok(_) => r.0 == (WebSocketMessage::Notify {
                                    request_id: id,
                                    code: NotifyCode::MessageRequestSent,
                                }),
                                Err(_) => r.0 == (WebSocketMessage::Error {
                                    request_id: id,
                                    code: WebSocketError::RoomIsEmpty,
                                }),
                            }
                        }
                    },
                }
            }),
    {
        self.notifier.set_id(request.request);
        let step = self.handler.handle(request.data);
        match step {
            HandlerStep::Done { result, released } => (self.notifier.result(result), released),
            HandlerStep::Subscribe { room } => {
                let subscribed = subscribe(room);
                let result = self.handler.finish_join(room, subscribed);
                (self.notifier.result(result), Vec::new())
            },
            HandlerStep::Broadcast { message } => {
                let sent = broadcast(message);
                let result = ConnectionHandler::<H>::send_outcome(sent);
                (self.notifier.result(result), Vec::new())
            },
        }
    }
}

/// A request's reply carries the request's number and its outcome: a success
/// is a notification with its code, a failure an error with its code.
pub proof fn lemma_reply_tags_the_outcome(id: Option<RequestId>, result: Result<NotifyCode, WebSocketError>)
    ensures
        result matches Ok(code) ==> reply_for(id, result) == (WebSocketMessage::Notify { request_id: id, code }),
        result matches Err(code) ==> reply_for(id, result) == (WebSocketMessage::Error { request_id: id, code }),
{
}

/// A message the registry delivered, to any number of listeners, is
/// acknowledged as sent; only a failed delivery is reported as an empty room. A
/// join the registry granted is acknowledged; only a refused one is reported as
/// no room found.
pub proof fn lemma_outcomes_follow_the_registry<H>(n: usize, e: rooms::Error, h: H)
    ensures
        send_outcome(Ok(n)) == Ok::<NotifyCode, WebSocketError>(NotifyCode::MessageRequestSent),
        send_outcome(Err(e)) == Err::<NotifyCode, WebSocketError>(WebSocketError::RoomIsEmpty),
        join_outcome::<H>(Ok(h)) == Ok::<NotifyCode, WebSocketError>(NotifyCode::RoomJoined),
        join_outcome::<H>(Err(e)) == Err::<NotifyCode, WebSocketError>(WebSocketError::NoRoomFound),
{
}

} // verus!
