use vstd::prelude::*;

use crate::chat::connection::HandlerStep;
use crate::chat::ids::RoomId;
use crate::chat::io::WebSocketResult;
use crate::chat::message::Message;
use crate::chat::rooms;
use crate::chat::status_codes::{NotifyCode, WebSocketError};

verus! {

/// `p` is the first position of `s` whose entry belongs to `room`.
pub open spec fn is_first_position<H>(s: Seq<(RoomId, H)>, room: RoomId, p: int) -> bool {
    &&& 0 <= p < s.len()
    &&& s[p].0 == room
    &&& forall|j: int| 0 <= j < p ==> (#[trigger] s[j]).0 != room
}

/// No entry of `s` belongs to `room`.
pub open spec fn holds_no_room<H>(s: Seq<(RoomId, H)>, room: RoomId) -> bool {
    forall|j: int| 0 <= j < s.len() ==> (#[trigger] s[j]).0 != room
}

/// The position of the first entry of `room` in `entries`, if there is one.
pub fn first_position<H>(entries: &Vec<(RoomId, H)>, room: RoomId) -> (r: Option<usize>)
    ensures
        match r {
            Some(p) => is_first_position(entries@, room, p as int),
            None => holds_no_room(entries@, room),
        },
{
    let n = entries.len();
    let mut i: usize = 0;
    while i < n && entries[i].0 != room
        invariant
            n == entries@.len(),
            i <= n,
            forall|j: int| 0 <= j < i ==> (#[trigger] entries@[j]).0 != room,
        decreases n - i,
    {
        i = i + 1;
    }
    if i < n {
        Some(i)
    } else {
        None
    }
}

/// The rooms a websocket connection is in, each with the handle of its
/// subscription to the room's events.
pub struct RoomInterface<H> {
    pub active_rooms: Vec<(RoomId, H)>,
    pub max_rooms: u8,
}

impl<H> RoomInterface<H> {
    /// A connection is never in more rooms than its room limit.
    pub open spec fn wf(&self) -> bool {
        self.active_rooms@.len() <= self.max_rooms
    }

    /// A connection in no room, with the given room limit.
    pub fn new(max_rooms: u8) -> (r: Self)
        ensures
            r.active_rooms@ == Seq::<(RoomId, H)>::empty(),
            r.max_rooms == max_rooms,
            r.wf(),
    {
        RoomInterface { active_rooms: Vec::new(), max_rooms }
    }

    /// First half of joining a room: refuses when the room limit is reached,
    /// otherwise asks the registry for the room.
    pub fn join(&self, room_id: RoomId) -> (step: HandlerStep<H>)
        ensures
            if self.active_rooms@.len() >= self.max_rooms {
                step matches HandlerStep::Done { result, released }
                    && result == Err::<NotifyCode, WebSocketError>(WebSocketError::RoomLimitReached)
                    && released@.len() == 0
            } else {
                step matches HandlerStep::Subscribe { room } && room == room_id
            },
    {
        if self.active_rooms.len() >= self.max_rooms as usize {
            return HandlerStep::Done {
                result: Err(WebSocketError::RoomLimitReached),
                released: Vec::new(),
            };
        }
        HandlerStep::Subscribe { room: room_id }
    }

    /// Second half of joining a room: records the membership the registry granted,
    /// or reports that no such room exists.
    pub fn finish_join(&mut self, room_id: RoomId, joined: Result<H, rooms::Error>) -> (r: WebSocketResult)
        requires
            old(self).wf(),
            old(self).active_rooms@.len() < old(self).max_rooms,
        ensures
            final(self).wf(),
            final(self).max_rooms == old(self).max_rooms,
            match joined {
                Ok(h) => {
                    &&& final(self).active_rooms@ == old(self).active_rooms@.push((room_id, h))
                    &&& r == Ok::<NotifyCode, WebSocketError>(NotifyCode::RoomJoined)
                },
                Err(_) => {
                    &&& final(self).active_rooms@ == old(self).active_rooms@
                    &&& r == Err::<NotifyCode, WebSocketError>(WebSocketError::NoRoomFound)
                },
            },
    {
        match joined {
            Ok(handle) => {
                self.active_rooms.push((room_id, handle));
                Ok(NotifyCode::RoomJoined)
            },
            Err(_) => Err(WebSocketError::NoRoomFound),
        }
    }

    /// Where a message goes: the position of the first membership of the
    /// message's room, or an error when the connection is not in that room.
    pub fn send(&self, message: &Message) -> (r: Result<usize, WebSocketError>)
        ensures
            match r {
                Ok(p) => is_first_position(self.active_rooms@, message.room, p as int),
                Err(e) => e == WebSocketError::UserIsNotConnectedToGivenRoom
                    && holds_no_room(self.active_rooms@, message.room),
            },
    {
        match first_position(&self.active_rooms, message.room) {
            Some(p) => Ok(p),
            None => Err(WebSocketError::UserIsNotConnectedToGivenRoom),
        }
    }

    /// What a client is told once its message was handed to the room: a
    /// delivered message is acknowledged, a room nobody listens to is reported
    /// as empty.
    pub fn message_outcome(sent: Result<usize, rooms::Error>) -> (r: WebSocketResult)
        ensures
            match sent {
                Ok(_) => r == Ok::<NotifyCode, WebSocketError>(NotifyCode::MessageRequestSent),
                Err(_) => r == Err::<NotifyCode, WebSocketError>(WebSocketError::RoomIsEmpty),
            },
    {
        match sent {
            Ok(_) => Ok(NotifyCode::MessageRequestSent),
            Err(_) => Err(WebSocketError::RoomIsEmpty),
        }
    }

    /// Leaves every room; all membership handles are handed back to be released.
    pub fn leave_all(&mut self) -> (r: (WebSocketResult, Vec<(RoomId, H)>))
        requires
            old(self).wf(),
        ensures
            final(self).wf(),
            final(self).max_rooms == old(self).max_rooms,
            final(self).active_rooms@.len() == 0,
            r.0 == Ok::<NotifyCode, WebSocketError>(NotifyCode::AllRoomsLeftGracefully),
            r.1@ == old(self).active_rooms@,
    {
        let mut all: Vec<(RoomId, H)> = Vec::new();
        core::mem::swap(&mut self.active_rooms, &mut all);
        (Ok(NotifyCode::AllRoomsLeftGracefully), all)
    }

    /// Leaves `room`: its first membership is removed and its handle handed back.
    /// Leaving a room the connection is not in still succeeds; being in no room at
    /// all is refused.
    pub fn leave(&mut self, room: RoomId) -> (r: (WebSocketResult, Option<H>))
        requires
            old(self).wf(),
        ensures
            final(self).wf(),
            final(self).max_rooms == old(self).max_rooms,
            if old(self).active_rooms@.len() == 0 {
                &&& final(self).active_rooms@ == old(self).active_rooms@
                &&& r.0 == Err::<NotifyCode, WebSocketError>(WebSocketError::UserIsntInAnyRoom)
                &&& r.1 is None
            } else {
                &&& r.0 == Ok::<NotifyCode, WebSocketError>(NotifyCode::RoomLeftGracefully)
                &&& match r.1 {
                    Some(h) => exists|p: int| {
                        &&& #[trigger] is_first_position(old(self).active_rooms@, room, p)
                        &&& old(self).active_rooms@[p].1 == h
                        &&& final(self).active_rooms@ == old(self).active_rooms@.remove(p)
                    },
                    None => holds_no_room(old(self).active_rooms@, room)
                        && final(self).active_rooms@ == old(self).active_rooms@,
                }
            },
    {
        if self.active_rooms.len() == 0 {
            return (Err(WebSocketError::UserIsntInAnyRoom), None);
        }
        match first_position(&self.active_rooms, room) {
            Some(p) => {
                let (_, handle) = self.active_rooms.remove(p);
                proof {
                    assert(is_first_position(old(self).active_rooms@, room, p as int));
                }
                (Ok(NotifyCode::RoomLeftGracefully), Some(handle))
            },
            None => (Ok(NotifyCode::RoomLeftGracefully), None),
        }
    }
}

/// Joining a room the connection was not in and then leaving it gives back
/// the memberships held before, and the handle released is the one just added.
pub proof fn lemma_interface_join_then_leave_restores<H>(s: Seq<(RoomId, H)>, room: RoomId, h: H)
    requires
        holds_no_room(s, room),
    ensures
        is_first_position(s.push((room, h)), room, s.len() as int),
        forall|p: int| #[trigger] is_first_position(s.push((room, h)), room, p) ==> p == s.len(),
        s.push((room, h)).remove(s.len() as int) == s,
        s.push((room, h))[s.len() as int].1 == h,
{
    let t = s.push((room, h));
    assert forall|j: int| 0 <= j < s.len() implies (#[trigger] t[j]).0 != room by {
        assert(t[j] == s[j]);
    }
    assert(t.remove(s.len() as int) =~= s);
}

} // verus!
