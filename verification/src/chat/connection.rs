use vstd::prelude::*;

use crate::chat::ids::RoomId;
use crate::chat::io::{UserAction, WebSocketResult};
use crate::chat::message::Message;
use crate::chat::rooms;
use crate::chat::status_codes::{NotifyCode, WebSocketError};

verus! {

broadcast use vstd::seq_lib::group_seq_properties;

/// Keeps the entries that do not belong to `room`.
pub open spec fn other_rooms<H>(room: RoomId) -> spec_fn((RoomId, H)) -> bool {
    |e: (RoomId, H)| e.0 != room
}

/// Keeps the entries that belong to `room`.
pub open spec fn same_room<H>(room: RoomId) -> spec_fn((RoomId, H)) -> bool {
    |e: (RoomId, H)| e.0 == room
}

/// The handles of a sequence of room entries, in order.
pub open spec fn handles_of<H>(s: Seq<(RoomId, H)>) -> Seq<H> {
    s.map_values(|e: (RoomId, H)| e.1)
}

/// Removes every entry of `room` from `entries`, keeping the order of the others,
/// and hands back the handles of the removed entries in the order they had.
pub fn take_room_entries<H>(entries: &mut Vec<(RoomId, H)>, room: RoomId) -> (released: Vec<H>)
    ensures
        final(entries)@ == old(entries)@.filter(other_rooms(room)),
        released@ == handles_of(old(entries)@.filter(same_room(room))),
{
    let mut rest: Vec<(RoomId, H)> = Vec::new();
    core::mem::swap(entries, &mut rest);
    let ghost orig = rest@;
    let total = rest.len();
    let mut released: Vec<H> = Vec::new();
    let mut i: usize = 0;
    while rest.len() > 0
        invariant
            i + rest@.len() == orig.len(),
            orig.len() == total,
            rest@ == orig.skip(i as int),
            entries@ == orig.take(i as int).filter(other_rooms(room)),
            released@ == handles_of(orig.take(i as int).filter(same_room(room))),
        decreases rest@.len(),
    {
        let e = rest.remove(0);
        proof {
            assert(orig.take(i + 1) =~= orig.take(i as int).push(e));
            orig.take(i as int).lemma_filter_push(e, other_rooms(room));
            orig.take(i as int).lemma_filter_push(e, same_room(room));
            assert(rest@ =~= orig.skip(i + 1));
        }
        if e.0 == room {
            released.push(e.1);
            proof {
                let s = orig.take(i as int).filter(same_room(room));
                assert(handles_of(s.push(e)) =~= handles_of(s).push(e.1));
            }
        } else {
            entries.push(e);
        }
        i = i + 1;
    }
    proof {
        assert(orig.take(i as int) =~= orig);
    }
    released
}


/// The handles of `entries`, in order.
pub fn into_handles<H>(entries: Vec<(RoomId, H)>) -> (r: Vec<H>)
    ensures
        r@ == handles_of(entries@),
{
    let mut rest = entries;
    let ghost orig = rest@;
    let total = rest.len();
    let mut out: Vec<H> = Vec::new();
    let mut i: usize = 0;
    while rest.len() > 0
        invariant
            i + rest@.len() == orig.len(),
            orig.len() == total,
            rest@ == orig.skip(i as int),
            out@ == handles_of(orig.take(i as int)),
        decreases rest@.len(),
    {
        let e = rest.remove(0);
        proof {
            assert(orig.take(i + 1) =~= orig.take(i as int).push(e));
            assert(handles_of(orig.take(i as int).push(e)) =~= handles_of(orig.take(i as int)).push(e.1));
            assert(rest@ =~= orig.skip(i + 1));
        }
        out.push(e.1);
        i = i + 1;
    }
    proof {
        assert(orig.take(i as int) =~= orig);
    }
    out
}

/// What a connection asks of the room registry after it has looked at a request.
pub enum HandlerStep<H> {
    /// The request is answered; the handles in `released` are no longer used and
    /// their forwarding tasks are to be stopped.
    Done { result: WebSocketResult, released: Vec<H> },
    /// The room is to be subscribed to; the outcome goes to
    /// [`ConnectionHandler::finish_join`].
    Subscribe { room: RoomId },
    /// The message is to be broadcast in its room; the outcome goes to
    /// [`ConnectionHandler::send_outcome`].
    Broadcast { message: Message },
}

/// The rooms one websocket connection is subscribed to, each with the handle of
/// the task that forwards that room's events to the connection.
pub struct ConnectionHandler<H> {
    pub connections: Vec<(RoomId, H)>,
    pub max_rooms: u8,
}

impl<H> ConnectionHandler<H> {
    /// A connection never holds more subscriptions than its room limit.
    pub open spec fn wf(&self) -> bool {
        self.connections@.len() <= self.max_rooms
    }

    /// A connection with no subscriptions and the given room limit.
    pub fn new(max_rooms: u8) -> (r: Self)
        ensures
            r.connections@ == Seq::<(RoomId, H)>::empty(),
            r.max_rooms == max_rooms,
            r.wf(),
    {
        ConnectionHandler { connections: Vec::new(), max_rooms }
    }

    /// Looks at one client request. Leaving is carried out at once; joining and
    /// sending need the room registry, which the returned step names.
    pub fn handle(&mut self, action: UserAction) -> (step: HandlerStep<H>)
        requires
            old(self).wf(),
        ensures
            final(self).wf(),
            final(self).max_rooms == old(self).max_rooms,
            match action {
                UserAction::JoinRoom { room } => {
                    &&& final(self).connections@ == old(self).connections@
                    &&& if old(self).connections@.len() >= old(self).max_rooms {
                        step matches HandlerStep::Done { result, released }
                            && result == Err::<NotifyCode, WebSocketError>(WebSocketError::RoomLimitReached)
                            && released@.len() == 0
                    } else {
                        step matches HandlerStep::Subscribe { room: r } && r == room
                    }
                },
                UserAction::LeaveRoom { room } => if old(self).connections@.len() == 0 {
                    &&& final(self).connections@ == old(self).connections@
                    &&& step matches HandlerStep::Done { result, released }
                        && result == Err::<NotifyCode, WebSocketError>(WebSocketError::UserIsntInAnyRoom)
                        && released@.len() == 0
                } else {
                    &&& final(self).connections@ == old(self).connections@.filter(other_rooms(room))
                    &&& step matches HandlerStep::Done { result, released }
                        && result == Ok::<NotifyCode, WebSocketError>(NotifyCode::RoomLeftGracefully)
                        && released@ == handles_of(old(self).connections@.filter(same_room(room)))
                },
                UserAction::LeaveAllRooms => if old(self).connections@.len() == 0 {
                    &&& final(self).connections@ == old(self).connections@
                    &&& step matches HandlerStep::Done { result, released }
                        && result == Err::<NotifyCode, WebSocketError>(WebSocketError::UserIsntInAnyRoom)
                        && released@.len() == 0
                } else {
                    &&& final(self).connections@.len() == 0
                    &&& step matches HandlerStep::Done { result, released }
                        && result == Ok::<NotifyCode, WebSocketError>(NotifyCode::AllRoomsLeftGracefully)
                        && released@ == handles_of(old(self).connections@)
                },
                UserAction::SendMessage(message) => {
                    &&& final(self).connections@ == old(self).connections@
                    &&& step matches HandlerStep::Broadcast { message: m } && m == message
                },
            },
    {
        match action {
            UserAction::JoinRoom { room } => self.join(room),
            UserAction::LeaveRoom { room } => {
                let (result, released) = self.leave(room);
                HandlerStep::Done { result, released }
            },
            UserAction::LeaveAllRooms => {
                let (result, released) = self.leave_all();
                HandlerStep::Done { result, released }
            },
            UserAction::SendMessage(message) => HandlerStep::Broadcast { message },
        }
    }

    /// First half of joining a room: refuses when the room limit is reached,
    /// otherwise asks for a subscription to `room`.
    pub fn join(&mut self, room: RoomId) -> (step: HandlerStep<H>)
        requires
            old(self).wf(),
        ensures
            final(self).connections@ == old(self).connections@,
            final(self).max_rooms == old(self).max_rooms,
            if old(self).connections@.len() >= old(self).max_rooms {
                step matches HandlerStep::Done { result, released }
                    && result == Err::<NotifyCode, WebSocketError>(WebSocketError::RoomLimitReached)
                    && released@.len() == 0
            } else {
                step matches HandlerStep::Subscribe { room: r } && r == room
            },
    {
        if self.connections.len() >= self.max_rooms as usize {
            return HandlerStep::Done {
                result: Err(WebSocketError::RoomLimitReached),
                released: Vec::new(),
            };
        }
        HandlerStep::Subscribe { room }
    }

    /// Second half of joining a room: records the subscription the registry made,
    /// or reports that no such room exists.
    pub fn finish_join(&mut self, room: RoomId, subscribed: Result<H, rooms::Error>) -> (r: WebSocketResult)
        requires
            old(self).wf(),
            old(self).connections@.len() < old(self).max_rooms,
        ensures
            final(self).wf(),
            final(self).max_rooms == old(self).max_rooms,
            match subscribed {
                Ok(h) => {
                    &&& final(self).connections@ == old(self).connections@.push((room, h))
                    &&& r == Ok::<NotifyCode, WebSocketError>(NotifyCode::RoomJoined)
                },
                Err(_) => {
                    &&& final(self).connections@ == old(self).connections@
                    &&& r == Err::<NotifyCode, WebSocketError>(WebSocketError::NoRoomFound)
                },
            },
    {
        match subscribed {
            Ok(handle) => {
                self.connections.push((room, handle));
                Ok(NotifyCode::RoomJoined)
            },
            Err(_) => Err(WebSocketError::NoRoomFound),
        }
    }

    /// Leaves `room`: every subscription to it is dropped and its handle released.
    /// Refused when the connection is in no room at all.
    pub fn leave(&mut self, room: RoomId) -> (r: (WebSocketResult, Vec<H>))
        requires
            old(self).wf(),
        ensures
            final(self).wf(),
            final(self).max_rooms == old(self).max_rooms,
            if old(self).connections@.len() == 0 {
                &&& final(self).connections@ == old(self).connections@
                &&& r.0 == Err::<NotifyCode, WebSocketError>(WebSocketError::UserIsntInAnyRoom)
                &&& r.1@.len() == 0
            } else {
                &&& final(self).connections@ == old(self).connections@.filter(other_rooms(room))
                &&& r.0 == Ok::<NotifyCode, WebSocketError>(NotifyCode::RoomLeftGracefully)
                &&& r.1@ == handles_of(old(self).connections@.filter(same_room(room)))
            },
    {
        if self.connections.len() == 0 {
            return (Err(WebSocketError::UserIsntInAnyRoom), Vec::new());
        }
        let released = take_room_entries(&mut self.connections, room);
        proof {
            old(self).connections@.lemma_filter_len(other_rooms(room));
        }
        (Ok(NotifyCode::RoomLeftGracefully), released)
    }

    /// Leaves every room, releasing all handles. Refused when the connection is
    /// in no room at all.
    pub fn leave_all(&mut self) -> (r: (WebSocketResult, Vec<H>))
        requires
            old(self).wf(),
        ensures
            final(self).wf(),
            final(self).max_rooms == old(self).max_rooms,
            if old(self).connections@.len() == 0 {
                &&& final(self).connections@ == old(self).connections@
                &&& r.0 == Err::<NotifyCode, WebSocketError>(WebSocketError::UserIsntInAnyRoom)
                &&& r.1@.len() == 0
            } else {
                &&& final(self).connections@.len() == 0
                &&& r.0 == Ok::<NotifyCode, WebSocketError>(NotifyCode::AllRoomsLeftGracefully)
                &&& r.1@ == handles_of(old(self).connections@)
            },
    {
        if self.connections.len() == 0 {
            return (Err(WebSocketError::UserIsntInAnyRoom), Vec::new());
        }
        let mut all: Vec<(RoomId, H)> = Vec::new();
        core::mem::swap(&mut self.connections, &mut all);
        (Ok(NotifyCode::AllRoomsLeftGracefully), into_handles(all))
    }

    /// What a client is told once the registry has tried to broadcast its message:
    /// a sent message is acknowledged, and any failure (no such room, or nobody
    /// listening) is reported as an empty room.
    pub fn send_outcome(sent: Result<usize, rooms::Error>) -> (r: WebSocketResult)
        ensures
            match sent {
                Ok(_) => r == Ok::<NotifyCode, WebSocketError>(NotifyCode::MessageRequestSent),
                Err(_) => r == Err::<NotifyCode, WebSocketError>(WebSocketError::RoomIsEmpty),
            },
    {
        match sent {
            Ok(_) => Ok(NotifyCode::MessageRequestSent),
            Err(_) => Err(WebSocketError::RoomIsEmpty),
        }
    }
}


/// After leaving a room, no subscription to that room is left, and every
/// subscription to another room is still there.
pub proof fn lemma_leave_drops_exactly_that_room<H>(s: Seq<(RoomId, H)>, room: RoomId)
    ensures
        forall|i: int| 0 <= i < s.filter(other_rooms(room)).len()
            ==> (#[trigger] s.filter(other_rooms(room))[i]).0 != room,
        forall|i: int| 0 <= i < s.len() && s[i].0 != room
            ==> s.filter(other_rooms(room)).contains(#[trigger] s[i]),
{
    broadcast use vstd::seq_lib::group_filter_ensures;
    assert forall|i: int| 0 <= i < s.filter(other_rooms(room)).len()
        implies (#[trigger] s.filter(other_rooms(room))[i]).0 != room by {
        s.lemma_filter_pred(other_rooms(room), i);
    }
    assert forall|i: int| 0 <= i < s.len() && s[i].0 != room
        implies s.filter(other_rooms(room)).contains(#[trigger] s[i]) by {
        s.lemma_filter_contains(other_rooms(room), i);
    }
}

/// Joining a room the connection was not in and then leaving it gives back
/// exactly the subscriptions held before.
pub proof fn lemma_join_then_leave_restores<H>(s: Seq<(RoomId, H)>, room: RoomId, h: H)
    requires
        forall|i: int| 0 <= i < s.len() ==> (#[trigger] s[i]).0 != room,
    ensures
        s.push((room, h)).filter(other_rooms(room)) == s,
        handles_of(s.push((room, h)).filter(same_room(room))) == seq![h],
{
    s.lemma_filter_push((room, h), other_rooms(room));
    s.lemma_filter_push((room, h), same_room(room));
    lemma_filter_keeps_all(s, other_rooms(room));
    lemma_filter_drops_all(s, same_room(room));
    assert(handles_of(Seq::<(RoomId, H)>::empty().push((room, h))) =~= seq![h]);
}

/// Filtering with a predicate that holds everywhere changes nothing.
pub proof fn lemma_filter_keeps_all<A>(s: Seq<A>, p: spec_fn(A) -> bool)
    requires
        forall|i: int| 0 <= i < s.len() ==> p(#[trigger] s[i]),
    ensures
        s.filter(p) == s,
    decreases s.len(),
{
    reveal(Seq::filter);
    if s.len() > 0 {
        lemma_filter_keeps_all(s.drop_last(), p);
        assert(s.drop_last().push(s.last()) =~= s);
    }
}

/// Filtering with a predicate that holds nowhere leaves nothing.
pub proof fn lemma_filter_drops_all<A>(s: Seq<A>, p: spec_fn(A) -> bool)
    requires
        forall|i: int| 0 <= i < s.len() ==> !p(#[trigger] s[i]),
    ensures
        s.filter(p) == Seq::<A>::empty(),
    decreases s.len(),
{
    reveal(Seq::filter);
    if s.len() > 0 {
        lemma_filter_drops_all(s.drop_last(), p);
    }
}

} // verus!
