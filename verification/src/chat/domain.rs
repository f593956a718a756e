use vstd::prelude::*;

use std::collections::HashMap;

use crate::uuid::{new_v7_id, uuid_hyphenated, uuid_text, uuid_version};

verus! {

broadcast use vstd::std_specs::hash::group_hash_axioms;

/// Identifier of a stored room (the 128 bits of its UUID).
#[derive(Debug, Clone, Copy, PartialEq, Eq, Structural, Hash)]
pub struct RoomId(pub u128);

impl From<RoomId> for u128 {
    /// The UUID bits of a room identifier.
    fn from(value: RoomId) -> (r: u128) {
        value.0
    }
}

impl vstd::std_specs::convert::FromSpecImpl<RoomId> for u128 {
    open spec fn obeys_from_spec() -> bool {
        true
    }

    open spec fn from_spec(value: RoomId) -> u128 {
        value.0
    }
}

/// Identifier of a stored message (the 128 bits of its UUID).
pub struct MessageId(pub u128);

/// A stored message: who wrote it and what it says.
pub struct Message {
    pub user: u128,
    pub content: String,
}

/// A stored room.
#[derive(Debug)]
pub struct Room {
    pub title: String,
    pub description: String,
}

impl Clone for Room {
    fn clone(&self) -> (r: Self)
        ensures
            r == *self,
    {
        Room { title: self.title.clone(), description: self.description.clone() }
    }
}

/// A value together with its identifier.
#[derive(Debug)]
pub struct Identifiable<T> {
    pub id: u128,
    pub data: T,
}

impl<T> Identifiable<T> {
    /// Gives `data` a fresh version 7 identifier.
    pub fn new_unique(data: T) -> (r: Self)
        ensures
            r.data == data,
            uuid_version(r.id) == 7,
    {
        Identifiable { id: new_v7_id(), data }
    }

    /// Pairs `data` with a known identifier.
    pub fn new_known(id: u128, data: T) -> (r: Self)
        ensures
            r.id == id,
            r.data == data,
    {
        Identifiable { id, data }
    }
}

/// How a room is looked up.
pub enum RoomQuery {
    Id(u128),
    Name(String),
}

/// How several rooms are looked up.
pub enum RoomsQuery {
    Ids(Vec<u128>),
    User(u128),
}

/// Why a room lookup failed.
#[derive(Debug, Clone, PartialEq, Eq)]
pub enum RoomLookupError {
    NoRoomWithId(u128),
    NoRoomWithName(String),
}

/// The text of a room lookup error.
pub open spec fn room_lookup_message(e: RoomLookupError) -> Seq<char> {
    match e {
        RoomLookupError::NoRoomWithId(id) => "No room found with ID "@ + uuid_hyphenated(id),
        RoomLookupError::NoRoomWithName(name) => "No room found with name: "@ + name@,
    }
}

impl RoomLookupError {
    /// The text of this error: the identifier in hyphenated form, or the title
    /// that was looked up.
    pub fn message(&self) -> (r: String)
        ensures
            r@ == room_lookup_message(*self),
    {
        match self {
            RoomLookupError::NoRoomWithId(id) => {
                let mut text = String::from_str("No room found with ID ");
                let id_text = uuid_text(*id);
                text.append(id_text.as_str());
                text
            },
            RoomLookupError::NoRoomWithName(name) => {
                let mut text = String::from_str("No room found with name: ");
                text.append(name.as_str());
                text
            },
        }
    }
}

/// Rooms kept in memory, by identifier.
pub struct MockRooms {
    pub rooms: HashMap<u128, Room>,
}

/// Some stored room has this title.
pub open spec fn has_room_titled(rooms: Map<u128, Room>, title: Seq<char>) -> bool {
    exists|k: u128| #[trigger] rooms.contains_key(k) && rooms[k].title@ == title
}

/// The outcomes a room lookup may have: by identifier, the room stored there or
/// `NoRoomWithId`; by title, a stored room with that title (which one, when
/// several share it, is up to the map's order) or `NoRoomWithName` when there is
/// none.
pub open spec fn room_lookup_allowed(
    rooms: Map<u128, Room>,
    query: RoomQuery,
    r: Result<Identifiable<Room>, RoomLookupError>,
) -> bool {
    match query {
        RoomQuery::Id(id) => match r {
            Ok(found) => rooms.contains_key(id) && found.id == id && found.data == rooms[id],
            Err(e) => !rooms.contains_key(id) && e == RoomLookupError::NoRoomWithId(id),
        },
        RoomQuery::Name(name) => match r {
            Ok(found) => rooms.contains_key(found.id) && found.data == rooms[found.id]
                && found.data.title@ == name@,
            Err(e) => !has_room_titled(rooms, name@) && e == RoomLookupError::NoRoomWithName(name),
        },
    }
}

impl MockRooms {
    /// No rooms.
    pub fn empty() -> (r: Self)
        ensures
            r.rooms@ == Map::<u128, Room>::empty(),
    {
        MockRooms { rooms: HashMap::new() }
    }

    /// Stores a room under its identifier, replacing any room stored there.
    pub fn add_room(&mut self, payload: Identifiable<Room>) -> (r: Result<(), RoomLookupError>)
        ensures
            final(self).rooms@ == old(self).rooms@.insert(payload.id, payload.data),
            r is Ok,
    {
        self.rooms.insert(payload.id, payload.data);
        Ok(())
    }

    /// Looks a room up by identifier or by title. By identifier, the room stored
    /// there is returned. By title, some room with that title is returned
    /// (which one, when several share it, is up to the map's order).
    pub fn get_room(&self, query: RoomQuery) -> (r: Result<Identifiable<Room>, RoomLookupError>)
        ensures
            room_lookup_allowed(self.rooms@, query, r),
    {
        match query {
            RoomQuery::Id(id) => match self.rooms.get(&id) {
                Some(room) => Ok(Identifiable::new_known(id, room.clone())),
                None => Err(RoomLookupError::NoRoomWithId(id)),
            },
            RoomQuery::Name(name) => {
                for entry in it: self.rooms.iter()
                    invariant
                        query matches RoomQuery::Name(n) && n == name,
                        forall|j: int| 0 <= j < it.index() ==> (#[trigger] it.seq()[j]).1.title@ != name@,
                {
                    let (id, room) = entry;
                    if room.title == name {
                        return Ok(Identifiable::new_known(*id, room.clone()));
                    }
                }
                Err(RoomLookupError::NoRoomWithName(name))
            },
        }
    }
}

/// What the room store gives back of what was added: once a room is added under
/// `id`, looking `id` up answers exactly that room and looking its title up
/// answers some room with that title.
pub proof fn lemma_rooms_read_back_writes(
    rooms: Map<u128, Room>,
    id: u128,
    room: Room,
    by_id: Result<Identifiable<Room>, RoomLookupError>,
    by_title: Result<Identifiable<Room>, RoomLookupError>,
)
    requires
        room_lookup_allowed(rooms.insert(id, room), RoomQuery::Id(id), by_id),
        room_lookup_allowed(rooms.insert(id, room), RoomQuery::Name(room.title), by_title),
    ensures
        by_id matches Ok(found) && found.id == id && found.data == room,
        by_title matches Ok(found) && found.data.title@ == room.title@,
{
    assert(rooms.insert(id, room).contains_key(id));
    assert(has_room_titled(rooms.insert(id, room), room.title@));
}

} // verus!
