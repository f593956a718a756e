use chatauth::chat::connection::{ConnectionHandler, HandlerStep};
use chatauth::chat::ids::{RoomId, UserId};
use chatauth::chat::io::UserAction;
use chatauth::chat::message::Message;
use chatauth::chat::room_interface::RoomInterface;
use chatauth::chat::rooms;
use chatauth::chat::status_codes::{NotifyCode, WebSocketError};

fn msg(room: u128) -> Message {
    Message { room: RoomId(room), user: UserId(9), content: "hi".to_string() }
}

fn join(h: &mut ConnectionHandler<&'static str>, room: u128, handle: &'static str) -> Result<NotifyCode, WebSocketError> {
    match h.handle(UserAction::JoinRoom { room: RoomId(room) }) {
        HandlerStep::Subscribe { room: r } => {
            assert_eq!(r, RoomId(room));
            h.finish_join(r, Ok(handle))
        }
        HandlerStep::Done { result, released } => {
            assert!(released.is_empty());
            result
        }
        HandlerStep::Broadcast { .. } => panic!("unexpected broadcast"),
    }
}

#[test]
fn join_until_the_room_limit() {
    let mut h: ConnectionHandler<&'static str> = ConnectionHandler::new(2);
    assert!(matches!(join(&mut h, 1, "a"), Ok(NotifyCode::RoomJoined)));
    assert!(matches!(join(&mut h, 2, "b"), Ok(NotifyCode::RoomJoined)));
    assert!(matches!(join(&mut h, 3, "c"), Err(WebSocketError::RoomLimitReached)));
    assert_eq!(h.connections.len(), 2);
}

#[test]
fn zero_room_limit_refuses_every_join() {
    let mut h: ConnectionHandler<&'static str> = ConnectionHandler::new(0);
    assert!(matches!(join(&mut h, 1, "a"), Err(WebSocketError::RoomLimitReached)));
    assert!(h.connections.is_empty());
}

#[test]
fn joining_an_unknown_room_is_refused() {
    let mut h: ConnectionHandler<&'static str> = ConnectionHandler::new(3);
    let r = h.finish_join(RoomId(4), Err(rooms::Error::NotFound(RoomId(4))));
    assert!(matches!(r, Err(WebSocketError::NoRoomFound)));
    assert!(h.connections.is_empty());
}

#[test]
fn leave_drops_every_subscription_of_the_room_in_order() {
    let mut h: ConnectionHandler<&'static str> = ConnectionHandler::new(5);
    join(&mut h, 1, "a");
    join(&mut h, 2, "b");
    join(&mut h, 1, "c");
    join(&mut h, 3, "d");
    match h.handle(UserAction::LeaveRoom { room: RoomId(1) }) {
        HandlerStep::Done { result, released } => {
            assert!(matches!(result, Ok(NotifyCode::RoomLeftGracefully)));
            assert_eq!(released, vec!["a", "c"]);
        }
        _ => panic!("leave must be answered at once"),
    }
    let left: Vec<(u128, &str)> = h.connections.iter().map(|(r, x)| (r.0, *x)).collect();
    assert_eq!(left, vec![(2, "b"), (3, "d")]);
}

#[test]
fn leaving_a_room_not_joined_keeps_the_others() {
    let mut h: ConnectionHandler<&'static str> = ConnectionHandler::new(5);
    join(&mut h, 1, "a");
    let (result, released) = h.leave(RoomId(7));
    assert!(matches!(result, Ok(NotifyCode::RoomLeftGracefully)));
    assert!(released.is_empty());
    assert_eq!(h.connections.len(), 1);
}

#[test]
fn join_then_leave_restores_the_subscriptions() {
    let mut h: ConnectionHandler<&'static str> = ConnectionHandler::new(5);
    join(&mut h, 1, "a");
    join(&mut h, 2, "b");
    let (_, released) = h.leave(RoomId(2));
    assert_eq!(released, vec!["b"]);
    let left: Vec<u128> = h.connections.iter().map(|(r, _)| r.0).collect();
    assert_eq!(left, vec![1]);
}

#[test]
fn leave_without_rooms_is_refused() {
    let mut h: ConnectionHandler<&'static str> = ConnectionHandler::new(5);
    match h.handle(UserAction::LeaveRoom { room: RoomId(1) }) {
        HandlerStep::Done { result, released } => {
            assert!(matches!(result, Err(WebSocketError::UserIsntInAnyRoom)));
            assert!(released.is_empty());
        }
        _ => panic!("leave must be answered at once"),
    }
    match h.handle(UserAction::LeaveAllRooms) {
        HandlerStep::Done { result, .. } => {
            assert!(matches!(result, Err(WebSocketError::UserIsntInAnyRoom)))
        }
        _ => panic!("leave must be answered at once"),
    }
}

#[test]
fn leave_all_releases_every_handle() {
    let mut h: ConnectionHandler<&'static str> = ConnectionHandler::new(5);
    join(&mut h, 1, "a");
    join(&mut h, 2, "b");
    match h.handle(UserAction::LeaveAllRooms) {
        HandlerStep::Done { result, released } => {
            assert!(matches!(result, Ok(NotifyCode::AllRoomsLeftGracefully)));
            assert_eq!(released, vec!["a", "b"]);
        }
        _ => panic!("leave must be answered at once"),
    }
    assert!(h.connections.is_empty());
}

#[test]
fn send_goes_to_the_registry_and_reports_its_outcome() {
    let mut h: ConnectionHandler<&'static str> = ConnectionHandler::new(5);
    match h.handle(UserAction::SendMessage(msg(4))) {
        HandlerStep::Broadcast { message } => {
            assert_eq!(message.room, RoomId(4));
            assert_eq!(message.content, "hi");
        }
        _ => panic!("send must go to the registry"),
    }
    assert!(matches!(
        ConnectionHandler::<&'static str>::send_outcome(Ok(3)),
        Ok(NotifyCode::MessageRequestSent)
    ));
    assert!(matches!(
        ConnectionHandler::<&'static str>::send_outcome(Err(rooms::Error::NoReceivers)),
        Err(WebSocketError::RoomIsEmpty)
    ));
    assert!(matches!(
        ConnectionHandler::<&'static str>::send_outcome(Err(rooms::Error::NotFound(RoomId(4)))),
        Err(WebSocketError::RoomIsEmpty)
    ));
}

#[test]
fn room_interface_sends_through_the_first_membership() {
    let mut i: RoomInterface<&'static str> = RoomInterface::new(3);
    assert!(matches!(i.join(RoomId(1)), HandlerStep::Subscribe { .. }));
    assert!(matches!(i.finish_join(RoomId(1), Ok("a")), Ok(NotifyCode::RoomJoined)));
    assert!(matches!(i.finish_join(RoomId(2), Ok("b")), Ok(NotifyCode::RoomJoined)));
    assert!(matches!(i.finish_join(RoomId(2), Ok("c")), Ok(NotifyCode::RoomJoined)));
    assert!(matches!(i.join(RoomId(5)), HandlerStep::Done { result: Err(WebSocketError::RoomLimitReached), .. }));
    assert_eq!(i.send(&msg(2)), Ok(1));
    assert_eq!(i.active_rooms[1].1, "b");
    assert_eq!(i.send(&msg(7)), Err(WebSocketError::UserIsNotConnectedToGivenRoom));
    assert!(matches!(RoomInterface::<&'static str>::message_outcome(Ok(1)), Ok(NotifyCode::MessageRequestSent)));
    assert!(matches!(
        RoomInterface::<&'static str>::message_outcome(Err(rooms::Error::NoReceivers)),
        Err(WebSocketError::RoomIsEmpty)
    ));
}

#[test]
fn room_interface_leave_removes_only_the_first_membership() {
    let mut i: RoomInterface<&'static str> = RoomInterface::new(3);
    i.finish_join(RoomId(1), Ok("a"));
    i.finish_join(RoomId(2), Ok("b"));
    i.finish_join(RoomId(2), Ok("c"));
    let (r, h) = i.leave(RoomId(2));
    assert!(matches!(r, Ok(NotifyCode::RoomLeftGracefully)));
    assert_eq!(h, Some("b"));
    let left: Vec<&str> = i.active_rooms.iter().map(|(_, x)| *x).collect();
    assert_eq!(left, vec!["a", "c"]);
    let (r, h) = i.leave(RoomId(9));
    assert!(matches!(r, Ok(NotifyCode::RoomLeftGracefully)));
    assert_eq!(h, None);
    let (r, all) = i.leave_all();
    assert!(matches!(r, Ok(NotifyCode::AllRoomsLeftGracefully)));
    assert_eq!(all.len(), 2);
    let (r, h) = i.leave(RoomId(1));
    assert!(matches!(r, Err(WebSocketError::UserIsntInAnyRoom)));
    assert_eq!(h, None);
    let (r, all) = i.leave_all();
    assert!(matches!(r, Ok(NotifyCode::AllRoomsLeftGracefully)));
    assert!(all.is_empty());
}

#[test]
fn room_interface_join_of_unknown_room() {
    let mut i: RoomInterface<&'static str> = RoomInterface::new(1);
    let r = i.finish_join(RoomId(3), Err(rooms::Error::NotFound(RoomId(3))));
    assert!(matches!(r, Err(WebSocketError::NoRoomFound)));
    assert!(i.active_rooms.is_empty());
}

#[test]
fn room_interface_join_then_leave_restores() {
    let mut i: RoomInterface<&'static str> = RoomInterface::new(4);
    i.finish_join(RoomId(1), Ok("a"));
    i.finish_join(RoomId(2), Ok("b"));
    let before: Vec<(u128, &str)> = i.active_rooms.iter().map(|(r, x)| (r.0, *x)).collect();
    i.finish_join(RoomId(3), Ok("c"));
    let (r, h) = i.leave(RoomId(3));
    assert!(matches!(r, Ok(NotifyCode::RoomLeftGracefully)));
    assert_eq!(h, Some("c"));
    let after: Vec<(u128, &str)> = i.active_rooms.iter().map(|(r, x)| (r.0, *x)).collect();
    assert_eq!(before, after);
}
