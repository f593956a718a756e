pub mod connection;
pub mod domain;
pub mod ids;
pub mod income;
pub mod io;
pub mod message;
pub mod notifier;
pub mod requests;
pub mod room_interface;
pub mod rooms;
pub mod state;
pub mod status_codes;
