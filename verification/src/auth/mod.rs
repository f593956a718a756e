pub mod clock;
pub mod config;
pub mod flows;
pub mod password;
pub mod token;
pub mod user_storage;
pub mod users;
