pub mod event;
pub mod message;
pub mod room;
pub mod user;
