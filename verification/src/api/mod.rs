pub mod dto;
pub mod handlers;
