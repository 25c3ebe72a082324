//! Typed requests and results of a chat-bot API, with their JSON wire format
//! stated and proved: which fields are written and under which keys, how shared
//! fields are flattened into one object, and how answers are read back.

pub mod chat;
pub mod chat_id;
pub mod dispatch;
pub mod json;
pub mod laws;
pub mod message;
pub mod user;
