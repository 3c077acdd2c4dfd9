//! Live stream relay: the data model of stream events, their rendering into
//! lines of text, and the controller that owns the single active session.

pub mod event;
pub mod render;
pub mod commands;
pub mod session;
