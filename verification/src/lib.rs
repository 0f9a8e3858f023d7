//! Core of a chat-client front-end: the state-synchronization layer that
//! asynchronous fetches and a synchronous render loop share, and the
//! variable-height virtualization layer that narrows an item list to the
//! visible window.

pub mod app;
pub mod ingest;
pub mod orchestrate;
pub mod text;
pub mod virtual_list;
