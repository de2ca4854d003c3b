//! Verified core of a peer-to-peer classroom chat: the chat session state and
//! its key handling, the text shown on screen, and the channel subscription
//! and publication logic on top of gossipsub.

pub mod text;
pub mod error;
pub mod network;
pub mod app;
pub mod ui;
