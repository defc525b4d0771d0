//! Client for a remote video-to-audio conversion service: the derivation of
//! the authorization token, the handshake that yields a download address,
//! the streaming transfer and the coordinator of one attempt. Each part
//! decides on plain values; the network, the file system and the window stay
//! with the caller.

pub mod api;
pub mod app;
pub mod application;
pub mod auth;
pub mod domain;
pub mod text;
pub mod ui;
pub mod utils;
