//! Client-side logic of a terminal chat for the NeoNet daemon: the chat
//! state and its transitions, the daemon's HTTP and WebSocket vocabulary,
//! and the text handling they rest on.
pub mod text;
pub mod json;
pub mod clock;
pub mod api;
pub mod app;
pub mod prompt;
pub mod config;
pub mod startup;
pub mod ui;
