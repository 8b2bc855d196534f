//! Interactive repository search: the state machine behind the terminal client.
//!
//! The library holds the state of a session, the key bindings, the layout of
//! the screen and the protocol of the event loop. It reads no key, draws
//! nothing and calls no service: its caller does, as the session tells it.

pub mod app;
pub mod config;
pub mod counter;
pub mod dispatch;
pub mod editor;
pub mod filter;
pub mod keys;
pub mod laws;
pub mod layout;
pub mod render;
pub mod repo;
pub mod resolve;
pub mod screen;
pub mod session;
pub mod text;
