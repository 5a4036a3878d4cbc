//! The event-routing core of a desktop shell: many network connections, a
//! hotkey source and any number of producer threads, all funnelled into the
//! one thread that owns the window.
use vstd::prelude::*;

pub mod actor;
pub mod app;
pub mod config;
pub mod consistency;
pub mod events;
pub mod ipc;
pub mod reconcile;
pub mod registry;
pub mod taocket_config;
pub mod taocket_context;
pub mod taocket_hotkey;
pub mod taocket_protocol;
pub mod taocket_utils;
pub mod taocket_window;
pub mod text;
pub mod userevent;
pub mod windowcontrol;
pub mod ws;

verus! {

/// An event of the embedding application that can be sent through the event loop.
pub trait CustomEvent: Clone + Send + 'static {

}

impl<T: Clone + Send + 'static> CustomEvent for T {

}

} // verus!
