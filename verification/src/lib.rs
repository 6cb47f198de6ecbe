//! Decision core of a background launcher: a global hotkey toggles the
//! visibility of one managed window, and a small command surface lets the
//! front-end hide the window, open links, write log lines and fetch search
//! suggestions.
//!
//! The crate decides and the host acts. Every function here is a function of
//! plain values: it is told what the host observed and answers with what the
//! host has to do next, or with the reply that goes back to the front-end.
//! Window handles, the hotkey subsystem and the network stay with the host.

pub mod dispatch;
pub mod encoding;
pub mod hotkey;
pub mod suggest;
pub mod visibility;
