//! Switching the system-wide HTTP/HTTPS proxy on and off, as a sequence of
//! decisions: the library says which operating-system action comes next and
//! how the operation ends; the caller carries the actions out.
//!
//! - [`controller`] begins the two operations, [`session`] takes them to
//!   their end, [`action`] is what passes between session and caller.
//! - [`script`] holds the steps for Windows and macOS, [`services`] reads
//!   the network services of macOS from their listing.
//! - [`system`] models what the actions do, and [`laws`] proves what every
//!   operation keeps to.
//! - [`public_ip`] reads the caller's public address from the reply of an
//!   IP-echo service.

pub mod action;
pub mod config;
pub mod controller;
pub mod laws;
pub mod public_ip;
pub mod script;
pub mod services;
pub mod session;
pub mod system;
pub mod text;
