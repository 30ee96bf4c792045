//! Core logic of a software KVM switch for keyboards.
//!
//! One machine (the server) captures keyboard input exclusively, and a
//! hotkey (Ctrl+Alt+Tab) toggles whether events are replayed locally or
//! forwarded over a TCP link to a client machine, which injects them as
//! synthetic input.  This crate holds the platform-independent core:
//! the canonical event model and its 4-byte wire codec, the keycode
//! canonicalization tables, the modifier/hotkey classifier, the
//! Local/Remote mode state machine, and the transport state machines
//! that drive the server and client network loops.  Device access,
//! sockets and threads live outside this crate and call into it with
//! plain values.

pub mod capture;
pub mod classifier;
pub mod data;
pub mod mode;
pub mod tables;
pub mod transport;
