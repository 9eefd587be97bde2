//! Observes the desktop's active input method and decides what to tell a
//! keyboard-remapping engine on every change.
//!
//! The crate holds the sequential core of the observer: the fatal-error
//! latch, the single-slot channels, the edge detector in front of each
//! platform backend, the command binding with its wire format, the
//! command-line grammar and the supervisor's restart protocol. Threads,
//! sockets and operating-system calls live with the caller, which feeds the
//! values it reads into the functions here.

pub mod args;
pub mod binding;
pub mod channel;
pub mod command;
pub mod error;
pub mod fatal;
pub mod fcitx;
pub mod ibus;
pub mod kanata_tcp_types;
pub mod mac;
pub mod message;
pub mod receiver;
pub mod supervisor;
pub mod text;
pub mod win;
pub mod win_onoff;
pub mod worker;

pub use command::Command;
pub use error::AppError;
pub use fatal::{
    catch_fatal_error, initialize_fatal_error, send_fatal_error, FatalError, FatalErrorChannel,
};
pub use message::{handle_try_send, initialize_app, send_message, Message, WakeupChannel};
