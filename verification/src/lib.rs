//! The decisions of a small login manager daemon: its wire format, its
//! configuration, the sessions it opens and the processes it watches over.
//!
//! Nothing here touches the system. A caller performs the system calls and
//! hands their outcomes in as plain values.

pub mod client;
pub mod client_laws;
pub mod config;
pub mod daemon;
pub mod direct;
pub mod error;
pub mod frame;
pub mod greeter;
pub mod ipc;
pub mod json;
pub mod json_laws;
pub mod keyring;
pub mod message_laws;
pub mod pending;
pub mod runtime;
pub mod session;
pub mod signals;
pub mod startup;
pub mod startup_course;
pub mod terminal;
pub mod text;
pub mod wire_texts;
pub mod worker;
pub mod worker_course;
pub mod worker_laws;
