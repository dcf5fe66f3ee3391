//! Service-side logic of the helper daemon.
//!
//! The daemon has very little state: at most one mihomo child process, and a
//! server that takes one request per connection. What it decides is here, as
//! functions from what happened to what to do next; the processes, sockets and
//! timers that carry it out are the caller's.

pub mod command;
pub mod dns;
pub mod dns_linux;
pub mod server;
pub mod supervisor;
