//! What the operations are for, said of their inputs and results.
//!
//! The other modules define what each operation gives. Here stands what must be
//! true of it whatever the definition: how a result is made up, which results
//! there can be, how the results on two inputs relate.

pub mod dns;
pub mod install;
pub mod ipc;
pub mod paths;
pub mod server;
pub mod supervisor;
pub mod text;
pub mod views;
