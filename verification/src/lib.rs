//! Decision logic of a WebAssembly worker: the command line runner, the memory
//! report, and the HTTP front ends of the daemon.
//!
//! Everything that touches the outside world (files, sockets, the engine) lives
//! in the program around this library, which carries out the actions named here
//! and hands back what happened.
pub mod blobs;
pub mod config;
pub mod connect;
pub mod http;
pub mod memory;
pub mod output;
pub mod run_laws;
pub mod runner;
pub mod server;
pub mod signing;
pub mod text;
pub mod worker;
