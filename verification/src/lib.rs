//! Core of a script execution orchestrator.
//!
//! The library models the decisions an execution front end makes when it runs
//! a program from a file, from standard input, or from an inline code string:
//! decoding and injecting virtual source files into a shared source cache,
//! building an execution-scoped permission grant, sequencing one execution
//! attempt, and supervising a restart-on-change watch loop.  Everything here
//! is plain data and verified logic; the embedded language engine, the module
//! resolver, the file watcher and all I/O live outside and hand plain values
//! in and out.

pub mod errors;
pub mod permissions;
pub mod run;
pub mod session;
pub mod source;
pub mod utf8;
pub mod watch;
