//! The logic of a static-site build tool and of its development server.
//!
//! Everything here works on plain values: paths are strings, dates are
//! calendar numbers, and the long-running tasks of the development server
//! are state machines that are told what happened and answer what to do
//! next. Reading files, rendering templates and talking to browsers is left
//! to the program that drives this library.

pub mod archive;
pub mod config;
pub mod feed;
pub mod functions;
pub mod item;
pub mod md;
pub mod page;
pub mod paths;
pub mod pipeline;
pub mod rebuild;
pub mod reload;
pub mod serial;
pub mod style;
pub mod server;
pub mod text;
pub mod watch;
