//! A worker-script locator and subprocess dispatcher.
//!
//! The library resolves the filesystem path of an external worker program by
//! probing a bounded list of candidate locations derived from the working
//! directory, builds the command lines that invoke the worker or the host
//! file manager, and maps a finished child process's exit status and captured
//! output to a structured, human-readable outcome. All filesystem probing and
//! process spawning is left to the caller; the library is pure logic over the
//! values the caller hands it.

pub mod dispatch;
pub mod host;
pub mod locator;
pub mod paths;
pub mod platform;
