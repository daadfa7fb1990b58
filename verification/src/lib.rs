//! Verified core of a small command-line helper that locates the running
//! tasks of a container service, reports each matching container's image and
//! tag, and prints a ready-to-run interactive shell command for attaching to
//! that container.
//!
//! The remote calls themselves (listing and describing tasks) are plain I/O
//! and live outside this crate; everything the tool decides or formats is
//! here, with contracts: tag extraction from an image reference, region
//! fallback, the exact text of every printed block, and the session state
//! machine that orders the remote calls.

pub mod laws;
pub mod model;
pub mod region;
pub mod render;
pub mod session;
pub mod tag;
