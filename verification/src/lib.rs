//! Decision logic of a small HTTP file-exchange daemon.
//!
//! The daemon accepts uploads, serves downloads (whole or streamed), deletes
//! files and can terminate TLS.  Everything that touches a socket or the file
//! system lives with the caller; this crate decides what is to be done next
//! and what is answered, and proves that those decisions keep the stored
//! files safe.

pub mod exchange;
pub mod laws;
pub mod lifecycle;
pub mod model;
pub mod name;
pub mod response;
pub mod tls;
