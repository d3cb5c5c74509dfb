//! A minimal, verified core for a two-segment file-viewing HTTP server.
//!
//! A request `GET /view/{dir}/{name}` carries two raw, percent-encoded path
//! segments. The library decodes and validates each segment (rejecting any
//! decoded segment that contains `..`, the path-traversal pattern), builds
//! the candidate path `converted/{dir}/{name}`, and turns the outcome of
//! reading that file into an HTTP response: the file's contents with status
//! 200, or the fixed body `Page not found :(` with status 404. Listening,
//! routing and the filesystem read itself live outside the library.

pub mod handler;
pub mod segment;
