//! Read-only file serving over HTTP, as a library of decisions.
//!
//! The library resolves an untrusted request path against a served root,
//! refuses every location outside that root, maps a directory to its
//! `index.html`, and says which response a request gets. It never touches the
//! filesystem or the network itself: a caller performs each filesystem
//! operation that the [`resolver::Resolver`] asks for and reports what came
//! back.

pub mod acceptor;
pub mod content_type;
pub mod failure;
pub mod guarantees;
pub mod outcome;
pub mod path;
pub mod resolver;
pub mod response;
