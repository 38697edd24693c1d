//! A verified client-side refresh core for a signed-metadata update
//! framework: a consumer trusts a chain of signed metadata documents
//! (root, timestamp, snapshot, targets) offered by an untrusted source,
//! adopting a document only when its signature threshold, version
//! monotonicity, and size/digest bounds all hold.

pub mod client;
pub mod error;
pub mod metadata;
pub mod source;
pub mod trust;
