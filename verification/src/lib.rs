//! Client-side core of an APNs-style HTTP/2 push gateway protocol.
//!
//! The crate covers the authenticated protocol client: a token signer that
//! caches short-lived bearer tokens, a pure request builder that maps a
//! notification payload and delivery options onto the wire request, a
//! response interpreter that classifies gateway answers into a typed
//! outcome, and a client facade tying them together. Network transport is
//! left to the embedding program, which feeds exchange results back in as
//! plain events.

pub mod b64;
pub mod client;
pub mod endpoint;
pub mod error;
pub mod identity;
pub mod options;
pub mod payload;
pub mod request;
pub mod response;
pub mod signer;
pub mod text;
