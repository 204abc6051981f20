//! Reading IAB Global Privacy Platform (GPP) consent strings.
//!
//! A GPP string is a header followed by sections separated by `~`. Most sections
//! are URL-safe base64 payloads whose bits are read most-significant first.
//! The bit-level reader, the base64 decoder, the Fibonacci integer codec and the
//! section formats live in this crate with their contracts.
pub mod encoding;
pub mod sections;
pub mod v1;
