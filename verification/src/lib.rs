//! TLS credential hot-reload core.
//!
//! The library discovers, validates, and republishes a consistent set of
//! X.509 identity materials (trust anchors, end-entity certificate, private
//! key) whose backing files change out-of-band. Every publication is a
//! self-consistent snapshot: the private key matches the end-entity
//! certificate, and the certificate chains to at least one trust anchor.

pub mod anchors;
pub mod b64;
pub mod bytes;
pub mod config;
pub mod errors;
pub mod pem;
pub mod pki;
pub mod resolver;
pub mod slots;
pub mod watch;
