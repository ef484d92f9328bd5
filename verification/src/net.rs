//! The TLS policy of the browser's network stack: Chrome fingerprints,
//! ALPN and handshake settings, CA configuration and certificate overrides.

pub mod chrome_tls;
pub mod boring_tls;
pub mod connector;
