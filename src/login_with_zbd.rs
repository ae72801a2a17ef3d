//! The delegated-access flow: OAuth2 with PKCE.

pub mod types;
