//! Typed client logic for the ZEBEDEE Lightning payments REST service:
//! request shaping, payload validation and response classification.

pub mod json;
pub mod timestamp;
pub mod client;
pub mod payload;
pub mod segment;
pub mod validation;
pub mod login_with_zbd;
pub mod withdrawal_request;
pub mod charges;
