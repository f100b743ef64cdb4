//! Outbound email notification subsystem: domain validation of subscriber
//! input, the provider wire payload with its JSON encoding, and the
//! notification client that prepares and classifies the authenticated send.

pub mod domain;
pub mod email_client;
pub mod payload;
