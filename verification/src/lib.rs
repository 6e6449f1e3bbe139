//! Verified core of a payment-mandate contract: a payer's standing, capped,
//! revocable authorization that lets a merchant pull up to a fixed amount of
//! a token each period until an expiry time.

pub mod types;
pub mod ttl;
pub mod period;
pub mod contract;
pub mod laws;
