//! Ownership, permission and collateral rules for dice tokens, and the
//! seeded generation of their colour attributes.

pub mod expiration;
pub mod metadata;
pub mod rng;
pub mod token;
