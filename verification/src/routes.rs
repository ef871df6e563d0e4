//! The route layer: translates requests into data-access calls, enforces
//! that the acting user owns what they mutate, and projects results onto
//! the wire.
pub mod article;
pub mod identity;
pub mod message;
