//! Verified core of a small ranking service.
//!
//! The heart of the crate is [`auth`]: verification of RSA-signed identity
//! tokens against a cached set of provider keys, with audience, issuer and
//! expiry checks stated and proved as contracts.

pub mod auth;
pub mod cache;
pub mod config;
pub mod ranking;
pub mod score;
