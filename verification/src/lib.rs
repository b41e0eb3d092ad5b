//! Offline signing and instruction encoding for a Solana front end.
//!
//! Two independent parts: a signature engine over Ed25519 keys, and an encoder
//! that turns addresses and amounts into unsigned instructions for the system
//! and token programs. Every function is a pure computation on its arguments,
//! apart from key generation, which draws from the operating system's random
//! source.

pub mod crypto;
pub mod encoding;
pub mod error;
pub mod handlers;
pub mod instruction;
pub mod solana_ops;
pub mod types;
