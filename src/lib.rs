//! Builders for unsigned Solana instructions, keypairs and ed25519 message
//! signatures, each answering with a uniform success/error envelope.
pub mod codec;
pub mod instructions;
pub mod keys;
pub mod model;
pub mod program;
