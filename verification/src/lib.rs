//! A Tendermint (ICS-07) light-client verification engine.
//!
//! The crate verifies block-header transitions against a trusted consensus
//! state and a validator-set trust assumption, detects equivocation between
//! two conflicting headers, and checks ICS-23 Merkle (non-)membership proofs
//! against a commitment root.  Every operation is a pure function of its
//! inputs; networking, proving backends and persistence live outside.
//!
//! Conventions used throughout:
//! - timestamps are nanoseconds since the Unix epoch, as unsigned 64-bit;
//! - durations (trusting and unbonding periods) are seconds;
//! - commitment roots and validator-set hashes are 32-byte digests;
//! - a Merkle key path is an ordered list of raw byte keys, outermost first.

pub mod bytes;
pub mod cli;
pub mod errors;
pub mod fixtures;
pub mod hash;
pub mod header;
pub mod height;
pub mod keypath;
pub mod laws;
pub mod membership;
pub mod misbehaviour;
pub mod outputs;
pub mod programs;
pub mod sig;
pub mod types;
pub mod uc_and_membership;
pub mod update_client;
pub mod validators;
