//! Records a host writes out for contract testing: the genesis data of a
//! new client, and one fixture per verification mode.  The engine only
//! defines their shape; encoding and file handling live outside.

use vstd::prelude::*;

verus! {

/// The genesis data for a newly instantiated client: the encoded trusted
/// client and consensus states, and the verifying key of each proof
/// program.
#[derive(Debug, PartialEq, Eq)]
pub struct SP1ICS07TendermintGenesis {
    /// The encoded trusted client state.
    pub trusted_client_state: Vec<u8>,
    /// The encoded trusted consensus state.
    pub trusted_consensus_state: Vec<u8>,
    /// The verifying key for the update-client program.
    pub update_client_vkey: Vec<u8>,
    /// The verifying key for the membership program.
    pub membership_vkey: Vec<u8>,
    /// The verifying key for the combined program.
    pub uc_and_membership_vkey: Vec<u8>,
}

/// The fixture for a batched membership verification: the genesis data, the
/// encoded height the proof was made at, and the encoded proof.
#[derive(Debug, PartialEq, Eq)]
pub struct SP1ICS07MembershipFixture {
    /// The genesis data.
    pub genesis: SP1ICS07TendermintGenesis,
    /// The encoded height of the proof.
    pub proof_height: Vec<u8>,
    /// The encoded membership proof.
    pub membership_proof: Vec<u8>,
}

} // verus!
