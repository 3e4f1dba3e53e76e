//! Arguments of the fixture commands, one per verification mode.

use vstd::prelude::*;

use crate::cli::{OutputPath, TrustOptions};

verus! {

/// The fixtures command.
#[derive(Debug)]
pub struct Cmd {
    /// The fixture to produce.
    pub command: Cmds,
}

/// The fixture subcommands, one per verification mode.
#[derive(Debug)]
pub enum Cmds {
    /// An update-client fixture.
    UpdateClient(UpdateClientCmd),
    /// A (non-)membership fixture.
    Membership(MembershipCmd),
    /// A combined update and membership fixture.
    UpdateClientAndMembership(UpdateClientAndMembershipCmd),
    /// A misbehaviour fixture.
    Misbehaviour(MisbehaviourCmd),
}

/// Arguments of the update-client fixture.
#[derive(Debug)]
pub struct UpdateClientCmd {
    /// Trusted block height.
    pub trusted_block: u32,
    /// Target block height.
    pub target_block: u32,
    /// Where to write the fixture.
    pub output_path: OutputPath,
    /// Trust options.
    pub trust_options: TrustOptions,
}

/// Arguments of the membership fixture.
#[derive(Debug)]
pub struct MembershipCmd {
    /// Generic membership arguments.
    pub membership: MembershipArgs,
    /// Whether to produce the alternative single-pair proof layout.
    pub union: bool,
}

/// Arguments shared by the membership fixtures.
#[derive(Debug)]
pub struct MembershipArgs {
    /// Trusted block height.
    pub trusted_block: u32,
    /// Key paths to prove membership for.
    pub key_paths: Vec<String>,
    /// Where to write the fixture.
    pub output_path: OutputPath,
    /// Trust options.
    pub trust_options: TrustOptions,
    /// Whether the key paths are base64-encoded segments.
    pub base64: bool,
}

/// Arguments of the combined update and membership fixture.
#[derive(Debug)]
pub struct UpdateClientAndMembershipCmd {
    /// Target block height.
    pub target_block: u32,
    /// Membership arguments.
    pub membership: MembershipArgs,
}

/// Arguments of the misbehaviour fixture.
#[derive(Debug)]
pub struct MisbehaviourCmd {
    /// Path of the misbehaviour evidence file.
    pub misbehaviour_path: String,
    /// Where to write the fixture.
    pub output_path: OutputPath,
    /// Trust options.
    pub trust_options: TrustOptions,
}

} // verus!
