//! Arguments of the genesis command.

use vstd::prelude::*;

use crate::cli::{OutputPath, TrustOptions};

verus! {

/// Arguments of the genesis command.
#[derive(Debug)]
pub struct Args {
    /// Trusted block height; when absent, the latest block.
    pub trusted_block: Option<u32>,
    /// Where to write the genesis record.
    pub output_path: OutputPath,
    /// Trust options for the new client.
    pub trust_options: TrustOptions,
}

} // verus!
