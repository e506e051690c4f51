//! Command line settings of the end-to-end test program.
use vstd::prelude::*;

verus! {

/// Settings of the end-to-end test program.
#[derive(Debug)]
pub struct Opt {
    /// RPC endpoint URL.
    pub rpc: String,
    /// Log level - `warn, info, debug, trace` etc.
    pub log_level: String,
    /// Signing keypair + payer.
    pub keypair: String,
    pub cmd: Command,
}

/// What the test program runs.
#[derive(Clone, Copy, Debug, PartialEq, Eq, Structural)]
pub enum Command {
    /// Run all tests.
    All,
}

} // verus!
