//! Verified core of the Entropy randomness program: the on-chain state
//! transitions (initialise, request, crank, fetch), the seed and random
//! number derivations, and the decisions of the off-chain crank operator.

pub mod constants;
pub mod pubkey;
pub mod hashing;
pub mod bytes;
pub mod init;
pub mod events;
pub mod request;
pub mod crank;
pub mod fetch;
pub mod addresses;
pub mod entropy;
pub mod operator;
pub mod client;
pub mod opt;
pub mod laws;
pub mod test_opts;
