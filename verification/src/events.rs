use vstd::prelude::*;
use crate::pubkey::Pubkey;

verus! {

/// Emitted when a random number is requested.
#[derive(Clone, Copy, Debug)]
pub struct RandomNumRequested {
    pub request_slot: u64,
}

/// Emitted when a request pays its fee.
#[derive(Clone, Copy, Debug)]
pub struct FeePaid {
    pub amount: u64,
    pub id: Pubkey,
}

/// Emitted when the crank writes a new seed.
#[derive(Clone, Copy, Debug)]
pub struct CrankTurned {
    pub slot: u64,
    pub seed: [u8; 10],
}

/// Emitted when a random number is fetched.
#[derive(Clone, Copy, Debug)]
pub struct RandomNumberFetched {
    pub random_num: u128,
    pub user: Pubkey,
    pub id: Pubkey,
}

/// A lamport transfer through the system program that an instruction asks for.
#[derive(Clone, Copy, Debug)]
pub struct Transfer {
    pub from: Pubkey,
    pub to: Pubkey,
    pub lamports: u64,
}

} // verus!
