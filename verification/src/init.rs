use vstd::prelude::*;
use crate::constants::{ADMIN, CRANK_OPERATOR_WALLET, DELAY, FEE_LAMPORTS};
use crate::pubkey::{base58_pubkey, get_pubkey, Pubkey};

verus! {

/// Program-wide configuration account.
#[derive(Clone, Copy, Debug)]
pub struct Info {
    pub bump: u8,
    pub admin: Pubkey,
    pub crank_operator: Pubkey,
    pub fee_lamports: u64,
    pub delay: u64,
    pub initialised: bool,
}

/// Program-wide seed account, written by each crank turn.
#[derive(Clone, Copy, Debug)]
pub struct State {
    pub bump: u8,
    pub request_slot: u64,
    pub latest_seed: [u8; 10],
    pub seed_slot: u64,
}

/// Bytes of the account discriminator that precedes every account's fields.
pub const DISCRIMINATOR_LEN: usize = 8;

/// Space of an `Info` account: discriminator, bump, two keys, two `u64`s, a flag.
pub const INFO_LEN: usize = DISCRIMINATOR_LEN + 1 + 32 + 32 + 8 + 8 + 1;

/// Space of a `State` account: discriminator, bump, a `u64`, a 10-byte seed, a `u64`.
pub const STATE_LEN: usize = DISCRIMINATOR_LEN + 1 + 8 + 10 + 8;

/// The program's address constants that initialisation reads are valid
/// base58 addresses.
pub open spec fn init_addresses_valid() -> bool {
    &&& base58_pubkey(ADMIN@) is Some
    &&& base58_pubkey(CRANK_OPERATOR_WALLET@) is Some
}

impl Info {
    /// `self` holds the configuration that `init` writes, with bump `bump`.
    pub open spec fn is_configured(&self, bump: u8) -> bool {
        &&& self.bump == bump
        &&& base58_pubkey(ADMIN@) == Some(self.admin@)
        &&& base58_pubkey(CRANK_OPERATOR_WALLET@) == Some(self.crank_operator@)
        &&& self.fee_lamports == FEE_LAMPORTS
        &&& self.delay == DELAY
        &&& self.initialised
    }

    /// Writes the program configuration into the account.
    pub fn init(&mut self, bump: u8)
        requires
            init_addresses_valid(),
        ensures
            final(self).is_configured(bump),
    {
        self.bump = bump;
        self.admin = get_pubkey(ADMIN);
        self.crank_operator = get_pubkey(CRANK_OPERATOR_WALLET);
        self.fee_lamports = FEE_LAMPORTS;
        self.delay = DELAY;
        self.initialised = true;
    }
}

/// Accounts of the `initialize` instruction.
#[derive(Clone, Copy, Debug)]
pub struct Initialize {
    pub initializer: Pubkey,
    pub info: Info,
    pub state: State,
}

/// The accounts after an initialisation: the configuration is written;
/// the seed account gets its bump only if the program was not initialised.
pub open spec fn init_effect(before: Initialize, after: Initialize, info_bump: u8, state_bump: u8) -> bool {
    &&& after.info.is_configured(info_bump)
    &&& after.initializer == before.initializer
    &&& before.info.initialised ==> after.state == before.state
    &&& !before.info.initialised ==> after.state == (State { bump: state_bump, ..before.state })
}

/// Initialises (or re-initialises) the configuration account. The seed
/// account's bump is written only on the first initialisation; a second
/// call leaves the seed account as it is.
pub fn init(ctx: &mut Initialize, info_bump: u8, state_bump: u8)
    requires
        init_addresses_valid(),
    ensures
        init_effect(*old(ctx), *final(ctx), info_bump, state_bump),
{
    if ctx.info.initialised {
        ctx.info.init(info_bump);
    } else {
        ctx.info.init(info_bump);
        ctx.state.bump = state_bump;
    }
}

} // verus!
