use vstd::prelude::*;
use crate::constants::{FEE_LAMPORTS, SIG_FEE_LAMPORTS};
use crate::events::{FeePaid, RandomNumRequested, Transfer};
use crate::init::{State, DISCRIMINATOR_LEN};
use crate::pubkey::Pubkey;

verus! {

/// Per-request account, one for each (id, user, proxy signer).
#[derive(Clone, Copy, Debug)]
pub struct RandomNumPda {
    pub bump: u8,
    pub request_slot: u64,
    pub random_num: u128,
    pub retrieved: bool,
    pub locked: bool,
}

/// Space of a `RandomNumPda` account: discriminator, bump, `u64`, `u128`, two flags.
pub const RANDOM_NUM_PDA_LEN: usize = DISCRIMINATOR_LEN + 1 + 8 + 16 + 1 + 1;

/// Accounts of the `request` instruction.
#[derive(Clone, Copy, Debug)]
pub struct Request {
    pub user: Pubkey,
    pub user_random_num_pda: RandomNumPda,
    pub proxy_signer: Pubkey,
    pub state: State,
    pub crank_operator: Pubkey,
}

/// Errors of the `request` instruction.
#[derive(Clone, Copy, Debug, PartialEq, Eq, Structural)]
pub enum RequestError {
    RandomNumPdaLocked,
}

/// What a successful request asks the runtime to do: two fee transfers from
/// the user, then two events.
#[derive(Clone, Copy, Debug)]
pub struct RequestOutcome {
    pub fee: Transfer,
    pub signature_fee: Transfer,
    pub fee_paid: FeePaid,
    pub requested: RandomNumRequested,
}

/// The request account as a fresh request at `slot` leaves it.
pub open spec fn fresh_request(bump: u8, slot: u64) -> RandomNumPda {
    RandomNumPda { bump, request_slot: slot, random_num: 0, retrieved: false, locked: true }
}

/// The error with which a request is refused: a locked request account
/// (a request that is not fetched yet) refuses new requests.
pub open spec fn request_refusal(ctx: Request) -> Option<RequestError> {
    if ctx.user_random_num_pda.locked {
        Some(RequestError::RandomNumPdaLocked)
    } else {
        None
    }
}

/// The accounts and the outcome of a request that succeeds.
pub open spec fn request_effect(
    before: Request,
    after: Request,
    id: Pubkey,
    pda_bump: u8,
    current_slot: u64,
    out: RequestOutcome,
) -> bool {
    &&& after.user_random_num_pda == fresh_request(pda_bump, current_slot)
    &&& after.user == before.user
    &&& after.proxy_signer == before.proxy_signer
    &&& after.state == (State { request_slot: current_slot, ..before.state })
    &&& after.crank_operator == before.crank_operator
    &&& out.fee == (Transfer { from: before.user, to: before.crank_operator, lamports: FEE_LAMPORTS })
    &&& out.signature_fee == (Transfer {
        from: before.user,
        to: before.proxy_signer,
        lamports: (SIG_FEE_LAMPORTS * 2) as u64,
    })
    &&& out.fee_paid == (FeePaid { amount: FEE_LAMPORTS, id })
    &&& out.requested == (RandomNumRequested { request_slot: current_slot })
}

/// Records a request for a random number at `current_slot`: in the request
/// account, which stays locked until the number is fetched, and as the last
/// request in the seed account. Lists the fee transfers and the events. A
/// locked account refuses a new request.
pub fn request(ctx: &mut Request, id: Pubkey, pda_bump: u8, current_slot: u64) -> (res: Result<RequestOutcome, RequestError>)
    ensures
        res is Err <==> request_refusal(*old(ctx)) is Some,
        res matches Err(e) ==> request_refusal(*old(ctx)) == Some(e) && *final(ctx) == *old(ctx),
        res matches Ok(out) ==> request_effect(*old(ctx), *final(ctx), id, pda_bump, current_slot, out),
{
    if ctx.user_random_num_pda.locked {
        return Err(RequestError::RandomNumPdaLocked);
    }
    ctx.state.request_slot = current_slot;
    ctx.user_random_num_pda = RandomNumPda {
        bump: pda_bump,
        request_slot: current_slot,
        random_num: 0,
        retrieved: false,
        locked: true,
    };
    let fee = Transfer { from: ctx.user, to: ctx.crank_operator, lamports: FEE_LAMPORTS };
    let signature_fee = Transfer { from: ctx.user, to: ctx.proxy_signer, lamports: SIG_FEE_LAMPORTS * 2 };
    Ok(RequestOutcome {
        fee,
        signature_fee,
        fee_paid: FeePaid { amount: FEE_LAMPORTS, id },
        requested: RandomNumRequested { request_slot: current_slot },
    })
}

} // verus!
