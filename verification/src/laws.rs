//! Properties of the program that span instructions.
use vstd::prelude::*;
use crate::constants::{DELAY, FEE_LAMPORTS, SIG_FEE_LAMPORTS};
use crate::crank::{crank_effect, crank_prices, crank_refusal, seed_of, sweep, Crank, CrankError, CrankOutcome};
use crate::fetch::{fetch_effect, fetch_refusal, random_number, Fetch, FetchError, FetchOutcome};
use crate::init::{init_effect, Initialize, State};
use crate::pubkey::Pubkey;
use crate::request::{request_effect, request_refusal, Request, RequestError, RequestOutcome};

verus! {

/// A random number is fetched only once: once a fetch succeeds, every
/// further fetch from that request account is refused with
/// `NumberAlreadyFetched`.
pub proof fn law_fetch_only_once(before: Fetch, after: Fetch, id: Pubkey, user: Pubkey, out: FetchOutcome, again: Fetch)
    requires
        fetch_effect(before, after, id, user, out),
        again.user_random_num_pda == after.user_random_num_pda,
    ensures
        fetch_refusal(again) == Some(FetchError::NumberAlreadyFetched),
{
}

/// A request locks its account: while the number is not fetched, every
/// further request on that account is refused with `RandomNumPdaLocked`.
pub proof fn law_request_locks(
    before: Request,
    after: Request,
    id: Pubkey,
    bump: u8,
    slot: u64,
    out: RequestOutcome,
    again: Request,
)
    requires
        request_effect(before, after, id, bump, slot, out),
        again.user_random_num_pda == after.user_random_num_pda,
    ensures
        request_refusal(again) == Some(RequestError::RandomNumPdaLocked),
{
}

/// A fetch unlocks the request account: after a successful fetch, a new
/// request on that account is accepted.
pub proof fn law_fetch_unlocks(before: Fetch, after: Fetch, id: Pubkey, user: Pubkey, out: FetchOutcome, next: Request)
    requires
        fetch_effect(before, after, id, user, out),
        next.user_random_num_pda == after.user_random_num_pda,
    ensures
        request_refusal(next) is None,
{
}

/// A crank turn answers the pending requests: right after a successful
/// turn, another turn is refused with `RequestNotMade` until a new request
/// is recorded.
pub proof fn law_crank_needs_new_request(before: Crank<'_>, after: Crank<'_>, slot: u64, out: CrankOutcome, next_slot: u64)
    requires
        crank_refusal(before.state, slot) is None,
        crank_effect(before, after, slot, out),
    ensures
        crank_refusal(after.state, next_slot) == Some(CrankError::RequestNotMade),
{
}

/// A crank turn waits for the last request: after a request recorded at
/// slot `r` (a slot no older than the current seed), a crank turn at slot
/// `s` is refused with `DelayTooSmall` when `s < r + DELAY` and allowed
/// otherwise.
pub proof fn law_crank_waits_for_last_request(
    before: Request,
    after: Request,
    id: Pubkey,
    bump: u8,
    r: u64,
    out: RequestOutcome,
    state: State,
    s: u64,
)
    requires
        request_effect(before, after, id, bump, r, out),
        r > 0,
        r >= before.state.seed_slot,
        state == after.state,
    ensures
        s < r + DELAY ==> crank_refusal(state, s) == Some(CrankError::DelayTooSmall),
        s >= r + DELAY ==> crank_refusal(state, s) is None,
{
}

/// A number is fetched only after the delay: when a request made at slot
/// `r` is answered from the seed of a crank turned at slot `c`, the fetch
/// succeeds exactly when `c >= r + DELAY`.
pub proof fn law_fetch_after_delay(
    req_before: Request,
    req_after: Request,
    id: Pubkey,
    bump: u8,
    request_slot: u64,
    req_out: RequestOutcome,
    crank_before: Crank<'_>,
    crank_after: Crank<'_>,
    crank_slot: u64,
    crank_out: CrankOutcome,
    ctx: Fetch,
)
    requires
        request_effect(req_before, req_after, id, bump, request_slot, req_out),
        crank_effect(crank_before, crank_after, crank_slot, crank_out),
        ctx.user_random_num_pda == req_after.user_random_num_pda,
        ctx.state == crank_after.state,
    ensures
        fetch_refusal(ctx) is None <==> crank_slot >= request_slot + DELAY,
        fetch_refusal(ctx) is Some ==> fetch_refusal(ctx) == Some(FetchError::SeedNotRecentEnough),
{
}

/// The whole cycle: a request made at slot `r`, answered by the next
/// crank turn, is fetched as the number that the seed made from the
/// crank's ten prices gives for the request id and the user, and that
/// crank turn happened at least `DELAY` slots after the request.
pub proof fn law_request_crank_fetch_cycle(
    req_before: Request,
    req_after: Request,
    id: Pubkey,
    bump: u8,
    request_slot: u64,
    req_out: RequestOutcome,
    crank_before: Crank<'_>,
    crank_after: Crank<'_>,
    crank_slot: u64,
    crank_out: CrankOutcome,
    fetch_before: Fetch,
    fetch_after: Fetch,
    user: Pubkey,
    out: FetchOutcome,
)
    requires
        request_effect(req_before, req_after, id, bump, request_slot, req_out),
        crank_before.state == req_after.state,
        crank_refusal(crank_before.state, crank_slot) is None,
        crank_effect(crank_before, crank_after, crank_slot, crank_out),
        fetch_before.user_random_num_pda == req_after.user_random_num_pda,
        fetch_before.state == crank_after.state,
        fetch_effect(fetch_before, fetch_after, id, user, out),
    ensures
        crank_slot >= request_slot + DELAY,
        fetch_refusal(fetch_before) is None,
        out.random_num == random_number(seed_of(crank_prices(crank_before.price_accounts@)), id@, user@),
        fetch_after.user_random_num_pda.random_num == out.random_num,
        !fetch_after.user_random_num_pda.locked,
{
}

/// The fetched number is a function of the latest seed, the request id and
/// the user alone: two successful fetches over the same seed, id and user
/// give the same number.
pub proof fn law_fetch_deterministic(
    b1: Fetch,
    a1: Fetch,
    b2: Fetch,
    a2: Fetch,
    id: Pubkey,
    user: Pubkey,
    o1: FetchOutcome,
    o2: FetchOutcome,
)
    requires
        fetch_effect(b1, a1, id, user, o1),
        fetch_effect(b2, a2, id, user, o2),
        b1.state.latest_seed@ == b2.state.latest_seed@,
    ensures
        o1 == o2,
        o1.random_num == random_number(b1.state.latest_seed@, id@, user@),
{
}

/// A request charges the user the request fee, paid to the crank operator,
/// and two signature fees, paid to the proxy signer.
pub proof fn law_request_charges(
    before: Request,
    after: Request,
    id: Pubkey,
    bump: u8,
    slot: u64,
    out: RequestOutcome,
)
    requires
        request_effect(before, after, id, bump, slot, out),
    ensures
        out.fee.from == before.user,
        out.signature_fee.from == before.user,
        out.fee.to == before.crank_operator,
        out.signature_fee.to == before.proxy_signer,
        out.fee.lamports + out.signature_fee.lamports == FEE_LAMPORTS + 2 * SIG_FEE_LAMPORTS,
{
}

/// The crank's fee sweep leaves the operator exactly the reserve when it
/// holds more, and moves nothing otherwise.
pub proof fn law_sweep_keeps_reserve(from: Pubkey, to: Pubkey, balance: u64, reserve: u64)
    ensures
        sweep(from, to, balance, reserve) matches Some(t) ==> balance - t.lamports == reserve
            && t.from == from && t.to == to,
        sweep(from, to, balance, reserve) is None <==> balance <= reserve,
{
}

/// Initialising again with the same configuration bump changes nothing:
/// the configuration is rewritten with the same values and the seed
/// account keeps its bump.
pub proof fn law_reinit_is_idempotent(c0: Initialize, c1: Initialize, c2: Initialize, info_bump: u8, b1: u8, b2: u8)
    requires
        init_effect(c0, c1, info_bump, b1),
        init_effect(c1, c2, info_bump, b2),
    ensures
        c2 == c1,
{
    assert(c2.info.admin.bytes =~= c1.info.admin.bytes);
    assert(c2.info.crank_operator.bytes =~= c1.info.crank_operator.bytes);
}

} // verus!
