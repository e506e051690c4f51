//! The program's instructions as the runtime executes them: the account
//! address constraints first, then the instruction handler.
use vstd::prelude::*;
use crate::addresses::{law_price_accounts_in_seed_order, price_account_text_list, price_account_texts};
use crate::constants::{
    ADMIN, AVAX_PRICE_ACC, BNB_PRICE_ACC, BTC_PRICE_ACC, COPE_PRICE_ACC, CRANK_OPERATOR_WALLET,
    DELAY, DOGE_PRICE_ACC, ETH_PRICE_ACC, FEE_WALLET, LUNA_PRICE_ACC, PAI_PRICE_ACC, SOL_PRICE_ACC,
    SRM_PRICE_ACC,
};
use crate::crank::{
    self, pyth_aggregate_price, crank_effect, crank_refusal, prices_loadable, request_pending, Crank, CrankError, CrankOutcome,
};
use crate::fetch::{self, fetch_effect, seed_recent_enough, Fetch, FetchError, FetchOutcome};
use crate::init::{self, Initialize};
use crate::pubkey::{base58_pubkey, parse_pubkey, same_pubkey, Pubkey};
use crate::request::{self, Request, RequestError, RequestOutcome};

verus! {

/// Errors of the program's instructions.
#[derive(Clone, Copy, Debug, PartialEq, Eq, Structural)]
pub enum EntropyError {
    /// An account's address differs from the one its constraint fixes.
    ConstraintAddress,
    /// An address constant of the program is not a valid address.
    InvalidAddressConstant,
    Request(RequestError),
    Crank(CrankError),
    Fetch(FetchError),
}

/// How an account address compares with the constant that constrains it.
pub open spec fn address_check(key: Pubkey, text: Seq<char>) -> Option<bool> {
    match base58_pubkey(text) {
        Some(k) => Some(k == key@),
        None => None,
    }
}

/// Checks an account address against an address constant: `None` when the
/// constant does not parse, else whether they are equal.
fn check_address(key: &Pubkey, text: &str) -> (res: Option<bool>)
    ensures
        res == address_check(*key, text@),
{
    match parse_pubkey(text) {
        Some(expected) => Some(same_pubkey(key, &expected)),
        None => None,
    }
}

/// The outcome of the address constraints of a crank turn, checked in
/// account order: `Some(true)` when all hold, `Some(false)` at the first
/// violated one, `None` at the first constant that does not parse.
pub open spec fn crank_constraints(ctx: Crank<'_>) -> Option<bool> {
    crank_constraints_from(ctx, 0)
}

/// The address constraints of a crank turn from the `k`-th one on (the
/// operator, the fee wallet, then the ten price accounts).
pub open spec fn crank_constraints_from(ctx: Crank<'_>, k: nat) -> Option<bool>
    decreases 12 - k,
{
    if k >= 12 {
        Some(true)
    } else {
        match address_check(crank_constraint_key(ctx, k), crank_constraint_text(k)) {
            Some(true) => crank_constraints_from(ctx, k + 1),
            other => other,
        }
    }
}

/// The account address that the `k`-th crank constraint reads.
pub open spec fn crank_constraint_key(ctx: Crank<'_>, k: nat) -> Pubkey {
    if k == 0 {
        ctx.crank_operator
    } else if k == 1 {
        ctx.fee_wallet
    } else {
        ctx.price_accounts@[k - 2].key
    }
}

/// The address constant that the `k`-th crank constraint names.
pub open spec fn crank_constraint_text(k: nat) -> Seq<char> {
    if k == 0 {
        CRANK_OPERATOR_WALLET@
    } else if k == 1 {
        FEE_WALLET@
    } else {
        price_account_texts()[k - 2]
    }
}

/// The crank constraints from the `k`-th on all hold exactly when each of
/// them does.
proof fn lemma_crank_constraints_from(ctx: Crank<'_>, k: nat)
    requires
        k <= 12,
    ensures
        crank_constraints_from(ctx, k) == Some(true) <==> forall|j: nat| k <= j < 12
            ==> #[trigger] address_check(crank_constraint_key(ctx, j), crank_constraint_text(j)) == Some(true),
    decreases 12 - k,
{
    if k < 12 {
        lemma_crank_constraints_from(ctx, k + 1);
        if crank_constraints_from(ctx, k) == Some(true) {
            assert forall|j: nat| k <= j < 12 implies
                #[trigger] address_check(crank_constraint_key(ctx, j), crank_constraint_text(j)) == Some(true) by {
                if j > k {
                }
            }
        }
    }
}

/// The account constraints of a crank turn hold exactly when the crank
/// operator, the fee wallet and the ten price accounts, in seed order
/// (DOGE, BTC, ETH, LUNA, BNB, SOL, SRM, ADA, COPE, AVAX), are the parses
/// of their address constants.
pub proof fn law_crank_constraints_name_each_account(ctx: Crank<'_>)
    ensures
        crank_constraints(ctx) == Some(true) <==> {
            &&& base58_pubkey(CRANK_OPERATOR_WALLET@) == Some(ctx.crank_operator@)
            &&& base58_pubkey(FEE_WALLET@) == Some(ctx.fee_wallet@)
            &&& base58_pubkey(DOGE_PRICE_ACC@) == Some(ctx.price_accounts@[0].key@)
            &&& base58_pubkey(BTC_PRICE_ACC@) == Some(ctx.price_accounts@[1].key@)
            &&& base58_pubkey(ETH_PRICE_ACC@) == Some(ctx.price_accounts@[2].key@)
            &&& base58_pubkey(LUNA_PRICE_ACC@) == Some(ctx.price_accounts@[3].key@)
            &&& base58_pubkey(BNB_PRICE_ACC@) == Some(ctx.price_accounts@[4].key@)
            &&& base58_pubkey(SOL_PRICE_ACC@) == Some(ctx.price_accounts@[5].key@)
            &&& base58_pubkey(SRM_PRICE_ACC@) == Some(ctx.price_accounts@[6].key@)
            &&& base58_pubkey(PAI_PRICE_ACC@) == Some(ctx.price_accounts@[7].key@)
            &&& base58_pubkey(COPE_PRICE_ACC@) == Some(ctx.price_accounts@[8].key@)
            &&& base58_pubkey(AVAX_PRICE_ACC@) == Some(ctx.price_accounts@[9].key@)
        },
{
    law_price_accounts_in_seed_order();
    lemma_crank_constraints_from(ctx, 0);
    let all = forall|j: nat| 0 <= j < 12
        ==> #[trigger] address_check(crank_constraint_key(ctx, j), crank_constraint_text(j)) == Some(true);
    assert forall|j: nat| 0 <= j < 12 implies
        (#[trigger] address_check(crank_constraint_key(ctx, j), crank_constraint_text(j)) == Some(true)
        <==> base58_pubkey(crank_constraint_text(j)) == Some(crank_constraint_key(ctx, j)@)) by {
    }
    assert(crank_constraint_text(2) == DOGE_PRICE_ACC@);
    assert(crank_constraint_text(3) == BTC_PRICE_ACC@);
    assert(crank_constraint_text(4) == ETH_PRICE_ACC@);
    assert(crank_constraint_text(5) == LUNA_PRICE_ACC@);
    assert(crank_constraint_text(6) == BNB_PRICE_ACC@);
    assert(crank_constraint_text(7) == SOL_PRICE_ACC@);
    assert(crank_constraint_text(8) == SRM_PRICE_ACC@);
    assert(crank_constraint_text(9) == PAI_PRICE_ACC@);
    assert(crank_constraint_text(10) == COPE_PRICE_ACC@);
    assert(crank_constraint_text(11) == AVAX_PRICE_ACC@);
    if all {
        assert(address_check(crank_constraint_key(ctx, 0), crank_constraint_text(0)) == Some(true));
        assert(address_check(crank_constraint_key(ctx, 1), crank_constraint_text(1)) == Some(true));
        assert(address_check(crank_constraint_key(ctx, 2), crank_constraint_text(2)) == Some(true));
        assert(address_check(crank_constraint_key(ctx, 3), crank_constraint_text(3)) == Some(true));
        assert(address_check(crank_constraint_key(ctx, 4), crank_constraint_text(4)) == Some(true));
        assert(address_check(crank_constraint_key(ctx, 5), crank_constraint_text(5)) == Some(true));
        assert(address_check(crank_constraint_key(ctx, 6), crank_constraint_text(6)) == Some(true));
        assert(address_check(crank_constraint_key(ctx, 7), crank_constraint_text(7)) == Some(true));
        assert(address_check(crank_constraint_key(ctx, 8), crank_constraint_text(8)) == Some(true));
        assert(address_check(crank_constraint_key(ctx, 9), crank_constraint_text(9)) == Some(true));
        assert(address_check(crank_constraint_key(ctx, 10), crank_constraint_text(10)) == Some(true));
        assert(address_check(crank_constraint_key(ctx, 11), crank_constraint_text(11)) == Some(true));
    }
    if base58_pubkey(CRANK_OPERATOR_WALLET@) == Some(ctx.crank_operator@)
        && base58_pubkey(FEE_WALLET@) == Some(ctx.fee_wallet@)
        && base58_pubkey(DOGE_PRICE_ACC@) == Some(ctx.price_accounts@[0].key@)
        && base58_pubkey(BTC_PRICE_ACC@) == Some(ctx.price_accounts@[1].key@)
        && base58_pubkey(ETH_PRICE_ACC@) == Some(ctx.price_accounts@[2].key@)
        && base58_pubkey(LUNA_PRICE_ACC@) == Some(ctx.price_accounts@[3].key@)
        && base58_pubkey(BNB_PRICE_ACC@) == Some(ctx.price_accounts@[4].key@)
        && base58_pubkey(SOL_PRICE_ACC@) == Some(ctx.price_accounts@[5].key@)
        && base58_pubkey(SRM_PRICE_ACC@) == Some(ctx.price_accounts@[6].key@)
        && base58_pubkey(PAI_PRICE_ACC@) == Some(ctx.price_accounts@[7].key@)
        && base58_pubkey(COPE_PRICE_ACC@) == Some(ctx.price_accounts@[8].key@)
        && base58_pubkey(AVAX_PRICE_ACC@) == Some(ctx.price_accounts@[9].key@) {
        assert forall|j: nat| 0 <= j < 12 implies
            #[trigger] address_check(crank_constraint_key(ctx, j), crank_constraint_text(j)) == Some(true) by {
            if j == 0 {} else if j == 1 {} else if j == 2 {} else if j == 3 {} else if j == 4 {}
            else if j == 5 {} else if j == 6 {} else if j == 7 {} else if j == 8 {} else if j == 9 {}
            else if j == 10 {} else {}
        }
    }
}

/// A crank turn that passes the account constraints writes, as the `k`-th
/// seed byte, the lowest byte of the aggregate price in the `k`-th price
/// account, and that account is the one at the `k`-th feed address: the
/// DOGE price gives byte 0, the BTC price byte 1, and so on to AVAX.
pub proof fn law_crank_seed_follows_feed_order(
    before: Crank<'_>,
    after: Crank<'_>,
    slot: u64,
    out: CrankOutcome,
)
    requires
        crank_constraints(before) == Some(true),
        crank_effect(before, after, slot, out),
    ensures
        after.state.latest_seed@.len() == 10,
        forall|k: int| 0 <= k < 10 ==> #[trigger] after.state.latest_seed@[k]
            == #[verifier::truncate] ((pyth_aggregate_price(before.price_accounts@[k].data@) as i64) as u8),
        base58_pubkey(DOGE_PRICE_ACC@) == Some(before.price_accounts@[0].key@),
        base58_pubkey(BTC_PRICE_ACC@) == Some(before.price_accounts@[1].key@),
        base58_pubkey(AVAX_PRICE_ACC@) == Some(before.price_accounts@[9].key@),
{
    law_crank_constraints_name_each_account(before);
}

/// Checks the address constraints of a crank turn.
fn check_crank_constraints(ctx: &Crank<'_>) -> (res: Option<bool>)
    ensures
        res == crank_constraints(*ctx),
{
    let texts = price_account_text_list();
    let mut k: usize = 0;
    while k < 12
        invariant
            k <= 12,
            forall|i: int| 0 <= i < 10 ==> texts@[i]@ == #[trigger] price_account_texts()[i],
            crank_constraints(*ctx) == crank_constraints_from(*ctx, k as nat),
        decreases 12 - k,
    {
        let check = if k == 0 {
            check_address(&ctx.crank_operator, CRANK_OPERATOR_WALLET)
        } else if k == 1 {
            check_address(&ctx.fee_wallet, FEE_WALLET)
        } else {
            check_address(&ctx.price_accounts[k - 2].key, texts[k - 2])
        };
        assert(check == address_check(crank_constraint_key(*ctx, k as nat), crank_constraint_text(k as nat)));
        match check {
            Some(true) => {},
            other => {
                return other;
            },
        }
        k = k + 1;
    }
    Some(true)
}

/// The `initialize` instruction: only the admin may initialise.
pub fn initialize(ctx: &mut Initialize, info_bump: u8, state_bump: u8) -> (res: Result<(), EntropyError>)
    ensures
        res matches Err(_) ==> *final(ctx) == *old(ctx),
        res == Err::<(), EntropyError>(EntropyError::InvalidAddressConstant) <==> (
            base58_pubkey(ADMIN@) is None || (
                base58_pubkey(ADMIN@) == Some(old(ctx).initializer@)
                && base58_pubkey(CRANK_OPERATOR_WALLET@) is None)),
        res == Err::<(), EntropyError>(EntropyError::ConstraintAddress) <==> (
            base58_pubkey(ADMIN@) is Some && base58_pubkey(ADMIN@) != Some(old(ctx).initializer@)),
        res is Ok <==> base58_pubkey(ADMIN@) == Some(old(ctx).initializer@)
            && base58_pubkey(CRANK_OPERATOR_WALLET@) is Some,
        res is Ok ==> init::init_effect(*old(ctx), *final(ctx), info_bump, state_bump),
{
    match check_address(&ctx.initializer, ADMIN) {
        None => return Err(EntropyError::InvalidAddressConstant),
        Some(false) => return Err(EntropyError::ConstraintAddress),
        Some(true) => {},
    }
    if parse_pubkey(CRANK_OPERATOR_WALLET).is_none() {
        return Err(EntropyError::InvalidAddressConstant);
    }
    init::init(ctx, info_bump, state_bump);
    Ok(())
}

/// The `request` instruction: the fee goes to the designated crank operator.
pub fn request(ctx: &mut Request, id: Pubkey, pda_bump: u8, current_slot: u64) -> (res: Result<RequestOutcome, EntropyError>)
    ensures
        res matches Err(_) ==> *final(ctx) == *old(ctx),
        res == Err::<RequestOutcome, EntropyError>(EntropyError::InvalidAddressConstant)
            <==> base58_pubkey(CRANK_OPERATOR_WALLET@) is None,
        res == Err::<RequestOutcome, EntropyError>(EntropyError::ConstraintAddress)
            <==> address_check(old(ctx).crank_operator, CRANK_OPERATOR_WALLET@) == Some(false),
        res == Err::<RequestOutcome, EntropyError>(EntropyError::Request(RequestError::RandomNumPdaLocked))
            <==> address_check(old(ctx).crank_operator, CRANK_OPERATOR_WALLET@) == Some(true)
                && old(ctx).user_random_num_pda.locked,
        res is Ok <==> address_check(old(ctx).crank_operator, CRANK_OPERATOR_WALLET@) == Some(true)
            && !old(ctx).user_random_num_pda.locked,
        res matches Ok(out) ==> {
            &&& request::request_effect(*old(ctx), *final(ctx), id, pda_bump, current_slot, out)
        },
{
    match check_address(&ctx.crank_operator, CRANK_OPERATOR_WALLET) {
        None => return Err(EntropyError::InvalidAddressConstant),
        Some(false) => return Err(EntropyError::ConstraintAddress),
        Some(true) => {},
    }
    match request::request(ctx, id, pda_bump, current_slot) {
        Ok(out) => Ok(out),
        Err(e) => Err(EntropyError::Request(e)),
    }
}

/// The `turn_crank` instruction: only the designated operator may turn the
/// crank, its surplus goes to the fee wallet, and the prices come from the
/// ten fixed Pyth accounts.
pub fn turn_crank(ctx: &mut Crank<'_>, current_slot: u64) -> (res: Result<CrankOutcome, EntropyError>)
    requires
        crank_constraints(*old(ctx)) == Some(true) ==> {
            &&& request_pending(old(ctx).state) ==> old(ctx).state.request_slot + DELAY <= u64::MAX
            &&& crank_refusal(old(ctx).state, current_slot) is None ==> prices_loadable(old(ctx).price_accounts@)
        },
    ensures
        res matches Err(_) ==> *final(ctx) == *old(ctx),
        res == Err::<CrankOutcome, EntropyError>(EntropyError::InvalidAddressConstant)
            <==> crank_constraints(*old(ctx)) is None,
        res == Err::<CrankOutcome, EntropyError>(EntropyError::ConstraintAddress)
            <==> crank_constraints(*old(ctx)) == Some(false),
        res == Err::<CrankOutcome, EntropyError>(EntropyError::Crank(CrankError::RequestNotMade))
            <==> crank_constraints(*old(ctx)) == Some(true)
                && crank_refusal(old(ctx).state, current_slot) == Some(CrankError::RequestNotMade),
        res == Err::<CrankOutcome, EntropyError>(EntropyError::Crank(CrankError::DelayTooSmall))
            <==> crank_constraints(*old(ctx)) == Some(true)
                && crank_refusal(old(ctx).state, current_slot) == Some(CrankError::DelayTooSmall),
        res is Ok <==> crank_constraints(*old(ctx)) == Some(true) && crank_refusal(old(ctx).state, current_slot) is None,
        res matches Ok(out) ==> crank_effect(*old(ctx), *final(ctx), current_slot, out),
{
    match check_crank_constraints(ctx) {
        None => return Err(EntropyError::InvalidAddressConstant),
        Some(false) => return Err(EntropyError::ConstraintAddress),
        Some(true) => {},
    }
    match crank::turn_crank(ctx, current_slot) {
        Ok(out) => Ok(out),
        Err(e) => Err(EntropyError::Crank(e)),
    }
}

/// The `fetch` instruction.
pub fn fetch(ctx: &mut Fetch, id: Pubkey, user: Pubkey) -> (res: Result<FetchOutcome, EntropyError>)
    requires
        !old(ctx).user_random_num_pda.retrieved ==> old(ctx).user_random_num_pda.request_slot + DELAY <= u64::MAX,
    ensures
        res matches Err(_) ==> *final(ctx) == *old(ctx),
        res == Err::<FetchOutcome, EntropyError>(EntropyError::Fetch(FetchError::NumberAlreadyFetched))
            <==> old(ctx).user_random_num_pda.retrieved,
        res == Err::<FetchOutcome, EntropyError>(EntropyError::Fetch(FetchError::SeedNotRecentEnough))
            <==> !old(ctx).user_random_num_pda.retrieved
                && !seed_recent_enough(old(ctx).user_random_num_pda, old(ctx).state),
        res is Ok <==> !old(ctx).user_random_num_pda.retrieved
            && seed_recent_enough(old(ctx).user_random_num_pda, old(ctx).state),
        res matches Ok(out) ==> fetch_effect(*old(ctx), *final(ctx), id, user, out),
{
    match fetch::fetch(ctx, id, user) {
        Ok(out) => Ok(out),
        Err(e) => Err(EntropyError::Fetch(e)),
    }
}

} // verus!
