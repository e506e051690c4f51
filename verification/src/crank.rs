use vstd::prelude::*;
use crate::bytes::{le_i64_at, le_u32_at};
use crate::constants::{CRANK_RESERVE_LAMPORTS, DELAY, PRICE_FEEDS};
use crate::events::{CrankTurned, Transfer};
use crate::init::State;
use crate::pubkey::Pubkey;

verus! {

/// Magic number at the start of every Pyth account.
pub const PYTH_MAGIC: u32 = 0xa1b2c3d4;

/// Pyth account layout version that the price loader accepts.
pub const PYTH_VERSION: u32 = 2;

/// Pyth account type tag of a price account.
pub const PYTH_PRICE_ACCOUNT_TYPE: u32 = 3;

/// Size in bytes of a Pyth price account record.
pub const PYTH_PRICE_ACCOUNT_SIZE: usize = 3312;

/// Byte offset of the aggregate price inside a Pyth price account.
pub const PYTH_AGGREGATE_PRICE_OFFSET: usize = 208;

/// `data` is the content of a Pyth price account: long enough for the
/// record, with the magic number, the supported version and the price
/// account type in its header.
pub open spec fn is_pyth_price_account(data: Seq<u8>) -> bool {
    &&& data.len() >= PYTH_PRICE_ACCOUNT_SIZE
    &&& le_u32_at(data, 0) == PYTH_MAGIC
    &&& le_u32_at(data, 4) == PYTH_VERSION
    &&& le_u32_at(data, 8) == PYTH_PRICE_ACCOUNT_TYPE
}

/// The aggregate price recorded in a Pyth price account.
pub open spec fn pyth_aggregate_price(data: Seq<u8>) -> int {
    le_i64_at(data, PYTH_AGGREGATE_PRICE_OFFSET as int)
}

/// Calls `pyth_client::load_price` on a copy of `data` in an 8-byte-aligned
/// buffer (that function reinterprets the bytes in place with
/// `bytemuck::from_bytes`, which panics on misaligned input), and reads the
/// aggregate price (`agg.price`) of the record. Trusted: `load_price`
/// accepts exactly the data that holds at least one `Price` record (3312
/// bytes, `repr(C)`) whose `magic`, `ver` and `atype` header words are the
/// Pyth magic number, version 2 and the price account type; the aggregate
/// price is then the little-endian `i64` at byte 208.
#[verifier::external_body]
#[allow(deprecated)]
fn load_aggregate_price(data: &[u8]) -> (res: Option<i64>)
    requires
        data@.len() <= PYTH_PRICE_ACCOUNT_SIZE,
    ensures
        res is Some <==> is_pyth_price_account(data@),
        res matches Some(p) ==> p == pyth_aggregate_price(data@),
{
    let mut words = [0u64; 414];
    let aligned: &mut [u8] = bytemuck::cast_slice_mut(&mut words);
    aligned[..data.len()].copy_from_slice(data);
    match pyth_client::load_price(&aligned[..data.len()]) {
        Ok(price) => Some(price.agg.price),
        Err(_) => None,
    }
}

/// Whether `data` is a Pyth price account and, if so, its aggregate price
/// depend only on the first `PYTH_PRICE_ACCOUNT_SIZE` bytes.
proof fn lemma_price_record_prefix(data: Seq<u8>)
    ensures
        ({
            let prefix = data.subrange(0, if data.len() < PYTH_PRICE_ACCOUNT_SIZE { data.len() as int } else { PYTH_PRICE_ACCOUNT_SIZE as int });
            &&& is_pyth_price_account(prefix) == is_pyth_price_account(data)
            &&& (is_pyth_price_account(data) ==> pyth_aggregate_price(prefix) == pyth_aggregate_price(data))
        }),
{
    let n = if data.len() < PYTH_PRICE_ACCOUNT_SIZE { data.len() as int } else { PYTH_PRICE_ACCOUNT_SIZE as int };
    let prefix = data.subrange(0, n);
    if data.len() >= PYTH_PRICE_ACCOUNT_SIZE {
        assert(prefix.subrange(0, 4) =~= data.subrange(0, 4));
        assert(prefix.subrange(4, 8) =~= data.subrange(4, 8));
        assert(prefix.subrange(8, 12) =~= data.subrange(8, 12));
        assert(prefix.subrange(208, 216) =~= data.subrange(208, 216));
    } else {
        assert(prefix =~= data);
    }
}

/// The aggregate price of a Pyth price account, or `None` when the data is
/// not a price account.
pub fn aggregate_price(data: &[u8]) -> (res: Option<i64>)
    ensures
        res is Some <==> is_pyth_price_account(data@),
        res matches Some(p) ==> p == pyth_aggregate_price(data@),
{
    let n = if data.len() < PYTH_PRICE_ACCOUNT_SIZE { data.len() } else { PYTH_PRICE_ACCOUNT_SIZE };
    proof { lemma_price_record_prefix(data@); }
    load_aggregate_price(&data[0..n])
}

/// The seed byte taken from a price: its lowest byte, which is the last
/// byte of its big-endian encoding.
pub open spec fn seed_byte(price: i64) -> u8 {
    #[verifier::truncate] (price as u8)
}

/// The seed made from a list of prices, one byte per price.
pub open spec fn seed_of(prices: Seq<i64>) -> Seq<u8> {
    Seq::new(prices.len(), |i: int| seed_byte(prices[i]))
}

/// The lowest byte of a price is its remainder modulo 256.
pub proof fn lemma_seed_byte_is_remainder(price: i64)
    ensures
        seed_byte(price) as int == price % 256,
{
    assert((#[verifier::truncate] (price as u8)) as i64 == price & 0xff) by (bit_vector);
    assert(price & 0xff == price % 256) by (bit_vector);
}

/// Builds the seed from the ten prices: the lowest byte of each.
pub fn calc_seed(prices: [i64; 10]) -> (res: [u8; 10])
    ensures
        res@ == seed_of(prices@),
{
    let mut res: [u8; 10] = [0; 10];
    let mut i: usize = 0;
    while i < PRICE_FEEDS
        invariant
            i <= PRICE_FEEDS,
            PRICE_FEEDS == 10,
            forall|j: int| 0 <= j < i ==> res@[j] == seed_byte(prices@[j]),
        decreases PRICE_FEEDS - i,
    {
        res[i] = prices[i] as u8;
        i = i + 1;
    }
    assert(res@ =~= seed_of(prices@));
    res
}

/// A price account handed to the crank: its address and its data.
#[derive(Clone, Copy, Debug)]
pub struct PriceAccount<'a> {
    pub key: Pubkey,
    pub data: &'a [u8],
}

/// Accounts of the `turn_crank` instruction. The price accounts come in
/// seed order: DOGE, BTC, ETH, LUNA, BNB, SOL, SRM, ADA, COPE, AVAX.
#[derive(Clone, Copy, Debug)]
pub struct Crank<'a> {
    pub crank_operator: Pubkey,
    pub crank_operator_lamports: u64,
    pub fee_wallet: Pubkey,
    pub state: State,
    pub price_accounts: [PriceAccount<'a>; 10],
}

/// Errors of the `turn_crank` instruction.
#[derive(Clone, Copy, Debug, PartialEq, Eq, Structural)]
pub enum CrankError {
    RequestNotMade,
    DelayTooSmall,
}

/// What a successful crank turn asks the runtime to do.
#[derive(Clone, Copy, Debug)]
pub struct CrankOutcome {
    /// Sweep of the operator's lamports above the reserve to the fee wallet.
    pub fee_sweep: Option<Transfer>,
    pub event: CrankTurned,
}

/// The aggregate prices of the crank's price accounts, in seed order.
pub open spec fn crank_prices(accounts: Seq<PriceAccount<'_>>) -> Seq<i64> {
    Seq::new(accounts.len(), |i: int| pyth_aggregate_price(accounts[i].data@) as i64)
}

/// Every price account of the crank holds a Pyth price record.
pub open spec fn prices_loadable(accounts: Seq<PriceAccount<'_>>) -> bool {
    forall|i: int| 0 <= i < accounts.len() ==> is_pyth_price_account(#[trigger] accounts[i].data@)
}

/// A request was recorded since the seed was last written. Requests record
/// their slot in the seed account; a crank turn happens at least `DELAY`
/// slots after the request it answers, so a recorded slot older than the
/// seed slot was already answered, and slot 0 means that no request was
/// ever recorded.
pub open spec fn request_pending(state: State) -> bool {
    state.request_slot >= state.seed_slot && state.request_slot > 0
}

/// The crank may turn at `slot`: the delay since the last recorded request has passed.
pub open spec fn crank_due(state: State, slot: u64) -> bool {
    slot >= state.request_slot + DELAY
}

/// The error with which a crank turn at `slot` is refused: there must be a
/// request that the current seed does not answer, made at least `DELAY`
/// slots ago.
pub open spec fn crank_refusal(state: State, slot: u64) -> Option<CrankError> {
    if !request_pending(state) {
        Some(CrankError::RequestNotMade)
    } else if !crank_due(state, slot) {
        Some(CrankError::DelayTooSmall)
    } else {
        None
    }
}

/// Whether a request is pending in the seed account.
pub fn is_request_pending(state: &State) -> (res: bool)
    ensures
        res == request_pending(*state),
{
    state.request_slot >= state.seed_slot && state.request_slot > 0
}

/// The error with which a crank turn at `slot` would be refused, if any.
pub fn check_crank(state: &State, slot: u64) -> (res: Option<CrankError>)
    requires
        request_pending(*state) ==> state.request_slot + DELAY <= u64::MAX,
    ensures
        res == crank_refusal(*state, slot),
{
    if !is_request_pending(state) {
        Some(CrankError::RequestNotMade)
    } else if slot < state.request_slot + DELAY {
        Some(CrankError::DelayTooSmall)
    } else {
        None
    }
}

/// The transfer that leaves the operator exactly `reserve` lamports, when it holds more.
pub open spec fn sweep(from: Pubkey, to: Pubkey, balance: u64, reserve: u64) -> Option<Transfer> {
    if balance > reserve {
        Some(Transfer { from, to, lamports: (balance - reserve) as u64 })
    } else {
        None
    }
}

/// The accounts and the outcome of a crank turn that succeeds.
pub open spec fn crank_effect(
    before: Crank<'_>,
    after: Crank<'_>,
    current_slot: u64,
    out: CrankOutcome,
) -> bool {
    &&& after.state.latest_seed@ == seed_of(crank_prices(before.price_accounts@))
    &&& after.state.seed_slot == current_slot
    &&& after.state.bump == before.state.bump
    &&& after.state.request_slot == before.state.request_slot
    &&& after.crank_operator == before.crank_operator
    &&& after.crank_operator_lamports == before.crank_operator_lamports
    &&& after.fee_wallet == before.fee_wallet
    &&& after.price_accounts == before.price_accounts
    &&& out.fee_sweep == sweep(before.crank_operator, before.fee_wallet,
        before.crank_operator_lamports, CRANK_RESERVE_LAMPORTS)
    &&& out.event == (CrankTurned { slot: current_slot, seed: after.state.latest_seed })
}

/// Turns the crank at `current_slot`: once a request is pending and the
/// delay since the last recorded request has passed, the ten aggregate
/// prices become the new seed, stamped with the current slot, and every
/// lamport the operator holds above `CRANK_RESERVE_LAMPORTS` is swept to the
/// fee wallet.
pub fn turn_crank(ctx: &mut Crank<'_>, current_slot: u64) -> (res: Result<CrankOutcome, CrankError>)
    requires
        request_pending(old(ctx).state) ==> old(ctx).state.request_slot + DELAY <= u64::MAX,
        crank_refusal(old(ctx).state, current_slot) is None ==> prices_loadable(old(ctx).price_accounts@),
    ensures
        res is Err <==> crank_refusal(old(ctx).state, current_slot) is Some,
        res matches Err(e) ==> crank_refusal(old(ctx).state, current_slot) == Some(e) && *final(ctx) == *old(ctx),
        res matches Ok(out) ==> crank_effect(*old(ctx), *final(ctx), current_slot, out),
{
    if let Some(e) = check_crank(&ctx.state, current_slot) {
        return Err(e);
    }
    let mut prices: [i64; 10] = [0; 10];
    let mut i: usize = 0;
    while i < PRICE_FEEDS
        invariant
            i <= PRICE_FEEDS,
            PRICE_FEEDS == 10,
            prices_loadable(ctx.price_accounts@),
            forall|j: int| 0 <= j < i ==> prices@[j] == crank_prices(ctx.price_accounts@)[j],
        decreases PRICE_FEEDS - i,
    {
        let price = match aggregate_price(ctx.price_accounts[i].data) {
            Some(p) => p,
            None => {
                proof { assert(is_pyth_price_account(ctx.price_accounts@[i as int].data@)); }
                0
            },
        };
        prices[i] = price;
        i = i + 1;
    }
    assert(prices@ =~= crank_prices(ctx.price_accounts@));
    let seed = calc_seed(prices);
    ctx.state.latest_seed = seed;
    ctx.state.seed_slot = current_slot;
    let fee_sweep = if ctx.crank_operator_lamports > CRANK_RESERVE_LAMPORTS {
        Some(Transfer {
            from: ctx.crank_operator,
            to: ctx.fee_wallet,
            lamports: ctx.crank_operator_lamports - CRANK_RESERVE_LAMPORTS,
        })
    } else {
        None
    };
    Ok(CrankOutcome { fee_sweep, event: CrankTurned { slot: current_slot, seed } })
}

} // verus!
