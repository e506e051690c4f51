use vstd::prelude::*;
use crate::bytes::be_value;
use crate::constants::DELAY;
use crate::events::RandomNumberFetched;
use crate::hashing::{keccak256, keccak_hash};
use crate::init::State;
use crate::pubkey::Pubkey;
use crate::request::RandomNumPda;

verus! {

/// Accounts of the `fetch` instruction.
#[derive(Clone, Copy, Debug)]
pub struct Fetch {
    pub proxy_signer: Pubkey,
    pub user_random_num_pda: RandomNumPda,
    pub state: State,
}

/// Errors of the `fetch` instruction.
#[derive(Clone, Copy, Debug, PartialEq, Eq, Structural)]
pub enum FetchError {
    NumberAlreadyFetched,
    SeedNotRecentEnough,
}

/// What a successful fetch returns: the number and the event announcing it.
#[derive(Clone, Copy, Debug)]
pub struct FetchOutcome {
    pub random_num: u128,
    pub event: RandomNumberFetched,
}

/// The bytes that are hashed into a random number: the seed, then the
/// request id, then the user.
pub open spec fn seed_message(seed: Seq<u8>, id: Seq<u8>, user: Seq<u8>) -> Seq<u8> {
    seed + id + user
}

/// The random number carried by a 32-byte digest: its last 16 bytes read
/// as a big-endian number.
pub open spec fn number_of_digest(digest: Seq<u8>) -> nat {
    be_value(digest.subrange(16, 32))
}

/// The random number that a seed gives for a request id and a user.
pub open spec fn random_number(seed: Seq<u8>, id: Seq<u8>, user: Seq<u8>) -> nat {
    number_of_digest(keccak256(seed_message(seed, id, user)))
}

/// The seed was written at least `DELAY` slots after the request.
pub open spec fn seed_recent_enough(pda: RandomNumPda, state: State) -> bool {
    state.seed_slot >= pda.request_slot + DELAY
}

/// The hashed message is the seed's bytes, then the request id's 32 bytes,
/// then the user's 32 bytes, each in its own order.
pub proof fn law_seed_message_layout(seed: Seq<u8>, id: Seq<u8>, user: Seq<u8>)
    ensures
        seed_message(seed, id, user).len() == seed.len() + id.len() + user.len(),
        forall|k: int| 0 <= k < seed.len() ==> #[trigger] seed_message(seed, id, user)[k] == seed[k],
        forall|k: int| 0 <= k < id.len() ==> #[trigger] seed_message(seed, id, user)[seed.len() + k] == id[k],
        forall|k: int| 0 <= k < user.len()
            ==> #[trigger] seed_message(seed, id, user)[seed.len() + id.len() + k] == user[k],
{
}

/// The fetched number is read from the Keccak-256 digest of the seed, the
/// request id and the user laid end to end: for any message `m` that is the
/// seed's bytes followed by the id's and then the user's, the number is the
/// big-endian value of bytes 16 to 31 of the digest of `m`.
pub proof fn law_fetch_number_hashes_seed_id_user(
    before: Fetch,
    after: Fetch,
    id: Pubkey,
    user: Pubkey,
    out: FetchOutcome,
    m: Seq<u8>,
)
    requires
        fetch_effect(before, after, id, user, out),
        m.len() == 74,
        forall|k: int| 0 <= k < 10 ==> #[trigger] m[k] == before.state.latest_seed@[k],
        forall|k: int| 0 <= k < 32 ==> #[trigger] m[10 + k] == id.bytes@[k],
        forall|k: int| 0 <= k < 32 ==> #[trigger] m[42 + k] == user.bytes@[k],
    ensures
        out.random_num == be_value(keccak256(m).subrange(16, 32)),
        out.event.random_num == out.random_num,
        out.event.id == id,
        out.event.user == user,
        after.user_random_num_pda.random_num == out.random_num,
{
    let msg = seed_message(before.state.latest_seed@, id@, user@);
    law_seed_message_layout(before.state.latest_seed@, id@, user@);
    assert forall|k: int| 0 <= k < 74 implies #[trigger] m[k] == msg[k] by {
        if k < 10 {
        } else if k < 42 {
            assert(m[10 + (k - 10)] == id.bytes@[k - 10]);
        } else {
            assert(m[42 + (k - 42)] == user.bytes@[k - 42]);
        }
    }
    assert(m =~= msg);
}

/// Concatenates the seed, the request id and the user into the hashed message.
pub fn build_seed_message(seed: &[u8; 10], id: &Pubkey, user: &Pubkey) -> (res: Vec<u8>)
    ensures
        res@ == seed_message(seed@, id@, user@),
        res@.len() == 74,
        forall|k: int| 0 <= k < 10 ==> #[trigger] res@[k] == seed@[k],
        forall|k: int| 0 <= k < 32 ==> #[trigger] res@[10 + k] == id.bytes@[k],
        forall|k: int| 0 <= k < 32 ==> #[trigger] res@[42 + k] == user.bytes@[k],
{
    proof { law_seed_message_layout(seed@, id@, user@); }
    let mut res: Vec<u8> = Vec::new();
    let mut i: usize = 0;
    while i < 10
        invariant
            i <= 10,
            res@ == seed@.subrange(0, i as int),
        decreases 10 - i,
    {
        res.push(seed[i]);
        i = i + 1;
        assert(res@ =~= seed@.subrange(0, i as int));
    }
    let mut j: usize = 0;
    while j < 32
        invariant
            j <= 32,
            res@ == seed@ + id@.subrange(0, j as int),
        decreases 32 - j,
    {
        res.push(id.bytes[j]);
        j = j + 1;
        assert(res@ =~= seed@ + id@.subrange(0, j as int));
    }
    let mut k: usize = 0;
    while k < 32
        invariant
            k <= 32,
            res@ == seed@ + id@ + user@.subrange(0, k as int),
        decreases 32 - k,
    {
        res.push(user.bytes[k]);
        k = k + 1;
        assert(res@ =~= seed@ + id@ + user@.subrange(0, k as int));
    }
    assert(id@.subrange(0, 32) =~= id@);
    assert(user@.subrange(0, 32) =~= user@);
    res
}

/// Reads the random number out of a 32-byte digest: the big-endian value
/// of its last 16 bytes.
pub fn random_number_from_digest(digest: &[u8; 32]) -> (res: u128)
    ensures
        res == number_of_digest(digest@),
{
    crate::bytes::be_u128_of(digest.as_slice(), 16, 32)
}

/// Derives the random number of a request from the latest seed, the request
/// id and the user.
pub fn derive_random_number(seed: &[u8; 10], id: &Pubkey, user: &Pubkey) -> (res: u128)
    ensures
        res == random_number(seed@, id@, user@),
{
    let message = build_seed_message(seed, id, user);
    let digest = keccak_hash(message.as_slice());
    random_number_from_digest(&digest)
}

/// The error with which a fetch is refused: a number is fetched only once,
/// and only from a seed written at least `DELAY` slots after the request.
pub open spec fn fetch_refusal(ctx: Fetch) -> Option<FetchError> {
    if ctx.user_random_num_pda.retrieved {
        Some(FetchError::NumberAlreadyFetched)
    } else if !seed_recent_enough(ctx.user_random_num_pda, ctx.state) {
        Some(FetchError::SeedNotRecentEnough)
    } else {
        None
    }
}

/// The accounts and the number of a fetch that succeeds.
pub open spec fn fetch_effect(before: Fetch, after: Fetch, id: Pubkey, user: Pubkey, out: FetchOutcome) -> bool {
    let n = out.random_num;
    &&& n == random_number(before.state.latest_seed@, id@, user@)
    &&& out.event == (RandomNumberFetched { random_num: n, user, id })
    &&& after.user_random_num_pda == (RandomNumPda {
        random_num: n,
        locked: false,
        retrieved: true,
        ..before.user_random_num_pda
    })
    &&& after.state == before.state
    &&& after.proxy_signer == before.proxy_signer
}

/// Fetches the random number of a request once a seed at least `DELAY`
/// slots younger than the request exists. The number is stored in the
/// request account, which is unlocked and marked as retrieved, and is
/// announced by a `RandomNumberFetched` event; a number can be fetched only
/// once.
pub fn fetch(ctx: &mut Fetch, id: Pubkey, user: Pubkey) -> (res: Result<FetchOutcome, FetchError>)
    requires
        !old(ctx).user_random_num_pda.retrieved ==> old(ctx).user_random_num_pda.request_slot + DELAY <= u64::MAX,
    ensures
        res is Err <==> fetch_refusal(*old(ctx)) is Some,
        res matches Err(e) ==> fetch_refusal(*old(ctx)) == Some(e) && *final(ctx) == *old(ctx),
        res matches Ok(out) ==> fetch_effect(*old(ctx), *final(ctx), id, user, out),
{
    if ctx.user_random_num_pda.retrieved {
        return Err(FetchError::NumberAlreadyFetched);
    }
    let user_request_slot = ctx.user_random_num_pda.request_slot;
    let seed_slot = ctx.state.seed_slot;
    if seed_slot < user_request_slot + DELAY {
        return Err(FetchError::SeedNotRecentEnough);
    }
    let random_num = derive_random_number(&ctx.state.latest_seed, &id, &user);
    ctx.user_random_num_pda.random_num = random_num;
    ctx.user_random_num_pda.locked = false;
    ctx.user_random_num_pda.retrieved = true;
    Ok(FetchOutcome { random_num, event: RandomNumberFetched { random_num, user, id } })
}

} // verus!
