//! Addresses and settings that the off-chain clients derive.
use vstd::prelude::*;
use crate::constants::PROGRAM_ID;
use crate::pubkey::{base58_pubkey, parse_pubkey, Pubkey};

verus! {

/// The program derived address, with its bump, that the seeds give under a
/// program id, as found by `solana_program`'s address search; `None` when
/// the search finds no address.
pub uninterp spec fn program_derived_address(seeds: Seq<Seq<u8>>, program_id: Seq<u8>) -> Option<(Seq<u8>, u8)>;

/// The byte views of a list of seeds.
pub open spec fn seed_views(seeds: Seq<Vec<u8>>) -> Seq<Seq<u8>> {
    seeds.map_values(|s: Vec<u8>| s@)
}

/// Calls `Pubkey::try_find_program_address` of `solana_program` (through
/// `anchor_lang`), the non-panicking form of `find_program_address`.
/// Trusted: the result is the program derived address and bump that the
/// seeds and the program id determine, or `None` when the search fails.
#[verifier::external_body]
fn try_find_program_address(seeds: &Vec<Vec<u8>>, program_id: &Pubkey) -> (res: Option<(Pubkey, u8)>)
    ensures
        res is None <==> program_derived_address(seed_views(seeds@), program_id@) is None,
        res matches Some(r) ==> program_derived_address(seed_views(seeds@), program_id@)
            == Some((r.0@, r.1)),
{
    let slices: Vec<&[u8]> = seeds.iter().map(|s| s.as_slice()).collect();
    let id = anchor_lang::prelude::Pubkey::new_from_array(program_id.bytes);
    match anchor_lang::prelude::Pubkey::try_find_program_address(&slices, &id) {
        Some((key, bump)) => Some((Pubkey { bytes: key.to_bytes() }, bump)),
        None => None,
    }
}

/// Seed of the configuration account: the bytes of `"info"`.
pub open spec fn info_seed() -> Seq<u8> {
    seq![0x69u8, 0x6e, 0x66, 0x6f]
}

/// Seed of the seed account: the bytes of `"state"`.
pub open spec fn state_seed() -> Seq<u8> {
    seq![0x73u8, 0x74, 0x61, 0x74, 0x65]
}

/// The address of the account derived from `seeds` under the program id.
pub open spec fn derived_address(seeds: Seq<Seq<u8>>) -> Option<Seq<u8>> {
    match base58_pubkey(PROGRAM_ID@) {
        Some(id) => match program_derived_address(seeds, id) {
            Some(found) => Some(found.0),
            None => None,
        },
        None => None,
    }
}

/// A derived address is the program derived address of the seeds exactly
/// as given, under the parsed program id: whenever the program id parses and
/// the address search over `seeds` finds an address, that is the derived
/// address, and there is none otherwise.
pub proof fn law_derived_address_uses_seeds_as_given(seeds: Seq<Seq<u8>>)
    ensures
        base58_pubkey(PROGRAM_ID@) matches Some(pid) ==> (
            program_derived_address(seeds, pid) matches Some(found)
                ==> derived_address(seeds) == Some(found.0)),
        base58_pubkey(PROGRAM_ID@) matches Some(pid) ==> (
            program_derived_address(seeds, pid) is None ==> derived_address(seeds) is None),
        base58_pubkey(PROGRAM_ID@) is None ==> derived_address(seeds) is None,
        derived_address(seeds) matches Some(k) ==> (base58_pubkey(PROGRAM_ID@) matches Some(pid)
            && program_derived_address(seeds, pid) matches Some(found) && found.0 == k),
{
}

/// The request account's seeds are the request id, the user and the proxy
/// signer, in that order and each as its 32 bytes.
pub proof fn law_request_account_seeds(id: Pubkey, user: Pubkey, proxy_signer: Pubkey, seeds: Seq<Seq<u8>>)
    requires
        seeds == seq![id@, user@, proxy_signer@],
    ensures
        seeds.len() == 3,
        forall|k: int| 0 <= k < 32 ==> #[trigger] seeds[0][k] == id.bytes@[k],
        forall|k: int| 0 <= k < 32 ==> #[trigger] seeds[1][k] == user.bytes@[k],
        forall|k: int| 0 <= k < 32 ==> #[trigger] seeds[2][k] == proxy_signer.bytes@[k],
{
}

/// Finds the address derived from `seeds` under the program id; `None`
/// when the program id or the search fails.
pub fn find_program_account(seeds: &Vec<Vec<u8>>) -> (res: Option<Pubkey>)
    ensures
        res is None <==> derived_address(seed_views(seeds@)) is None,
        res matches Some(k) ==> derived_address(seed_views(seeds@)) == Some(k@),
        res matches Some(k) ==> (base58_pubkey(PROGRAM_ID@) matches Some(pid)
            && program_derived_address(seed_views(seeds@), pid) matches Some(found) && found.0 == k@),
{
    proof { law_derived_address_uses_seeds_as_given(seed_views(seeds@)); }
    let program_id = match parse_pubkey(PROGRAM_ID) {
        Some(id) => id,
        None => return None,
    };
    match try_find_program_address(seeds, &program_id) {
        Some((key, _bump)) => Some(key),
        None => None,
    }
}

/// The seeds of the configuration account.
pub fn info_seeds() -> (res: Vec<Vec<u8>>)
    ensures
        seed_views(res@) == seq![info_seed()],
{
    let res = vec![vec![0x69u8, 0x6e, 0x66, 0x6f]];
    assert(seed_views(res@) =~= seq![info_seed()]);
    res
}

/// The seeds of the seed account.
pub fn state_seeds() -> (res: Vec<Vec<u8>>)
    ensures
        seed_views(res@) == seq![state_seed()],
{
    let res = vec![vec![0x73u8, 0x74, 0x61, 0x74, 0x65]];
    assert(seed_views(res@) =~= seq![state_seed()]);
    res
}

/// The seeds of a request account.
pub fn random_num_pda_seeds(id: Pubkey, user: Pubkey, proxy_signer: Pubkey) -> (res: Vec<Vec<u8>>)
    ensures
        seed_views(res@) == seq![id@, user@, proxy_signer@],
{
    let res = vec![id.to_byte_vec(), user.to_byte_vec(), proxy_signer.to_byte_vec()];
    assert(seed_views(res@) =~= seq![id@, user@, proxy_signer@]);
    res
}

/// Address of the configuration account.
pub fn info_pubkey() -> (res: Pubkey)
    requires
        derived_address(seq![info_seed()]) is Some,
    ensures
        derived_address(seq![info_seed()]) == Some(res@),
{
    match find_program_account(&info_seeds()) {
        Some(k) => k,
        None => {
            proof { assert(false); }
            Pubkey { bytes: [0u8; 32] }
        },
    }
}

/// Address of the seed account.
pub fn state_pubkey() -> (res: Pubkey)
    requires
        derived_address(seq![state_seed()]) is Some,
    ensures
        derived_address(seq![state_seed()]) == Some(res@),
{
    match find_program_account(&state_seeds()) {
        Some(k) => k,
        None => {
            proof { assert(false); }
            Pubkey { bytes: [0u8; 32] }
        },
    }
}

/// Address of the request account of a request id, a user and a proxy signer.
pub fn random_num_pda_pubkey(id: Pubkey, user: Pubkey, proxy_signer: Pubkey) -> (res: Pubkey)
    requires
        derived_address(seq![id@, user@, proxy_signer@]) is Some,
    ensures
        derived_address(seq![id@, user@, proxy_signer@]) == Some(res@),
        base58_pubkey(PROGRAM_ID@) matches Some(pid)
            && program_derived_address(seq![id@, user@, proxy_signer@], pid) matches Some(found)
            && found.0 == res@,
{
    proof { law_derived_address_uses_seeds_as_given(seq![id@, user@, proxy_signer@]); }
    match find_program_account(&random_num_pda_seeds(id, user, proxy_signer)) {
        Some(k) => k,
        None => {
            proof { assert(false); }
            Pubkey { bytes: [0u8; 32] }
        },
    }
}

/// The program accounts that a client addresses for one request.
#[derive(Clone, Copy, Debug)]
pub struct ClientAddresses {
    pub info: Pubkey,
    pub state: Pubkey,
    pub random_num_pda: Pubkey,
}

/// Derives the configuration, seed and request account addresses; `None`
/// when one of them cannot be derived.
pub fn client_addresses(id: Pubkey, user: Pubkey, proxy_signer: Pubkey) -> (res: Option<ClientAddresses>)
    ensures
        res is Some <==> {
            &&& derived_address(seq![info_seed()]) is Some
            &&& derived_address(seq![state_seed()]) is Some
            &&& derived_address(seq![id@, user@, proxy_signer@]) is Some
        },
        res matches Some(a) ==> {
            &&& derived_address(seq![info_seed()]) == Some(a.info@)
            &&& derived_address(seq![state_seed()]) == Some(a.state@)
            &&& derived_address(seq![id@, user@, proxy_signer@]) == Some(a.random_num_pda@)
        },
{
    if find_program_account(&info_seeds()).is_none()
        || find_program_account(&state_seeds()).is_none()
        || find_program_account(&random_num_pda_seeds(id, user, proxy_signer)).is_none() {
        return None;
    }
    Some(ClientAddresses {
        info: info_pubkey(),
        state: state_pubkey(),
        random_num_pda: random_num_pda_pubkey(id, user, proxy_signer),
    })
}

} // verus!
