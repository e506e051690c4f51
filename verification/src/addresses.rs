use vstd::prelude::*;
use crate::constants::{
    ADMIN, AVAX_PRICE_ACC, BNB_PRICE_ACC, BTC_PRICE_ACC, COPE_PRICE_ACC, CRANK_OPERATOR_WALLET,
    DOGE_PRICE_ACC, ETH_PRICE_ACC, FEE_WALLET, LUNA_PRICE_ACC, PAI_PRICE_ACC, SOL_PRICE_ACC,
    SRM_PRICE_ACC,
};
use crate::pubkey::{base58_pubkey, get_pubkey, parse_pubkey, Pubkey};

verus! {

/// The Pyth price account address constants, in seed order.
pub open spec fn price_account_texts() -> Seq<Seq<char>> {
    seq![
        DOGE_PRICE_ACC@, BTC_PRICE_ACC@, ETH_PRICE_ACC@, LUNA_PRICE_ACC@, BNB_PRICE_ACC@,
        SOL_PRICE_ACC@, SRM_PRICE_ACC@, PAI_PRICE_ACC@, COPE_PRICE_ACC@, AVAX_PRICE_ACC@,
    ]
}

/// Every price account constant is a valid address.
pub open spec fn price_addresses_valid() -> bool {
    forall|i: int| 0 <= i < 10 ==> (#[trigger] base58_pubkey(price_account_texts()[i])) is Some
}

/// Every address constant of the program is a valid address.
pub open spec fn address_constants_valid() -> bool {
    &&& base58_pubkey(ADMIN@) is Some
    &&& base58_pubkey(CRANK_OPERATOR_WALLET@) is Some
    &&& base58_pubkey(FEE_WALLET@) is Some
    &&& price_addresses_valid()
}

/// The program's fixed addresses, parsed.
#[derive(Clone, Copy, Debug)]
pub struct ProgramAddresses {
    pub admin: Pubkey,
    pub crank_operator: Pubkey,
    pub fee_wallet: Pubkey,
    pub price_accounts: [Pubkey; 10],
}

impl ProgramAddresses {
    /// Each address is the parse of the matching constant.
    pub open spec fn parsed_from_constants(&self) -> bool {
        &&& base58_pubkey(ADMIN@) == Some(self.admin@)
        &&& base58_pubkey(CRANK_OPERATOR_WALLET@) == Some(self.crank_operator@)
        &&& base58_pubkey(FEE_WALLET@) == Some(self.fee_wallet@)
        &&& forall|i: int| 0 <= i < 10
            ==> base58_pubkey(#[trigger] price_account_texts()[i]) == Some(self.price_accounts@[i]@)
    }
}

/// The address of the crank operator's wallet.
pub fn crank_operator() -> (res: Pubkey)
    requires
        base58_pubkey(CRANK_OPERATOR_WALLET@) is Some,
    ensures
        base58_pubkey(CRANK_OPERATOR_WALLET@) == Some(res@),
{
    get_pubkey(CRANK_OPERATOR_WALLET)
}

/// The address of the fee wallet.
pub fn fee_wallet() -> (res: Pubkey)
    requires
        base58_pubkey(FEE_WALLET@) is Some,
    ensures
        base58_pubkey(FEE_WALLET@) == Some(res@),
{
    get_pubkey(FEE_WALLET)
}

/// The Pyth price account address constants, in seed order.
pub fn price_account_text_list() -> (res: [&'static str; 10])
    ensures
        forall|i: int| 0 <= i < 10 ==> res@[i]@ == #[trigger] price_account_texts()[i],
        res@[0]@ == DOGE_PRICE_ACC@,
        res@[1]@ == BTC_PRICE_ACC@,
        res@[2]@ == ETH_PRICE_ACC@,
        res@[3]@ == LUNA_PRICE_ACC@,
        res@[4]@ == BNB_PRICE_ACC@,
        res@[5]@ == SOL_PRICE_ACC@,
        res@[6]@ == SRM_PRICE_ACC@,
        res@[7]@ == PAI_PRICE_ACC@,
        res@[8]@ == COPE_PRICE_ACC@,
        res@[9]@ == AVAX_PRICE_ACC@,
{
    [
        DOGE_PRICE_ACC, BTC_PRICE_ACC, ETH_PRICE_ACC, LUNA_PRICE_ACC, BNB_PRICE_ACC,
        SOL_PRICE_ACC, SRM_PRICE_ACC, PAI_PRICE_ACC, COPE_PRICE_ACC, AVAX_PRICE_ACC,
    ]
}

/// The addresses of the ten Pyth price accounts, in seed order.
pub fn pyth() -> (res: [Pubkey; 10])
    requires
        price_addresses_valid(),
    ensures
        forall|i: int| 0 <= i < 10 ==> base58_pubkey(#[trigger] price_account_texts()[i]) == Some(res@[i]@),
        base58_pubkey(DOGE_PRICE_ACC@) == Some(res@[0]@),
        base58_pubkey(BTC_PRICE_ACC@) == Some(res@[1]@),
        base58_pubkey(ETH_PRICE_ACC@) == Some(res@[2]@),
        base58_pubkey(LUNA_PRICE_ACC@) == Some(res@[3]@),
        base58_pubkey(BNB_PRICE_ACC@) == Some(res@[4]@),
        base58_pubkey(SOL_PRICE_ACC@) == Some(res@[5]@),
        base58_pubkey(SRM_PRICE_ACC@) == Some(res@[6]@),
        base58_pubkey(PAI_PRICE_ACC@) == Some(res@[7]@),
        base58_pubkey(COPE_PRICE_ACC@) == Some(res@[8]@),
        base58_pubkey(AVAX_PRICE_ACC@) == Some(res@[9]@),
{
    let texts = price_account_text_list();
    let mut res = [Pubkey { bytes: [0u8; 32] }; 10];
    let mut i: usize = 0;
    while i < 10
        invariant
            i <= 10,
            price_addresses_valid(),
            forall|j: int| 0 <= j < 10 ==> texts@[j]@ == #[trigger] price_account_texts()[j],
            forall|j: int| 0 <= j < i ==> base58_pubkey(#[trigger] price_account_texts()[j]) == Some(res@[j]@),
        decreases 10 - i,
    {
        assert(base58_pubkey(price_account_texts()[i as int]) is Some);
        res[i] = get_pubkey(texts[i]);
        i = i + 1;
    }
    proof { law_price_accounts_in_seed_order(); }
    res
}

/// The price accounts come in seed order: DOGE, BTC, ETH, LUNA, BNB, SOL,
/// SRM, ADA, COPE, AVAX. The `k`-th seed byte, the `k`-th price account of a
/// crank turn and the `k`-th address of `pyth` all belong to the `k`-th of
/// these feeds.
pub proof fn law_price_accounts_in_seed_order()
    ensures
        price_account_texts().len() == 10,
        price_account_texts()[0] == DOGE_PRICE_ACC@,
        price_account_texts()[1] == BTC_PRICE_ACC@,
        price_account_texts()[2] == ETH_PRICE_ACC@,
        price_account_texts()[3] == LUNA_PRICE_ACC@,
        price_account_texts()[4] == BNB_PRICE_ACC@,
        price_account_texts()[5] == SOL_PRICE_ACC@,
        price_account_texts()[6] == SRM_PRICE_ACC@,
        price_account_texts()[7] == PAI_PRICE_ACC@,
        price_account_texts()[8] == COPE_PRICE_ACC@,
        price_account_texts()[9] == AVAX_PRICE_ACC@,
{
}

/// Parsed program addresses hold the price accounts in seed order, each the
/// parse of its named constant.
pub proof fn law_program_addresses_in_seed_order(a: ProgramAddresses)
    requires
        a.parsed_from_constants(),
    ensures
        base58_pubkey(DOGE_PRICE_ACC@) == Some(a.price_accounts@[0]@),
        base58_pubkey(BTC_PRICE_ACC@) == Some(a.price_accounts@[1]@),
        base58_pubkey(ETH_PRICE_ACC@) == Some(a.price_accounts@[2]@),
        base58_pubkey(LUNA_PRICE_ACC@) == Some(a.price_accounts@[3]@),
        base58_pubkey(BNB_PRICE_ACC@) == Some(a.price_accounts@[4]@),
        base58_pubkey(SOL_PRICE_ACC@) == Some(a.price_accounts@[5]@),
        base58_pubkey(SRM_PRICE_ACC@) == Some(a.price_accounts@[6]@),
        base58_pubkey(PAI_PRICE_ACC@) == Some(a.price_accounts@[7]@),
        base58_pubkey(COPE_PRICE_ACC@) == Some(a.price_accounts@[8]@),
        base58_pubkey(AVAX_PRICE_ACC@) == Some(a.price_accounts@[9]@),
{
    law_price_accounts_in_seed_order();
    assert(base58_pubkey(price_account_texts()[0]) == Some(a.price_accounts@[0]@));
    assert(base58_pubkey(price_account_texts()[1]) == Some(a.price_accounts@[1]@));
    assert(base58_pubkey(price_account_texts()[2]) == Some(a.price_accounts@[2]@));
    assert(base58_pubkey(price_account_texts()[3]) == Some(a.price_accounts@[3]@));
    assert(base58_pubkey(price_account_texts()[4]) == Some(a.price_accounts@[4]@));
    assert(base58_pubkey(price_account_texts()[5]) == Some(a.price_accounts@[5]@));
    assert(base58_pubkey(price_account_texts()[6]) == Some(a.price_accounts@[6]@));
    assert(base58_pubkey(price_account_texts()[7]) == Some(a.price_accounts@[7]@));
    assert(base58_pubkey(price_account_texts()[8]) == Some(a.price_accounts@[8]@));
    assert(base58_pubkey(price_account_texts()[9]) == Some(a.price_accounts@[9]@));
}

/// Checks that the price account constants parse, in seed order.
fn price_addresses_parse() -> (res: bool)
    ensures
        res <==> price_addresses_valid(),
{
    let texts = price_account_text_list();
    let mut i: usize = 0;
    while i < 10
        invariant
            i <= 10,
            forall|j: int| 0 <= j < 10 ==> texts@[j]@ == #[trigger] price_account_texts()[j],
            forall|j: int| 0 <= j < i ==> (#[trigger] base58_pubkey(price_account_texts()[j])) is Some,
        decreases 10 - i,
    {
        if parse_pubkey(texts[i]).is_none() {
            return false;
        }
        i = i + 1;
    }
    true
}

/// Parses all of the program's address constants; `None` when one of them
/// is not a valid address.
pub fn program_addresses() -> (res: Option<ProgramAddresses>)
    ensures
        res is Some <==> address_constants_valid(),
        res matches Some(a) ==> a.parsed_from_constants(),
{
    if parse_pubkey(ADMIN).is_none() || parse_pubkey(CRANK_OPERATOR_WALLET).is_none()
        || parse_pubkey(FEE_WALLET).is_none() || !price_addresses_parse() {
        return None;
    }
    Some(ProgramAddresses {
        admin: get_pubkey(ADMIN),
        crank_operator: crank_operator(),
        fee_wallet: fee_wallet(),
        price_accounts: pyth(),
    })
}

} // verus!
