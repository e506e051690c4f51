use vstd::prelude::*;

verus! {

/// A Solana account address: 32 raw bytes.
#[derive(Clone, Copy, Debug, PartialEq, Eq)]
pub struct Pubkey {
    pub bytes: [u8; 32],
}

impl View for Pubkey {
    type V = Seq<u8>;

    open spec fn view(&self) -> Seq<u8> {
        self.bytes@
    }
}

/// What `Pubkey::from_str` of `solana_program` yields for a string: the 32
/// bytes that the base58 text decodes to, or nothing when it is not the
/// base58 text of exactly 32 bytes.
pub uninterp spec fn base58_pubkey(text: Seq<char>) -> Option<Seq<u8>>;

/// Calls `solana_program::pubkey::Pubkey::from_str` (re-exported by
/// `anchor_lang`). Trusted: the result is `Some` exactly when that call
/// succeeds, and then holds the 32 bytes of the parsed key.
#[verifier::external_body]
fn decode_base58_pubkey(text: &str) -> (res: Option<[u8; 32]>)
    ensures
        res matches Some(b) ==> base58_pubkey(text@) == Some(b@),
        res is None <==> base58_pubkey(text@) is None,
{
    match <anchor_lang::prelude::Pubkey as std::str::FromStr>::from_str(text) {
        Ok(key) => Some(key.to_bytes()),
        Err(_) => None,
    }
}

impl Pubkey {
    /// The address bytes as a vector.
    pub fn to_byte_vec(&self) -> (res: Vec<u8>)
        ensures
            res@ == self@,
    {
        let mut res: Vec<u8> = Vec::new();
        let mut i: usize = 0;
        while i < 32
            invariant
                i <= 32,
                self@.len() == 32,
                res@ == self@.subrange(0, i as int),
            decreases 32 - i,
        {
            res.push(self.bytes[i]);
            i = i + 1;
            assert(res@ =~= self@.subrange(0, i as int));
        }
        assert(self@.subrange(0, 32) =~= self@);
        res
    }
}

/// Compares two addresses byte for byte.
pub fn same_pubkey(a: &Pubkey, b: &Pubkey) -> (res: bool)
    ensures
        res <==> a@ == b@,
{
    let mut i: usize = 0;
    while i < 32
        invariant
            i <= 32,
            a@.len() == 32,
            b@.len() == 32,
            forall|j: int| 0 <= j < i ==> a@[j] == b@[j],
        decreases 32 - i,
    {
        if a.bytes[i] != b.bytes[i] {
            return false;
        }
        i = i + 1;
    }
    assert(a@ =~= b@);
    true
}

/// Parses a base58 address; `None` when the text is not a valid address.
pub fn parse_pubkey(address: &str) -> (res: Option<Pubkey>)
    ensures
        res is None <==> base58_pubkey(address@) is None,
        res matches Some(k) ==> base58_pubkey(address@) == Some(k@),
{
    match decode_base58_pubkey(address) {
        Some(bytes) => Some(Pubkey { bytes }),
        None => None,
    }
}

/// Parses an address that is known to be valid (the program's own
/// address constants).
pub fn get_pubkey(address: &str) -> (res: Pubkey)
    requires
        base58_pubkey(address@) is Some,
    ensures
        base58_pubkey(address@) == Some(res@),
{
    match parse_pubkey(address) {
        Some(k) => k,
        None => {
            proof { assert(false); }
            Pubkey { bytes: [0u8; 32] }
        },
    }
}

} // verus!
