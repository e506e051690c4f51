use vstd::prelude::*;

verus! {

/// Number of slots that must pass between a request and the crank turn
/// whose seed answers it.
pub const DELAY: u64 = 2;

/// Fee, in lamports, that a request pays to the crank operator.
pub const FEE_LAMPORTS: u64 = 1_000_000;

/// Lamports that cover one transaction signature; a request forwards two of
/// them to the proxy signer that later fetches the number.
pub const SIG_FEE_LAMPORTS: u64 = 5_000;

/// Lamports (0.1 SOL) that the crank operator keeps after a crank turn;
/// everything above goes to the fee wallet.
pub const CRANK_RESERVE_LAMPORTS: u64 = 100_000_000;

/// Address of the Entropy program itself.
pub const PROGRAM_ID: &'static str = "RNGzsvoHhtAfdW7oiAn83pjqVeMDcHtj6XJ24Pq7Z9j";

/// The only signer allowed to initialise the program accounts.
pub const ADMIN: &'static str = "DwMvuciEZKDmvDSmmsp2z4wLesbhsyXHYfFKJLa2mZXL";

/// The designated crank operator, who turns the crank and receives request fees.
pub const CRANK_OPERATOR_WALLET: &'static str = "BqDALtp6c7jJe9AL4cPS1xJ6bdAn1VpZXyKJdYCfv2f3";

/// Wallet that collects the crank operator's surplus lamports.
pub const FEE_WALLET: &'static str = "7cssUDuycvac7w6JEXLbGbnT6VaHoccqbWWjuUK6xCcL";

/// Pyth price accounts whose aggregate prices feed the seed, in seed order.
pub const DOGE_PRICE_ACC: &'static str = "FsSM3s38PX9K7Dn6eGzuE29S2Dsk1Sss1baytTQdCaQj";
pub const BTC_PRICE_ACC: &'static str = "GVXRSBjFk6e6J3NbVPXohDJetcTjaeeuykUpbQF8UoMU";
pub const ETH_PRICE_ACC: &'static str = "JBu1AL4obBcCMqKBBxhpWCNUt136ijcuMZLFvTP7iWdB";
pub const LUNA_PRICE_ACC: &'static str = "5bmWuR1dgP4avtGYMNKLuxumZTVKGgoN2BCMXWDNL9nY";
pub const BNB_PRICE_ACC: &'static str = "4CkQJBxhU8EZ2UjhigbtdaPbpTe6mqf811fipYBFbSYN";
pub const SOL_PRICE_ACC: &'static str = "H6ARHf6YXhGYeQfUzQNGk6rDNnLBQKrenN712K4AQJEG";
pub const SRM_PRICE_ACC: &'static str = "3NBReDRTLKMQEKiLD5tGcx4kXbTf88b7f2xLS9UuGjym";
pub const PAI_PRICE_ACC: &'static str = "3pyn4svBbxJ9Wnn3RVeafyLWfzie6yC5eTig2S62v9SC";
pub const COPE_PRICE_ACC: &'static str = "9xYBiDWYsh2fHzpsz3aaCnNHCKWBNtfEDLtU6kS4aFD9";
pub const AVAX_PRICE_ACC: &'static str = "Ax9ujW5B9oqcv59N8m6f1BpTBq2rGeGaBcpKjC5UYsXU";

/// Number of price feeds that make up a seed.
pub const PRICE_FEEDS: usize = 10;

} // verus!
