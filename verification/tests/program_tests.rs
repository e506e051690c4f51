use entropy::constants::{CRANK_RESERVE_LAMPORTS, DELAY, FEE_LAMPORTS, SIG_FEE_LAMPORTS, PROGRAM_ID, ADMIN, CRANK_OPERATOR_WALLET, FEE_WALLET, SOL_PRICE_ACC};
use entropy::crank::{self, aggregate_price, calc_seed, Crank, CrankError, PriceAccount};
use entropy::entropy::{self as program, EntropyError};
use entropy::fetch::{self, build_seed_message, derive_random_number, random_number_from_digest, Fetch, FetchError};
use entropy::init::{self, Info, Initialize, State, INFO_LEN, STATE_LEN};
use entropy::pubkey::{get_pubkey, parse_pubkey, same_pubkey, Pubkey};
use entropy::request::{self, RandomNumPda, Request, RequestError, RANDOM_NUM_PDA_LEN};
use entropy::addresses::{crank_operator, fee_wallet, program_addresses, pyth};

const PROGRAM_ID_BYTES: [u8; 32] = [
    6, 61, 254, 254, 126, 33, 181, 58, 138, 153, 119, 143, 133, 222, 38, 236, 220, 157, 250, 65,
    249, 107, 158, 65, 151, 97, 150, 115, 120, 164, 96, 106,
];

fn key(b: u8) -> Pubkey {
    Pubkey { bytes: [b; 32] }
}

fn empty_state() -> State {
    State { bump: 0, request_slot: 0, latest_seed: [0; 10], seed_slot: 0 }
}

/// A seed account with a request recorded at slot 50, after the seed of slot 7.
fn pending_state() -> State {
    State { bump: 0, request_slot: 50, latest_seed: [0; 10], seed_slot: 7 }
}

fn empty_info() -> Info {
    Info {
        bump: 0,
        admin: key(0),
        crank_operator: key(0),
        fee_lamports: 0,
        delay: 0,
        initialised: false,
    }
}

fn pyth_account(price: i64) -> Vec<u8> {
    let mut data = vec![0u8; 3312];
    data[0..4].copy_from_slice(&0xa1b2c3d4u32.to_le_bytes());
    data[4..8].copy_from_slice(&2u32.to_le_bytes());
    data[8..12].copy_from_slice(&3u32.to_le_bytes());
    data[208..216].copy_from_slice(&price.to_le_bytes());
    data
}

fn price_data(prices: [i64; 10]) -> [Vec<u8>; 10] {
    std::array::from_fn(|i| pyth_account(prices[i]))
}

fn crank_ctx(data: &[Vec<u8>; 10], lamports: u64, state: State) -> Crank<'_> {
    let keys = pyth();
    Crank {
        crank_operator: crank_operator(),
        crank_operator_lamports: lamports,
        fee_wallet: fee_wallet(),
        state,
        price_accounts: std::array::from_fn(|i| PriceAccount { key: keys[i], data: data[i].as_slice() }),
    }
}

#[test]
fn parse_pubkey_decodes_base58() {
    let k = parse_pubkey(PROGRAM_ID).unwrap();
    assert_eq!(k.bytes, PROGRAM_ID_BYTES);
    assert_eq!(get_pubkey(PROGRAM_ID).bytes, PROGRAM_ID_BYTES);
    assert_eq!(parse_pubkey("11111111111111111111111111111111").unwrap().bytes, [0u8; 32]);
}

#[test]
fn parse_pubkey_rejects_invalid_text() {
    assert!(parse_pubkey("0OIl").is_none());
    assert!(parse_pubkey("").is_none());
    assert!(parse_pubkey("abc").is_none());
    assert!(parse_pubkey("RNGzsvoHhtAfdW7oiAn83pjqVeMDcHtj6XJ24Pq7Z9jRNGzsvoHhtAfdW7oiAn83pjqVeMDcHtj6XJ24Pq7Z9j").is_none());
}

#[test]
fn same_pubkey_compares_bytes() {
    assert!(same_pubkey(&key(3), &key(3)));
    let mut other = key(3);
    other.bytes[31] = 4;
    assert!(!same_pubkey(&key(3), &other));
}

#[test]
fn address_constants_parse() {
    let a = program_addresses().unwrap();
    assert_eq!(a.admin, get_pubkey(ADMIN));
    assert_eq!(a.crank_operator, get_pubkey(CRANK_OPERATOR_WALLET));
    assert_eq!(a.fee_wallet, get_pubkey(FEE_WALLET));
    assert_eq!(a.price_accounts[5], get_pubkey(SOL_PRICE_ACC));
    assert_eq!(a.price_accounts, pyth());
}

#[test]
fn account_sizes() {
    assert_eq!(INFO_LEN, 90);
    assert_eq!(STATE_LEN, 35);
    assert_eq!(RANDOM_NUM_PDA_LEN, 35);
}

#[test]
fn calc_seed_takes_low_bytes() {
    let prices = [1, -1, 256, 255, 0x1234, i64::MIN, i64::MAX, -256, 511, 0];
    assert_eq!(calc_seed(prices), [1, 255, 0, 255, 0x34, 0, 255, 0, 255, 0]);
}

#[test]
fn random_number_reads_last_sixteen_bytes_big_endian() {
    let mut digest = [0u8; 32];
    for i in 0..32 {
        digest[i] = i as u8;
    }
    assert_eq!(random_number_from_digest(&digest), 21356283574076891493948969979685445151u128);
    let mut high = [0u8; 32];
    high[16] = 0x80;
    assert_eq!(random_number_from_digest(&high), 1u128 << 127);
    let mut low = [0xffu8; 32];
    low[31] = 1;
    for i in 16..31 {
        low[i] = 0;
    }
    assert_eq!(random_number_from_digest(&low), 1);
}

#[test]
fn seed_message_concatenates() {
    let seed = [1, 2, 3, 4, 5, 6, 7, 8, 9, 10];
    let msg = build_seed_message(&seed, &key(7), &key(9));
    assert_eq!(msg.len(), 74);
    assert_eq!(&msg[0..10], &seed);
    assert_eq!(&msg[10..42], &[7u8; 32]);
    assert_eq!(&msg[42..74], &[9u8; 32]);
}

#[test]
fn random_number_is_keccak_of_seed_id_user() {
    let seed = [1, 2, 3, 4, 5, 6, 7, 8, 9, 10];
    assert_eq!(derive_random_number(&seed, &key(7), &key(9)), 288095453520763692130705241599559055372u128);
    assert_eq!(derive_random_number(&[0; 10], &key(0), &key(0)), 141161194209153525700718565896410519407u128);
}

#[test]
fn aggregate_price_reads_pyth_record() {
    assert_eq!(aggregate_price(&pyth_account(12345)), Some(12345));
    assert_eq!(aggregate_price(&pyth_account(-7)), Some(-7));
    let mut longer = pyth_account(42);
    longer.extend_from_slice(&[1, 2, 3]);
    assert_eq!(aggregate_price(&longer), Some(42));
}

#[test]
fn aggregate_price_reads_only_the_aggregate_field() {
    assert_eq!(std::mem::size_of::<pyth_client::Price>(), 3312);
    let mut data = pyth_account(77);
    data[184..192].copy_from_slice(&5i64.to_le_bytes());
    data[216..224].copy_from_slice(&6u64.to_le_bytes());
    data[200..208].copy_from_slice(&8i64.to_le_bytes());
    assert_eq!(aggregate_price(&data), Some(77));
    let mut negative = pyth_account(0);
    negative[208..216].copy_from_slice(&[0xff; 8]);
    assert_eq!(aggregate_price(&negative), Some(-1));
}

#[test]
fn aggregate_price_accepts_unaligned_data() {
    let record = pyth_account(99);
    let mut buf = vec![0u8; record.len() + 3];
    for offset in 1..4 {
        buf[offset..offset + record.len()].copy_from_slice(&record);
        assert_eq!(aggregate_price(&buf[offset..offset + record.len()]), Some(99));
        assert_eq!(aggregate_price(&buf[offset..]), Some(99));
    }
}

#[test]
fn aggregate_price_rejects_other_data() {
    let short = pyth_account(1)[..3311].to_vec();
    assert_eq!(aggregate_price(&short), None);
    let mut bad_magic = pyth_account(1);
    bad_magic[0] = 0;
    assert_eq!(aggregate_price(&bad_magic), None);
    let mut bad_version = pyth_account(1);
    bad_version[4] = 1;
    assert_eq!(aggregate_price(&bad_version), None);
    let mut bad_type = pyth_account(1);
    bad_type[8] = 2;
    assert_eq!(aggregate_price(&bad_type), None);
}

#[test]
fn info_init_writes_configuration() {
    let mut info = empty_info();
    info.init(254);
    assert_eq!(info.bump, 254);
    assert_eq!(info.admin, get_pubkey(ADMIN));
    assert_eq!(info.crank_operator, get_pubkey(CRANK_OPERATOR_WALLET));
    assert_eq!(info.fee_lamports, FEE_LAMPORTS);
    assert_eq!(info.delay, DELAY);
    assert!(info.initialised);
}

#[test]
fn init_sets_state_bump_only_the_first_time() {
    let mut ctx = Initialize { initializer: get_pubkey(ADMIN), info: empty_info(), state: empty_state() };
    init::init(&mut ctx, 250, 251);
    assert_eq!(ctx.state.bump, 251);
    assert_eq!(ctx.info.bump, 250);
    init::init(&mut ctx, 250, 17);
    assert_eq!(ctx.state.bump, 251);
    assert_eq!(ctx.info.bump, 250);
}

#[test]
fn request_locks_account_and_plans_fees() {
    let mut ctx = Request {
        user: key(1),
        user_random_num_pda: RandomNumPda { bump: 0, request_slot: 0, random_num: 5, retrieved: true, locked: false },
        proxy_signer: key(2),
        state: empty_state(),
        crank_operator: crank_operator(),
    };
    let out = request::request(&mut ctx, key(3), 200, 1000).unwrap();
    assert_eq!(ctx.user_random_num_pda.bump, 200);
    assert_eq!(ctx.user_random_num_pda.request_slot, 1000);
    assert_eq!(ctx.user_random_num_pda.random_num, 0);
    assert!(!ctx.user_random_num_pda.retrieved);
    assert!(ctx.user_random_num_pda.locked);
    assert_eq!(out.fee.from, key(1));
    assert_eq!(out.fee.to, crank_operator());
    assert_eq!(out.fee.lamports, FEE_LAMPORTS);
    assert_eq!(out.signature_fee.from, key(1));
    assert_eq!(out.signature_fee.to, key(2));
    assert_eq!(out.signature_fee.lamports, 2 * SIG_FEE_LAMPORTS);
    assert_eq!(out.fee_paid.amount, FEE_LAMPORTS);
    assert_eq!(out.fee_paid.id, key(3));
    assert_eq!(out.requested.request_slot, 1000);
    assert_eq!(ctx.state.request_slot, 1000);
    assert_eq!(ctx.state.seed_slot, 0);
}

#[test]
fn request_refused_while_locked() {
    let pda = RandomNumPda { bump: 9, request_slot: 10, random_num: 0, retrieved: false, locked: true };
    let mut ctx = Request { user: key(1), user_random_num_pda: pda, proxy_signer: key(2), state: empty_state(), crank_operator: key(4) };
    assert_eq!(request::request(&mut ctx, key(3), 200, 1000).unwrap_err(), RequestError::RandomNumPdaLocked);
    assert_eq!(ctx.user_random_num_pda.request_slot, 10);
    assert_eq!(ctx.user_random_num_pda.bump, 9);
}

fn fetch_ctx(request_slot: u64, seed_slot: u64, retrieved: bool) -> Fetch {
    Fetch {
        proxy_signer: key(2),
        user_random_num_pda: RandomNumPda { bump: 1, request_slot, random_num: 0, retrieved, locked: !retrieved },
        state: State { bump: 3, request_slot: 0, latest_seed: [1, 2, 3, 4, 5, 6, 7, 8, 9, 10], seed_slot },
    }
}

#[test]
fn fetch_returns_and_stores_number() {
    let mut ctx = fetch_ctx(100, 100 + DELAY, false);
    let out = fetch::fetch(&mut ctx, key(7), key(9)).unwrap();
    let n = out.random_num;
    assert_eq!(n, 288095453520763692130705241599559055372u128);
    assert_eq!(out.event.random_num, n);
    assert_eq!(out.event.id, key(7));
    assert_eq!(out.event.user, key(9));
    assert_eq!(ctx.user_random_num_pda.random_num, n);
    assert!(ctx.user_random_num_pda.retrieved);
    assert!(!ctx.user_random_num_pda.locked);
    assert_eq!(ctx.user_random_num_pda.request_slot, 100);
    assert_eq!(ctx.user_random_num_pda.bump, 1);
}

#[test]
fn fetch_refused_when_seed_too_old() {
    let mut ctx = fetch_ctx(100, 100 + DELAY - 1, false);
    assert_eq!(fetch::fetch(&mut ctx, key(7), key(9)).unwrap_err(), FetchError::SeedNotRecentEnough);
    assert!(ctx.user_random_num_pda.locked);
    assert!(!ctx.user_random_num_pda.retrieved);
}

#[test]
fn fetch_refused_when_already_fetched() {
    let mut ctx = fetch_ctx(100, 1000, true);
    assert_eq!(fetch::fetch(&mut ctx, key(7), key(9)).unwrap_err(), FetchError::NumberAlreadyFetched);
}

#[test]
fn turn_crank_refused_before_delay() {
    let data1 = price_data([1; 10]);
    let mut ctx = crank_ctx(&data1, 0, pending_state());
    assert_eq!(crank::turn_crank(&mut ctx, 50 + DELAY - 1).unwrap_err(), CrankError::DelayTooSmall);
    assert_eq!(ctx.state.seed_slot, 7);
    assert_eq!(ctx.state.latest_seed, [0; 10]);
}

#[test]
fn turn_crank_refused_without_request() {
    let data = price_data([1; 10]);
    let mut ctx = crank_ctx(&data, 0, empty_state());
    assert_eq!(crank::turn_crank(&mut ctx, 1000).unwrap_err(), CrankError::RequestNotMade);
    let mut ctx = crank_ctx(&data, 0, State { request_slot: 6, ..pending_state() });
    assert_eq!(crank::turn_crank(&mut ctx, 1000).unwrap_err(), CrankError::RequestNotMade);
    let mut ctx = crank_ctx(&data, 0, State { request_slot: 7, ..pending_state() });
    assert!(crank::turn_crank(&mut ctx, 1000).is_ok());
    assert_eq!(crank::turn_crank(&mut ctx, 2000).unwrap_err(), CrankError::RequestNotMade);
}

#[test]
fn turn_crank_writes_seed_and_sweeps_surplus() {
    let prices = [100, 2_000_001, -3, 0x7f, 0x180, 9, 10, 11, 12, -1];
    let state = State { bump: 4, request_slot: 50, latest_seed: [9; 10], seed_slot: 7 };
    let data2 = price_data(prices);
    let mut ctx = crank_ctx(&data2, 150_000_000, state);
    let out = crank::turn_crank(&mut ctx, 50 + DELAY).unwrap();
    let seed = [100, 0x81, 253, 0x7f, 0x80, 9, 10, 11, 12, 255];
    assert_eq!(ctx.state.latest_seed, seed);
    assert_eq!(ctx.state.seed_slot, 50 + DELAY);
    assert_eq!(ctx.state.bump, 4);
    assert_eq!(ctx.state.request_slot, 50);
    let sweep = out.fee_sweep.unwrap();
    assert_eq!(sweep.lamports, 50_000_000);
    assert_eq!(sweep.from, crank_operator());
    assert_eq!(sweep.to, fee_wallet());
    assert_eq!(out.event.slot, 50 + DELAY);
    assert_eq!(out.event.seed, seed);
}

#[test]
fn turn_crank_keeps_balance_at_or_below_reserve() {
    assert_eq!(CRANK_RESERVE_LAMPORTS, 100_000_000);
    let data3 = price_data([5; 10]);
    let mut ctx = crank_ctx(&data3, 100_000_000, pending_state());
    let out = crank::turn_crank(&mut ctx, 1000).unwrap();
    assert!(out.fee_sweep.is_none());
    let mut ctx = crank_ctx(&data3, 3, pending_state());
    assert!(crank::turn_crank(&mut ctx, 1000).unwrap().fee_sweep.is_none());
    let mut ctx = crank_ctx(&data3, 100_000_001, pending_state());
    assert_eq!(crank::turn_crank(&mut ctx, 1000).unwrap().fee_sweep.unwrap().lamports, 1);
}

#[test]
fn initialize_checks_admin() {
    let mut ctx = Initialize { initializer: key(8), info: empty_info(), state: empty_state() };
    assert_eq!(program::initialize(&mut ctx, 1, 2), Err(EntropyError::ConstraintAddress));
    assert!(!ctx.info.initialised);
    let mut ctx = Initialize { initializer: get_pubkey(ADMIN), info: empty_info(), state: empty_state() };
    assert_eq!(program::initialize(&mut ctx, 1, 2), Ok(()));
    assert!(ctx.info.initialised);
    assert_eq!(ctx.state.bump, 2);
}

#[test]
fn request_instruction_checks_crank_operator() {
    let pda = RandomNumPda { bump: 0, request_slot: 0, random_num: 0, retrieved: false, locked: false };
    let mut ctx = Request { user: key(1), user_random_num_pda: pda, proxy_signer: key(2), state: empty_state(), crank_operator: key(4) };
    assert!(matches!(program::request(&mut ctx, key(3), 1, 10), Err(EntropyError::ConstraintAddress)));
    assert!(!ctx.user_random_num_pda.locked);
    ctx.crank_operator = crank_operator();
    assert!(program::request(&mut ctx, key(3), 1, 10).is_ok());
    assert!(matches!(
        program::request(&mut ctx, key(3), 1, 11),
        Err(EntropyError::Request(RequestError::RandomNumPdaLocked))
    ));
}

#[test]
fn turn_crank_instruction_checks_accounts() {
    let data = price_data([1; 10]);
    let mut ctx = crank_ctx(&data, 0, pending_state());
    ctx.fee_wallet = key(5);
    assert!(matches!(program::turn_crank(&mut ctx, 100), Err(EntropyError::ConstraintAddress)));
    let mut ctx = crank_ctx(&data, 0, pending_state());
    ctx.price_accounts[9].key = key(5);
    assert!(matches!(program::turn_crank(&mut ctx, 100), Err(EntropyError::ConstraintAddress)));
    let mut ctx = crank_ctx(&data, 0, State { request_slot: 100, ..pending_state() });
    assert!(matches!(
        program::turn_crank(&mut ctx, 100),
        Err(EntropyError::Crank(CrankError::DelayTooSmall))
    ));
    let mut ctx = crank_ctx(&data, 0, empty_state());
    assert!(matches!(
        program::turn_crank(&mut ctx, 100),
        Err(EntropyError::Crank(CrankError::RequestNotMade))
    ));
    let mut ctx = crank_ctx(&data, 0, pending_state());
    assert!(program::turn_crank(&mut ctx, 100).is_ok());
    assert_eq!(ctx.state.latest_seed, [1; 10]);
}

#[test]
fn fetch_instruction_maps_errors() {
    let mut ctx = fetch_ctx(100, 1000, true);
    assert!(matches!(program::fetch(&mut ctx, key(7), key(9)), Err(EntropyError::Fetch(FetchError::NumberAlreadyFetched))));
    let mut ctx = fetch_ctx(100, 100, false);
    assert!(matches!(program::fetch(&mut ctx, key(7), key(9)), Err(EntropyError::Fetch(FetchError::SeedNotRecentEnough))));
    let mut ctx = fetch_ctx(100, 200, false);
    assert_eq!(program::fetch(&mut ctx, key(7), key(9)).unwrap().random_num, 288095453520763692130705241599559055372u128);
}

#[test]
fn request_crank_fetch_cycle() {
    let admin = get_pubkey(ADMIN);
    let mut init_ctx = Initialize { initializer: admin, info: empty_info(), state: empty_state() };
    program::initialize(&mut init_ctx, 1, 2).unwrap();

    let data = price_data([1, 2, 3, 4, 5, 6, 7, 8, 9, 10]);
    let mut crank_ctx = crank_ctx(&data, 0, init_ctx.state);
    assert!(matches!(
        program::turn_crank(&mut crank_ctx, 400),
        Err(EntropyError::Crank(CrankError::RequestNotMade))
    ));

    let pda = RandomNumPda { bump: 0, request_slot: 0, random_num: 0, retrieved: false, locked: false };
    let mut req = Request { user: key(1), user_random_num_pda: pda, proxy_signer: key(2), state: init_ctx.state, crank_operator: crank_operator() };
    program::request(&mut req, key(3), 5, 500).unwrap();
    assert_eq!(req.state.request_slot, 500);

    crank_ctx.state = req.state;
    assert!(matches!(
        program::turn_crank(&mut crank_ctx, 500 + DELAY - 1),
        Err(EntropyError::Crank(CrankError::DelayTooSmall))
    ));
    let mut fetch_ctx = Fetch { proxy_signer: key(2), user_random_num_pda: req.user_random_num_pda, state: crank_ctx.state };
    assert!(matches!(program::fetch(&mut fetch_ctx, key(3), key(1)), Err(EntropyError::Fetch(FetchError::SeedNotRecentEnough))));

    program::turn_crank(&mut crank_ctx, 500 + DELAY).unwrap();
    assert!(matches!(
        program::turn_crank(&mut crank_ctx, 600),
        Err(EntropyError::Crank(CrankError::RequestNotMade))
    ));
    let mut fetch_ctx = Fetch { proxy_signer: key(2), user_random_num_pda: req.user_random_num_pda, state: crank_ctx.state };
    let n = program::fetch(&mut fetch_ctx, key(3), key(1)).unwrap().random_num;
    assert_eq!(n, derive_random_number(&[1, 2, 3, 4, 5, 6, 7, 8, 9, 10], &key(3), &key(1)));
    assert!(matches!(program::fetch(&mut fetch_ctx, key(3), key(1)), Err(EntropyError::Fetch(FetchError::NumberAlreadyFetched))));

    req.user_random_num_pda = fetch_ctx.user_random_num_pda;
    req.state = crank_ctx.state;
    assert!(program::request(&mut req, key(3), 5, 900).is_ok());
    crank_ctx.state = req.state;
    assert!(program::turn_crank(&mut crank_ctx, 900 + DELAY).is_ok());
}
