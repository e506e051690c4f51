use entropy::client::{client_addresses, find_program_account, info_pubkey, random_num_pda_pubkey, state_pubkey};
use entropy::constants::{DELAY, PROGRAM_ID};
use entropy::events::RandomNumRequested;
use entropy::operator::{CrankOperator, OperatorAction, IDLE_SLEEP_MS, LISTEN_ITERATIONS, NOT_DUE_SLEEP_MS, RETRY_SLEEP_MS};
use entropy::opt::{resolve_setting, str_equal, uses_env_fallback, ws_url, Command, Opt};
use entropy::pubkey::{get_pubkey, Pubkey};
use std::str::FromStr;

fn expected_pda(seeds: &[&[u8]]) -> [u8; 32] {
    let id = anchor_lang::prelude::Pubkey::from_str(PROGRAM_ID).unwrap();
    anchor_lang::prelude::Pubkey::find_program_address(seeds, &id).0.to_bytes()
}

#[test]
fn info_and_state_addresses_are_program_derived() {
    let info = info_pubkey();
    assert_eq!(info.bytes, expected_pda(&[b"info"]));
    assert_ne!(info.bytes, get_pubkey(PROGRAM_ID).bytes);
    let state = state_pubkey();
    assert_eq!(state.bytes, expected_pda(&[b"state"]));
    assert_ne!(state.bytes, info.bytes);
}

#[test]
fn request_account_address_depends_on_id_user_and_proxy() {
    let id = Pubkey { bytes: [1; 32] };
    let user = Pubkey { bytes: [2; 32] };
    let proxy = Pubkey { bytes: [3; 32] };
    let pda = random_num_pda_pubkey(id, user, proxy);
    assert_eq!(pda.bytes, expected_pda(&[&[1u8; 32], &[2u8; 32], &[3u8; 32]]));
    let other = random_num_pda_pubkey(id, proxy, user);
    assert_ne!(pda.bytes, other.bytes);
    let all = client_addresses(id, user, proxy).unwrap();
    assert_eq!(all.random_num_pda, pda);
    assert_eq!(all.info, info_pubkey());
    assert_eq!(all.state, state_pubkey());
}

#[test]
fn too_many_or_too_long_seeds_give_no_address() {
    let long_seed = vec![vec![0u8; 33]];
    assert!(find_program_account(&long_seed).is_none());
    let many_seeds: Vec<Vec<u8>> = (0..16).map(|i| vec![i as u8]).collect();
    assert!(find_program_account(&many_seeds).is_none());
}

#[test]
fn ws_url_replaces_http() {
    assert_eq!(ws_url("https://api.devnet.solana.com"), "wss://api.devnet.solana.com");
    assert_eq!(ws_url("http://127.0.0.1:8899"), "ws://127.0.0.1:8899");
    assert_eq!(ws_url("http://httpbin/http"), "ws://wsbin/ws");
    assert_eq!(ws_url("htt"), "htt");
    assert_eq!(ws_url(""), "");
    assert_eq!(ws_url("hhttpp"), "hwsp");
}

#[test]
fn settings_fall_back_to_environment() {
    assert!(str_equal("abc", "abc"));
    assert!(!str_equal("abc", "abd"));
    assert!(!str_equal("abc", "ab"));
    assert!(uses_env_fallback("poop"));
    assert!(!uses_env_fallback("/home/me/id.json"));
    assert_eq!(resolve_setting("poop".to_string(), Some("from-env".to_string())), Some("from-env".to_string()));
    assert_eq!(resolve_setting("poop".to_string(), None), None);
    assert_eq!(resolve_setting("given".to_string(), Some("from-env".to_string())), Some("given".to_string()));
    let opt = Opt { rpc: "poop".to_string(), log_level: "warn".to_string(), keypair: "k".to_string(), cmd: Command::OperateCrank };
    assert!(uses_env_fallback(&opt.rpc));
    assert!(!uses_env_fallback(&opt.keypair));
}

fn event(slot: u64) -> RandomNumRequested {
    RandomNumRequested { request_slot: slot }
}

#[test]
fn operator_idles_without_events() {
    let op = CrankOperator::init();
    assert_eq!(op.last_slot, 0);
    assert!(op.current_event.is_none());
    assert_eq!(op.on_wake(true), OperatorAction::Sleep(IDLE_SLEEP_MS));
    assert_eq!(op.on_wake(false), OperatorAction::Poll);
    assert_eq!(LISTEN_ITERATIONS, 30);
}

#[test]
fn operator_waits_until_event_is_due() {
    let mut op = CrankOperator::init();
    assert_eq!(op.on_poll(100, Some(event(100))), OperatorAction::Sleep(NOT_DUE_SLEEP_MS));
    assert_eq!(op.current_event.unwrap().request_slot, 100);
    assert_eq!(op.on_wake(true), OperatorAction::Poll);
    assert_eq!(op.on_poll(100 + DELAY - 1, None), OperatorAction::Sleep(NOT_DUE_SLEEP_MS));
    assert_eq!(op.on_poll(100 + DELAY, None), OperatorAction::TurnCrank);
}

#[test]
fn operator_retries_failed_crank_and_releases_on_success() {
    let mut op = CrankOperator::init();
    assert_eq!(op.on_poll(500, Some(event(100))), OperatorAction::TurnCrank);
    assert_eq!(op.on_crank_result(500, false), OperatorAction::Sleep(RETRY_SLEEP_MS));
    assert_eq!(op.current_event.unwrap().request_slot, 100);
    assert_eq!(op.last_slot, 0);
    assert_eq!(op.on_poll(501, None), OperatorAction::TurnCrank);
    assert_eq!(op.on_crank_result(501, true), OperatorAction::Continue);
    assert!(op.current_event.is_none());
    assert_eq!(op.last_slot, 501);
    assert!(OperatorAction::Continue.counts_iteration());
    assert!(OperatorAction::Sleep(5).counts_iteration());
}

#[test]
fn operator_drops_stale_events() {
    let mut op = CrankOperator { current_event: None, last_slot: 1000 };
    let action = op.on_poll(1001, Some(event(1000 - DELAY - 1)));
    assert_eq!(action, OperatorAction::DropStale);
    assert!(!action.counts_iteration());
    assert!(op.current_event.is_none());
    assert_eq!(op.on_poll(1001, Some(event(1000 - DELAY))), OperatorAction::TurnCrank);
    assert_eq!(op.current_event.unwrap().request_slot, 1000 - DELAY);
}
