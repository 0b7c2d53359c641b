//! Settlement arithmetic, seed derivation, vault addressing and identity
//! behaviour.

use happybomber_escrow::engine::{create_game, end_game, join_game, start_game};
use happybomber_escrow::errors::EscrowError;
use happybomber_escrow::game::{Game, GameStatus};
use happybomber_escrow::identity::{AccountId, GameId};
use happybomber_escrow::payout::compute_payouts;
use happybomber_escrow::seed::derive_seed;
use happybomber_escrow::vault::{vault_address_seed, Vault};

fn acct(tag: u8) -> AccountId {
    AccountId::new([tag; 32])
}

fn live_game(stake: u64) -> (Game, Vault) {
    let (mut game, mut vault, _) = create_game(GameId::new([1; 8]), acct(9), stake, 77, 3);
    for tag in 1..=5u8 {
        join_game(&mut game, &mut vault, acct(tag)).unwrap();
    }
    start_game(&mut game, 42, 99).unwrap();
    (game, vault)
}

#[test]
fn payouts_for_stake_1000() {
    let (total, fee, payout) = compute_payouts(1000);
    assert_eq!(total, 5000);
    assert_eq!(fee, 250);
    assert_eq!(payout, 4750);
    assert_eq!(fee + payout, total);
}

#[test]
fn payouts_for_stake_19_round_the_fee_down() {
    let (total, fee, payout) = compute_payouts(19);
    assert_eq!(total, 95);
    assert_eq!(fee, 4);
    assert_eq!(payout, 91);
    assert_eq!(fee + payout, total);
}

#[test]
fn payouts_for_the_smallest_stake_have_no_fee() {
    let (total, fee, payout) = compute_payouts(1);
    assert_eq!(total, 5);
    assert_eq!(fee, 0);
    assert_eq!(payout, 5);
}

#[test]
fn payouts_for_the_largest_stake_do_not_overflow() {
    let stake = u64::MAX / 5;
    let (total, fee, payout) = compute_payouts(stake);
    assert_eq!(total, u64::MAX);
    assert_eq!(fee, u64::MAX / 20);
    assert_eq!(payout, u64::MAX - u64::MAX / 20);
    assert_eq!(fee + payout, total);
}

#[test]
fn lifecycle_at_the_largest_stake_drains_the_vault_exactly() {
    let (mut game, mut vault) = live_game(u64::MAX / 5);
    assert_eq!(vault.balance, u64::MAX);
    let ev = end_game(&mut game, &mut vault, 4).unwrap();
    assert_eq!(ev.winner_payout + ev.house_fee, u64::MAX);
    assert_eq!(vault.balance, 0);
}

#[test]
fn end_pays_winner_and_house_and_drains_the_vault() {
    let (mut game, mut vault) = live_game(1000);
    let ev = end_game(&mut game, &mut vault, 1).unwrap();
    assert_eq!(ev.winner, acct(2));
    assert_eq!(ev.winner_payout, 4750);
    assert_eq!(ev.house_fee, 250);
    assert_eq!(vault.balance, 0);
    assert_eq!(game.status, GameStatus::Finished);
    assert_eq!(game.winner, Some(acct(2)));
}

#[test]
fn end_with_winner_index_out_of_range_is_invalid_winner() {
    let (mut game, mut vault) = live_game(1000);
    let r = end_game(&mut game, &mut vault, 5);
    assert_eq!(r.err(), Some(EscrowError::InvalidWinner));
    assert_eq!(game.status, GameStatus::Live);
    assert_eq!(vault.balance, 5000);
}

#[test]
fn end_before_start_is_game_not_live() {
    let (mut game, mut vault, _) = create_game(GameId::new([1; 8]), acct(9), 1000, 77, 3);
    let r = end_game(&mut game, &mut vault, 0);
    assert_eq!(r.err(), Some(EscrowError::GameNotLive));
}

#[test]
fn end_twice_is_game_not_live() {
    let (mut game, mut vault) = live_game(1000);
    end_game(&mut game, &mut vault, 0).unwrap();
    let r = end_game(&mut game, &mut vault, 0);
    assert_eq!(r.err(), Some(EscrowError::GameNotLive));
    assert_eq!(game.status, GameStatus::Finished);
    assert_eq!(vault.balance, 0);
}

#[test]
fn full_scenario_stake_100_winner_index_2() {
    let (mut game, mut vault, _) = create_game(GameId::new([1, 0, 0, 0, 0, 0, 0, 0]), acct(9), 100, 7, 3);
    for tag in [11u8, 12, 13, 14, 15] {
        join_game(&mut game, &mut vault, acct(tag)).unwrap();
    }
    assert_eq!(vault.balance, 500);
    start_game(&mut game, 42, 99).unwrap();
    let ev = end_game(&mut game, &mut vault, 2).unwrap();
    assert_eq!(ev.winner_payout, 475);
    assert_eq!(ev.house_fee, 25);
    assert_eq!(game.status, GameStatus::Finished);
    assert_eq!(game.winner, Some(acct(13)));
    assert_eq!(ev.winner, game.players[2]);
    assert_eq!(vault.balance, 0);
}

#[test]
fn seed_packs_game_id_slot_and_time_little_endian() {
    let seed = derive_seed(&[1, 2, 3, 4, 5, 6, 7, 8], 0x1122334455667788, 0x0102030405060708);
    assert_eq!(&seed[0..8], &[1, 2, 3, 4, 5, 6, 7, 8]);
    assert_eq!(&seed[8..16], &[0x88, 0x77, 0x66, 0x55, 0x44, 0x33, 0x22, 0x11]);
    assert_eq!(&seed[16..24], &[0x08, 0x07, 0x06, 0x05, 0x04, 0x03, 0x02, 0x01]);
    assert_eq!(&seed[24..32], &[0u8; 8]);
}

#[test]
fn seed_is_nonzero_even_for_all_zero_inputs() {
    let seed = derive_seed(&[0u8; 8], 0, 0);
    assert_ne!(seed, [0u8; 32]);
    assert_eq!(seed[31], 1);
    assert_eq!(&seed[0..31], &[0u8; 31]);
}

#[test]
fn vault_address_seed_is_tag_then_game_id() {
    let preimage = vault_address_seed(&[9, 8, 7, 6, 5, 4, 3, 2]);
    assert_eq!(preimage, vec![118, 97, 117, 108, 116, 9, 8, 7, 6, 5, 4, 3, 2]);
}

#[test]
fn account_identity_equality_and_placeholder() {
    let a = AccountId::new([5; 32]);
    let b = AccountId::new([5; 32]);
    let c = AccountId::new([6; 32]);
    assert!(a == b);
    assert!(a != c);
    assert!(!a.is_placeholder());
    assert!(AccountId::placeholder().is_placeholder());
    assert_eq!(AccountId::placeholder().to_bytes(), [0u8; 32]);
    assert_eq!(a.to_bytes(), [5u8; 32]);
    let g = GameId::new([1, 2, 3, 4, 5, 6, 7, 8]);
    assert_eq!(g.to_bytes(), [1, 2, 3, 4, 5, 6, 7, 8]);
    assert!(g == GameId::new([1, 2, 3, 4, 5, 6, 7, 8]));
    assert!(g != GameId::new([8, 7, 6, 5, 4, 3, 2, 1]));
}
