//! Lifecycle tests: creating, joining, starting, cancelling and refunding.

use happybomber_escrow::engine::{
    cancel_game, create_game, end_game, join_game, refund_player, start_game,
};
use happybomber_escrow::errors::EscrowError;
use happybomber_escrow::game::{Game, GameStatus};
use happybomber_escrow::identity::{AccountId, GameId};
use happybomber_escrow::vault::Vault;

fn acct(tag: u8) -> AccountId {
    AccountId::new([tag; 32])
}

fn gid(tag: u8) -> GameId {
    GameId::new([tag; 8])
}

fn fresh_game(stake: u64) -> (Game, Vault) {
    let (game, vault, _) = create_game(gid(1), acct(9), stake, 77, 3);
    (game, vault)
}

fn joined_game(stake: u64, players: u8) -> (Game, Vault) {
    let (mut game, mut vault) = fresh_game(stake);
    for tag in 1..=players {
        join_game(&mut game, &mut vault, acct(tag)).unwrap();
    }
    (game, vault)
}

#[test]
fn create_sets_waiting_empty_record() {
    let (game, vault, ev) = create_game(gid(7), acct(9), 1000, 77, 3);
    assert_eq!(game.status, GameStatus::Waiting);
    assert_eq!(game.player_count, 0);
    assert_eq!(game.stake_amount, 1000);
    assert_eq!(game.creator, acct(9));
    assert_eq!(game.game_id, gid(7));
    assert_eq!(game.seed, [0u8; 32]);
    assert!(game.winner.is_none());
    assert_eq!(game.created_at, 77);
    assert!(game.started_at.is_none());
    assert_eq!(game.bump, 3);
    assert_eq!(vault.balance, 0);
    assert_eq!(ev.game_id, gid(7));
    assert_eq!(ev.creator, acct(9));
    assert_eq!(ev.stake_amount, 1000);
}

#[test]
fn five_distinct_joins_succeed_then_sixth_is_game_full() {
    let (mut game, mut vault) = fresh_game(1000);
    for tag in 1..=5u8 {
        let ev = join_game(&mut game, &mut vault, acct(tag)).unwrap();
        assert_eq!(ev.player, acct(tag));
        assert_eq!(ev.player_count, tag);
    }
    assert_eq!(game.player_count, 5);
    assert_eq!(vault.balance, 5000);
    let r = join_game(&mut game, &mut vault, acct(6));
    assert_eq!(r.err(), Some(EscrowError::GameFull));
    assert_eq!(game.player_count, 5);
    assert_eq!(vault.balance, 5000);
}

#[test]
fn joins_succeed_in_any_order_of_distinct_callers() {
    let (mut game, mut vault) = fresh_game(250);
    for tag in [5u8, 2, 4, 1, 3] {
        assert!(join_game(&mut game, &mut vault, acct(tag)).is_ok());
    }
    assert_eq!(game.player_count, 5);
    assert_eq!(vault.balance, 1250);
    assert_eq!(game.players[0], acct(5));
    assert_eq!(game.players[3], acct(1));
}

#[test]
fn rejoining_fails_with_already_joined() {
    let (mut game, mut vault) = joined_game(1000, 2);
    let r = join_game(&mut game, &mut vault, acct(1));
    assert_eq!(r.err(), Some(EscrowError::AlreadyJoined));
    assert_eq!(game.player_count, 2);
    assert_eq!(vault.balance, 2000);
}

#[test]
fn rejoining_a_full_game_still_fails_with_already_joined() {
    let (mut game, mut vault) = joined_game(1000, 5);
    let r = join_game(&mut game, &mut vault, acct(3));
    assert_eq!(r.err(), Some(EscrowError::AlreadyJoined));
}

#[test]
fn join_after_start_fails_with_game_not_waiting() {
    let (mut game, mut vault) = joined_game(1000, 5);
    start_game(&mut game, 42, 99).unwrap();
    let r = join_game(&mut game, &mut vault, acct(6));
    assert_eq!(r.err(), Some(EscrowError::GameNotWaiting));
}

#[test]
fn start_needs_five_players() {
    let (mut game, _) = joined_game(1000, 4);
    let r = start_game(&mut game, 42, 99);
    assert_eq!(r.err(), Some(EscrowError::NotEnoughPlayers));
    assert_eq!(game.status, GameStatus::Waiting);
    assert!(game.started_at.is_none());
}

#[test]
fn start_commits_nonzero_seed_and_goes_live() {
    let (mut game, _) = joined_game(1000, 5);
    let ev = start_game(&mut game, 42, 99).unwrap();
    assert_eq!(game.status, GameStatus::Live);
    assert_ne!(game.seed, [0u8; 32]);
    assert_eq!(ev.seed, game.seed);
    assert_eq!(ev.started_at, 99);
    assert_eq!(game.started_at, Some(99));
}

#[test]
fn repeated_start_fails_and_leaves_the_seed_alone() {
    let (mut game, _) = joined_game(1000, 5);
    start_game(&mut game, 42, 99).unwrap();
    let committed = game.seed;
    let r = start_game(&mut game, 43, 100);
    assert_eq!(r.err(), Some(EscrowError::GameNotWaiting));
    assert_eq!(game.seed, committed);
    assert_eq!(game.started_at, Some(99));
    assert_eq!(game.status, GameStatus::Live);
}

#[test]
fn cancel_by_non_creator_is_unauthorized() {
    let (mut game, _) = joined_game(1000, 2);
    let r = cancel_game(&mut game, acct(1));
    assert_eq!(r.err(), Some(EscrowError::Unauthorized));
    assert_eq!(game.status, GameStatus::Waiting);
}

#[test]
fn cancel_by_creator_cancels() {
    let (mut game, _) = joined_game(1000, 2);
    let ev = cancel_game(&mut game, acct(9)).unwrap();
    assert_eq!(game.status, GameStatus::Cancelled);
    assert_eq!(ev.game_id, gid(1));
}

#[test]
fn cancel_after_start_fails_with_game_not_waiting() {
    let (mut game, _) = joined_game(1000, 5);
    start_game(&mut game, 42, 99).unwrap();
    let r = cancel_game(&mut game, acct(9));
    assert_eq!(r.err(), Some(EscrowError::GameNotWaiting));
    assert_eq!(game.status, GameStatus::Live);
}

#[test]
fn cancelled_game_admits_no_join_start_or_end() {
    let (mut game, mut vault) = joined_game(1000, 3);
    cancel_game(&mut game, acct(9)).unwrap();
    assert_eq!(join_game(&mut game, &mut vault, acct(8)).err(), Some(EscrowError::GameNotWaiting));
    assert_eq!(start_game(&mut game, 1, 2).err(), Some(EscrowError::GameNotWaiting));
    assert_eq!(end_game(&mut game, &mut vault, 0).err(), Some(EscrowError::GameNotLive));
    assert_eq!(cancel_game(&mut game, acct(9)).err(), Some(EscrowError::GameNotWaiting));
    assert_eq!(game.status, GameStatus::Cancelled);
    assert_eq!(vault.balance, 3000);
}

#[test]
fn refund_pays_each_player_their_stake_back() {
    let (mut game, mut vault) = joined_game(1000, 3);
    cancel_game(&mut game, acct(9)).unwrap();
    let ev = refund_player(&game, &mut vault, 0, acct(1)).unwrap();
    assert_eq!(ev.amount, 1000);
    assert_eq!(ev.player, acct(1));
    assert_eq!(vault.balance, 2000);
    refund_player(&game, &mut vault, 1, acct(2)).unwrap();
    refund_player(&game, &mut vault, 2, acct(3)).unwrap();
    assert_eq!(vault.balance, 0);
}

#[test]
fn refund_requires_a_cancelled_game() {
    let (game, mut vault) = joined_game(1000, 3);
    let r = refund_player(&game, &mut vault, 0, acct(1));
    assert_eq!(r.err(), Some(EscrowError::GameNotCancelled));
    assert_eq!(vault.balance, 3000);
}

#[test]
fn refund_of_an_unjoined_index_is_invalid_player() {
    let (mut game, mut vault) = joined_game(1000, 3);
    cancel_game(&mut game, acct(9)).unwrap();
    let r = refund_player(&game, &mut vault, 3, acct(4));
    assert_eq!(r.err(), Some(EscrowError::InvalidPlayer));
    assert_eq!(vault.balance, 3000);
}

#[test]
fn refund_to_a_destination_of_the_wrong_owner_fails() {
    let (mut game, mut vault) = joined_game(1000, 3);
    cancel_game(&mut game, acct(9)).unwrap();
    let r = refund_player(&game, &mut vault, 1, acct(1));
    assert_eq!(r.err(), Some(EscrowError::WrongPlayer));
    assert_eq!(vault.balance, 3000);
}

#[test]
fn failed_operations_leave_no_trace() {
    let (mut game, mut vault) = joined_game(1000, 2);
    let before_players = game.players;
    let before_count = game.player_count;
    let before_seed = game.seed;
    let before_balance = vault.balance;
    assert!(join_game(&mut game, &mut vault, acct(1)).is_err());
    assert!(start_game(&mut game, 1, 2).is_err());
    assert!(end_game(&mut game, &mut vault, 0).is_err());
    assert!(cancel_game(&mut game, acct(4)).is_err());
    assert!(refund_player(&game, &mut vault, 0, acct(1)).is_err());
    assert_eq!(game.players, before_players);
    assert_eq!(game.player_count, before_count);
    assert_eq!(game.seed, before_seed);
    assert_eq!(game.status, GameStatus::Waiting);
    assert_eq!(vault.balance, before_balance);
}
