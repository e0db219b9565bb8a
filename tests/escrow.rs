use my_escrow::derive::{find_vault, find_vault_owner, vault_owner_for_bump};
use my_escrow::escrow::{
    cancel_escrow, exchange, start_escrow, CancelEscrow, EscrowInfo, Exchange, StartEscrow,
};
use my_escrow::key::Key;
use my_escrow::ledger::{CloseAccount, EscrowError, Ledger, TokenAccount, Transfer};

fn key(n: u8) -> Key {
    Key::new([n; 32])
}

fn acct(address: u8, mint: &Key, owner: &Key, amount: u64) -> TokenAccount {
    TokenAccount { address: key(address), mint: *mint, authority: *owner, amount }
}

struct World {
    ledger: Ledger,
    alice: Key,
    bob: Key,
    mint_a: Key,
    mint_b: Key,
    alice_a: usize,
    alice_b: usize,
    bob_a: usize,
    bob_b: usize,
    vault: usize,
}

fn world(alice_a_amt: u64, bob_b_amt: u64) -> World {
    let alice = key(1);
    let bob = key(2);
    let mint_a = key(10);
    let mint_b = key(11);
    let mut ledger = Ledger::new();
    let alice_a = ledger.add_account(acct(20, &mint_a, &alice, alice_a_amt));
    let alice_b = ledger.add_account(acct(21, &mint_b, &alice, 0));
    let bob_a = ledger.add_account(acct(22, &mint_a, &bob, 0));
    let bob_b = ledger.add_account(acct(23, &mint_b, &bob, bob_b_amt));
    let vault = ledger.add_slot();
    World { ledger, alice, bob, mint_a, mint_b, alice_a, alice_b, bob_a, bob_b, vault }
}

fn start_ctx(w: &World) -> StartEscrow {
    StartEscrow {
        payer: w.alice,
        token1_mint: w.mint_a,
        token2_mint: w.mint_b,
        init_user_token1: w.alice_a,
        init_user_token2: w.alice_b,
        token1_vault: w.vault,
    }
}

fn cancel_ctx(w: &World, rec: EscrowInfo) -> CancelEscrow {
    CancelEscrow { payer: w.alice, escrow_account: rec, init_user_token1: w.alice_a, token1_vault: w.vault }
}

fn exchange_ctx(w: &World, rec: EscrowInfo) -> Exchange {
    Exchange {
        payer: w.bob,
        escrow_account: rec,
        init_user_token1: w.alice_a,
        init_user_token2: w.alice_b,
        user2_token1: w.bob_a,
        user2_token2: w.bob_b,
        token1_vault: w.vault,
    }
}

fn open(w: &mut World, token1_amt: u64, token2_amt: u64) -> Result<EscrowInfo, EscrowError> {
    let ctx = start_ctx(w);
    start_escrow(&mut w.ledger, &ctx, token1_amt, token2_amt)
}

fn cancel(w: &mut World, rec: EscrowInfo, bump: u8) -> Result<(), EscrowError> {
    let ctx = cancel_ctx(w, rec);
    cancel_escrow(&mut w.ledger, &ctx, bump)
}

fn swap(w: &mut World, rec: EscrowInfo, bump: u8) -> Result<(), EscrowError> {
    let ctx = exchange_ctx(w, rec);
    exchange(&mut w.ledger, &ctx, bump)
}

fn bump() -> u8 {
    find_vault_owner().unwrap().1
}

fn balances(w: &World) -> Vec<Option<u64>> {
    (0..w.ledger.len()).map(|i| w.ledger.balance(i)).collect()
}

#[test]
fn open_locks_asset_a_and_records_terms() {
    let mut w = world(500, 0);
    let rec = open(&mut w, 100, 50).unwrap();
    assert_eq!(w.ledger.balance(w.alice_a), Some(400));
    assert_eq!(w.ledger.balance(w.vault), Some(100));
    let v = w.ledger.get(w.vault).unwrap();
    assert_eq!(v.mint.bytes, w.mint_a.bytes);
    assert_eq!(v.authority.bytes, find_vault_owner().unwrap().0.bytes);
    assert_eq!(v.address.bytes, find_vault(&w.alice, &w.mint_a).unwrap().bytes);
    assert_eq!(rec.init_user.bytes, w.alice.bytes);
    assert_eq!(rec.token1_mint.bytes, w.mint_a.bytes);
    assert_eq!(rec.token2_mint.bytes, w.mint_b.bytes);
    assert_eq!(rec.init_user_token1.bytes, key(20).bytes);
    assert_eq!(rec.init_user_token2.bytes, key(21).bytes);
    assert_eq!(rec.token1_amt, 100);
    assert_eq!(rec.token2_amt, 50);
}

#[test]
fn exchange_delivers_both_legs() {
    let mut w = world(100, 70);
    let rec = open(&mut w, 100, 50).unwrap();
    assert_eq!(swap(&mut w, rec, bump()), Ok(()));
    assert_eq!(w.ledger.balance(w.alice_b), Some(50));
    assert_eq!(w.ledger.balance(w.bob_a), Some(100));
    assert_eq!(w.ledger.balance(w.bob_b), Some(20));
    assert_eq!(w.ledger.balance(w.alice_a), Some(0));
    assert!(w.ledger.get(w.vault).is_none());
}

#[test]
fn cancel_then_exchange_fails_with_state_error() {
    let mut w = world(100, 70);
    let rec = open(&mut w, 100, 50).unwrap();
    assert_eq!(cancel(&mut w, rec, bump()), Ok(()));
    assert_eq!(w.ledger.balance(w.alice_a), Some(100));
    assert!(w.ledger.get(w.vault).is_none());
    let before = balances(&w);
    assert_eq!(swap(&mut w, rec, bump()), Err(EscrowError::StateError));
    assert_eq!(balances(&w), before);
}

#[test]
fn second_consumption_fails_with_state_error() {
    let mut w = world(100, 70);
    let rec = open(&mut w, 100, 50).unwrap();
    assert_eq!(swap(&mut w, rec, bump()), Ok(()));
    assert_eq!(cancel(&mut w, rec, bump()), Err(EscrowError::StateError));
    assert_eq!(swap(&mut w, rec, bump()), Err(EscrowError::StateError));
}

#[test]
fn open_then_cancel_restores_every_balance() {
    let mut w = world(250, 0);
    let before = balances(&w);
    let rec = open(&mut w, 250, 9).unwrap();
    assert_eq!(cancel(&mut w, rec, bump()), Ok(()));
    assert_eq!(balances(&w), before);
}

#[test]
fn underfunded_exchange_moves_nothing() {
    let mut w = world(100, 49);
    let rec = open(&mut w, 100, 50).unwrap();
    let before = balances(&w);
    assert_eq!(swap(&mut w, rec, bump()), Err(EscrowError::InsufficientFunds));
    assert_eq!(balances(&w), before);
}

#[test]
fn open_with_too_little_asset_a_fails() {
    let mut w = world(99, 0);
    let before = balances(&w);
    assert_eq!(open(&mut w, 100, 50).unwrap_err(), EscrowError::InsufficientFunds);
    assert_eq!(balances(&w), before);
}

#[test]
fn open_with_wrong_kind_fails_validation() {
    let mut w = world(100, 0);
    let mut ctx = start_ctx(&w);
    ctx.init_user_token1 = w.alice_b;
    let before = balances(&w);
    assert_eq!(start_escrow(&mut w.ledger, &ctx, 10, 5).unwrap_err(), EscrowError::ValidationError);
    assert_eq!(balances(&w), before);
}

#[test]
fn open_from_foreign_account_fails_validation() {
    let mut w = world(100, 0);
    let mut ctx = start_ctx(&w);
    ctx.payer = w.bob;
    assert_eq!(start_escrow(&mut w.ledger, &ctx, 10, 5).unwrap_err(), EscrowError::ValidationError);
}

#[test]
fn open_into_taken_slot_fails_with_state_error() {
    let mut w = world(100, 0);
    let mut ctx = start_ctx(&w);
    ctx.token1_vault = w.bob_a;
    assert_eq!(start_escrow(&mut w.ledger, &ctx, 10, 5).unwrap_err(), EscrowError::StateError);
}

#[test]
fn cancel_with_wrong_kind_fails_validation() {
    let mut w = world(100, 70);
    let rec = open(&mut w, 100, 50).unwrap();
    let mut ctx = cancel_ctx(&w, rec);
    ctx.init_user_token1 = w.alice_b;
    let before = balances(&w);
    assert_eq!(cancel_escrow(&mut w.ledger, &ctx, bump()), Err(EscrowError::ValidationError));
    assert_eq!(balances(&w), before);
}

#[test]
fn exchange_with_wrong_kind_fails_validation() {
    let mut w = world(100, 70);
    let rec = open(&mut w, 100, 50).unwrap();
    let mut ctx = exchange_ctx(&w, rec);
    ctx.user2_token1 = w.bob_b;
    let before = balances(&w);
    assert_eq!(exchange(&mut w.ledger, &ctx, bump()), Err(EscrowError::ValidationError));
    assert_eq!(balances(&w), before);
}

#[test]
fn wrong_bump_fails_authorization() {
    let mut w = world(100, 70);
    let rec = open(&mut w, 100, 50).unwrap();
    let other = bump().wrapping_sub(1);
    let before = balances(&w);
    assert_eq!(cancel(&mut w, rec, other), Err(EscrowError::AuthorizationError));
    assert_eq!(swap(&mut w, rec, other), Err(EscrowError::AuthorizationError));
    assert_eq!(balances(&w), before);
}

#[test]
fn derived_keys_are_not_their_inputs() {
    let (owner, b) = find_vault_owner().unwrap();
    assert_eq!(vault_owner_for_bump(b).unwrap().bytes, owner.bytes);
    assert_ne!(owner.bytes, Key::program_id().bytes);
    let alice = key(1);
    let mint = key(10);
    let v = find_vault(&alice, &mint).unwrap();
    assert_ne!(v.bytes, alice.bytes);
    assert_ne!(v.bytes, mint.bytes);
    assert_ne!(v.bytes, find_vault(&alice, &key(11)).unwrap().bytes);
}

#[test]
fn transfer_errors() {
    let a = key(1);
    let m = key(10);
    let n = key(11);
    let mut l = Ledger::new();
    let x = l.add_account(acct(20, &m, &a, u64::MAX));
    let y = l.add_account(acct(21, &m, &a, 1));
    let z = l.add_account(acct(22, &n, &a, 0));
    let free = l.add_slot();
    assert_eq!(l.transfer(&Transfer { from: y, to: x, authority: a }, 1), Err(EscrowError::Overflow));
    assert_eq!(l.transfer(&Transfer { from: x, to: z, authority: a }, 1), Err(EscrowError::ValidationError));
    assert_eq!(l.transfer(&Transfer { from: x, to: free, authority: a }, 1), Err(EscrowError::StateError));
    assert_eq!(l.transfer(&Transfer { from: y, to: x, authority: key(2) }, 1), Err(EscrowError::AuthorizationError));
    assert_eq!(l.transfer(&Transfer { from: y, to: x, authority: a }, 2), Err(EscrowError::InsufficientFunds));
    assert_eq!(l.transfer(&Transfer { from: x, to: y, authority: a }, 7), Ok(()));
    assert_eq!(l.balance(x), Some(u64::MAX - 7));
    assert_eq!(l.balance(y), Some(8));
    assert_eq!(l.transfer(&Transfer { from: y, to: x, authority: a }, 7), Ok(()));
    assert_eq!(l.transfer(&Transfer { from: y, to: y, authority: a }, 1), Ok(()));
    assert_eq!(l.balance(y), Some(1));
    assert_eq!(l.transfer(&Transfer { from: y, to: x, authority: a }, 0), Ok(()));
    assert_eq!(l.close_account(&CloseAccount { account: y, destination: a, authority: a }), Err(EscrowError::NonZeroBalance));
    assert_eq!(l.close_account(&CloseAccount { account: z, destination: a, authority: key(2) }), Err(EscrowError::AuthorizationError));
    assert_eq!(l.close_account(&CloseAccount { account: z, destination: a, authority: a }), Ok(()));
    assert_eq!(l.close_account(&CloseAccount { account: z, destination: a, authority: a }), Err(EscrowError::StateError));
    assert_eq!(l.create_account(x, key(30), m, a), Err(EscrowError::StateError));
    assert_eq!(l.create_account(free, key(30), m, a), Ok(()));
    assert_eq!(l.balance(free), Some(0));
}

#[test]
fn zero_amount_escrow_opens_and_cancels() {
    let mut w = world(0, 0);
    let before = balances(&w);
    let rec = open(&mut w, 0, 0).unwrap();
    assert_eq!(w.ledger.balance(w.vault), Some(0));
    assert_eq!(cancel(&mut w, rec, bump()), Ok(()));
    assert_eq!(balances(&w), before);
    assert_eq!(cancel(&mut w, rec, bump()), Err(EscrowError::StateError));
}

#[test]
fn exchange_at_exact_balance_empties_counterparty() {
    let mut w = world(100, 50);
    let rec = open(&mut w, 100, 50).unwrap();
    assert_eq!(swap(&mut w, rec, bump()), Ok(()));
    assert_eq!(w.ledger.balance(w.bob_b), Some(0));
    assert_eq!(w.ledger.balance(w.alice_b), Some(50));
    assert_eq!(w.ledger.balance(w.bob_a), Some(100));
}
