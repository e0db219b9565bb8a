use vstd::prelude::*;
use crate::key::Key;
use crate::derive::{
    canonical_vault, canonical_vault_owner, find_vault, find_vault_owner, key_of, opt_view,
    signer_for_bump, vault_owner_for_bump,
};
use crate::ledger::{
    acct, applied, close_result, create_result, live, transfer_result, CloseAccount, EscrowError,
    Ledger, Slots, Transfer,
};

verus! {

/// The terms of an open escrow, fixed when it is opened.
#[derive(Clone, Copy, Debug)]
pub struct EscrowInfo {
    /// The depositor, who receives asset B.
    pub init_user: Key,
    /// The mint of asset A, the locked asset.
    pub token1_mint: Key,
    /// The mint of asset B, the asked asset.
    pub token2_mint: Key,
    /// The depositor's asset-A account.
    pub init_user_token1: Key,
    /// The depositor's asset-B account.
    pub init_user_token2: Key,
    /// How much of asset A is locked.
    pub token1_amt: u64,
    /// How much of asset B unlocks it.
    pub token2_amt: u64,
}

/// The accounts of an opening: slots are ledger positions.
#[derive(Clone, Copy, Debug)]
pub struct StartEscrow {
    /// The depositor, who signs.
    pub payer: Key,
    pub token1_mint: Key,
    pub token2_mint: Key,
    pub init_user_token1: usize,
    pub init_user_token2: usize,
    /// A free slot where the holding account is opened.
    pub token1_vault: usize,
}

/// The accounts of a cancellation.
#[derive(Clone, Copy, Debug)]
pub struct CancelEscrow {
    /// Whoever submits the cancellation; receives the holding account's deposit.
    pub payer: Key,
    pub escrow_account: EscrowInfo,
    pub init_user_token1: usize,
    pub token1_vault: usize,
}

/// The accounts of an exchange.
#[derive(Clone, Copy, Debug)]
pub struct Exchange {
    /// The counterparty, who signs and pays asset B.
    pub payer: Key,
    pub escrow_account: EscrowInfo,
    pub init_user_token1: usize,
    pub init_user_token2: usize,
    pub user2_token1: usize,
    pub user2_token2: usize,
    pub token1_vault: usize,
}

/// An array holding these bytes.
pub open spec fn bytes_of(v: Seq<u8>) -> [u8; 32] {
    choose|a: [u8; 32]| a@ == v
}

/// Turns a derived key's bytes back into a key.
pub open spec fn key_from(v: Option<Seq<u8>>) -> Option<Key> {
    match v {
        Some(b) => Some(Key { bytes: bytes_of(b) }),
        None => None,
    }
}

pub proof fn lemma_key_from(k: Option<Key>)
    ensures
        key_from(opt_view(k)) == k,
{
    if let Some(key) = k {
        assert(key.bytes@ == key@);
        let a = bytes_of(key@);
        assert(a@ == key.bytes@);
        broadcast use vstd::array::axiom_array_ext_equal;
        assert(a =~= key.bytes);

    }
}

/// The record that a successful opening writes.
pub open spec fn record_of(s: Slots, ctx: StartEscrow, token1_amt: u64, token2_amt: u64) -> EscrowInfo {
    EscrowInfo {
        init_user: ctx.payer,
        token1_mint: ctx.token1_mint,
        token2_mint: ctx.token2_mint,
        init_user_token1: acct(s, ctx.init_user_token1 as int).address,
        init_user_token2: acct(s, ctx.init_user_token2 as int).address,
        token1_amt,
        token2_amt,
    }
}

/// The outcome of an opening, given the derived protocol authority and
/// holding-account address: the new slots and the record, or the error.
pub open spec fn start_result(
    s: Slots,
    ctx: StartEscrow,
    token1_amt: u64,
    token2_amt: u64,
    vault_owner: Option<Key>,
    vault: Option<Key>,
) -> Result<(Slots, EscrowInfo), EscrowError> {
    if !live(s, ctx.init_user_token1 as int) || !live(s, ctx.init_user_token2 as int) {
        Err(EscrowError::StateError)
    } else if acct(s, ctx.init_user_token1 as int).mint@ != ctx.token1_mint@
        || acct(s, ctx.init_user_token2 as int).mint@ != ctx.token2_mint@
        || acct(s, ctx.init_user_token1 as int).authority@ != ctx.payer@ {
        Err(EscrowError::ValidationError)
    } else if vault_owner is None || vault is None {
        Err(EscrowError::AuthorizationError)
    } else {
        match create_result(s, ctx.token1_vault as int, vault.unwrap(), ctx.token1_mint, vault_owner.unwrap()) {
            Err(e) => Err(e),
            Ok(s1) => match transfer_result(
                s1,
                (Transfer { from: ctx.init_user_token1, to: ctx.token1_vault, authority: ctx.payer }),
                token1_amt,
            ) {
                Err(e) => Err(e),
                Ok(s2) => Ok((s2, record_of(s, ctx, token1_amt, token2_amt))),
            },
        }
    }
}

/// The outcome of a cancellation, given the authority that the caller's bump
/// derives and the holding-account address that the record derives.
pub open spec fn cancel_result(s: Slots, ctx: CancelEscrow, signer: Option<Key>, vault: Option<Key>) -> Result<Slots, EscrowError> {
    let rec = ctx.escrow_account;
    if !live(s, ctx.init_user_token1 as int) || !live(s, ctx.token1_vault as int) {
        Err(EscrowError::StateError)
    } else if acct(s, ctx.init_user_token1 as int).mint@ != rec.token1_mint@
        || acct(s, ctx.init_user_token1 as int).address@ != rec.init_user_token1@
        || acct(s, ctx.token1_vault as int).mint@ != rec.token1_mint@
        || vault is None
        || acct(s, ctx.token1_vault as int).address@ != vault.unwrap()@ {
        Err(EscrowError::ValidationError)
    } else if signer is None {
        Err(EscrowError::AuthorizationError)
    } else {
        let k = signer.unwrap();
        match transfer_result(s, (Transfer { from: ctx.token1_vault, to: ctx.init_user_token1, authority: k }), rec.token1_amt) {
            Err(e) => Err(e),
            Ok(s1) => close_result(s1, (CloseAccount { account: ctx.token1_vault, destination: ctx.payer, authority: k })),
        }
    }
}

/// The outcome of an exchange, given the authority that the caller's bump
/// derives and the holding-account address that the record derives.
pub open spec fn exchange_result(s: Slots, ctx: Exchange, signer: Option<Key>, vault: Option<Key>) -> Result<Slots, EscrowError> {
    let rec = ctx.escrow_account;
    if !live(s, ctx.init_user_token2 as int) || !live(s, ctx.user2_token1 as int)
        || !live(s, ctx.user2_token2 as int) || !live(s, ctx.token1_vault as int) {
        Err(EscrowError::StateError)
    } else if acct(s, ctx.user2_token1 as int).mint@ != rec.token1_mint@
        || acct(s, ctx.user2_token2 as int).mint@ != rec.token2_mint@
        || acct(s, ctx.init_user_token2 as int).address@ != rec.init_user_token2@
        || acct(s, ctx.token1_vault as int).mint@ != rec.token1_mint@
        || vault is None
        || acct(s, ctx.token1_vault as int).address@ != vault.unwrap()@ {
        Err(EscrowError::ValidationError)
    } else if acct(s, ctx.user2_token2 as int).amount < rec.token2_amt {
        Err(EscrowError::InsufficientFunds)
    } else if signer is None {
        Err(EscrowError::AuthorizationError)
    } else {
        let k = signer.unwrap();
        match transfer_result(s, (Transfer { from: ctx.user2_token2, to: ctx.init_user_token2, authority: ctx.payer }), rec.token2_amt) {
            Err(e) => Err(e),
            Ok(s1) => match transfer_result(s1, (Transfer { from: ctx.token1_vault, to: ctx.user2_token1, authority: k }), rec.token1_amt) {
                Err(e) => Err(e),
                Ok(s2) => close_result(s2, (CloseAccount { account: ctx.token1_vault, destination: ctx.payer, authority: k })),
            },
        }
    }
}

/// The protocol authority as an opening derives it.
pub open spec fn opening_vault_owner() -> Option<Key> {
    key_from(key_of(canonical_vault_owner()))
}

/// The holding-account address of a depositor and a mint.
pub open spec fn holding_address(depositor: Key, mint: Key) -> Option<Key> {
    key_from(key_of(canonical_vault(depositor@, mint@)))
}

/// The protocol authority that a caller's bump seed derives.
pub open spec fn bump_signer(bump: u8) -> Option<Key> {
    key_from(signer_for_bump(bump))
}

impl StartEscrow {
    /// The transfer that locks asset A, signed by the depositor.
    pub fn transfer_user1_to_vault(&self) -> (r: Transfer)
        ensures
            r == (Transfer { from: self.init_user_token1, to: self.token1_vault, authority: self.payer }),
    {
        Transfer { from: self.init_user_token1, to: self.token1_vault, authority: self.payer }
    }
}

impl CancelEscrow {
    /// The transfer that returns asset A, signed by the protocol authority.
    pub fn transfer_vault_to_user1(&self, vault_owner: Key) -> (r: Transfer)
        ensures
            r == (Transfer { from: self.token1_vault, to: self.init_user_token1, authority: vault_owner }),
    {
        Transfer { from: self.token1_vault, to: self.init_user_token1, authority: vault_owner }
    }

    /// The closing of the holding account, whose deposit goes to the caller.
    pub fn close_vault_account(&self, vault_owner: Key) -> (r: CloseAccount)
        ensures
            r == (CloseAccount { account: self.token1_vault, destination: self.payer, authority: vault_owner }),
    {
        CloseAccount { account: self.token1_vault, destination: self.payer, authority: vault_owner }
    }
}

impl Exchange {
    /// A transfer between two of the exchange's slots.
    pub fn transfer_token(&self, from: usize, to: usize, authority: Key) -> (r: Transfer)
        ensures
            r == (Transfer { from, to, authority }),
    {
        Transfer { from, to, authority }
    }

    /// The closing of the holding account, whose deposit goes to the caller.
    pub fn close_vault_account(&self, vault_owner: Key) -> (r: CloseAccount)
        ensures
            r == (CloseAccount { account: self.token1_vault, destination: self.payer, authority: vault_owner }),
    {
        CloseAccount { account: self.token1_vault, destination: self.payer, authority: vault_owner }
    }
}

fn check_live(ledger: &Ledger, i: usize) -> (r: bool)
    ensures
        r == live(ledger@, i as int),
{
    match ledger.get(i) {
        Some(_) => true,
        None => false,
    }
}

/// The effect of an opening: on success the new slots and the record, on
/// failure nothing.
pub open spec fn opened(
    old: Slots,
    new: Slots,
    r: Result<EscrowInfo, EscrowError>,
    outcome: Result<(Slots, EscrowInfo), EscrowError>,
) -> bool {
    match outcome {
        Ok((s, rec)) => r == Ok::<EscrowInfo, EscrowError>(rec) && new == s,
        Err(e) => r == Err::<EscrowInfo, EscrowError>(e) && new == old,
    }
}

/// Opens an escrow, given the protocol authority and the holding-account
/// address as derived: checks the accounts, opens the holding account and
/// locks `token1_amt` of asset A in it, all or nothing.
pub fn start_escrow_derived(
    ledger: &mut Ledger,
    ctx: &StartEscrow,
    token1_amt: u64,
    token2_amt: u64,
    vault_owner: Option<Key>,
    vault: Option<Key>,
) -> (r: Result<EscrowInfo, EscrowError>)
    ensures
        opened(old(ledger)@, final(ledger)@, r, start_result(old(ledger)@, *ctx, token1_amt, token2_amt, vault_owner, vault)),
{
    if !check_live(ledger, ctx.init_user_token1) || !check_live(ledger, ctx.init_user_token2) {
        return Err(EscrowError::StateError);
    }
    let u1 = ledger.get(ctx.init_user_token1).unwrap();
    let u2 = ledger.get(ctx.init_user_token2).unwrap();
    if !u1.mint.same(&ctx.token1_mint) || !u2.mint.same(&ctx.token2_mint) || !u1.authority.same(&ctx.payer) {
        return Err(EscrowError::ValidationError);
    }
    let (owner, vkey) = match (vault_owner, vault) {
        (Some(o), Some(v)) => (o, v),
        _ => {
            return Err(EscrowError::AuthorizationError);
        },
    };
    let mut work = ledger.snapshot();
    match work.create_account(ctx.token1_vault, vkey, ctx.token1_mint, owner) {
        Err(e) => {
            return Err(e);
        },
        Ok(()) => {},
    }
    match work.transfer(&ctx.transfer_user1_to_vault(), token1_amt) {
        Err(e) => {
            return Err(e);
        },
        Ok(()) => {},
    }
    *ledger = work;
    Ok(EscrowInfo {
        init_user: ctx.payer,
        token1_mint: ctx.token1_mint,
        token2_mint: ctx.token2_mint,
        init_user_token1: u1.address,
        init_user_token2: u2.address,
        token1_amt,
        token2_amt,
    })
}

/// Opens an escrow: derives the protocol authority and the holding-account
/// address of the depositor and asset A, then proceeds as
/// `start_escrow_derived`.
pub fn start_escrow(ledger: &mut Ledger, ctx: &StartEscrow, token1_amt: u64, token2_amt: u64) -> (r: Result<EscrowInfo, EscrowError>)
    ensures
        opened(
            old(ledger)@,
            final(ledger)@,
            r,
            start_result(old(ledger)@, *ctx, token1_amt, token2_amt, opening_vault_owner(), holding_address(ctx.payer, ctx.token1_mint)),
        ),
{
    let owner = match find_vault_owner() {
        Some((k, _)) => Some(k),
        None => None,
    };
    let vault = find_vault(&ctx.payer, &ctx.token1_mint);
    proof {
        lemma_key_from(owner);
        lemma_key_from(vault);
    }
    start_escrow_derived(ledger, ctx, token1_amt, token2_amt, owner, vault)
}

/// Cancels an escrow, given the authority that the caller's bump derives and
/// the holding-account address that the record derives: returns asset A to
/// the depositor and closes the holding account, all or nothing.
pub fn cancel_escrow_signed(ledger: &mut Ledger, ctx: &CancelEscrow, signer: Option<Key>, vault: Option<Key>) -> (r: Result<(), EscrowError>)
    ensures
        applied(old(ledger)@, final(ledger)@, r, cancel_result(old(ledger)@, *ctx, signer, vault)),
{
    let rec = ctx.escrow_account;
    if !check_live(ledger, ctx.init_user_token1) || !check_live(ledger, ctx.token1_vault) {
        return Err(EscrowError::StateError);
    }
    let u1 = ledger.get(ctx.init_user_token1).unwrap();
    let v = ledger.get(ctx.token1_vault).unwrap();
    let vkey = match vault {
        Some(k) => k,
        None => {
            return Err(EscrowError::ValidationError);
        },
    };
    if !u1.mint.same(&rec.token1_mint) || !u1.address.same(&rec.init_user_token1) || !v.mint.same(&rec.token1_mint)
        || !v.address.same(&vkey) {
        return Err(EscrowError::ValidationError);
    }
    let k = match signer {
        Some(k) => k,
        None => {
            return Err(EscrowError::AuthorizationError);
        },
    };
    let mut work = ledger.snapshot();
    match work.transfer(&ctx.transfer_vault_to_user1(k), rec.token1_amt) {
        Err(e) => {
            return Err(e);
        },
        Ok(()) => {},
    }
    match work.close_account(&ctx.close_vault_account(k)) {
        Err(e) => {
            return Err(e);
        },
        Ok(()) => {},
    }
    *ledger = work;
    Ok(())
}

/// Cancels an escrow: derives the protocol authority from the caller's bump
/// and the holding-account address from the record, then proceeds as
/// `cancel_escrow_signed`.
pub fn cancel_escrow(ledger: &mut Ledger, ctx: &CancelEscrow, bump: u8) -> (r: Result<(), EscrowError>)
    ensures
        applied(
            old(ledger)@,
            final(ledger)@,
            r,
            cancel_result(
                old(ledger)@,
                *ctx,
                bump_signer(bump),
                holding_address(ctx.escrow_account.init_user, ctx.escrow_account.token1_mint),
            ),
        ),
{
    let signer = vault_owner_for_bump(bump);
    let vault = find_vault(&ctx.escrow_account.init_user, &ctx.escrow_account.token1_mint);
    proof {
        lemma_key_from(signer);
        lemma_key_from(vault);
    }
    cancel_escrow_signed(ledger, ctx, signer, vault)
}

/// Executes an exchange, given the authority that the caller's bump derives
/// and the holding-account address that the record derives: asset B goes
/// from the counterparty to the depositor, asset A from the holding account
/// to the counterparty, and the holding account closes, all or nothing.
pub fn exchange_signed(ledger: &mut Ledger, ctx: &Exchange, signer: Option<Key>, vault: Option<Key>) -> (r: Result<(), EscrowError>)
    ensures
        applied(old(ledger)@, final(ledger)@, r, exchange_result(old(ledger)@, *ctx, signer, vault)),
{
    let rec = ctx.escrow_account;
    if !check_live(ledger, ctx.init_user_token2) || !check_live(ledger, ctx.user2_token1)
        || !check_live(ledger, ctx.user2_token2) || !check_live(ledger, ctx.token1_vault) {
        return Err(EscrowError::StateError);
    }
    let d2 = ledger.get(ctx.init_user_token2).unwrap();
    let c1 = ledger.get(ctx.user2_token1).unwrap();
    let c2 = ledger.get(ctx.user2_token2).unwrap();
    let v = ledger.get(ctx.token1_vault).unwrap();
    let vkey = match vault {
        Some(k) => k,
        None => {
            return Err(EscrowError::ValidationError);
        },
    };
    if !c1.mint.same(&rec.token1_mint) || !c2.mint.same(&rec.token2_mint) || !d2.address.same(&rec.init_user_token2)
        || !v.mint.same(&rec.token1_mint) || !v.address.same(&vkey) {
        return Err(EscrowError::ValidationError);
    }
    if c2.amount < rec.token2_amt {
        return Err(EscrowError::InsufficientFunds);
    }
    let k = match signer {
        Some(k) => k,
        None => {
            return Err(EscrowError::AuthorizationError);
        },
    };
    let mut work = ledger.snapshot();
    match work.transfer(&ctx.transfer_token(ctx.user2_token2, ctx.init_user_token2, ctx.payer), rec.token2_amt) {
        Err(e) => {
            return Err(e);
        },
        Ok(()) => {},
    }
    match work.transfer(&ctx.transfer_token(ctx.token1_vault, ctx.user2_token1, k), rec.token1_amt) {
        Err(e) => {
            return Err(e);
        },
        Ok(()) => {},
    }
    match work.close_account(&ctx.close_vault_account(k)) {
        Err(e) => {
            return Err(e);
        },
        Ok(()) => {},
    }
    *ledger = work;
    Ok(())
}

/// Executes an exchange: derives the protocol authority from the caller's
/// bump and the holding-account address from the record, then proceeds as
/// `exchange_signed`.
pub fn exchange(ledger: &mut Ledger, ctx: &Exchange, bump: u8) -> (r: Result<(), EscrowError>)
    ensures
        applied(
            old(ledger)@,
            final(ledger)@,
            r,
            exchange_result(
                old(ledger)@,
                *ctx,
                bump_signer(bump),
                holding_address(ctx.escrow_account.init_user, ctx.escrow_account.token1_mint),
            ),
        ),
{
    let signer = vault_owner_for_bump(bump);
    let vault = find_vault(&ctx.escrow_account.init_user, &ctx.escrow_account.token1_mint);
    proof {
        lemma_key_from(signer);
        lemma_key_from(vault);
    }
    exchange_signed(ledger, ctx, signer, vault)
}

} // verus!
