use vstd::prelude::*;
use crate::key::Key;
use crate::escrow::{
    bump_signer, cancel_result, exchange_result, holding_address, opening_vault_owner, record_of,
    start_result, CancelEscrow, EscrowInfo, Exchange, StartEscrow,
};
use crate::ledger::{acct, live, EscrowError, Slots};

verus! {

/// A successful opening takes exactly `token1_amt` from the depositor's
/// asset-A account, puts exactly that much in a new holding account of asset A
/// owned by the protocol authority, records the terms as given, and touches
/// no other account.
pub proof fn lemma_open_moves_funds(
    s: Slots,
    ctx: StartEscrow,
    token1_amt: u64,
    token2_amt: u64,
    vault_owner: Option<Key>,
    vault: Option<Key>,
)
    requires
        start_result(s, ctx, token1_amt, token2_amt, vault_owner, vault) is Ok,
    ensures
        ({
            let (s2, rec) = start_result(s, ctx, token1_amt, token2_amt, vault_owner, vault).unwrap();
            let u1 = ctx.init_user_token1 as int;
            let v = ctx.token1_vault as int;
            &&& live(s, u1) && !live(s, v)
            &&& live(s2, u1) && acct(s2, u1).amount == acct(s, u1).amount - token1_amt
            &&& live(s2, v) && acct(s2, v).amount == token1_amt
            &&& acct(s2, v).mint == ctx.token1_mint && Some(acct(s2, v).authority) == vault_owner
            &&& Some(acct(s2, v).address) == vault
            &&& s2.len() == s.len()
            &&& forall|j: int| 0 <= j < s.len() && j != u1 && j != v ==> s2[j] == s[j]
            &&& rec.init_user == ctx.payer && rec.token1_mint == ctx.token1_mint
            &&& rec.token2_mint == ctx.token2_mint && rec.init_user_token1 == acct(s, u1).address
            &&& rec.init_user_token2 == acct(s, ctx.init_user_token2 as int).address
            &&& rec.token1_amt == token1_amt && rec.token2_amt == token2_amt
        }),
{
}

/// Once a cancellation has succeeded, every later cancellation or exchange on
/// the same holding account fails with `StateError`.
pub proof fn lemma_cancel_is_final(
    s: Slots,
    ctx: CancelEscrow,
    signer: Option<Key>,
    vault: Option<Key>,
    again: CancelEscrow,
    signer2: Option<Key>,
    vault2: Option<Key>,
    swap: Exchange,
    signer3: Option<Key>,
    vault3: Option<Key>,
)
    requires
        cancel_result(s, ctx, signer, vault) is Ok,
        again.token1_vault == ctx.token1_vault,
        swap.token1_vault == ctx.token1_vault,
    ensures
        cancel_result(cancel_result(s, ctx, signer, vault).unwrap(), again, signer2, vault2) == Err::<Slots, EscrowError>(EscrowError::StateError),
        exchange_result(cancel_result(s, ctx, signer, vault).unwrap(), swap, signer3, vault3) == Err::<Slots, EscrowError>(EscrowError::StateError),
{
}

/// Once an exchange has succeeded, every later cancellation or exchange on
/// the same holding account fails with `StateError`.
pub proof fn lemma_exchange_is_final(
    s: Slots,
    ctx: Exchange,
    signer: Option<Key>,
    vault: Option<Key>,
    cancel: CancelEscrow,
    signer2: Option<Key>,
    vault2: Option<Key>,
    again: Exchange,
    signer3: Option<Key>,
    vault3: Option<Key>,
)
    requires
        exchange_result(s, ctx, signer, vault) is Ok,
        cancel.token1_vault == ctx.token1_vault,
        again.token1_vault == ctx.token1_vault,
    ensures
        cancel_result(exchange_result(s, ctx, signer, vault).unwrap(), cancel, signer2, vault2) == Err::<Slots, EscrowError>(EscrowError::StateError),
        exchange_result(exchange_result(s, ctx, signer, vault).unwrap(), again, signer3, vault3) == Err::<Slots, EscrowError>(EscrowError::StateError),
{
}

/// Opening and then cancelling with the bump seed that derives the protocol
/// authority, on the same accounts and the opening's record, succeeds and
/// restores the ledger exactly as it was before the opening.
pub proof fn lemma_cancel_undoes_open(
    s: Slots,
    ctx: StartEscrow,
    token1_amt: u64,
    token2_amt: u64,
    cancel: CancelEscrow,
    bump: u8,
)
    requires
        start_result(s, ctx, token1_amt, token2_amt, opening_vault_owner(), holding_address(ctx.payer, ctx.token1_mint)) is Ok,
        bump_signer(bump) == opening_vault_owner(),
        cancel.escrow_account == start_result(
            s,
            ctx,
            token1_amt,
            token2_amt,
            opening_vault_owner(),
            holding_address(ctx.payer, ctx.token1_mint),
        ).unwrap().1,
        cancel.init_user_token1 == ctx.init_user_token1,
        cancel.token1_vault == ctx.token1_vault,
    ensures
        cancel_result(
            start_result(s, ctx, token1_amt, token2_amt, opening_vault_owner(), holding_address(ctx.payer, ctx.token1_mint)).unwrap().0,
            cancel,
            bump_signer(bump),
            holding_address(cancel.escrow_account.init_user, cancel.escrow_account.token1_mint),
        ) == Ok::<Slots, EscrowError>(s),
{
    let (s1, rec) = start_result(s, ctx, token1_amt, token2_amt, opening_vault_owner(), holding_address(ctx.payer, ctx.token1_mint)).unwrap();
    lemma_open_moves_funds(s, ctx, token1_amt, token2_amt, opening_vault_owner(), holding_address(ctx.payer, ctx.token1_mint));
    let r = cancel_result(s1, cancel, bump_signer(bump), holding_address(rec.init_user, rec.token1_mint));
    assert(r is Ok);
    assert(r.unwrap() =~= s);
}

/// An exchange whose counterparty holds less asset B than the record asks
/// fails with `InsufficientFunds`, once the accounts exist and match.
pub proof fn lemma_exchange_underfunded(s: Slots, ctx: Exchange, signer: Option<Key>, vault: Option<Key>)
    requires
        live(s, ctx.init_user_token2 as int),
        live(s, ctx.user2_token1 as int),
        live(s, ctx.user2_token2 as int),
        live(s, ctx.token1_vault as int),
        acct(s, ctx.user2_token1 as int).mint@ == ctx.escrow_account.token1_mint@,
        acct(s, ctx.user2_token2 as int).mint@ == ctx.escrow_account.token2_mint@,
        acct(s, ctx.init_user_token2 as int).address@ == ctx.escrow_account.init_user_token2@,
        acct(s, ctx.token1_vault as int).mint@ == ctx.escrow_account.token1_mint@,
        vault is Some,
        acct(s, ctx.token1_vault as int).address@ == vault.unwrap()@,
        acct(s, ctx.user2_token2 as int).amount < ctx.escrow_account.token2_amt,
    ensures
        exchange_result(s, ctx, signer, vault) == Err::<Slots, EscrowError>(EscrowError::InsufficientFunds),
{
}

/// An asset-A account of another kind makes an opening, a cancellation or an
/// exchange fail with `ValidationError`, once the accounts exist.
pub proof fn lemma_kind_mismatch(
    s: Slots,
    open: StartEscrow,
    token1_amt: u64,
    token2_amt: u64,
    vault_owner: Option<Key>,
    vault: Option<Key>,
    cancel: CancelEscrow,
    swap: Exchange,
    signer: Option<Key>,
)
    ensures
        live(s, open.init_user_token1 as int) && live(s, open.init_user_token2 as int)
            && acct(s, open.init_user_token1 as int).mint@ != open.token1_mint@
            ==> start_result(s, open, token1_amt, token2_amt, vault_owner, vault) == Err::<(Slots, EscrowInfo), EscrowError>(EscrowError::ValidationError),
        live(s, cancel.init_user_token1 as int) && live(s, cancel.token1_vault as int)
            && acct(s, cancel.init_user_token1 as int).mint@ != cancel.escrow_account.token1_mint@
            ==> cancel_result(s, cancel, signer, vault) == Err::<Slots, EscrowError>(EscrowError::ValidationError),
        live(s, swap.init_user_token2 as int) && live(s, swap.user2_token1 as int)
            && live(s, swap.user2_token2 as int) && live(s, swap.token1_vault as int)
            && acct(s, swap.user2_token1 as int).mint@ != swap.escrow_account.token1_mint@
            ==> exchange_result(s, swap, signer, vault) == Err::<Slots, EscrowError>(EscrowError::ValidationError),
{
}

/// The bump seed derives this authority.
pub open spec fn derives(bump: u8, authority: Key) -> bool {
    bump_signer(bump) is Some && bump_signer(bump).unwrap()@ == authority@
}

/// A cancellation or an exchange succeeds only when the caller's bump seed
/// derives the authority that owns the holding account; a cancellation whose
/// accounts match fails with `AuthorizationError` under any other bump.
pub proof fn lemma_authority_required(s: Slots, cancel: CancelEscrow, swap: Exchange, bump: u8, vault: Option<Key>)
    ensures
        cancel_result(s, cancel, bump_signer(bump), vault) is Ok
            ==> derives(bump, acct(s, cancel.token1_vault as int).authority),
        exchange_result(s, swap, bump_signer(bump), vault) is Ok
            ==> derives(bump, acct(s, swap.token1_vault as int).authority),
        live(s, cancel.init_user_token1 as int) && live(s, cancel.token1_vault as int)
            && acct(s, cancel.init_user_token1 as int).mint@ == cancel.escrow_account.token1_mint@
            && acct(s, cancel.init_user_token1 as int).address@ == cancel.escrow_account.init_user_token1@
            && acct(s, cancel.token1_vault as int).mint@ == cancel.escrow_account.token1_mint@
            && vault is Some && acct(s, cancel.token1_vault as int).address@ == vault.unwrap()@
            && !derives(bump, acct(s, cancel.token1_vault as int).authority)
            ==> cancel_result(s, cancel, bump_signer(bump), vault) == Err::<Slots, EscrowError>(EscrowError::AuthorizationError),
{
}

} // verus!
