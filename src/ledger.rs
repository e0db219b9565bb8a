use vstd::prelude::*;
use crate::key::Key;

verus! {

/// Why an operation was rejected. A rejected operation changes nothing.
#[derive(Clone, Copy, Debug, PartialEq, Eq, Structural)]
pub enum EscrowError {
    /// An asset kind or an owner does not match among the supplied accounts.
    ValidationError,
    /// A balance is below the amount required.
    InsufficientFunds,
    /// A signature or a derived-authority proof is invalid.
    AuthorizationError,
    /// An account is missing: closed already, never opened, or taken.
    StateError,
    /// A credit would exceed the largest representable balance.
    Overflow,
    /// An account still holding tokens cannot be closed.
    NonZeroBalance,
}

/// A token account: which asset it holds, who may move it, and how much.
#[derive(Clone, Copy, Debug)]
pub struct TokenAccount {
    pub address: Key,
    pub mint: Key,
    pub authority: Key,
    pub amount: u64,
}

/// A movement of tokens from one ledger slot to another, signed by `authority`.
#[derive(Clone, Copy, Debug)]
pub struct Transfer {
    pub from: usize,
    pub to: usize,
    pub authority: Key,
}

/// The closing of an empty token account, signed by `authority`; the account's
/// deposit goes to `destination`.
#[derive(Clone, Copy, Debug)]
pub struct CloseAccount {
    pub account: usize,
    pub destination: Key,
    pub authority: Key,
}

/// The token ledger: numbered slots, each holding an open account or none.
pub struct Ledger {
    pub slots: Vec<Option<TokenAccount>>,
}

pub type Slots = Seq<Option<TokenAccount>>;

impl View for Ledger {
    type V = Slots;

    open spec fn view(&self) -> Slots {
        self.slots@
    }
}

/// Slot `i` exists and holds an open account.
pub open spec fn live(s: Slots, i: int) -> bool {
    0 <= i < s.len() && s[i] is Some
}

/// The account in slot `i`, which must be live.
pub open spec fn acct(s: Slots, i: int) -> TokenAccount {
    s[i].unwrap()
}

pub open spec fn with_amount(a: TokenAccount, amount: u64) -> TokenAccount {
    TokenAccount { address: a.address, mint: a.mint, authority: a.authority, amount }
}

/// The slots after `amount` moves from `from` to `to`.
pub open spec fn moved(s: Slots, from: int, to: int, amount: u64) -> Slots {
    if from == to {
        s
    } else {
        let s1 = s.update(from, Some(with_amount(acct(s, from), (acct(s, from).amount - amount) as u64)));
        s1.update(to, Some(with_amount(acct(s1, to), (acct(s1, to).amount + amount) as u64)))
    }
}

/// The outcome of a transfer: the new slots, or the first check that fails.
pub open spec fn transfer_result(s: Slots, t: Transfer, amount: u64) -> Result<Slots, EscrowError> {
    if !live(s, t.from as int) || !live(s, t.to as int) {
        Err(EscrowError::StateError)
    } else if acct(s, t.from as int).mint@ != acct(s, t.to as int).mint@ {
        Err(EscrowError::ValidationError)
    } else if acct(s, t.from as int).authority@ != t.authority@ {
        Err(EscrowError::AuthorizationError)
    } else if acct(s, t.from as int).amount < amount {
        Err(EscrowError::InsufficientFunds)
    } else if t.from != t.to && acct(s, t.to as int).amount + amount > u64::MAX {
        Err(EscrowError::Overflow)
    } else {
        Ok(moved(s, t.from as int, t.to as int, amount))
    }
}

/// The outcome of closing an account.
pub open spec fn close_result(s: Slots, c: CloseAccount) -> Result<Slots, EscrowError> {
    if !live(s, c.account as int) {
        Err(EscrowError::StateError)
    } else if acct(s, c.account as int).authority@ != c.authority@ {
        Err(EscrowError::AuthorizationError)
    } else if acct(s, c.account as int).amount != 0 {
        Err(EscrowError::NonZeroBalance)
    } else {
        Ok(s.update(c.account as int, None))
    }
}

/// The outcome of opening an empty account in slot `slot`.
pub open spec fn create_result(s: Slots, slot: int, address: Key, mint: Key, authority: Key) -> Result<Slots, EscrowError> {
    if !(0 <= slot < s.len()) || s[slot] is Some {
        Err(EscrowError::StateError)
    } else {
        Ok(s.update(slot, Some(TokenAccount { address, mint, authority, amount: 0 })))
    }
}

/// A step's effect on the slots: its new state on success, none otherwise.
pub open spec fn applied(old: Slots, new: Slots, r: Result<(), EscrowError>, outcome: Result<Slots, EscrowError>) -> bool {
    match outcome {
        Ok(s) => r == Ok::<(), EscrowError>(()) && new == s,
        Err(e) => r == Err::<(), EscrowError>(e) && new == old,
    }
}

impl Ledger {
    pub fn new() -> (r: Ledger)
        ensures
            r@ == Seq::<Option<TokenAccount>>::empty(),
    {
        Ledger { slots: Vec::new() }
    }

    /// Opens an account in a new slot and returns the slot.
    pub fn add_account(&mut self, a: TokenAccount) -> (r: usize)
        requires
            old(self)@.len() < usize::MAX,
        ensures
            r == old(self)@.len(),
            final(self)@ == old(self)@.push(Some(a)),
    {
        self.slots.push(Some(a));
        self.slots.len() - 1
    }

    /// Adds an empty slot, where an account can later be opened.
    pub fn add_slot(&mut self) -> (r: usize)
        requires
            old(self)@.len() < usize::MAX,
        ensures
            r == old(self)@.len(),
            final(self)@ == old(self)@.push(None),
    {
        self.slots.push(None);
        self.slots.len() - 1
    }

    pub fn len(&self) -> (r: usize)
        ensures
            r == self@.len(),
    {
        self.slots.len()
    }

    /// The account in slot `i`, if it is open.
    pub fn get(&self, i: usize) -> (r: Option<TokenAccount>)
        ensures
            r == (if i < self@.len() { self@[i as int] } else { None }),
    {
        if i < self.slots.len() {
            self.slots[i]
        } else {
            None
        }
    }

    /// The balance of slot `i`, if it holds an open account.
    pub fn balance(&self, i: usize) -> (r: Option<u64>)
        ensures
            r == (if live(self@, i as int) { Some(acct(self@, i as int).amount) } else { None }),
    {
        match self.get(i) {
            Some(a) => Some(a.amount),
            None => None,
        }
    }

    /// A copy of the ledger, to work on until an operation is known to succeed.
    pub fn snapshot(&self) -> (r: Ledger)
        ensures
            r@ == self@,
    {
        let mut slots: Vec<Option<TokenAccount>> = Vec::new();
        let mut i: usize = 0;
        while i < self.slots.len()
            invariant
                0 <= i <= self@.len(),
                slots@ == self@.take(i as int),
            decreases self@.len() - i,
        {
            slots.push(self.slots[i]);
            assert(slots@ =~= self@.take(i as int + 1));
            i = i + 1;
        }
        assert(slots@ =~= self@);
        Ledger { slots }
    }

    fn is_live(&self, i: usize) -> (r: bool)
        ensures
            r == live(self@, i as int),
    {
        i < self.slots.len() && self.slots[i].is_some()
    }

    /// Moves `amount` tokens as `t` says, or rejects the transfer.
    pub fn transfer(&mut self, t: &Transfer, amount: u64) -> (r: Result<(), EscrowError>)
        ensures
            applied(old(self)@, final(self)@, r, transfer_result(old(self)@, *t, amount)),
    {
        if !self.is_live(t.from) || !self.is_live(t.to) {
            return Err(EscrowError::StateError);
        }
        let src = self.slots[t.from].unwrap();
        let dst = self.slots[t.to].unwrap();
        if !src.mint.same(&dst.mint) {
            return Err(EscrowError::ValidationError);
        }
        if !src.authority.same(&t.authority) {
            return Err(EscrowError::AuthorizationError);
        }
        if src.amount < amount {
            return Err(EscrowError::InsufficientFunds);
        }
        if t.from == t.to {
            return Ok(());
        }
        if dst.amount > u64::MAX - amount {
            return Err(EscrowError::Overflow);
        }
        let debited = TokenAccount { address: src.address, mint: src.mint, authority: src.authority, amount: src.amount - amount };
        self.slots.set(t.from, Some(debited));
        let credited = TokenAccount { address: dst.address, mint: dst.mint, authority: dst.authority, amount: dst.amount + amount };
        self.slots.set(t.to, Some(credited));
        Ok(())
    }

    /// Closes an empty account as `c` says, or rejects the closing.
    pub fn close_account(&mut self, c: &CloseAccount) -> (r: Result<(), EscrowError>)
        ensures
            applied(old(self)@, final(self)@, r, close_result(old(self)@, *c)),
    {
        if !self.is_live(c.account) {
            return Err(EscrowError::StateError);
        }
        let a = self.slots[c.account].unwrap();
        if !a.authority.same(&c.authority) {
            return Err(EscrowError::AuthorizationError);
        }
        if a.amount != 0 {
            return Err(EscrowError::NonZeroBalance);
        }
        self.slots.set(c.account, None);
        Ok(())
    }

    /// Opens an empty account in the free slot `slot`, or rejects it.
    pub fn create_account(&mut self, slot: usize, address: Key, mint: Key, authority: Key) -> (r: Result<(), EscrowError>)
        ensures
            applied(old(self)@, final(self)@, r, create_result(old(self)@, slot as int, address, mint, authority)),
    {
        if slot >= self.slots.len() || self.slots[slot].is_some() {
            return Err(EscrowError::StateError);
        }
        self.slots.set(slot, Some(TokenAccount { address, mint, authority, amount: 0 }));
        Ok(())
    }
}

} // verus!
