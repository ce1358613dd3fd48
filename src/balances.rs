use vstd::prelude::*;
use crate::keymap::KeyMap;
use crate::support::{DispatchError, DispatchResult};
use crate::types::{AccountId, Balance};

verus! {

/// The balance that a ledger records for `who`; an account never written holds nothing.
pub open spec fn balance_of(m: Map<Seq<char>, u128>, who: Seq<char>) -> u128 {
    if m.contains_key(who) {
        m[who]
    } else {
        0
    }
}

/// Whether moving `amount` from `caller` to `to` is allowed, and if not, why.
pub open spec fn transfer_outcome(
    m: Map<Seq<char>, u128>,
    caller: Seq<char>,
    to: Seq<char>,
    amount: u128,
) -> Result<(), DispatchError> {
    if balance_of(m, caller) < amount {
        Err(DispatchError::InsufficientFunds)
    } else if balance_of(m, to) + amount > u128::MAX {
        Err(DispatchError::Overflow)
    } else {
        Ok(())
    }
}

/// The ledger after moving `amount` from `caller` to `to`, when that is allowed.
pub open spec fn transferred(
    m: Map<Seq<char>, u128>,
    caller: Seq<char>,
    to: Seq<char>,
    amount: u128,
) -> Map<Seq<char>, u128> {
    if caller == to {
        m
    } else {
        m.insert(caller, (balance_of(m, caller) - amount) as u128).insert(
            to,
            (balance_of(m, to) + amount) as u128,
        )
    }
}

/// The ledger as a whole after a transfer: changed on success, untouched on failure.
pub open spec fn after_transfer(
    m: Map<Seq<char>, u128>,
    caller: Seq<char>,
    to: Seq<char>,
    amount: u128,
) -> Map<Seq<char>, u128> {
    if transfer_outcome(m, caller, to, amount) is Ok {
        transferred(m, caller, to, amount)
    } else {
        m
    }
}

/// The calls that the account ledger accepts.
#[allow(non_camel_case_types)]
pub enum Call {
    transfer { to: AccountId, amount: Balance },
}

/// The account ledger: what each account holds.
pub struct Pallet {
    balances: KeyMap<Balance>,
}

impl View for Pallet {
    type V = Map<Seq<char>, u128>;

    closed spec fn view(&self) -> Map<Seq<char>, u128> {
        self.balances@
    }
}

impl Pallet {
    pub closed spec fn wf(&self) -> bool {
        self.balances.wf()
    }

    pub fn new() -> (r: Self)
        ensures
            r.wf(),
            r@ == Map::<Seq<char>, u128>::empty(),
    {
        Pallet { balances: KeyMap::new() }
    }

    /// Overwrites the balance of `who`.
    pub fn set_balance(&mut self, who: &AccountId, amount: Balance)
        requires
            old(self).wf(),
        ensures
            final(self).wf(),
            final(self)@ == old(self)@.insert(who@, amount),
    {
        self.balances.insert(who.clone(), amount);
    }

    /// The balance of `who`, zero where nothing was ever written.
    pub fn balance(&self, who: &AccountId) -> (r: Balance)
        requires
            self.wf(),
        ensures
            r == balance_of(self@, who@),
            !self@.contains_key(who@) ==> r == 0,
    {
        match self.balances.get(who) {
            Some(b) => *b,
            None => 0,
        }
    }

    /// Moves `amount` from `caller` to `to`; on failure nothing changes.
    pub fn transfer(&mut self, caller: AccountId, to: AccountId, amount: Balance) -> (r:
        DispatchResult)
        requires
            old(self).wf(),
        ensures
            final(self).wf(),
            r == transfer_outcome(old(self)@, caller@, to@, amount),
            final(self)@ == after_transfer(old(self)@, caller@, to@, amount),
            balance_of(old(self)@, caller@) < amount ==> r == Err::<(), DispatchError>(
                DispatchError::InsufficientFunds,
            ) && final(self)@ == old(self)@,
    {
        let c = self.balance(&caller);
        let t = self.balance(&to);
        let new_caller_balance = match c.checked_sub(amount) {
            Some(b) => b,
            None => return Err(DispatchError::InsufficientFunds),
        };
        let new_to_balance = match t.checked_add(amount) {
            Some(b) => b,
            None => return Err(DispatchError::Overflow),
        };
        if caller != to {
            self.set_balance(&caller, new_caller_balance);
            self.set_balance(&to, new_to_balance);
        }
        Ok(())
    }

    /// Routes a call of this ledger to the operation that it names.
    pub fn dispatch(&mut self, caller: &AccountId, call: &Call) -> (r: DispatchResult)
        requires
            old(self).wf(),
        ensures
            final(self).wf(),
            match *call {
                Call::transfer { to, amount } => r == transfer_outcome(
                    old(self)@,
                    caller@,
                    to@,
                    amount,
                ) && final(self)@ == after_transfer(old(self)@, caller@, to@, amount),
            },
    {
        match call {
            Call::transfer { to, amount } => self.transfer(caller.clone(), to.clone(), *amount),
        }
    }
}

/// A successful transfer neither creates nor destroys funds: the two accounts hold
/// together after it what they held together before it.
pub proof fn lemma_transfer_conserves(
    m: Map<Seq<char>, u128>,
    caller: Seq<char>,
    to: Seq<char>,
    amount: u128,
)
    requires
        transfer_outcome(m, caller, to, amount) is Ok,
    ensures
        ({
            let n = transferred(m, caller, to, amount);
            balance_of(m, caller) + balance_of(m, to) == balance_of(n, caller) + balance_of(
                n,
                to,
            )
        }),
{
}

} // verus!
