//! The engine's model of the external value-transfer service: a ledger of
//! account balances, with an all-or-nothing transfer between accounts.

use vstd::prelude::*;

use crate::store::Store;

verus! {

/// Why a transfer could not be completed. Every failure leaves the ledger
/// unchanged.
#[derive(Clone, Copy, PartialEq, Eq, Debug)]
pub enum LedgerError {
    /// The requested amount was negative.
    NegativeAmount,
    /// The source account holds less than the requested amount.
    InsufficientBalance,
    /// The destination balance would exceed the largest representable value.
    BalanceOverflow,
}

/// Account balances, keyed by account number. An account never written to
/// holds a balance of zero.
pub struct Ledger {
    balances: Store<i128>,
}

/// The balance of account `a` in ledger state `lg`: its recorded balance,
/// or zero if none was ever recorded.
pub open spec fn bal(lg: Map<u64, i128>, a: u64) -> int {
    if lg.contains_key(a) {
        lg[a] as int
    } else {
        0
    }
}

/// Whether moving `amount` from `from` to `to` can complete on ledger
/// state `lg`: the amount is non-negative, the source balance covers it,
/// and the destination balance stays representable.
pub open spec fn transfer_ok(lg: Map<u64, i128>, from: u64, to: u64, amount: i128) -> bool {
    &&& 0 <= amount
    &&& amount <= bal(lg, from)
    &&& from != to ==> bal(lg, to) + amount <= i128::MAX
}

/// The ledger state after a completed transfer of `amount` from `from` to
/// `to`: the source is debited and the destination credited, and a transfer
/// within one account changes nothing.
pub open spec fn transfer_upd(lg: Map<u64, i128>, from: u64, to: u64, amount: i128) -> Map<
    u64,
    i128,
> {
    if from == to {
        lg
    } else {
        lg.insert(from, (bal(lg, from) - amount) as i128).insert(
            to,
            (bal(lg, to) + amount) as i128,
        )
    }
}

impl View for Ledger {
    type V = Map<u64, i128>;

    closed spec fn view(&self) -> Map<u64, i128> {
        self.balances@
    }
}

impl Ledger {
    /// An empty ledger: every account holds zero.
    pub fn new() -> (lg: Ledger)
        ensures
            lg@ == Map::<u64, i128>::empty(),
    {
        Ledger { balances: Store::new() }
    }

    /// Sets the recorded balance of `account` to `amount`, standing for
    /// whatever deposits or withdrawals happen outside the escrow protocol.
    pub fn set_balance(&mut self, account: u64, amount: i128)
        ensures
            final(self)@ == old(self)@.insert(account, amount),
            bal(final(self)@, account) == amount,
    {
        self.balances.put(account, amount);
    }

    /// The balance of `account`.
    pub fn balance_of(&self, account: u64) -> (b: i128)
        ensures
            b as int == bal(self@, account),
    {
        match self.balances.get(account) {
            Some(b) => b,
            None => 0,
        }
    }

    /// Moves `amount` from `from` to `to`, all or nothing: on success the
    /// source is debited and the destination credited; on failure the
    /// ledger is unchanged, and the error says exactly why. Succeeds if
    /// and only if the transfer can complete on the current state.
    pub fn transfer(&mut self, from: u64, to: u64, amount: i128) -> (r: Result<(), LedgerError>)
        ensures
            r is Ok <==> transfer_ok(old(self)@, from, to, amount),
            r is Ok ==> final(self)@ == transfer_upd(old(self)@, from, to, amount),
            r is Err ==> final(self)@ == old(self)@,
            r == Err::<(), LedgerError>(LedgerError::NegativeAmount) <==> amount < 0,
            r == Err::<(), LedgerError>(LedgerError::InsufficientBalance) <==> (0 <= amount
                && bal(old(self)@, from) < amount),
            r == Err::<(), LedgerError>(LedgerError::BalanceOverflow) <==> (0 <= amount && amount
                <= bal(old(self)@, from) && from != to && bal(old(self)@, to) + amount
                > i128::MAX),
    {
        if amount < 0 {
            return Err(LedgerError::NegativeAmount);
        }
        let from_bal = self.balance_of(from);
        if from_bal < amount {
            return Err(LedgerError::InsufficientBalance);
        }
        if from == to {
            return Ok(());
        }
        let to_bal = self.balance_of(to);
        if to_bal > i128::MAX - amount {
            return Err(LedgerError::BalanceOverflow);
        }
        self.balances.put(from, from_bal - amount);
        self.balances.put(to, to_bal + amount);
        Ok(())
    }
}

} // verus!
