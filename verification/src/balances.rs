//! The balances module: account balances and funds transfer with
//! overflow/underflow safety.

use vstd::prelude::*;
use vstd::hash_map::StringHashMap;

verus! {

/// The errors the balances module can report.
#[derive(Clone, Copy, Debug, PartialEq, Eq)]
pub enum Error {
    /// The transfer amount exceeds the sender's balance.
    InsufficientBalance,
    /// Adding the amount to the recipient's balance would overflow.
    Overflow,
}

/// The balance recorded for `account` in `m`; an absent account has
/// balance zero.
pub open spec fn balance_in(m: Map<Seq<char>, u128>, account: Seq<char>) -> u128 {
    if m.contains_key(account) {
        m[account]
    } else {
        0u128
    }
}

/// Whether a transfer of `amount` from `caller` to `to` can go through on
/// the ledger `m`: the sender can afford it and the recipient's balance
/// does not overflow.  The recipient's balance is the one read before any
/// update, also when `caller` and `to` coincide.
pub open spec fn transfer_allowed(
    m: Map<Seq<char>, u128>,
    caller: Seq<char>,
    to: Seq<char>,
    amount: u128,
) -> bool {
    &&& amount <= balance_in(m, caller)
    &&& balance_in(m, to) + amount <= u128::MAX
}

/// The ledger after a transfer attempt.  A rejected transfer changes
/// nothing; a self-transfer nets to a no-op; otherwise the sender's
/// balance drops by `amount` and the recipient's rises by `amount`.
pub open spec fn transfer_updates(
    m: Map<Seq<char>, u128>,
    caller: Seq<char>,
    to: Seq<char>,
    amount: u128,
) -> Map<Seq<char>, u128> {
    if !transfer_allowed(m, caller, to, amount) {
        m
    } else if caller == to {
        m
    } else {
        m.insert(caller, (balance_in(m, caller) - amount) as u128).insert(
            to,
            (balance_in(m, to) + amount) as u128,
        )
    }
}

/// The result a transfer attempt reports: insufficient balance is checked
/// first, then recipient overflow.
pub open spec fn transfer_outcome(
    m: Map<Seq<char>, u128>,
    caller: Seq<char>,
    to: Seq<char>,
    amount: u128,
) -> Result<(), Error> {
    if amount > balance_in(m, caller) {
        Err(Error::InsufficientBalance)
    } else if balance_in(m, to) + amount > u128::MAX {
        Err(Error::Overflow)
    } else {
        Ok(())
    }
}

/// The ledger of account balances.
pub struct Pallet {
    balance: StringHashMap<u128>,
}

/// The calls this module answers to.
pub enum Call {
    /// Move `amount` from the caller's balance to `to`'s.
    Transfer { to: String, amount: u128 },
}

impl Pallet {
    /// The stored balance map, keyed by account identifier.
    pub closed spec fn balances(self) -> Map<Seq<char>, u128> {
        self.balance@
    }

    /// The balance of `account`, zero when the account has none recorded.
    pub open spec fn balance_of(self, account: Seq<char>) -> u128 {
        balance_in(self.balances(), account)
    }

    /// An empty ledger: every account has balance zero.
    pub fn new() -> (r: Self)
        ensures
            r.balances() == Map::<Seq<char>, u128>::empty(),
            forall|a: Seq<char>| r.balance_of(a) == 0,
    {
        Pallet { balance: StringHashMap::new() }
    }

    /// Unconditionally overwrites the stored balance of `account`.  This is
    /// the privileged genesis path; it bypasses dispatch and performs no
    /// validation.
    pub fn set_balance(&mut self, account: &String, amount: u128)
        ensures
            final(self).balances() == old(self).balances().insert(account@, amount),
    {
        self.balance.insert(account.clone(), amount);
    }

    /// The balance of `account`, zero if absent; reads only.
    pub fn get_balance(&self, account: &String) -> (r: u128)
        ensures
            r == self.balance_of(account@),
    {
        match self.balance.get(account.as_str()) {
            Some(b) => *b,
            None => 0,
        }
    }

    /// Moves `amount` from `caller` to `to`.
    ///
    /// The transfer succeeds exactly when the caller can afford it and the
    /// recipient's balance does not overflow; on failure the ledger is
    /// untouched, and on success both balances change together (a
    /// self-transfer nets to a no-op).
    pub fn transfer(&mut self, caller: String, to: String, amount: u128) -> (r: Result<
        (),
        Error,
    >)
        ensures
            r == transfer_outcome(old(self).balances(), caller@, to@, amount),
            final(self).balances() == transfer_updates(old(self).balances(), caller@, to@, amount),
            r is Ok <==> transfer_allowed(old(self).balances(), caller@, to@, amount),
            r is Err ==> final(self).balances() == old(self).balances(),
    {
        let caller_balance = self.get_balance(&caller);
        let to_balance = self.get_balance(&to);

        let new_caller_balance = match caller_balance.checked_sub(amount) {
            Some(v) => v,
            None => {
                return Err(Error::InsufficientBalance);
            },
        };
        let new_to_balance = match to_balance.checked_add(amount) {
            Some(v) => v,
            None => {
                return Err(Error::Overflow);
            },
        };

        // A self-transfer subtracts and adds the same amount back: once both
        // checks have passed, it must leave the ledger as it stands.
        if !caller.eq(&to) {
            self.set_balance(&caller, new_caller_balance);
            self.set_balance(&to, new_to_balance);
        }
        Ok(())
    }

    /// Routes a call of this module to the method that executes it.
    pub fn dispatch(&mut self, caller: String, call: Call) -> (r: Result<(), Error>)
        ensures
            (match call {
                Call::Transfer { to, amount } => {
                    &&& r == transfer_outcome(old(self).balances(), caller@, to@, amount)
                    &&& final(self).balances() == transfer_updates(
                        old(self).balances(),
                        caller@,
                        to@,
                        amount,
                    )
                },
            }),
    {
        match call {
            Call::Transfer { to, amount } => self.transfer(caller, to, amount),
        }
    }
}

/// What a permitted transfer does to individual balances: between distinct
/// accounts the sender's balance drops by `amount`, the recipient's rises by
/// `amount`, and their sum is conserved; a self-transfer leaves the ledger
/// unchanged; accounts other than the two parties are never touched.
pub proof fn lemma_transfer_effects(
    m: Map<Seq<char>, u128>,
    caller: Seq<char>,
    to: Seq<char>,
    amount: u128,
)
    requires
        transfer_allowed(m, caller, to, amount),
    ensures
        caller != to ==> balance_in(transfer_updates(m, caller, to, amount), caller) == balance_in(
            m,
            caller,
        ) - amount,
        caller != to ==> balance_in(transfer_updates(m, caller, to, amount), to) == balance_in(
            m,
            to,
        ) + amount,
        balance_in(transfer_updates(m, caller, to, amount), caller) + balance_in(
            transfer_updates(m, caller, to, amount),
            to,
        ) == balance_in(m, caller) + balance_in(m, to),
        caller == to ==> transfer_updates(m, caller, to, amount) == m,
        forall|x: Seq<char>|
            x != caller && x != to ==> balance_in(transfer_updates(m, caller, to, amount), x)
                == balance_in(m, x),
{
}

} // verus!
