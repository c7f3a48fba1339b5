//! A model of the wrapped token's balances, which a test scenario keeps
//! alongside its calls to the deployed contract and compares with what the
//! chain reports.
use vstd::prelude::*;
use crate::amount::{Amount, max_amount};

verus! {

/// A 160-bit account address: the high 32 bits and the low 128 bits.
#[derive(Clone, Copy, Debug, PartialEq, Eq, Structural)]
pub struct AccountId {
    pub hi: u32,
    pub lo: u128,
}

/// Why a deposit or a transfer was refused; balances are then unchanged.
#[derive(Clone, Copy, Debug, PartialEq, Eq, Structural)]
pub enum LedgerError {
    /// The sender holds less than the amount to move.
    InsufficientBalance,
    /// The receiving balance would exceed 2^256 - 1.
    Overflow,
}

/// The token balance of every account; accounts never seen hold zero.
pub struct TokenLedger {
    entries: Vec<(AccountId, Amount)>,
    model: Ghost<Map<AccountId, nat>>,
}

impl View for TokenLedger {
    type V = Map<AccountId, nat>;

    closed spec fn view(&self) -> Map<AccountId, nat> {
        self.model@
    }
}

impl TokenLedger {
    /// The balance of `who`.
    pub open spec fn balance(&self, who: AccountId) -> nat {
        if self@.contains_key(who) {
            self@[who]
        } else {
            0
        }
    }

    /// Each account has at most one entry, and the entries are exactly the model.
    pub closed spec fn wf(&self) -> bool {
        &&& forall|i: int|
            0 <= i < self.entries.len() ==> #[trigger] self.model@.contains_key(self.entries[i].0)
                && self.model@[self.entries[i].0] == self.entries[i].1.value()
        &&& forall|i: int, j: int|
            0 <= i < self.entries.len() && 0 <= j < self.entries.len() && i != j
                ==> #[trigger] self.entries[i].0 != #[trigger] self.entries[j].0
        &&& forall|a: AccountId|
            #[trigger] self.model@.contains_key(a) ==> exists|i: int|
                0 <= i < self.entries.len() && #[trigger] self.entries[i].0 == a
    }

    /// A ledger in which every balance is zero.
    pub fn new() -> (r: TokenLedger)
        ensures
            r.wf(),
            forall|x: AccountId| r.balance(x) == 0,
    {
        TokenLedger { entries: Vec::new(), model: Ghost(Map::empty()) }
    }

    fn find(&self, who: AccountId) -> (r: Option<usize>)
        requires
            self.wf(),
        ensures
            r matches Some(i) ==> i < self.entries.len() && self.entries[i as int].0 == who,
            r is None ==> !self@.contains_key(who),
    {
        let mut i: usize = 0;
        while i < self.entries.len()
            invariant
                i <= self.entries.len(),
                forall|k: int| 0 <= k < i ==> self.entries[k].0 != who,
            decreases self.entries.len() - i,
        {
            if self.entries[i].0 == who {
                return Some(i);
            }
            i = i + 1;
        }
        None
    }

    /// The balance of `who`, as an amount.
    pub fn balance_of(&self, who: AccountId) -> (r: Amount)
        requires
            self.wf(),
        ensures
            r.value() == self.balance(who),
    {
        match self.find(who) {
            Some(i) => self.entries[i].1,
            None => Amount::zero(),
        }
    }

    fn set_balance(&mut self, who: AccountId, amount: Amount)
        requires
            old(self).wf(),
        ensures
            final(self).wf(),
            final(self)@ == old(self)@.insert(who, amount.value()),
    {
        let ghost prev = self.entries@;
        let ghost slot: int;
        match self.find(who) {
            Some(i) => {
                self.entries.set(i, (who, amount));
                proof {
                    slot = i as int;
                }
            },
            None => {
                self.entries.push((who, amount));
                proof {
                    slot = prev.len() as int;
                }
            },
        }
        assert(0 <= slot < self.entries.len() && self.entries[slot] == (who, amount));
        assert(forall|j: int|
            0 <= j < self.entries.len() && j != slot ==> j < prev.len() && #[trigger] self.entries[j]
                == prev[j]);
        assert(forall|j: int| 0 <= j < prev.len() && j != slot ==> #[trigger] prev[j].0 != who);
        self.model = Ghost(self.model@.insert(who, amount.value()));
        assert forall|a: AccountId| #[trigger] self.model@.contains_key(a) implies exists|k: int|
            0 <= k < self.entries.len() && #[trigger] self.entries[k].0 == a by {
            if a == who {
                assert(self.entries[slot].0 == a);
            } else {
                assert(old(self).model@.contains_key(a));
                let k = choose|k: int| 0 <= k < prev.len() && #[trigger] prev[k].0 == a;
                assert(self.entries[k].0 == a);
            }
        }
    }

    /// Records a deposit of `value` native units by `who`, which mints as many
    /// tokens to `who`. Refused only where the new balance would not fit in
    /// 256 bits.
    pub fn deposit(&mut self, who: AccountId, value: u128) -> (r: Result<(), LedgerError>)
        requires
            old(self).wf(),
        ensures
            final(self).wf(),
            r is Ok <==> old(self).balance(who) + value <= max_amount(),
            r is Err ==> r == Err::<(), LedgerError>(LedgerError::Overflow),
            r is Ok ==> final(self).balance(who) == old(self).balance(who) + value,
            r is Ok ==> forall|x: AccountId|
                x != who ==> #[trigger] final(self).balance(x) == old(self).balance(x),
            r is Err ==> forall|x: AccountId| #[trigger]
                final(self).balance(x) == old(self).balance(x),
    {
        let current = self.balance_of(who);
        match current.checked_add(&Amount::from_u128(value)) {
            Some(sum) => {
                self.set_balance(who, sum);
                Ok(())
            },
            None => Err(LedgerError::Overflow),
        }
    }

    /// Records a transfer of `amount` tokens from `from` to `to`.
    /// Refused where `from` holds less than `amount`, or where the balance of
    /// `to` would not fit in 256 bits; a refused transfer changes nothing.
    pub fn transfer(&mut self, from: AccountId, to: AccountId, amount: Amount) -> (r: Result<
        (),
        LedgerError,
    >)
        requires
            old(self).wf(),
        ensures
            final(self).wf(),
            r is Ok <==> amount.value() <= old(self).balance(from) && (from == to || old(
                self,
            ).balance(to) + amount.value() <= max_amount()),
            r == Err::<(), LedgerError>(LedgerError::InsufficientBalance) <==> old(self).balance(
                from,
            ) < amount.value(),
            r == Err::<(), LedgerError>(LedgerError::Overflow) <==> amount.value() <= old(
                self,
            ).balance(from) && from != to && old(self).balance(to) + amount.value() > max_amount(),
            r is Ok ==> forall|x: AccountId| #[trigger]
                final(self).balance(x) == transferred_balance(old(self), from, to, amount.value(), x),
            r is Ok && from != to ==> final(self).balance(from) == old(self).balance(from)
                - amount.value() && final(self).balance(to) == old(self).balance(to)
                + amount.value(),
            amount.value() == 0 ==> r is Ok && forall|x: AccountId| #[trigger]
                final(self).balance(x) == old(self).balance(x),
            r is Err ==> forall|x: AccountId| #[trigger]
                final(self).balance(x) == old(self).balance(x),
    {
        let held = self.balance_of(from);
        let rest = match held.checked_sub(&amount) {
            Some(rest) => rest,
            None => {
                return Err(LedgerError::InsufficientBalance);
            },
        };
        if from == to {
            return Ok(());
        }
        let received = self.balance_of(to);
        let total = match received.checked_add(&amount) {
            Some(total) => total,
            None => {
                return Err(LedgerError::Overflow);
            },
        };
        self.set_balance(from, rest);
        self.set_balance(to, total);
        Ok(())
    }
}

/// The balance of `x` once `a` tokens have moved from `from` to `to` in `l`.
pub open spec fn transferred_balance(
    l: &TokenLedger,
    from: AccountId,
    to: AccountId,
    a: nat,
    x: AccountId,
) -> nat {
    if from == to {
        l.balance(x)
    } else if x == from {
        (l.balance(from) - a) as nat
    } else if x == to {
        l.balance(to) + a
    } else {
        l.balance(x)
    }
}

} // verus!
