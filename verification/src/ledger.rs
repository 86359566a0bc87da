use vstd::prelude::*;
use crate::address::Address;
use crate::derivation::{DerivationProof, address_bytes, proves_control, rederive};
use crate::errors::LedgerError;

verus! {

/// One value-holding account of the ledger.
#[derive(Debug, Clone, Copy, PartialEq, Eq)]
pub struct Holding {
    pub address: Address,
    pub value: u64,
}

/// The value that every account holds. An address that was never credited
/// holds nothing.
pub struct Ledger {
    holdings: Vec<Holding>,
}

/// Whether `a` is the address of row `i` of `rows`.
pub open spec fn row_of(rows: Seq<Holding>, a: Seq<u8>, i: int) -> bool {
    0 <= i < rows.len() && rows[i].address@ == a
}

impl Ledger {
    /// No address occurs in two rows.
    pub closed spec fn wf(&self) -> bool {
        forall|i: int, j: int|
            0 <= i < j < self.holdings@.len() ==> self.holdings@[i].address@ != self.holdings@[j].address@
    }

    /// The value held at address `a`.
    pub closed spec fn held(&self, a: Seq<u8>) -> nat {
        if exists|i: int| row_of(self.holdings@, a, i) {
            self.holdings@[choose|i: int| row_of(self.holdings@, a, i)].value as nat
        } else {
            0
        }
    }

    /// Why moving `amount` from `from` to `to` is refused, if it is.
    pub open spec fn transfer_refusal(&self, from: Seq<u8>, to: Seq<u8>, amount: u64) -> Option<LedgerError> {
        if self.held(from) < amount {
            Some(LedgerError::InsufficientFunds)
        } else if from != to && self.held(to) + amount > u64::MAX {
            Some(LedgerError::BalanceOverflow)
        } else {
            None
        }
    }

    /// What address `a` holds once `amount` has moved from `from` to `to`.
    pub open spec fn held_after(&self, from: Seq<u8>, to: Seq<u8>, amount: u64, a: Seq<u8>) -> int {
        if from == to {
            self.held(a) as int
        } else if a == from {
            self.held(a) - amount
        } else if a == to {
            self.held(a) + amount
        } else {
            self.held(a) as int
        }
    }

    /// Whether `self` is `before` with `amount` moved from `from` to `to`.
    pub open spec fn moved_from(&self, before: &Ledger, from: Seq<u8>, to: Seq<u8>, amount: u64) -> bool {
        forall|a: Seq<u8>| #[trigger] self.held(a) == before.held_after(from, to, amount, a)
    }

    /// Why a transfer is refused that is authorized by a derivation whose
    /// outcome is `derived`, if it is.
    pub open spec fn proved_transfer_refusal(
        &self,
        from: Seq<u8>,
        to: Seq<u8>,
        amount: u64,
        derived: Option<Seq<u8>>,
    ) -> Option<LedgerError> {
        if derived != Some(from) {
            Some(LedgerError::InvalidProof)
        } else {
            self.transfer_refusal(from, to, amount)
        }
    }

    /// No account holds more than the 64-bit range.
    pub proof fn lemma_held_bounded(&self, a: Seq<u8>)
        ensures
            self.held(a) <= u64::MAX,
    {
    }

    proof fn lemma_held_at(&self, i: int)
        requires
            self.wf(),
            0 <= i < self.holdings@.len(),
        ensures
            self.held(self.holdings@[i].address@) == self.holdings@[i].value,
    {
        let a = self.holdings@[i].address@;
        assert(row_of(self.holdings@, a, i));
    }

    proof fn lemma_held_absent(&self, a: Seq<u8>)
        requires
            forall|j: int| 0 <= j < self.holdings@.len() ==> self.holdings@[j].address@ != a,
        ensures
            self.held(a) == 0,
    {
    }

    /// An empty ledger: every address holds nothing.
    pub fn new() -> (l: Ledger)
        ensures
            l.wf(),
            forall|a: Seq<u8>| #[trigger] l.held(a) == 0,
    {
        Ledger { holdings: Vec::new() }
    }

    fn position(&self, a: &Address) -> (r: Option<usize>)
        ensures
            match r {
                Some(i) => row_of(self.holdings@, a@, i as int),
                None => forall|j: int| 0 <= j < self.holdings@.len() ==> self.holdings@[j].address@ != a@,
            },
    {
        let mut i: usize = 0;
        while i < self.holdings.len()
            invariant
                i <= self.holdings@.len(),
                forall|j: int| 0 <= j < i ==> self.holdings@[j].address@ != a@,
            decreases self.holdings@.len() - i,
        {
            if self.holdings[i].address.same(a) {
                return Some(i);
            }
            i += 1;
        }
        None
    }

    /// The value held at `a`.
    pub fn value_of(&self, a: &Address) -> (v: u64)
        requires
            self.wf(),
        ensures
            v == self.held(a@),
    {
        match self.position(a) {
            Some(i) => {
                proof {
                    self.lemma_held_at(i as int);
                }
                self.holdings[i].value
            },
            None => {
                proof {
                    self.lemma_held_absent(a@);
                }
                0
            },
        }
    }

    fn put(&mut self, a: &Address, v: u64)
        requires
            old(self).wf(),
        ensures
            final(self).wf(),
            forall|b: Seq<u8>| #[trigger]
                final(self).held(b) == (if b == a@ {
                    v as nat
                } else {
                    old(self).held(b)
                }),
    {
        let ghost before = *self;
        let at = self.position(a);
        match at {
            Some(i) => {
                self.holdings.set(i, Holding { address: *a, value: v });
            },
            None => {
                self.holdings.push(Holding { address: *a, value: v });
            },
        }
        proof {
            let k: int = match at {
                Some(i) => i as int,
                None => before.holdings@.len() as int,
            };
            assert(row_of(self.holdings@, a@, k));
            let rows = self.holdings@;
            let prev = before.holdings@;
            assert(self.wf());
            assert forall|b: Seq<u8>| #[trigger]
                self.held(b) == (if b == a@ {
                    v as nat
                } else {
                    before.held(b)
                }) by {
                if exists|i: int| row_of(rows, b, i) {
                    let i = choose|i: int| row_of(rows, b, i);
                    self.lemma_held_at(i);
                    if b != a@ {
                        assert(row_of(prev, b, i));
                        before.lemma_held_at(i);
                    }
                } else {
                    if b != a@ {
                        assert forall|j: int| 0 <= j < prev.len() implies prev[j].address@ != b by {
                            assert(!row_of(rows, b, j));
                        }
                        before.lemma_held_absent(b);
                    }
                }
            }
        }
    }

    /// Credits `amount` to `to` from outside the ledger.
    pub fn fund(&mut self, to: &Address, amount: u64) -> (r: Result<(), LedgerError>)
        requires
            old(self).wf(),
        ensures
            final(self).wf(),
            match r {
                Ok(()) => old(self).held(to@) + amount <= u64::MAX
                    && forall|a: Seq<u8>| #[trigger]
                        final(self).held(a) == (if a == to@ {
                            old(self).held(a) + amount
                        } else {
                            old(self).held(a) as int
                        }),
                Err(e) => e == LedgerError::BalanceOverflow
                    && old(self).held(to@) + amount > u64::MAX
                    && *final(self) == *old(self),
            },
    {
        let have = self.value_of(to);
        match have.checked_add(amount) {
            Some(sum) => {
                self.put(to, sum);
                Ok(())
            },
            None => Err(LedgerError::BalanceOverflow),
        }
    }

    /// Decides, without moving anything, whether a transfer would be refused.
    pub fn check_transfer(&self, from: &Address, to: &Address, amount: u64) -> (r: Option<LedgerError>)
        requires
            self.wf(),
        ensures
            r == self.transfer_refusal(from@, to@, amount),
    {
        if self.value_of(from) < amount {
            return Some(LedgerError::InsufficientFunds);
        }
        if from.same(to) {
            return None;
        }
        match self.value_of(to).checked_add(amount) {
            Some(_) => None,
            None => Some(LedgerError::BalanceOverflow),
        }
    }

    /// Moves `amount` from `from` to `to` on the payer's own authorization.
    pub fn transfer(&mut self, from: &Address, to: &Address, amount: u64) -> (r: Result<(), LedgerError>)
        requires
            old(self).wf(),
        ensures
            final(self).wf(),
            match r {
                Ok(()) => old(self).transfer_refusal(from@, to@, amount) is None
                    && final(self).moved_from(old(self), from@, to@, amount),
                Err(e) => old(self).transfer_refusal(from@, to@, amount) == Some(e)
                    && *final(self) == *old(self),
            },
    {
        let paying = self.value_of(from);
        if paying < amount {
            return Err(LedgerError::InsufficientFunds);
        }
        if from.same(to) {
            return Ok(());
        }
        let receiving = self.value_of(to);
        match receiving.checked_add(amount) {
            Some(sum) => {
                self.put(from, paying - amount);
                self.put(to, sum);
                Ok(())
            },
            None => Err(LedgerError::BalanceOverflow),
        }
    }

    /// Moves `amount` from `from` to `to`, where `from` has no key of its own
    /// and `derived` is what the presented proof re-derives: the transfer is
    /// authorized only if that is `from` exactly.
    pub fn transfer_proved(
        &mut self,
        from: &Address,
        to: &Address,
        amount: u64,
        derived: Option<Address>,
    ) -> (r: Result<(), LedgerError>)
        requires
            old(self).wf(),
        ensures
            final(self).wf(),
            match r {
                Ok(()) => old(self).proved_transfer_refusal(from@, to@, amount, address_bytes(derived)) is None
                    && final(self).moved_from(old(self), from@, to@, amount),
                Err(e) => old(self).proved_transfer_refusal(from@, to@, amount, address_bytes(derived)) == Some(e)
                    && *final(self) == *old(self),
            },
    {
        if !proves_control(derived, from) {
            return Err(LedgerError::InvalidProof);
        }
        self.transfer(from, to, amount)
    }

    /// Moves `amount` from `from` to `to` on the strength of `proof`, which
    /// must re-derive `from` under `program`.
    pub fn transfer_as_derived(
        &mut self,
        from: &Address,
        to: &Address,
        amount: u64,
        proof: &DerivationProof,
        program: &Address,
    ) -> (r: Result<(), LedgerError>)
        requires
            old(self).wf(),
        ensures
            final(self).wf(),
            match r {
                Ok(()) => old(self).proved_transfer_refusal(from@, to@, amount, proof.target(program@)) is None
                    && final(self).moved_from(old(self), from@, to@, amount),
                Err(e) => old(self).proved_transfer_refusal(from@, to@, amount, proof.target(program@)) == Some(e)
                    && *final(self) == *old(self),
            },
    {
        let derived = rederive(proof, program);
        self.transfer_proved(from, to, amount, derived)
    }
}

} // verus!
