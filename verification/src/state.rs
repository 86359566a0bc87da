use vstd::prelude::*;
use crate::address::Address;
use crate::derivation::{DerivationProof, escrow_tag, escrow_tag_bytes};
use crate::errors::{LedgerError, VaultError};

verus! {

/// The per-owner record of a vault: who controls it, how much it tracks, and
/// the bump that re-derives its escrow address.
#[derive(Debug, Clone, Copy, PartialEq, Eq)]
pub struct VaultState {
    pub owner: Address,
    pub balance: u64,
    pub vault_bump: u8,
}

impl VaultState {
    /// Why a deposit of `amount` by `caller` is refused before any value
    /// moves, if it is.
    pub open spec fn deposit_admission(&self, caller: Seq<u8>, amount: u64) -> Option<VaultError> {
        if amount == 0 {
            Some(VaultError::InvalidAmount)
        } else if caller != self.owner@ {
            Some(VaultError::Ledger(LedgerError::Unauthorized))
        } else {
            None
        }
    }

    /// Why a deposit of `amount` by `caller` is refused, if it is.
    pub open spec fn deposit_refusal(&self, caller: Seq<u8>, amount: u64) -> Option<VaultError> {
        if amount == 0 {
            Some(VaultError::InvalidAmount)
        } else if caller != self.owner@ {
            Some(VaultError::Ledger(LedgerError::Unauthorized))
        } else if self.balance + amount > u64::MAX {
            Some(VaultError::Overflow)
        } else {
            None
        }
    }

    /// Why a withdrawal of `amount` by `caller` is refused, if it is.
    pub open spec fn withdraw_refusal(&self, caller: Seq<u8>, amount: u64) -> Option<VaultError> {
        if amount == 0 {
            Some(VaultError::InvalidAmount)
        } else if caller != self.owner@ {
            Some(VaultError::Ledger(LedgerError::Unauthorized))
        } else if amount > self.balance {
            Some(VaultError::InsufficientBalance)
        } else {
            None
        }
    }

    /// Why closing by `caller` is refused, if it is.
    pub open spec fn close_refusal(&self, caller: Seq<u8>) -> Option<VaultError> {
        if caller != self.owner@ {
            Some(VaultError::Ledger(LedgerError::Unauthorized))
        } else if self.balance != 0 {
            Some(VaultError::VaultNotEmpty)
        } else {
            None
        }
    }

    /// This record with `amount` added to its balance.
    pub open spec fn deposited(&self, amount: u64) -> VaultState {
        VaultState { owner: self.owner, balance: (self.balance + amount) as u64, vault_bump: self.vault_bump }
    }

    /// This record with `amount` taken off its balance.
    pub open spec fn withdrawn(&self, amount: u64) -> VaultState {
        VaultState { owner: self.owner, balance: (self.balance - amount) as u64, vault_bump: self.vault_bump }
    }

    /// A fresh record for `owner`: nothing tracked yet.
    pub fn initialize(owner: Address, vault_bump: u8) -> (s: VaultState)
        ensures
            s.owner == owner,
            s.balance == 0,
            s.vault_bump == vault_bump,
    {
        VaultState { owner, balance: 0, vault_bump }
    }

    /// Decides whether `caller` may start a deposit of `amount`: the test that
    /// comes before the transfer into the escrow account.
    pub fn check_deposit(&self, caller: &Address, amount: u64) -> (r: Result<(), VaultError>)
        ensures
            match r {
                Ok(()) => self.deposit_admission(caller@, amount) is None,
                Err(e) => self.deposit_admission(caller@, amount) == Some(e),
            },
    {
        if amount == 0 {
            return Err(VaultError::InvalidAmount);
        }
        if !caller.same(&self.owner) {
            return Err(VaultError::Ledger(LedgerError::Unauthorized));
        }
        Ok(())
    }

    /// Records a deposit of `amount` made by `caller`.
    pub fn deposit(&mut self, caller: &Address, amount: u64) -> (r: Result<(), VaultError>)
        ensures
            match r {
                Ok(()) => old(self).deposit_refusal(caller@, amount) is None
                    && final(self).balance == old(self).balance + amount
                    && *final(self) == old(self).deposited(amount),
                Err(e) => old(self).deposit_refusal(caller@, amount) == Some(e) && *final(self) == *old(self),
            },
    {
        if amount == 0 {
            return Err(VaultError::InvalidAmount);
        }
        if !caller.same(&self.owner) {
            return Err(VaultError::Ledger(LedgerError::Unauthorized));
        }
        match self.balance.checked_add(amount) {
            Some(sum) => {
                self.balance = sum;
                Ok(())
            },
            None => Err(VaultError::Overflow),
        }
    }

    /// Records a withdrawal of `amount` made by `caller`.
    pub fn withdraw(&mut self, caller: &Address, amount: u64) -> (r: Result<(), VaultError>)
        ensures
            match r {
                Ok(()) => old(self).withdraw_refusal(caller@, amount) is None
                    && final(self).balance == old(self).balance - amount
                    && *final(self) == old(self).withdrawn(amount),
                Err(e) => old(self).withdraw_refusal(caller@, amount) == Some(e) && *final(self) == *old(self),
            },
    {
        if amount == 0 {
            return Err(VaultError::InvalidAmount);
        }
        if !caller.same(&self.owner) {
            return Err(VaultError::Ledger(LedgerError::Unauthorized));
        }
        if amount > self.balance {
            return Err(VaultError::InsufficientBalance);
        }
        self.balance = self.balance - amount;
        Ok(())
    }

    /// Decides whether `caller` may close this vault.
    pub fn close(&self, caller: &Address) -> (r: Result<(), VaultError>)
        ensures
            match r {
                Ok(()) => self.close_refusal(caller@) is None,
                Err(e) => self.close_refusal(caller@) == Some(e),
            },
    {
        if !caller.same(&self.owner) {
            return Err(VaultError::Ledger(LedgerError::Unauthorized));
        }
        if self.balance != 0 {
            return Err(VaultError::VaultNotEmpty);
        }
        Ok(())
    }

    /// The proof that authorizes transfers out of this vault's escrow account,
    /// for the record stored at `state_address`.
    pub fn escrow_proof(&self, state_address: &Address) -> (p: DerivationProof)
        ensures
            p.tag@ == escrow_tag(),
            p.seed_key@ == state_address@,
            p.bump == self.vault_bump,
    {
        DerivationProof { tag: escrow_tag_bytes(), seed_key: *state_address, bump: self.vault_bump }
    }
}

} // verus!
