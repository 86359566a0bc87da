use vstd::prelude::*;
use crate::address::Address;
use crate::derivation::{
    address_bytes, derived_address, escrow_tag, escrow_tag_bytes, find_program_address, found_address,
    found_bytes, rederive, state_tag, state_tag_bytes,
};
use crate::errors::{LedgerError, VaultError};
use crate::ledger::Ledger;
use crate::state::VaultState;
use crate::table::{VaultAccount, VaultTable};

verus! {

/// Where the vault of `owner` is stored under `program`, and the bump of its
/// escrow address: both come from the runtime's bump search.
pub open spec fn located(owner: Seq<u8>, program: Seq<u8>) -> Option<(Seq<u8>, u8)> {
    match found_address(state_tag(), owner, program) {
        None => None,
        Some((address, _)) => match found_address(escrow_tag(), address, program) {
            None => None,
            Some((_, bump)) => Some((address, bump)),
        },
    }
}

/// The escrow address that the bump search gives for the record stored at
/// `address`.
pub open spec fn escrow_at(address: Seq<u8>, program: Seq<u8>) -> Option<Seq<u8>> {
    match found_address(escrow_tag(), address, program) {
        None => None,
        Some((escrow, _)) => Some(escrow),
    }
}

/// `account` with its tracked balance replaced.
pub open spec fn with_balance(account: VaultAccount, balance: int) -> VaultAccount {
    VaultAccount {
        address: account.address,
        state: VaultState { owner: account.state.owner, balance: balance as u64, vault_bump: account.state.vault_bump },
    }
}

/// The vault operations over a table of records and the ledger that holds
/// the value.
pub struct VaultController {
    program: Address,
    table: VaultTable,
    ledger: Ledger,
}

impl VaultController {
    /// The program under which addresses are derived.
    pub closed spec fn program(&self) -> Seq<u8> {
        self.program@
    }

    /// The stored records.
    pub closed spec fn table(&self) -> VaultTable {
        self.table
    }

    /// The value accounts.
    pub closed spec fn ledger(&self) -> Ledger {
        self.ledger
    }

    /// The record stored for `owner`, if any.
    pub open spec fn vault(&self, owner: Seq<u8>) -> Option<VaultAccount> {
        self.table().get(owner)
    }

    /// The value held at address `a`.
    pub open spec fn held(&self, a: Seq<u8>) -> nat {
        self.ledger().held(a)
    }

    /// Both parts are well formed.
    pub open spec fn wf(&self) -> bool {
        self.table().wf() && self.ledger().wf()
    }

    /// The escrow address of the vault of `owner`, if it has a vault and the
    /// search finds an address for it.
    pub open spec fn escrow_for(&self, owner: Seq<u8>) -> Option<Seq<u8>> {
        match self.vault(owner) {
            None => None,
            Some(account) => escrow_at(account.address@, self.program()),
        }
    }

    /// The address that the stored bump of the vault of `owner` re-derives.
    pub open spec fn proof_for(&self, owner: Seq<u8>) -> Option<Seq<u8>> {
        match self.vault(owner) {
            None => None,
            Some(account) => derived_address(
                escrow_tag(),
                account.address@,
                account.state.vault_bump,
                self.program(),
            ),
        }
    }

    /// Whether the balance tracked for `owner` is what `escrow` holds.
    pub open spec fn in_sync(&self, owner: Seq<u8>, escrow: Seq<u8>) -> bool {
        self.vault(owner) matches Some(account) && account.state.balance == self.held(escrow)
    }

    /// Why creating the vault of `owner` is refused, if it is, where the
    /// search for its addresses gave `place`.
    pub open spec fn create_refusal(&self, owner: Seq<u8>, place: Option<(Seq<u8>, u8)>) -> Option<VaultError> {
        if self.vault(owner) is Some {
            Some(VaultError::Ledger(LedgerError::AccountAlreadyExists))
        } else if place is None {
            Some(VaultError::Ledger(LedgerError::NoDerivableAddress))
        } else {
            None
        }
    }

    /// Why a deposit into `escrow` is refused, if it is. The transfer is
    /// judged before the tracked balance, and an owner that is its own escrow
    /// account cannot authorize.
    pub open spec fn deposit_refusal(&self, owner: Seq<u8>, escrow: Option<Seq<u8>>, amount: u64) -> Option<
        VaultError,
    > {
        if amount == 0 {
            Some(VaultError::InvalidAmount)
        } else {
            match self.vault(owner) {
                None => Some(VaultError::Ledger(LedgerError::AccountNotFound)),
                Some(account) => match account.state.deposit_admission(owner, amount) {
                    Some(e) => Some(e),
                    None => match escrow {
                        None => Some(VaultError::Ledger(LedgerError::NoDerivableAddress)),
                        Some(to) => if to == owner {
                            Some(VaultError::Ledger(LedgerError::Unauthorized))
                        } else {
                            match self.ledger().transfer_refusal(owner, to, amount) {
                                Some(e) => Some(VaultError::Ledger(e)),
                                None => account.state.deposit_refusal(owner, amount),
                            }
                        },
                    },
                },
            }
        }
    }

    /// Why a withdrawal out of `escrow` is refused, if it is, where the
    /// stored bump re-derives `derived`. The tracked balance is judged before
    /// the transfer, and an owner that is its own escrow account cannot
    /// authorize.
    pub open spec fn withdraw_refusal(
        &self,
        owner: Seq<u8>,
        escrow: Option<Seq<u8>>,
        derived: Option<Seq<u8>>,
        amount: u64,
    ) -> Option<VaultError> {
        if amount == 0 {
            Some(VaultError::InvalidAmount)
        } else {
            match self.vault(owner) {
                None => Some(VaultError::Ledger(LedgerError::AccountNotFound)),
                Some(account) => match account.state.withdraw_refusal(owner, amount) {
                    Some(e) => Some(e),
                    None => match escrow {
                        None => Some(VaultError::Ledger(LedgerError::NoDerivableAddress)),
                        Some(from) => if from == owner {
                            Some(VaultError::Ledger(LedgerError::Unauthorized))
                        } else {
                            match self.ledger().proved_transfer_refusal(from, owner, amount, derived) {
                                Some(e) => Some(VaultError::Ledger(e)),
                                None => None,
                            }
                        },
                    },
                },
            }
        }
    }

    /// Why closing is refused, if it is, where the vault's escrow account is
    /// `escrow` and the stored bump re-derives `derived`. The tracked balance
    /// is judged first, whatever the escrow account holds; the proof is
    /// needed only where something is left to move.
    pub open spec fn close_refusal(&self, owner: Seq<u8>, escrow: Option<Seq<u8>>, derived: Option<Seq<u8>>) -> Option<
        VaultError,
    > {
        match self.vault(owner) {
            None => Some(VaultError::Ledger(LedgerError::AccountNotFound)),
            Some(account) => match account.state.close_refusal(owner) {
                Some(e) => Some(e),
                None => match escrow {
                    None => Some(VaultError::Ledger(LedgerError::NoDerivableAddress)),
                    Some(from) => if from == owner {
                        Some(VaultError::Ledger(LedgerError::Unauthorized))
                    } else if self.held(from) == 0 {
                        None
                    } else {
                        match self.ledger().proved_transfer_refusal(from, owner, self.held(from) as u64, derived) {
                            Some(e) => Some(VaultError::Ledger(e)),
                            None => None,
                        }
                    },
                },
            },
        }
    }

    /// Whether `self` is `before` with a fresh, empty vault for `owner`
    /// stored at `place.0` with the escrow bump `place.1`.
    pub open spec fn created_from(&self, before: &VaultController, owner: Seq<u8>, place: (Seq<u8>, u8)) -> bool {
        let account = self.vault(owner).unwrap();
        &&& self.ledger() == before.ledger()
        &&& forall|o: Seq<u8>| o != owner ==> #[trigger] self.vault(o) == before.vault(o)
        &&& self.vault(owner) is Some
        &&& account.state.owner@ == owner
        &&& account.state.balance == 0
        &&& account.address@ == place.0
        &&& account.state.vault_bump == place.1
    }

    /// Whether `self` is `before` with `amount` moved from `owner` into
    /// `escrow` and added to the tracked balance of `owner`.
    pub open spec fn deposited_from(&self, before: &VaultController, owner: Seq<u8>, escrow: Seq<u8>, amount: u64) -> bool {
        let account = before.vault(owner).unwrap();
        &&& forall|o: Seq<u8>| #[trigger]
            self.vault(o) == (if o == owner {
                Some(with_balance(account, account.state.balance + amount))
            } else {
                before.vault(o)
            })
        &&& self.ledger().moved_from(&before.ledger(), owner, escrow, amount)
    }

    /// Whether `self` is `before` with `amount` moved from `escrow` back to
    /// `owner` and taken off its tracked balance.
    pub open spec fn withdrawn_from(&self, before: &VaultController, owner: Seq<u8>, escrow: Seq<u8>, amount: u64) -> bool {
        let account = before.vault(owner).unwrap();
        &&& forall|o: Seq<u8>| #[trigger]
            self.vault(o) == (if o == owner {
                Some(with_balance(account, account.state.balance - amount))
            } else {
                before.vault(o)
            })
        &&& self.ledger().moved_from(&before.ledger(), escrow, owner, amount)
    }

    /// Whether `self` is `before` with the record of `owner` destroyed and
    /// all that `escrow` held moved to `owner`.
    pub open spec fn closed_from(&self, before: &VaultController, owner: Seq<u8>, escrow: Seq<u8>) -> bool {
        &&& forall|o: Seq<u8>| #[trigger]
            self.vault(o) == (if o == owner {
                None
            } else {
                before.vault(o)
            })
        &&& self.ledger().moved_from(&before.ledger(), escrow, owner, before.held(escrow) as u64)
    }

    /// A controller for `program` with no vaults and no value.
    pub fn new(program: Address) -> (c: VaultController)
        ensures
            c.wf(),
            c.program() == program@,
            forall|o: Seq<u8>| #[trigger] c.vault(o) is None,
            forall|a: Seq<u8>| #[trigger] c.held(a) == 0,
    {
        VaultController { program, table: VaultTable::new(), ledger: Ledger::new() }
    }

    /// Credits `amount` to `to` from outside the vault operations.
    pub fn fund(&mut self, to: &Address, amount: u64) -> (r: Result<(), VaultError>)
        requires
            old(self).wf(),
        ensures
            final(self).wf(),
            final(self).program() == old(self).program(),
            final(self).table() == old(self).table(),
            match r {
                Ok(()) => old(self).held(to@) + amount <= u64::MAX
                    && forall|a: Seq<u8>| #[trigger]
                        final(self).held(a) == (if a == to@ {
                            old(self).held(a) + amount
                        } else {
                            old(self).held(a) as int
                        }),
                Err(e) => e == VaultError::Ledger(LedgerError::BalanceOverflow)
                    && old(self).held(to@) + amount > u64::MAX
                    && *final(self) == *old(self),
            },
    {
        match self.ledger.fund(to, amount) {
            Ok(()) => Ok(()),
            Err(e) => Err(VaultError::Ledger(e)),
        }
    }

    /// The value held at `a`.
    pub fn held_value(&self, a: &Address) -> (v: u64)
        requires
            self.wf(),
        ensures
            v == self.held(a@),
    {
        self.ledger.value_of(a)
    }

    /// The record stored for `owner`, if any.
    pub fn vault_account(&self, owner: &Address) -> (r: Option<VaultAccount>)
        requires
            self.wf(),
        ensures
            r == self.vault(owner@),
            r matches Some(account) ==> account.state.owner@ == owner@,
    {
        self.table.lookup(owner)
    }

    /// Searches for the address of the record of `owner` and for the bump of
    /// its escrow address.
    pub fn locate(&self, owner: &Address) -> (r: Option<(Address, u8)>)
        ensures
            found_bytes(r) == located(owner@, self.program()),
            r matches Some((address, bump)) ==> derived_address(escrow_tag(), address@, bump, self.program())
                == escrow_at(address@, self.program()) && escrow_at(address@, self.program()) is Some,
    {
        match find_program_address(&state_tag_bytes(), owner, &self.program) {
            None => None,
            Some((address, _)) => match find_program_address(&escrow_tag_bytes(), &address, &self.program) {
                None => None,
                Some((_, bump)) => Some((address, bump)),
            },
        }
    }

    /// The escrow address of the vault of `owner`, if it has one.
    pub fn escrow_address(&self, owner: &Address) -> (r: Option<Address>)
        requires
            self.wf(),
        ensures
            address_bytes(r) == self.escrow_for(owner@),
    {
        match self.table.lookup(owner) {
            None => None,
            Some(account) => match find_program_address(&escrow_tag_bytes(), &account.address, &self.program) {
                None => None,
                Some((escrow, _)) => Some(escrow),
            },
        }
    }

    /// The address that the stored bump of the vault of `owner` re-derives:
    /// the proof of control over its escrow account.
    pub fn escrow_proof_target(&self, owner: &Address) -> (r: Option<Address>)
        requires
            self.wf(),
        ensures
            address_bytes(r) == self.proof_for(owner@),
    {
        match self.table.lookup(owner) {
            None => None,
            Some(account) => rederive(&account.state.escrow_proof(&account.address), &self.program),
        }
    }

    /// Stores an empty vault for `owner` at the place that the search gave.
    pub fn create(&mut self, owner: &Address, place: Option<(Address, u8)>) -> (r: Result<(), VaultError>)
        requires
            old(self).wf(),
        ensures
            final(self).wf(),
            final(self).program() == old(self).program(),
            match r {
                Ok(()) => old(self).create_refusal(owner@, found_bytes(place)) is None
                    && final(self).created_from(old(self), owner@, found_bytes(place).unwrap()),
                Err(e) => old(self).create_refusal(owner@, found_bytes(place)) == Some(e)
                    && *final(self) == *old(self),
            },
    {
        if self.table.lookup(owner).is_some() {
            return Err(VaultError::Ledger(LedgerError::AccountAlreadyExists));
        }
        match place {
            None => Err(VaultError::Ledger(LedgerError::NoDerivableAddress)),
            Some((address, vault_bump)) => {
                self.table.store(VaultAccount { address, state: VaultState::initialize(*owner, vault_bump) });
                Ok(())
            },
        }
    }

    /// Moves `amount` from `owner` into `escrow` and adds it to the tracked
    /// balance.
    pub fn deposit_into(&mut self, owner: &Address, escrow: Option<Address>, amount: u64) -> (r: Result<
        (),
        VaultError,
    >)
        requires
            old(self).wf(),
        ensures
            final(self).wf(),
            final(self).program() == old(self).program(),
            match r {
                Ok(()) => old(self).deposit_refusal(owner@, address_bytes(escrow), amount) is None
                    && final(self).deposited_from(old(self), owner@, address_bytes(escrow).unwrap(), amount),
                Err(e) => old(self).deposit_refusal(owner@, address_bytes(escrow), amount) == Some(e)
                    && *final(self) == *old(self),
            },
    {
        if amount == 0 {
            return Err(VaultError::InvalidAmount);
        }
        let account = match self.table.lookup(owner) {
            Some(account) => account,
            None => {
                return Err(VaultError::Ledger(LedgerError::AccountNotFound));
            },
        };
        if let Err(e) = account.state.check_deposit(owner, amount) {
            return Err(e);
        }
        let to = match escrow {
            Some(to) => to,
            None => {
                return Err(VaultError::Ledger(LedgerError::NoDerivableAddress));
            },
        };
        if to.same(owner) {
            return Err(VaultError::Ledger(LedgerError::Unauthorized));
        }
        if let Some(e) = self.ledger.check_transfer(owner, &to, amount) {
            return Err(VaultError::Ledger(e));
        }
        let mut state = account.state;
        if let Err(e) = state.deposit(owner, amount) {
            return Err(e);
        }
        if let Err(e) = self.ledger.transfer(owner, &to, amount) {
            return Err(VaultError::Ledger(e));
        }
        let updated = VaultAccount { address: account.address, state };
        assert(updated == with_balance(account, account.state.balance + amount));
        self.table.store(updated);
        Ok(())
    }

    /// Moves `amount` from `escrow` back to `owner`, authorized by the
    /// derivation whose outcome is `derived`, and takes it off the tracked
    /// balance.
    pub fn withdraw_out(
        &mut self,
        owner: &Address,
        escrow: Option<Address>,
        derived: Option<Address>,
        amount: u64,
    ) -> (r: Result<(), VaultError>)
        requires
            old(self).wf(),
        ensures
            final(self).wf(),
            final(self).program() == old(self).program(),
            match r {
                Ok(()) => old(self).withdraw_refusal(owner@, address_bytes(escrow), address_bytes(derived), amount)
                    is None && final(self).withdrawn_from(old(self), owner@, address_bytes(escrow).unwrap(), amount),
                Err(e) => old(self).withdraw_refusal(owner@, address_bytes(escrow), address_bytes(derived), amount)
                    == Some(e) && *final(self) == *old(self),
            },
    {
        if amount == 0 {
            return Err(VaultError::InvalidAmount);
        }
        let account = match self.table.lookup(owner) {
            Some(account) => account,
            None => {
                return Err(VaultError::Ledger(LedgerError::AccountNotFound));
            },
        };
        let mut state = account.state;
        if let Err(e) = state.withdraw(owner, amount) {
            return Err(e);
        }
        let from = match escrow {
            Some(from) => from,
            None => {
                return Err(VaultError::Ledger(LedgerError::NoDerivableAddress));
            },
        };
        if from.same(owner) {
            return Err(VaultError::Ledger(LedgerError::Unauthorized));
        }
        if let Err(e) = self.ledger.transfer_proved(&from, owner, amount, derived) {
            return Err(VaultError::Ledger(e));
        }
        let updated = VaultAccount { address: account.address, state };
        assert(updated == with_balance(account, account.state.balance - amount));
        self.table.store(updated);
        Ok(())
    }

    /// Destroys the vault of `owner`, which must track nothing, after moving
    /// whatever `escrow` still holds to `owner`, authorized by the derivation
    /// whose outcome is `derived`.
    pub fn close_out(&mut self, owner: &Address, escrow: Option<Address>, derived: Option<Address>) -> (r: Result<
        (),
        VaultError,
    >)
        requires
            old(self).wf(),
        ensures
            final(self).wf(),
            final(self).program() == old(self).program(),
            match r {
                Ok(()) => old(self).close_refusal(owner@, address_bytes(escrow), address_bytes(derived)) is None
                    && final(self).closed_from(old(self), owner@, address_bytes(escrow).unwrap()),
                Err(e) => old(self).close_refusal(owner@, address_bytes(escrow), address_bytes(derived)) == Some(e)
                    && *final(self) == *old(self),
            },
    {
        let account = match self.table.lookup(owner) {
            Some(account) => account,
            None => {
                return Err(VaultError::Ledger(LedgerError::AccountNotFound));
            },
        };
        if let Err(e) = account.state.close(owner) {
            return Err(e);
        }
        let from = match escrow {
            Some(from) => from,
            None => {
                return Err(VaultError::Ledger(LedgerError::NoDerivableAddress));
            },
        };
        if from.same(owner) {
            return Err(VaultError::Ledger(LedgerError::Unauthorized));
        }
        let residual = self.ledger.value_of(&from);
        if residual > 0 {
            if let Err(e) = self.ledger.transfer_proved(&from, owner, residual, derived) {
                return Err(VaultError::Ledger(e));
            }
        }
        self.table.destroy(owner);
        Ok(())
    }

    /// Creates the vault of `owner`: an empty record at the address found
    /// for the owner, with the bump found for its escrow address, which is
    /// then the address that the stored bump re-derives.
    pub fn initialize(&mut self, owner: &Address) -> (r: Result<(), VaultError>)
        requires
            old(self).wf(),
        ensures
            final(self).wf(),
            final(self).program() == old(self).program(),
            match r {
                Ok(()) => old(self).create_refusal(owner@, located(owner@, old(self).program())) is None
                    && final(self).created_from(old(self), owner@, located(owner@, old(self).program()).unwrap())
                    && final(self).escrow_for(owner@) is Some
                    && final(self).proof_for(owner@) == final(self).escrow_for(owner@),
                Err(e) => old(self).create_refusal(owner@, located(owner@, old(self).program())) == Some(e)
                    && *final(self) == *old(self),
            },
    {
        let place = self.locate(owner);
        self.create(owner, place)
    }

    /// Moves `amount` from `owner` into its escrow account and adds it to the
    /// tracked balance.
    pub fn deposit(&mut self, owner: &Address, amount: u64) -> (r: Result<(), VaultError>)
        requires
            old(self).wf(),
        ensures
            final(self).wf(),
            final(self).program() == old(self).program(),
            match r {
                Ok(()) => old(self).deposit_refusal(owner@, old(self).escrow_for(owner@), amount) is None
                    && final(self).deposited_from(old(self), owner@, old(self).escrow_for(owner@).unwrap(), amount),
                Err(e) => old(self).deposit_refusal(owner@, old(self).escrow_for(owner@), amount) == Some(e)
                    && *final(self) == *old(self),
            },
    {
        let escrow = self.escrow_address(owner);
        self.deposit_into(owner, escrow, amount)
    }

    /// Moves `amount` from the escrow account of `owner` back to it, on the
    /// strength of the derivation proof, and takes it off the tracked balance.
    pub fn withdraw(&mut self, owner: &Address, amount: u64) -> (r: Result<(), VaultError>)
        requires
            old(self).wf(),
        ensures
            final(self).wf(),
            final(self).program() == old(self).program(),
            match r {
                Ok(()) => old(self).withdraw_refusal(
                    owner@,
                    old(self).escrow_for(owner@),
                    old(self).proof_for(owner@),
                    amount,
                ) is None && final(self).withdrawn_from(
                    old(self),
                    owner@,
                    old(self).escrow_for(owner@).unwrap(),
                    amount,
                ),
                Err(e) => old(self).withdraw_refusal(
                    owner@,
                    old(self).escrow_for(owner@),
                    old(self).proof_for(owner@),
                    amount,
                ) == Some(e) && *final(self) == *old(self),
            },
    {
        let escrow = self.escrow_address(owner);
        let derived = self.escrow_proof_target(owner);
        self.withdraw_out(owner, escrow, derived, amount)
    }

    /// Destroys the vault of `owner`, which must track nothing, after moving
    /// whatever its escrow account still holds to `owner`.
    pub fn close(&mut self, owner: &Address) -> (r: Result<(), VaultError>)
        requires
            old(self).wf(),
        ensures
            final(self).wf(),
            final(self).program() == old(self).program(),
            match r {
                Ok(()) => old(self).close_refusal(owner@, old(self).escrow_for(owner@), old(self).proof_for(owner@))
                    is None && final(self).closed_from(old(self), owner@, old(self).escrow_for(owner@).unwrap()),
                Err(e) => old(self).close_refusal(owner@, old(self).escrow_for(owner@), old(self).proof_for(owner@))
                    == Some(e) && *final(self) == *old(self),
            },
    {
        let escrow = self.escrow_address(owner);
        let derived = self.escrow_proof_target(owner);
        self.close_out(owner, escrow, derived)
    }
}

} // verus!
