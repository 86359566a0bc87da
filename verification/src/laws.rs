use vstd::prelude::*;
use crate::controller::VaultController;
use crate::errors::{LedgerError, VaultError};
use crate::state::VaultState;

verus! {

/// A deposit that is carried out keeps the tracked balance equal to what the
/// escrow account holds.
pub proof fn lemma_deposit_keeps_sync(
    before: VaultController,
    after: VaultController,
    owner: Seq<u8>,
    escrow: Seq<u8>,
    amount: u64,
)
    requires
        before.in_sync(owner, escrow),
        before.deposit_refusal(owner, Some(escrow), amount) is None,
        after.deposited_from(&before, owner, escrow, amount),
    ensures
        after.in_sync(owner, escrow),
        after.vault(owner).unwrap().state.balance == before.vault(owner).unwrap().state.balance + amount,
        after.held(escrow) == before.held(escrow) + amount,
{
    let account = before.vault(owner).unwrap();
    before.table().lemma_keyed_by_owner(owner);
    assert(escrow != owner);
    assert(after.vault(owner).unwrap().state.balance == account.state.balance + amount);
    assert(after.held(escrow) == before.ledger().held_after(owner, escrow, amount, escrow));
}

/// A withdrawal that is carried out keeps the tracked balance equal to what
/// the escrow account holds.
pub proof fn lemma_withdraw_keeps_sync(
    before: VaultController,
    after: VaultController,
    owner: Seq<u8>,
    escrow: Seq<u8>,
    derived: Option<Seq<u8>>,
    amount: u64,
)
    requires
        before.in_sync(owner, escrow),
        before.withdraw_refusal(owner, Some(escrow), derived, amount) is None,
        after.withdrawn_from(&before, owner, escrow, amount),
    ensures
        after.in_sync(owner, escrow),
        after.vault(owner).unwrap().state.balance == before.vault(owner).unwrap().state.balance - amount,
        after.held(escrow) == before.held(escrow) - amount,
{
    let account = before.vault(owner).unwrap();
    before.table().lemma_keyed_by_owner(owner);
    assert(escrow != owner);
    assert(after.vault(owner).unwrap().state.balance == account.state.balance - amount);
    assert(after.held(escrow) == before.ledger().held_after(escrow, owner, amount, escrow));
}

/// One step that the owner of a vault carries out.
pub enum Step {
    Deposit(u64),
    Withdraw(u64),
}

/// Whether `after` is `before` with `step` carried out by `owner` against
/// `escrow`, where the stored bump re-derives `derived`.
pub open spec fn step_taken(
    before: VaultController,
    after: VaultController,
    owner: Seq<u8>,
    escrow: Seq<u8>,
    derived: Option<Seq<u8>>,
    step: Step,
) -> bool {
    match step {
        Step::Deposit(amount) => before.deposit_refusal(owner, Some(escrow), amount) is None
            && after.deposited_from(&before, owner, escrow, amount),
        Step::Withdraw(amount) => before.withdraw_refusal(owner, Some(escrow), derived, amount) is None
            && after.withdrawn_from(&before, owner, escrow, amount),
    }
}

/// The sum of the deposits among `steps`.
pub open spec fn deposits(steps: Seq<Step>) -> int
    decreases steps.len(),
{
    if steps.len() == 0 {
        0
    } else {
        deposits(steps.drop_last()) + (match steps.last() {
            Step::Deposit(amount) => amount as int,
            Step::Withdraw(_) => 0,
        })
    }
}

/// The sum of the withdrawals among `steps`.
pub open spec fn withdrawals(steps: Seq<Step>) -> int
    decreases steps.len(),
{
    if steps.len() == 0 {
        0
    } else {
        withdrawals(steps.drop_last()) + (match steps.last() {
            Step::Deposit(_) => 0,
            Step::Withdraw(amount) => amount as int,
        })
    }
}

/// Whether `states` is a run of `steps`: each state comes from the one
/// before it by the step of that position.
pub open spec fn is_run(
    states: Seq<VaultController>,
    steps: Seq<Step>,
    owner: Seq<u8>,
    escrow: Seq<u8>,
    derived: Option<Seq<u8>>,
) -> bool {
    &&& states.len() == steps.len() + 1
    &&& forall|i: int|
        0 <= i < steps.len() ==> step_taken(#[trigger] states[i], states[i + 1], owner, escrow, derived, steps[i])
}

/// After the first `k` steps of a run that starts in sync the vault is in
/// sync, and tracks the starting balance plus the deposits minus the
/// withdrawals so far.
pub proof fn lemma_run_prefix(
    states: Seq<VaultController>,
    steps: Seq<Step>,
    owner: Seq<u8>,
    escrow: Seq<u8>,
    derived: Option<Seq<u8>>,
    k: int,
)
    requires
        is_run(states, steps, owner, escrow, derived),
        states[0].in_sync(owner, escrow),
        0 <= k <= steps.len(),
    ensures
        states[k].in_sync(owner, escrow),
        states[k].vault(owner).unwrap().state.balance == states[0].vault(owner).unwrap().state.balance + deposits(
            steps.take(k),
        ) - withdrawals(steps.take(k)),
    decreases k,
{
    if k == 0 {
        assert(steps.take(0).len() == 0);
    } else {
        lemma_run_prefix(states, steps, owner, escrow, derived, k - 1);
        assert(steps.take(k).drop_last() =~= steps.take(k - 1));
        assert(steps.take(k).last() == steps[k - 1]);
        assert(step_taken(states[k - 1], states[k - 1 + 1], owner, escrow, derived, steps[k - 1]));
        match steps[k - 1] {
            Step::Deposit(amount) => {
                lemma_deposit_keeps_sync(states[k - 1], states[k], owner, escrow, amount);
            },
            Step::Withdraw(amount) => {
                lemma_withdraw_keeps_sync(states[k - 1], states[k], owner, escrow, derived, amount);
            },
        }
    }
}

/// Every run of carried-out deposits and withdrawals that starts in sync
/// ends in sync, at the starting balance plus all deposits minus all
/// withdrawals: the order of the steps does not enter.
pub proof fn lemma_run_keeps_sync(
    states: Seq<VaultController>,
    steps: Seq<Step>,
    owner: Seq<u8>,
    escrow: Seq<u8>,
    derived: Option<Seq<u8>>,
)
    requires
        is_run(states, steps, owner, escrow, derived),
        states[0].in_sync(owner, escrow),
    ensures
        states.last().in_sync(owner, escrow),
        states.last().vault(owner).unwrap().state.balance == states[0].vault(owner).unwrap().state.balance
            + deposits(steps) - withdrawals(steps),
        states.last().held(escrow) == states[0].held(escrow) + deposits(steps) - withdrawals(steps),
{
    lemma_run_prefix(states, steps, owner, escrow, derived, steps.len() as int);
    assert(steps.take(steps.len() as int) =~= steps);
}

/// A vault created while its escrow address holds nothing starts in sync.
pub proof fn lemma_create_starts_sync(
    before: VaultController,
    after: VaultController,
    owner: Seq<u8>,
    place: (Seq<u8>, u8),
    escrow: Seq<u8>,
)
    requires
        after.created_from(&before, owner, place),
        before.held(escrow) == 0,
    ensures
        after.in_sync(owner, escrow),
{
}

/// A deposit or a withdrawal of nothing is refused as an invalid amount,
/// whoever asks and whatever is stored.
pub proof fn lemma_zero_amount_refused(
    controller: VaultController,
    state: VaultState,
    caller: Seq<u8>,
    escrow: Option<Seq<u8>>,
    derived: Option<Seq<u8>>,
)
    ensures
        controller.deposit_refusal(caller, escrow, 0) == Some(VaultError::InvalidAmount),
        controller.withdraw_refusal(caller, escrow, derived, 0) == Some(VaultError::InvalidAmount),
        state.deposit_refusal(caller, 0) == Some(VaultError::InvalidAmount),
        state.withdraw_refusal(caller, 0) == Some(VaultError::InvalidAmount),
{
}

/// The owner's withdrawal of more than the tracked balance is refused for
/// insufficient balance, whatever the escrow account holds.
pub proof fn lemma_overdraw_refused(
    controller: VaultController,
    owner: Seq<u8>,
    escrow: Option<Seq<u8>>,
    derived: Option<Seq<u8>>,
    amount: u64,
)
    requires
        controller.vault(owner) is Some,
        amount > controller.vault(owner).unwrap().state.balance,
    ensures
        controller.withdraw_refusal(owner, escrow, derived, amount) == Some(VaultError::InsufficientBalance),
{
    controller.table().lemma_keyed_by_owner(owner);
}

/// The owner's deposit that would push the tracked balance past the 64-bit
/// range is refused as an overflow, once the ledger accepts the transfer
/// into the escrow account. Where the ledger refuses the transfer, its error
/// is the one returned.
pub proof fn lemma_overflowing_deposit_refused(
    controller: VaultController,
    owner: Seq<u8>,
    escrow: Seq<u8>,
    amount: u64,
)
    requires
        controller.vault(owner) is Some,
        controller.vault(owner).unwrap().state.balance + amount > u64::MAX,
        escrow != owner,
    ensures
        controller.ledger().transfer_refusal(owner, escrow, amount) is None ==> controller.deposit_refusal(
            owner,
            Some(escrow),
            amount,
        ) == Some(VaultError::Overflow),
        controller.ledger().transfer_refusal(owner, escrow, amount) matches Some(e)
            ==> controller.deposit_refusal(owner, Some(escrow), amount) == Some(VaultError::Ledger(e)),
        controller.vault(owner).unwrap().state.deposit_refusal(owner, amount) == Some(VaultError::Overflow),
{
    controller.table().lemma_keyed_by_owner(owner);
}

/// A transfer that the ledger refuses ends a deposit with the ledger's own
/// error, whatever the tracked balance is.
pub proof fn lemma_refused_transfer_passed_through(
    controller: VaultController,
    owner: Seq<u8>,
    escrow: Seq<u8>,
    amount: u64,
    e: LedgerError,
)
    requires
        controller.vault(owner) is Some,
        amount > 0,
        escrow != owner,
        controller.ledger().transfer_refusal(owner, escrow, amount) == Some(e),
    ensures
        controller.deposit_refusal(owner, Some(escrow), amount) == Some(VaultError::Ledger(e)),
{
    controller.table().lemma_keyed_by_owner(owner);
}

/// An owner whose own address is the escrow address is refused by every
/// operation that would move value: as the escrow account it has no key to
/// authorize with. Only the tests that come first can give another error.
pub proof fn lemma_own_escrow_refused(
    controller: VaultController,
    owner: Seq<u8>,
    derived: Option<Seq<u8>>,
    amount: u64,
)
    requires
        controller.vault(owner) is Some,
    ensures
        controller.deposit_refusal(owner, Some(owner), amount) is Some,
        amount > 0 ==> controller.deposit_refusal(owner, Some(owner), amount) == Some(
            VaultError::Ledger(LedgerError::Unauthorized),
        ),
        controller.withdraw_refusal(owner, Some(owner), derived, amount) is Some,
        0 < amount <= controller.vault(owner).unwrap().state.balance ==> controller.withdraw_refusal(
            owner,
            Some(owner),
            derived,
            amount,
        ) == Some(VaultError::Ledger(LedgerError::Unauthorized)),
        controller.close_refusal(owner, Some(owner), derived) is Some,
        controller.vault(owner).unwrap().state.balance == 0 ==> controller.close_refusal(
            owner,
            Some(owner),
            derived,
        ) == Some(VaultError::Ledger(LedgerError::Unauthorized)),
{
    controller.table().lemma_keyed_by_owner(owner);
}

/// Closing a vault that still tracks a balance is refused as not empty,
/// whatever its escrow account holds.
pub proof fn lemma_nonempty_close_refused(
    controller: VaultController,
    owner: Seq<u8>,
    escrow: Option<Seq<u8>>,
    derived: Option<Seq<u8>>,
)
    requires
        controller.vault(owner) is Some,
        controller.vault(owner).unwrap().state.balance != 0,
    ensures
        controller.close_refusal(owner, escrow, derived) == Some(VaultError::VaultNotEmpty),
{
    controller.table().lemma_keyed_by_owner(owner);
}

/// Value that reached the escrow account outside the deposits never stands
/// in the way of closing a vault that tracks nothing: with a proof that
/// re-derives the escrow address, only the owner's own account being unable
/// to receive the residue can.
pub proof fn lemma_stray_value_does_not_block_close(controller: VaultController, owner: Seq<u8>, escrow: Seq<u8>)
    requires
        controller.vault(owner) is Some,
        controller.vault(owner).unwrap().state.balance == 0,
        escrow != owner,
        controller.held(owner) + controller.held(escrow) <= u64::MAX,
    ensures
        controller.close_refusal(owner, Some(escrow), Some(escrow)) is None,
{
    controller.table().lemma_keyed_by_owner(owner);
    controller.ledger().lemma_held_bounded(escrow);
}

/// After a close that is carried out the record is gone, the escrow account
/// holds nothing, and the owner holds what the escrow account held on top of
/// its own.
pub proof fn lemma_close_sweeps(
    before: VaultController,
    after: VaultController,
    owner: Seq<u8>,
    escrow: Seq<u8>,
    derived: Option<Seq<u8>>,
)
    requires
        before.close_refusal(owner, Some(escrow), derived) is None,
        after.closed_from(&before, owner, escrow),
    ensures
        after.vault(owner) is None,
        after.held(escrow) == 0,
        after.held(owner) == before.held(owner) + before.held(escrow),
{
    before.table().lemma_keyed_by_owner(owner);
    before.ledger().lemma_held_bounded(escrow);
    let residual = before.held(escrow) as u64;
    assert(escrow != owner);
    assert(after.held(escrow) == before.ledger().held_after(escrow, owner, residual, escrow));
    assert(after.held(owner) == before.ledger().held_after(escrow, owner, residual, owner));
}

/// Whoever is not the recorded owner is refused by every operation on the
/// record itself.
pub proof fn lemma_stranger_refused(state: VaultState, caller: Seq<u8>, amount: u64)
    requires
        caller != state.owner@,
    ensures
        state.deposit_refusal(caller, amount) is Some,
        state.withdraw_refusal(caller, amount) is Some,
        state.close_refusal(caller) == Some(VaultError::Ledger(LedgerError::Unauthorized)),
{
}

/// An operation that `caller` carries out leaves every other owner's record
/// as it was.
pub proof fn lemma_others_untouched(
    before: VaultController,
    after: VaultController,
    caller: Seq<u8>,
    other: Seq<u8>,
    place: (Seq<u8>, u8),
    escrow: Seq<u8>,
    amount: u64,
)
    requires
        other != caller,
        after.created_from(&before, caller, place) || after.deposited_from(&before, caller, escrow, amount)
            || after.withdrawn_from(&before, caller, escrow, amount) || after.closed_from(&before, caller, escrow),
    ensures
        after.vault(other) == before.vault(other),
{
}

/// A deposit and a withdrawal that are both carried out, in either order, end
/// at the starting balance plus the deposit minus the withdrawal.
pub proof fn lemma_order_independent(start: VaultState, owner: Seq<u8>, put: u64, take: u64)
    ensures
        start.deposit_refusal(owner, put) is None && start.deposited(put).withdraw_refusal(owner, take) is None
            ==> start.deposited(put).withdrawn(take).balance == start.balance + put - take,
        start.withdraw_refusal(owner, take) is None && start.withdrawn(take).deposit_refusal(owner, put) is None
            ==> start.withdrawn(take).deposited(put).balance == start.balance + put - take,
        start.deposit_refusal(owner, put) is None && start.deposited(put).withdraw_refusal(owner, take) is None
            && start.withdraw_refusal(owner, take) is None && start.withdrawn(take).deposit_refusal(owner, put)
            is None ==> start.withdrawn(take).deposited(put) == start.deposited(put).withdrawn(take),
{
}

} // verus!
