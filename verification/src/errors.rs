use vstd::prelude::*;

verus! {

/// Failures raised by the ledger runtime and passed through unchanged.
#[derive(Debug, Clone, Copy, PartialEq, Eq, Structural)]
pub enum LedgerError {
    /// The paying account holds less than the amount to move.
    InsufficientFunds,
    /// The receiving account cannot hold the amount on top of what it has.
    BalanceOverflow,
    /// The presented derivation proof does not reproduce the paying address.
    InvalidProof,
    /// The caller cannot authorize the operation: it is not the recorded
    /// owner, or it is the escrow account itself, which has no key of its own.
    Unauthorized,
    /// The storage slot to create is already occupied.
    AccountAlreadyExists,
    /// No record is stored for the owner.
    AccountNotFound,
    /// No bump gives a usable derived address.
    NoDerivableAddress,
}

/// Why a vault operation was refused.
#[derive(Debug, Clone, Copy, PartialEq, Eq, Structural)]
pub enum VaultError {
    /// The amount is zero.
    InvalidAmount,
    /// A withdrawal asks for more than the tracked balance.
    InsufficientBalance,
    /// A deposit would push the tracked balance past the 64-bit range.
    Overflow,
    /// The vault still tracks a nonzero balance.
    VaultNotEmpty,
    /// A failure of the ledger runtime.
    Ledger(LedgerError),
}

} // verus!
