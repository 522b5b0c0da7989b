use vstd::prelude::*;

verus! {

/// Every way an escrow operation can be refused. A refused operation has no
/// effect at all.
#[derive(Clone, Copy, Debug, PartialEq, Eq, Structural)]
pub enum EscrowError {
    /// A deposit account holds less than the amount it must give.
    InsufficientBalance,
    /// A record or vault already occupies the slot that creation would fill.
    DuplicateRecord,
    /// A supplied account disagrees with what the record stores or with what
    /// is derived, or there is no pending record.
    RecordMismatch,
    /// The signer is not the party allowed to act.
    UnauthorizedCaller,
    /// No key-less address could be derived from the fixed seeds.
    CapabilityDerivationFailure,
    /// Crediting an account would take its balance past `u64::MAX`.
    BalanceOverflow,
}

} // verus!
