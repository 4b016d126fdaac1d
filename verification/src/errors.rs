use vstd::prelude::*;

verus! {

/// Every way an escrow operation can be refused. Each failure aborts the
/// whole operation before any balance or record is touched, so a caller
/// always sees either the full effect or an unchanged system.
#[derive(Clone, Copy, Debug, PartialEq, Eq, Structural)]
pub enum EscrowError {
    /// Make was given the same asset on both sides of the trade.
    InvalidSameMint,
    /// Make was given a zero offered amount.
    InvalidOfferedAmount,
    /// Make was given a zero wanted amount.
    InvalidWantedAmount,
    /// Make targets a derived address already occupied by a live record.
    DuplicateOfferId,
    /// A source holding lacks the required balance (Make or Take).
    InsufficientFunds,
    /// A supplied offer or vault address does not match the canonical one
    /// recomputed from stored identity, or no canonical address exists.
    AddressMismatch,
    /// Refund was invoked by a caller other than the stored maker.
    Unauthorized,
}

} // verus!
