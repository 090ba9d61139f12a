use vstd::prelude::*;

verus! {

/// Why an operation was refused.  Every failure aborts the whole
/// operation; no function of this crate leaves a partial effect behind
/// when it returns an error.
#[derive(Clone, Copy, PartialEq, Eq, Structural, Debug)]
pub enum ErrorCode {
    /// An account handed in for payment is not owned by the
    /// fungible-asset service.
    IncorrectOwner,
    /// An account handed in for payment has never been initialized.
    Uninitialized,
    /// A holding account's asset does not match the required payment
    /// asset.
    MintMismatch,
    /// A slot index lies beyond the declared capacity, or beyond the
    /// records that are live.
    IndexGreaterThanLength,
    /// A claim ledger may only be bound to a configuration whose record
    /// ledger already holds at least one record.
    ConfigMustHaveAtleastOneEntry,
    /// Advancing the live count would take it past the declared capacity.
    NumericalOverflowError,
    /// A configuration may declare at most three creators; a fourth slot
    /// is reserved for the claim ledger itself.
    TooManyCreators,
    /// The identifier used as a derivation seed must be exactly six
    /// bytes long.
    UuidMustBeExactly6Length,
    /// A token-paid claim against a holding account whose balance is
    /// below the price.
    NotEnoughTokens,
    /// A native-paid claim by a buyer whose balance is below the price.
    NotEnoughSOL,
    /// The fungible-asset service refused the transfer.
    TokenTransferFailed,
    /// The redemption cap has been reached; no further claim can succeed.
    CandyMachineEmpty,
    /// The availability window is not open and the caller is not the
    /// operator.
    CandyMachineNotLiveYet,
    /// A name, uri or symbol is wider than its fixed slot width; inputs
    /// are never silently truncated.
    FieldTooLong,
}

} // verus!
