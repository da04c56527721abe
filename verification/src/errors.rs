use vstd::prelude::*;

verus! {

/// Every way an operation of this ledger can fail.
///
/// Validation errors (`ContentTooLong`, `Underpriced`, `CapacityExceeded`)
/// are caller-correctable; authorization errors (`Unauthorized`,
/// `AddressMismatch`) reject a caller who does not control the right
/// identity or supplied a substituted address; conflict errors
/// (`AlreadyRegistered`, `AlreadyExists`, `AlreadyClaimed`) mark an
/// idempotence boundary; resource errors (`InsufficientFunds`,
/// `DerivationExhausted`, `CounterOverflow`) are fatal to the operation.
/// `NotFound` reports a load at an address that holds no live record.
/// No operation mutates any state when it returns an error.
#[derive(Clone, Copy, Debug, PartialEq, Eq, Structural)]
pub enum ErrorCode {
    ContentTooLong,
    Underpriced,
    Unauthorized,
    AlreadyRegistered,
    AlreadyExists,
    AlreadyClaimed,
    AddressMismatch,
    NotFound,
    InsufficientFunds,
    DerivationExhausted,
    CounterOverflow,
    CapacityExceeded,
}

} // verus!
