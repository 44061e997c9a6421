use vstd::prelude::*;

verus! {

/// The closed set of failure kinds that any operation of this crate can
/// report.
///
/// `InvalidInput` is a failed validation of a name, salary or percentage and
/// is always the caller's fault. `NotFound` means no record matches the given
/// name. `Overflow`, `Underflow` and `InvalidResult` mean the raise
/// arithmetic cannot be completed or would break the salary invariant; the
/// stored value is left untouched. `Conflict` rejects a duplicate employee
/// name. `StorageUnavailable` is a transient storage failure; in the
/// in-memory store it is reported when the schema was never initialized.
#[derive(Clone, Copy, Debug, PartialEq, Eq, Structural)]
pub enum OpError {
    InvalidInput,
    NotFound,
    Overflow,
    Underflow,
    InvalidResult,
    Conflict,
    StorageUnavailable,
}

} // verus!
