use vstd::prelude::*;

verus! {

/// The outcomes on which an entry point rejects a call.
///
/// Every rejection aborts the whole call: the ledger is left exactly as it
/// was, and the error is the call's only observable effect.
#[derive(Clone, Copy, PartialEq, Eq, Structural, Debug)]
pub enum ContractError {
    /// `initialize` was called on an instance whose issuer is already set.
    DuplicateInitialization,
    /// A caller other than the registered issuer attempted a privileged
    /// operation, or no issuer has been registered yet.
    Unauthorized,
    /// A lookup named identifier 0 or one above the current supply.
    TokenNotFound,
    /// Any attempt to reassign a token, by any caller.
    TransferDisabled,
}

} // verus!
