use vstd::prelude::*;

verus! {

/// An identity attested by the host environment's authentication layer.
///
/// The ledger never inspects an identity beyond comparing two of them for
/// equality, so a plain handle suffices: the host hands each authenticated
/// caller in as one of these.
#[derive(Clone, Copy, PartialEq, Eq, Structural, Debug)]
pub struct Identity {
    pub key: u64,
}

} // verus!
