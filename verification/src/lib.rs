//! An issuer-gated, non-transferable attestation token ledger.
//!
//! A single authority (the issuer) is registered once; afterwards only that
//! issuer may mint records, each binding a recipient identity to a metadata
//! reference under a strictly sequential identifier. Anyone may read a
//! record, and no one — the issuer included — may ever reassign one: the
//! transfer path is permanently disabled.

pub mod errors;
pub mod identity;
pub mod laws;
pub mod ledger;
pub mod zeroid;
