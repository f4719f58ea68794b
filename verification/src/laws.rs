//! The ledger's governing properties, stated once over the ledger model and
//! proved for every instance, every input and every run of calls.

use crate::errors::ContractError;
use crate::identity::Identity;
use crate::ledger::{spec_initialize, spec_mint, spec_transfer, LedgerModel, TokenModel};
use vstd::prelude::*;

verus! {

/// An issuer is registered exactly once: on a ledger with no issuer,
/// `initialize` succeeds and stores it, and on the resulting ledger every
/// further `initialize` fails with `DuplicateInitialization` and changes
/// nothing — the issuer stored first is the issuer forever.
pub proof fn lemma_initialize_once(m: LedgerModel, first: Identity, second: Identity)
    requires
        m.issuer is None,
    ensures
        ({
            let (m1, r1) = spec_initialize(m, first);
            let (m2, r2) = spec_initialize(m1, second);
            &&& r1 == Ok::<(), ContractError>(())
            &&& m1.issuer == Some(first)
            &&& m1.tokens == m.tokens
            &&& r2 == Err::<(), ContractError>(ContractError::DuplicateInitialization)
            &&& m2 == m1
        }),
{
}

/// A caller other than the registered issuer cannot mint: the attempt fails
/// with `Unauthorized` and the ledger — the supply in particular — is
/// exactly as before. This covers every caller while no issuer is
/// registered, too.
pub proof fn lemma_unauthorized_mint(
    m: LedgerModel,
    caller: Identity,
    recipient: Identity,
    metadata_uri: Seq<char>,
)
    requires
        m.issuer != Some(caller),
    ensures
        spec_mint(m, caller, recipient, metadata_uri) == (
            m,
            Err::<u64, ContractError>(ContractError::Unauthorized),
        ),
        spec_mint(m, caller, recipient, metadata_uri).0.supply() == m.supply(),
{
}

/// A mint by the registered issuer succeeds, raises the supply by exactly 1,
/// and returns an identifier equal to the new supply; the new identifier
/// resolves to the recipient and metadata just supplied, and the issuer is
/// untouched.
pub proof fn lemma_issuer_mint(
    m: LedgerModel,
    caller: Identity,
    recipient: Identity,
    metadata_uri: Seq<char>,
)
    requires
        m.issuer == Some(caller),
        m.supply() < u64::MAX,
    ensures
        ({
            let (m1, r) = spec_mint(m, caller, recipient, metadata_uri);
            &&& m1.supply() == m.supply() + 1
            &&& r == Ok::<u64, ContractError>((m.supply() + 1) as u64)
            &&& m1.issuer == m.issuer
            &&& m1.has_token((m.supply() + 1) as u64)
            &&& m1.token((m.supply() + 1) as u64) == (TokenModel {
                owner: recipient,
                metadata_uri,
            })
        }),
{
}

/// A single mint never changes an existing record: whatever the caller and
/// whatever the outcome, every identifier minted before resolves exactly as
/// it did.
pub proof fn lemma_mint_preserves_existing(
    m: LedgerModel,
    caller: Identity,
    recipient: Identity,
    metadata_uri: Seq<char>,
    id: u64,
)
    requires
        m.has_token(id),
        m.supply() < u64::MAX,
    ensures
        ({
            let m1 = spec_mint(m, caller, recipient, metadata_uri).0;
            &&& m1.has_token(id)
            &&& m1.token(id) == m.token(id)
        }),
{
}

/// Identifier 0, and every identifier above the current supply, names no
/// token: lookups on such identifiers are exactly the ones that fail with
/// `TokenNotFound`.
pub proof fn lemma_out_of_range_ids(m: LedgerModel, id: u64)
    requires
        id == 0 || id > m.supply(),
    ensures
        !m.has_token(id),
{
}

/// Transfers are disabled outright: for every ledger, identifier and
/// destination, `transfer` fails with `TransferDisabled` and the ledger,
/// every record included, is exactly as before.
pub proof fn lemma_transfer_disabled(m: LedgerModel, token_id: u64, to: Identity)
    ensures
        spec_transfer(m, token_id, to) == (
            m,
            Err::<(), ContractError>(ContractError::TransferDisabled),
        ),
{
}

/// Attested state is append-only and the supply never decreases: whatever
/// the arguments, `initialize` and `transfer` leave the record sequence
/// untouched, and `mint` at most appends one record after the existing ones.
pub proof fn lemma_records_append_only(
    m: LedgerModel,
    issuer: Identity,
    caller: Identity,
    recipient: Identity,
    metadata_uri: Seq<char>,
    token_id: u64,
    to: Identity,
)
    ensures
        spec_initialize(m, issuer).0.tokens == m.tokens,
        spec_transfer(m, token_id, to).0.tokens == m.tokens,
        ({
            let minted = spec_mint(m, caller, recipient, metadata_uri).0.tokens;
            &&& minted.len() >= m.tokens.len()
            &&& forall|i: int| 0 <= i < m.tokens.len() ==> minted[i] == m.tokens[i]
        }),
{
}

/// The ledger after a run of mints by `caller`, one per request, oldest
/// first. Each request carries the recipient and metadata of one mint.
pub open spec fn after_mints(m: LedgerModel, caller: Identity, requests: Seq<TokenModel>) -> LedgerModel
    decreases requests.len(),
{
    if requests.len() == 0 {
        m
    } else {
        after_mints(
            spec_mint(m, caller, requests[0].owner, requests[0].metadata_uri).0,
            caller,
            requests.drop_first(),
        )
    }
}

/// A run of mints by the registered issuer appends exactly the requested
/// records, in order, after those already present; the issuer is untouched.
pub proof fn lemma_after_mints(m: LedgerModel, caller: Identity, requests: Seq<TokenModel>)
    requires
        m.issuer == Some(caller),
        m.supply() + requests.len() <= u64::MAX,
    ensures
        after_mints(m, caller, requests).issuer == m.issuer,
        after_mints(m, caller, requests).tokens == m.tokens + requests,
    decreases requests.len(),
{
    if requests.len() == 0 {
        assert(m.tokens + requests =~= m.tokens);
    } else {
        let m1 = spec_mint(m, caller, requests[0].owner, requests[0].metadata_uri).0;
        assert(TokenModel { owner: requests[0].owner, metadata_uri: requests[0].metadata_uri }
            =~= requests[0]);
        lemma_after_mints(m1, caller, requests.drop_first());
        assert(m.tokens.push(requests[0]) + requests.drop_first() =~= m.tokens + requests);
    }
}

/// Identifiers are strictly sequential from 1: starting from a freshly
/// initialized ledger, the mint serving the `k`-th request (counting from 1)
/// succeeds and returns identifier `k`.
pub proof fn lemma_kth_mint_returns_k(
    m: LedgerModel,
    caller: Identity,
    requests: Seq<TokenModel>,
    k: int,
)
    requires
        m.issuer == Some(caller),
        m.supply() == 0,
        0 < k <= requests.len(),
        requests.len() <= u64::MAX,
    ensures
        ({
            let before = after_mints(m, caller, requests.take(k - 1));
            spec_mint(before, caller, requests[k - 1].owner, requests[k - 1].metadata_uri).1
                == Ok::<u64, ContractError>(k as u64)
        }),
{
    lemma_after_mints(m, caller, requests.take(k - 1));
}

/// Every record is write-once: after any run of mints from a freshly
/// initialized ledger, each identifier resolves to the recipient and
/// metadata supplied by the mint that created it — not only the most recent
/// one.
pub proof fn lemma_every_token_stable(
    m: LedgerModel,
    caller: Identity,
    requests: Seq<TokenModel>,
    id: u64,
)
    requires
        m.issuer == Some(caller),
        m.supply() == 0,
        requests.len() <= u64::MAX,
        1 <= id <= requests.len(),
    ensures
        after_mints(m, caller, requests).has_token(id),
        after_mints(m, caller, requests).token(id) == requests[id as int - 1],
{
    lemma_after_mints(m, caller, requests);
}

} // verus!
