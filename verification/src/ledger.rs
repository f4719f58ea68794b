use crate::errors::ContractError;
use crate::identity::Identity;
use vstd::prelude::*;

verus! {

/// One minted record: the recipient it is permanently bound to and the
/// metadata reference supplied at mint time. Never changed after creation.
struct Token {
    owner: Identity,
    metadata_uri: String,
}

/// The mathematical value of one token record.
#[verifier::ext_equal]
pub struct TokenModel {
    pub owner: Identity,
    pub metadata_uri: Seq<char>,
}

impl View for Token {
    type V = TokenModel;

    closed spec fn view(&self) -> TokenModel {
        TokenModel { owner: self.owner, metadata_uri: self.metadata_uri@ }
    }
}

/// The mathematical value of the whole ledger: the registered issuer, if
/// any, and every record minted so far, in mint order. The record at
/// position `i` carries identifier `i + 1`, so the supply is both the number
/// of records ever minted and the highest valid identifier.
#[verifier::ext_equal]
pub struct LedgerModel {
    pub issuer: Option<Identity>,
    pub tokens: Seq<TokenModel>,
}

impl LedgerModel {
    /// How many tokens were ever minted; also the highest valid identifier.
    pub open spec fn supply(self) -> nat {
        self.tokens.len()
    }

    /// Whether `id` names a minted token.
    pub open spec fn has_token(self, id: u64) -> bool {
        1 <= id && id <= self.supply()
    }

    /// The record minted under identifier `id`.
    pub open spec fn token(self, id: u64) -> TokenModel
        recommends
            self.has_token(id),
    {
        self.tokens[id as int - 1]
    }
}

/// What `initialize` does: registers `issuer` if none is stored yet,
/// otherwise rejects the call and leaves the ledger unchanged.
pub open spec fn spec_initialize(m: LedgerModel, issuer: Identity) -> (LedgerModel, Result<
    (),
    ContractError,
>) {
    if m.issuer is None {
        (LedgerModel { issuer: Some(issuer), ..m }, Ok(()))
    } else {
        (m, Err(ContractError::DuplicateInitialization))
    }
}

/// What `mint` does: when the caller is the registered issuer, appends a new
/// record and returns its identifier, one past the supply before the call;
/// every other caller — including any caller before initialization — is
/// rejected with the ledger unchanged.
pub open spec fn spec_mint(
    m: LedgerModel,
    caller: Identity,
    recipient: Identity,
    metadata_uri: Seq<char>,
) -> (LedgerModel, Result<u64, ContractError>) {
    if m.issuer == Some(caller) {
        (
            LedgerModel { tokens: m.tokens.push(TokenModel { owner: recipient, metadata_uri }), ..m },
            Ok((m.supply() + 1) as u64),
        )
    } else {
        (m, Err(ContractError::Unauthorized))
    }
}

/// What `transfer` does: nothing, for every identifier, destination and
/// caller — the call is rejected outright.
pub open spec fn spec_transfer(m: LedgerModel, token_id: u64, to: Identity) -> (LedgerModel, Result<
    (),
    ContractError,
>) {
    (m, Err(ContractError::TransferDisabled))
}

/// The token-ledger contract state: the issuer slot, set at most once, and
/// the minted records, keyed by their identifier.
pub struct EmployerVerificationNFT {
    issuer: Option<Identity>,
    tokens: Vec<Token>,
}

impl View for EmployerVerificationNFT {
    type V = LedgerModel;

    closed spec fn view(&self) -> LedgerModel {
        LedgerModel { issuer: self.issuer, tokens: self.tokens@.map_values(|t: Token| t@) }
    }
}

impl EmployerVerificationNFT {
    /// A fresh instance: no issuer registered, nothing minted.
    pub fn new() -> (c: Self)
        ensures
            c@.issuer is None,
            c@.supply() == 0,
    {
        EmployerVerificationNFT { issuer: None, tokens: Vec::new() }
    }

    /// Registers the issuer. Succeeds exactly when no issuer is stored yet;
    /// a repeated call fails with `DuplicateInitialization` and changes
    /// nothing, so the issuer stored first is the issuer forever.
    pub fn initialize(&mut self, issuer: Identity) -> (r: Result<(), ContractError>)
        ensures
            (final(self)@, r) == spec_initialize(old(self)@, issuer),
    {
        match self.issuer {
            None => {
                self.issuer = Some(issuer);
                Ok(())
            },
            Some(_) => Err(ContractError::DuplicateInitialization),
        }
    }

    /// The access-control check: accepts exactly the registered issuer, and
    /// rejects every caller while no issuer is registered.
    pub fn require_issuer(&self, caller: Identity) -> (r: Result<(), ContractError>)
        ensures
            r is Ok <==> self@.issuer == Some(caller),
            r is Err ==> r == Err::<(), ContractError>(ContractError::Unauthorized),
    {
        match self.issuer {
            Some(issuer) => {
                if issuer == caller {
                    Ok(())
                } else {
                    Err(ContractError::Unauthorized)
                }
            },
            None => Err(ContractError::Unauthorized),
        }
    }

    /// Mints a new record binding `recipient` to `metadata_uri`. Only the
    /// registered issuer may mint; the returned identifier is one past the
    /// supply before the call, and on rejection the ledger is unchanged.
    ///
    /// The supply bound keeps the new identifier within a 64-bit counter.
    pub fn mint(&mut self, caller: Identity, recipient: Identity, metadata_uri: String) -> (r:
        Result<u64, ContractError>)
        requires
            old(self)@.supply() < u64::MAX,
        ensures
            (final(self)@, r) == spec_mint(old(self)@, caller, recipient, metadata_uri@),
    {
        match self.require_issuer(caller) {
            Ok(()) => {},
            Err(e) => {
                return Err(e);
            },
        }
        let ghost prev = self.tokens@;
        let ghost uri = metadata_uri@;
        let token_id: u64 = (self.tokens.len() as u64) + 1;
        self.tokens.push(Token { owner: recipient, metadata_uri });
        proof {
            assert(self.tokens@.map_values(|t: Token| t@) =~= prev.map_values(|t: Token| t@).push(
                TokenModel { owner: recipient, metadata_uri: uri },
            ));
        }
        Ok(token_id)
    }

    /// Looks up the owner bound to `token_id` at mint time. Public: no
    /// authentication is required.
    pub fn owner_of(&self, token_id: u64) -> (r: Result<Identity, ContractError>)
        ensures
            self@.has_token(token_id) ==> r == Ok::<Identity, ContractError>(
                self@.token(token_id).owner,
            ),
            !self@.has_token(token_id) ==> r == Err::<Identity, ContractError>(
                ContractError::TokenNotFound,
            ),
    {
        let count: usize = self.tokens.len();
        if token_id == 0 || token_id > (count as u64) {
            return Err(ContractError::TokenNotFound);
        }
        let idx: usize = (token_id - 1) as usize;
        Ok(self.tokens[idx].owner)
    }

    /// Looks up the metadata reference bound to `token_id` at mint time.
    /// Public: no authentication is required.
    pub fn metadata_of(&self, token_id: u64) -> (r: Result<String, ContractError>)
        ensures
            self@.has_token(token_id) ==> (r matches Ok(uri) && uri@ == self@.token(
                token_id,
            ).metadata_uri),
            !self@.has_token(token_id) ==> r == Err::<String, ContractError>(
                ContractError::TokenNotFound,
            ),
    {
        let count: usize = self.tokens.len();
        if token_id == 0 || token_id > (count as u64) {
            return Err(ContractError::TokenNotFound);
        }
        let idx: usize = (token_id - 1) as usize;
        Ok(self.tokens[idx].metadata_uri.clone())
    }

    /// The number of tokens ever minted: 0 before any mint, and afterwards
    /// the identifier of the most recent mint. Public, and never fails.
    pub fn total_supply(&self) -> (r: u64)
        ensures
            r == self@.supply(),
    {
        self.tokens.len() as u64
    }

    /// The permanently disabled transfer path: every call is rejected with
    /// `TransferDisabled` before any lookup, and the ledger — every record
    /// included — is left exactly as it was.
    #[allow(unused_variables)]
    pub fn transfer(&mut self, token_id: u64, to: Identity) -> (r: Result<(), ContractError>)
        ensures
            (final(self)@, r) == spec_transfer(old(self)@, token_id, to),
    {
        Err(ContractError::TransferDisabled)
    }
}

} // verus!
