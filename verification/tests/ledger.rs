use employer_verification_nft::errors::ContractError;
use employer_verification_nft::identity::Identity;
use employer_verification_nft::ledger::EmployerVerificationNFT;

#[test]
fn test_mint_and_public_view() {
    let mut client = EmployerVerificationNFT::new();

    let issuer = Identity { key: 10 };
    let recipient = Identity { key: 20 };

    client.initialize(issuer).unwrap();

    let token_id = client
        .mint(issuer, recipient, String::from("ipfs://metadata-uri"))
        .unwrap();

    assert_eq!(token_id, 1);

    let owner = client.owner_of(token_id).unwrap();
    assert_eq!(owner, recipient);

    let metadata = client.metadata_of(token_id).unwrap();
    assert_eq!(metadata, String::from("ipfs://metadata-uri"));

    let supply = client.total_supply();
    assert_eq!(supply, 1);

    let non_issuer = Identity { key: 30 };
    let result = client.mint(non_issuer, non_issuer, String::from("ipfs://should-fail"));
    assert!(result.is_err(), "non-issuer should not be able to mint");
}

#[test]
fn test_initialize_succeeds_once() {
    let mut client = EmployerVerificationNFT::new();
    let first = Identity { key: 1 };
    let second = Identity { key: 2 };

    assert_eq!(client.initialize(first), Ok(()));
    assert_eq!(
        client.initialize(second),
        Err(ContractError::DuplicateInitialization)
    );

    // The stored issuer is unchanged: the first identity still mints, the
    // rejected one still cannot.
    assert!(client.mint(first, first, String::from("a")).is_ok());
    assert_eq!(
        client.mint(second, second, String::from("b")),
        Err(ContractError::Unauthorized)
    );
}

#[test]
fn test_unauthorized_mint_leaves_supply_unchanged() {
    let mut client = EmployerVerificationNFT::new();
    let issuer = Identity { key: 1 };
    let outsider = Identity { key: 2 };

    // Before initialization every caller is rejected.
    assert_eq!(
        client.mint(issuer, outsider, String::from("early")),
        Err(ContractError::Unauthorized)
    );
    assert_eq!(client.total_supply(), 0);

    client.initialize(issuer).unwrap();
    client.mint(issuer, outsider, String::from("ok")).unwrap();
    assert_eq!(client.total_supply(), 1);

    assert_eq!(
        client.mint(outsider, outsider, String::from("no")),
        Err(ContractError::Unauthorized)
    );
    assert_eq!(client.total_supply(), 1);
}

#[test]
fn test_mint_increments_supply_by_one() {
    let mut client = EmployerVerificationNFT::new();
    let issuer = Identity { key: 7 };
    client.initialize(issuer).unwrap();

    let before = client.total_supply();
    let id = client
        .mint(issuer, Identity { key: 8 }, String::from("uri"))
        .unwrap();
    let after = client.total_supply();

    assert_eq!(after, before + 1);
    assert_eq!(id, after);
}

#[test]
fn test_sequential_identifiers() {
    let mut client = EmployerVerificationNFT::new();
    let issuer = Identity { key: 1 };
    client.initialize(issuer).unwrap();

    for k in 1u64..=5 {
        let id = client
            .mint(issuer, Identity { key: 100 + k }, format!("ipfs://{}", k))
            .unwrap();
        assert_eq!(id, k);
    }
    assert_eq!(client.total_supply(), 5);
}

#[test]
fn test_every_record_keeps_its_mint_data() {
    let mut client = EmployerVerificationNFT::new();
    let a = Identity { key: 1 };
    let b = Identity { key: 2 };
    let c = Identity { key: 3 };
    client.initialize(a).unwrap();

    assert_eq!(client.mint(a, b, String::from("ipfs://1")), Ok(1));
    assert_eq!(client.mint(a, c, String::from("ipfs://2")), Ok(2));

    // Not only the most recent record: the first one is intact too.
    assert_eq!(client.owner_of(1), Ok(b));
    assert_eq!(client.metadata_of(1), Ok(String::from("ipfs://1")));
    assert_eq!(client.owner_of(2), Ok(c));
    assert_eq!(client.metadata_of(2), Ok(String::from("ipfs://2")));
    assert_eq!(client.total_supply(), 2);

    assert_eq!(client.transfer(1, c), Err(ContractError::TransferDisabled));
    assert_eq!(client.owner_of(1), Ok(b));
}

#[test]
fn test_lookup_out_of_range_fails() {
    let mut client = EmployerVerificationNFT::new();
    let issuer = Identity { key: 1 };

    assert_eq!(client.owner_of(0), Err(ContractError::TokenNotFound));
    assert_eq!(client.owner_of(1), Err(ContractError::TokenNotFound));
    assert_eq!(client.metadata_of(0), Err(ContractError::TokenNotFound));
    assert_eq!(client.metadata_of(1), Err(ContractError::TokenNotFound));

    client.initialize(issuer).unwrap();
    client.mint(issuer, issuer, String::from("uri")).unwrap();

    assert_eq!(client.owner_of(0), Err(ContractError::TokenNotFound));
    assert_eq!(client.owner_of(2), Err(ContractError::TokenNotFound));
    assert_eq!(client.metadata_of(2), Err(ContractError::TokenNotFound));
    assert_eq!(client.owner_of(u64::MAX), Err(ContractError::TokenNotFound));
}

#[test]
fn test_transfer_always_disabled() {
    let mut client = EmployerVerificationNFT::new();
    let issuer = Identity { key: 1 };
    let holder = Identity { key: 2 };
    let target = Identity { key: 3 };

    // Even on an uninitialized, empty ledger.
    assert_eq!(client.transfer(1, target), Err(ContractError::TransferDisabled));

    client.initialize(issuer).unwrap();
    client.mint(issuer, holder, String::from("uri")).unwrap();

    // Existing identifier, non-existing identifier, any destination.
    assert_eq!(client.transfer(1, target), Err(ContractError::TransferDisabled));
    assert_eq!(client.transfer(1, issuer), Err(ContractError::TransferDisabled));
    assert_eq!(client.transfer(9, target), Err(ContractError::TransferDisabled));
    assert_eq!(client.transfer(0, holder), Err(ContractError::TransferDisabled));

    // No observable state change.
    assert_eq!(client.owner_of(1), Ok(holder));
    assert_eq!(client.metadata_of(1), Ok(String::from("uri")));
    assert_eq!(client.total_supply(), 1);
}

#[test]
fn test_require_issuer() {
    let mut client = EmployerVerificationNFT::new();
    let issuer = Identity { key: 4 };
    let other = Identity { key: 5 };

    assert_eq!(
        client.require_issuer(issuer),
        Err(ContractError::Unauthorized)
    );
    client.initialize(issuer).unwrap();
    assert_eq!(client.require_issuer(issuer), Ok(()));
    assert_eq!(client.require_issuer(other), Err(ContractError::Unauthorized));
}
