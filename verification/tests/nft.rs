use xlm_ns::nft::{decode_target_version, NftContract, NftError, CONTRACT_VERSION};

fn some(s: &str) -> Option<String> {
    Some(s.to_string())
}

#[test]
fn stores_metadata_and_query_methods_after_mint() {
    let mut client = NftContract::new();
    client.mint("timmy.xlm", "GOWNER", some("ipfs://timmy")).unwrap();
    assert_eq!(client.owner_of("timmy.xlm"), some("GOWNER"));
    assert_eq!(client.total_supply(), 1);
    assert_eq!(client.balance_of("GOWNER"), 1);
    assert_eq!(client.token_by_index(0), some("timmy.xlm"));
    assert_eq!(client.token_of_owner_by_index("GOWNER", 0), some("timmy.xlm"));
    assert_eq!(client.token_uri("timmy.xlm"), some("ipfs://timmy"));
    let token = client.token("timmy.xlm").unwrap();
    assert_eq!(token.owner, "GOWNER");
    assert_eq!(token.approved, None);
    assert_eq!(token.metadata_uri, some("ipfs://timmy"));
}

#[test]
fn rejects_duplicate_mint_for_existing_token_id() {
    let mut client = NftContract::new();
    client.mint("timmy.xlm", "GOWNER", None).unwrap();
    let duplicate = client.mint("timmy.xlm", "GOTHER", some("ipfs://other"));
    assert_eq!(duplicate, Err(NftError::AlreadyMinted));
    let token = client.token("timmy.xlm").unwrap();
    assert_eq!(token.owner, "GOWNER");
    assert_eq!(token.metadata_uri, None);
}

#[test]
fn stores_approval_and_allows_approved_transfer() {
    let mut client = NftContract::new();
    client.mint("timmy.xlm", "GOWNER", some("ipfs://timmy")).unwrap();
    client.approve("timmy.xlm", "GOWNER", "GAPPROVED").unwrap();
    let approved = client.token("timmy.xlm").unwrap();
    assert_eq!(approved.owner, "GOWNER");
    assert_eq!(approved.approved, some("GAPPROVED"));
    client.transfer("timmy.xlm", "GAPPROVED", "GNEW").unwrap();
    assert_eq!(client.owner_of("timmy.xlm"), some("GNEW"));
    let transferred = client.token("timmy.xlm").unwrap();
    assert_eq!(transferred.owner, "GNEW");
    assert_eq!(transferred.approved, None);
    assert_eq!(transferred.metadata_uri, some("ipfs://timmy"));
}

#[test]
fn rejects_transfer_from_unauthorized_caller() {
    let mut client = NftContract::new();
    client.mint("timmy.xlm", "GOWNER", None).unwrap();
    assert_eq!(client.transfer("timmy.xlm", "GINTRUDER", "GNEW"), Err(NftError::Unauthorized));
    assert_eq!(client.owner_of("timmy.xlm"), some("GOWNER"));
    let token = client.token("timmy.xlm").unwrap();
    assert_eq!(token.owner, "GOWNER");
    assert_eq!(token.approved, None);
}

#[test]
fn updates_query_methods_after_owner_transfer() {
    let mut client = NftContract::new();
    client.mint("timmy.xlm", "GOWNER", some("ipfs://timmy")).unwrap();
    client.approve("timmy.xlm", "GOWNER", "GAPPROVED").unwrap();
    client.transfer("timmy.xlm", "GOWNER", "GNEW").unwrap();
    assert_eq!(client.owner_of("timmy.xlm"), some("GNEW"));
    assert_eq!(client.total_supply(), 1);
    assert_eq!(client.balance_of("GOWNER"), 0);
    assert_eq!(client.balance_of("GNEW"), 1);
    assert_eq!(client.token_by_index(0), some("timmy.xlm"));
    assert_eq!(client.token_of_owner_by_index("GOWNER", 0), None);
    assert_eq!(client.token_of_owner_by_index("GNEW", 0), some("timmy.xlm"));
    assert_eq!(client.token_uri("timmy.xlm"), some("ipfs://timmy"));
    let token = client.token("timmy.xlm").unwrap();
    assert_eq!(token.owner, "GNEW");
    assert_eq!(token.approved, None);
    assert_eq!(token.metadata_uri, some("ipfs://timmy"));
}

#[test]
fn enumerates_global_and_owner_tokens_across_multiple_mints() {
    let mut client = NftContract::new();
    client.mint("alpha.xlm", "GOWNER", some("ipfs://alpha")).unwrap();
    client.mint("beta.xlm", "GOWNER", None).unwrap();
    client.mint("gamma.xlm", "GOTHER", some("ipfs://gamma")).unwrap();
    assert_eq!(client.total_supply(), 3);
    assert_eq!(client.balance_of("GOWNER"), 2);
    assert_eq!(client.balance_of("GOTHER"), 1);
    assert_eq!(client.token_by_index(0), some("alpha.xlm"));
    assert_eq!(client.token_by_index(1), some("beta.xlm"));
    assert_eq!(client.token_by_index(2), some("gamma.xlm"));
    assert_eq!(client.token_by_index(3), None);
    assert_eq!(client.token_of_owner_by_index("GOWNER", 0), some("alpha.xlm"));
    assert_eq!(client.token_of_owner_by_index("GOWNER", 1), some("beta.xlm"));
    assert_eq!(client.token_of_owner_by_index("GOWNER", 2), None);
    assert_eq!(client.token_of_owner_by_index("GOTHER", 0), some("gamma.xlm"));
    assert_eq!(client.token_uri("gamma.xlm"), some("ipfs://gamma"));
}

#[test]
fn approval_changes_do_not_change_enumeration_queries() {
    let mut client = NftContract::new();
    client.mint("timmy.xlm", "GOWNER", some("ipfs://timmy")).unwrap();
    client.approve("timmy.xlm", "GOWNER", "GAPPROVED").unwrap();
    assert_eq!(client.total_supply(), 1);
    assert_eq!(client.balance_of("GOWNER"), 1);
    assert_eq!(client.token_by_index(0), some("timmy.xlm"));
    assert_eq!(client.token_of_owner_by_index("GOWNER", 0), some("timmy.xlm"));
    assert_eq!(client.token_uri("timmy.xlm"), some("ipfs://timmy"));
    assert_eq!(client.token("timmy.xlm").unwrap().approved, some("GAPPROVED"));
}

fn assert_owner_enumeration_consistent(client: &NftContract, owner: &str) {
    let balance = client.balance_of(owner);
    let mut seen: Vec<String> = Vec::new();
    for i in 0..balance {
        let token_id = client
            .token_of_owner_by_index(owner, i)
            .expect("every index below balance_of must resolve to a token");
        assert!(!seen.contains(&token_id), "duplicate owner-token entry detected in enumeration");
        assert_eq!(client.owner_of(&token_id), some(owner), "owner_of must agree with the owner token list");
        seen.push(token_id);
    }
    assert_eq!(client.token_of_owner_by_index(owner, balance), None);
}

#[test]
fn enumeration_consistent_after_owner_transfer() {
    let mut client = NftContract::new();
    client.mint("a.xlm", "GALICE", None).unwrap();
    client.mint("b.xlm", "GALICE", None).unwrap();
    client.transfer("a.xlm", "GALICE", "GBOB").unwrap();
    assert_eq!(client.owner_of("a.xlm"), some("GBOB"));
    assert_eq!(client.balance_of("GALICE"), 1);
    assert_eq!(client.balance_of("GBOB"), 1);
    assert_eq!(client.total_supply(), 2);
    assert_owner_enumeration_consistent(&client, "GALICE");
    assert_owner_enumeration_consistent(&client, "GBOB");
}

#[test]
fn enumeration_consistent_after_approved_transfer() {
    let mut client = NftContract::new();
    client.mint("a.xlm", "GALICE", None).unwrap();
    client.approve("a.xlm", "GALICE", "GOPERATOR").unwrap();
    client.transfer("a.xlm", "GOPERATOR", "GBOB").unwrap();
    assert_eq!(client.owner_of("a.xlm"), some("GBOB"));
    assert_eq!(client.balance_of("GALICE"), 0);
    assert_eq!(client.balance_of("GBOB"), 1);
    assert_eq!(client.token("a.xlm").unwrap().approved, None);
    assert_owner_enumeration_consistent(&client, "GALICE");
    assert_owner_enumeration_consistent(&client, "GBOB");
}

#[test]
fn no_op_self_transfer_does_not_duplicate_owner_token() {
    let mut client = NftContract::new();
    client.mint("a.xlm", "GALICE", None).unwrap();
    client.transfer("a.xlm", "GALICE", "GALICE").unwrap();
    assert_eq!(client.owner_of("a.xlm"), some("GALICE"));
    assert_eq!(client.balance_of("GALICE"), 1);
    assert_owner_enumeration_consistent(&client, "GALICE");
}

#[test]
fn transfer_from_needs_owner_and_approved_spender() {
    let mut client = NftContract::new();
    client.mint("a.xlm", "GALICE", None).unwrap();
    assert_eq!(client.transfer_from("GSPENDER", "GALICE", "GBOB", "a.xlm"), Err(NftError::Unauthorized));
    client.approve("a.xlm", "GALICE", "GSPENDER").unwrap();
    assert_eq!(client.transfer_from("GSPENDER", "GCAROL", "GBOB", "a.xlm"), Err(NftError::Unauthorized));
    client.transfer_from("GSPENDER", "GALICE", "GBOB", "a.xlm").unwrap();
    assert_eq!(client.owner_of("a.xlm"), some("GBOB"));
    assert_eq!(client.token("a.xlm").unwrap().approved, None);
    assert_owner_enumeration_consistent(&client, "GBOB");
    assert_eq!(client.transfer("missing.xlm", "GALICE", "GBOB"), Err(NftError::NotFound));
}

#[test]
fn approvals_are_owner_only_and_can_be_cleared() {
    let mut client = NftContract::new();
    client.mint("a.xlm", "GALICE", None).unwrap();
    assert_eq!(client.approve("a.xlm", "GBOB", "GBOB"), Err(NftError::Unauthorized));
    assert_eq!(client.approve("b.xlm", "GALICE", "GBOB"), Err(NftError::NotFound));
    client.approve("a.xlm", "GALICE", "GBOB").unwrap();
    client.approve_clear("a.xlm", "GALICE").unwrap();
    assert_eq!(client.transfer("a.xlm", "GBOB", "GBOB"), Err(NftError::Unauthorized));
}

#[test]
fn upgrade_tracks_versions() {
    let mut client = NftContract::new();
    assert_eq!(client.version(), CONTRACT_VERSION);
    assert_eq!(client.get_version(), CONTRACT_VERSION);
    assert!(matches!(client.upgrade(&[0, 0, 0, 3]), Err(NftError::UpgradeFailed)));
    client.initialize("GADMIN".to_string()).unwrap();
    assert_eq!(client.initialize("GADMIN".to_string()), Err(NftError::AlreadyMinted));
    let report = client.upgrade(&[0, 0, 0, 3]).unwrap();
    assert_eq!(report.old_version, 1);
    assert_eq!(report.new_version, 3);
    assert_eq!(report.admin, "GADMIN");
    assert_eq!(client.get_version(), 3);
    let report = client.upgrade(&[]).unwrap();
    assert_eq!(report.new_version, CONTRACT_VERSION + 1);
}

#[test]
fn decodes_big_endian_target_versions() {
    assert_eq!(decode_target_version(&[0, 0, 1, 2]), 258);
    assert_eq!(decode_target_version(&[1, 0, 0, 0, 9]), 16_777_216);
    assert_eq!(decode_target_version(&[255, 255, 255, 255]), u32::MAX);
    assert_eq!(decode_target_version(&[7]), CONTRACT_VERSION + 1);
    assert_eq!(NftError::UpgradeFailed.code(), 4);
}

#[test]
fn balances_sum_to_supply_through_transfers() {
    let mut client = NftContract::new();
    client.mint("a.xlm", "GONE", None).unwrap();
    client.mint("b.xlm", "GONE", None).unwrap();
    client.mint("c.xlm", "GTWO", None).unwrap();
    client.transfer("b.xlm", "GONE", "GTWO").unwrap();
    client.transfer("a.xlm", "GONE", "GONE").unwrap();
    assert_eq!(client.balance_of("GONE"), 1);
    assert_eq!(client.balance_of("GTWO"), 2);
    assert_eq!(client.balance_of("GONE") + client.balance_of("GTWO"), client.total_supply());
    assert_eq!(client.token_of_owner_by_index("GONE", 1), None);
    assert_eq!(client.token_of_owner_by_index("GTWO", 2), None);
}
