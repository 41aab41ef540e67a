use xlm_ns::constants::{MAX_TEXT_RECORDS, MAX_TEXT_RECORD_VALUE_LENGTH};
use xlm_ns::resolver::{ResolverContract, ResolverError};

const OWNER: &str = "GOWNER";
const INTRUDER: &str = "GINTRUDER";

#[test]
fn persists_forward_reverse_and_primary_resolution_records() {
    let mut client = ResolverContract::new();
    client.set_record("timmy.xlm", OWNER, "GABC", 100, None).unwrap();
    client.set_text_record("timmy.xlm", OWNER, "com.twitter", "@timmy", 101, None).unwrap();
    client.set_primary_name("GABC", OWNER, "timmy.xlm", None).unwrap();

    let record = client.resolve("timmy.xlm").unwrap();
    assert_eq!(record.owner, OWNER);
    assert_eq!(record.addresses.get("stellar"), Some(&"GABC".to_string()));
    assert_eq!(record.text_records.get("com.twitter"), Some(&"@timmy".to_string()));
    assert_eq!(record.updated_at, 101);
    assert_eq!(client.reverse("GABC"), Some("timmy.xlm".to_string()));
}

#[test]
fn removes_forward_reverse_and_primary_records() {
    let mut client = ResolverContract::new();
    client.set_record("timmy.xlm", OWNER, "GABC", 100, None).unwrap();
    client.set_primary_name("GABC", OWNER, "timmy.xlm", None).unwrap();
    client.remove_record("timmy.xlm", OWNER, None).unwrap();
    assert!(client.resolve("timmy.xlm").is_none());
    assert_eq!(client.reverse("GABC"), None);
}

#[test]
fn rejects_text_record_updates_from_non_owner() {
    let mut client = ResolverContract::new();
    client.set_record("timmy.xlm", OWNER, "GABC", 100, None).unwrap();
    let result = client.set_text_record("timmy.xlm", INTRUDER, "com.twitter", "@timmy", 101, None);
    assert_eq!(result, Err(ResolverError::Unauthorized));
    let stored = client.resolve("timmy.xlm").unwrap();
    assert_eq!(stored.text_records.len(), 0);
}

#[test]
fn rejects_record_removal_from_non_owner() {
    let mut client = ResolverContract::new();
    client.set_record("timmy.xlm", OWNER, "GABC", 100, None).unwrap();
    let result = client.remove_record("timmy.xlm", INTRUDER, None);
    assert_eq!(result, Err(ResolverError::Unauthorized));
    assert!(client.resolve("timmy.xlm").is_some());
    assert_eq!(client.reverse("GABC"), Some("timmy.xlm".to_string()));
}

#[test]
fn enforces_text_record_limit_but_allows_updating_existing_key_at_limit() {
    let mut client = ResolverContract::new();
    client.set_record("timmy.xlm", OWNER, "GABC", 100, None).unwrap();
    for idx in 0..MAX_TEXT_RECORDS {
        client
            .set_text_record(
                "timmy.xlm",
                OWNER,
                &format!("key-{idx}"),
                &format!("value-{idx}"),
                101 + idx as u64,
                None,
            )
            .unwrap();
    }
    client.set_text_record("timmy.xlm", OWNER, "key-0", "updated", 500, None).unwrap();

    let updated = client.resolve("timmy.xlm").unwrap();
    assert_eq!(updated.text_records.len(), MAX_TEXT_RECORDS);
    assert_eq!(updated.text_records.get("key-0"), Some(&"updated".to_string()));
    assert_eq!(updated.updated_at, 500);

    let overflow = client.set_text_record("timmy.xlm", OWNER, "overflow", "value", 501, None);
    assert_eq!(overflow, Err(ResolverError::TooManyTextRecords));
}

#[test]
fn reverse_lookup_prefers_primary_name_when_present() {
    let mut client = ResolverContract::new();
    client.set_record("timmy.xlm", OWNER, "GABC", 100, None).unwrap();
    client.set_record("pay.timmy.xlm", OWNER, "GABC", 101, None).unwrap();
    assert_eq!(client.reverse("GABC"), Some("pay.timmy.xlm".to_string()));
    client.set_primary_name("GABC", OWNER, "timmy.xlm", None).unwrap();
    assert_eq!(client.reverse("GABC"), Some("timmy.xlm".to_string()));
}

#[test]
fn removes_old_primary_mappings_when_address_changes() {
    let mut client = ResolverContract::new();
    client.set_record("timmy.xlm", OWNER, "GABC", 100, None).unwrap();
    client.set_primary_name("GABC", OWNER, "timmy.xlm", None).unwrap();
    assert_eq!(client.reverse("GABC"), Some("timmy.xlm".to_string()));
    client.set_record("timmy.xlm", OWNER, "GDEF", 101, None).unwrap();
    assert_eq!(client.reverse("GABC"), None);
    assert_eq!(client.reverse("GDEF"), Some("timmy.xlm".to_string()));
}

#[test]
fn updating_address_preserves_text_records() {
    let mut client = ResolverContract::new();
    client.set_record("timmy.xlm", OWNER, "GABC", 100, None).unwrap();
    client.set_text_record("timmy.xlm", OWNER, "com.twitter", "@timmy", 101, None).unwrap();
    client.set_record("timmy.xlm", OWNER, "GDEF", 102, None).unwrap();
    let record = client.resolve("timmy.xlm").unwrap();
    assert_eq!(record.addresses.get("stellar"), Some(&"GDEF".to_string()));
    assert_eq!(record.text_records.len(), 1);
    assert_eq!(record.text_records.get("com.twitter"), Some(&"@timmy".to_string()));
    assert_eq!(record.updated_at, 102);
}

#[test]
fn enforces_text_record_value_size_limit() {
    let mut client = ResolverContract::new();
    client.set_record("timmy.xlm", OWNER, "GABC", 100, None).unwrap();
    let valid_value = "x".repeat(MAX_TEXT_RECORD_VALUE_LENGTH);
    client.set_text_record("timmy.xlm", OWNER, "key1", &valid_value, 101, None).unwrap();
    assert_eq!(client.resolve("timmy.xlm").unwrap().text_records.len(), 1);
    let oversized = "x".repeat(MAX_TEXT_RECORD_VALUE_LENGTH + 1);
    let result = client.set_text_record("timmy.xlm", OWNER, "key2", &oversized, 102, None);
    assert_eq!(result, Err(ResolverError::TextRecordValueTooLong));
}

#[test]
fn supports_multi_chain_address_records() {
    let mut client = ResolverContract::new();
    let eth = "0x1234567890123456789012345678901234567890";
    client.set_record("timmy.xlm", OWNER, "GABC", 100, None).unwrap();
    client.set_address("timmy.xlm", OWNER, "ethereum", eth, 101, None).unwrap();
    let record = client.resolve("timmy.xlm").unwrap();
    assert_eq!(record.addresses.get("stellar"), Some(&"GABC".to_string()));
    assert_eq!(record.addresses.get("ethereum"), Some(&eth.to_string()));
    assert_eq!(client.get_address("timmy.xlm", "ethereum"), Some(eth.to_string()));
}

#[test]
fn batch_resolve_returns_records_for_multiple_names() {
    let mut client = ResolverContract::new();
    client.set_record("alice.xlm", OWNER, "GAAA", 100, None).unwrap();
    client.set_record("bob.xlm", OWNER, "GBBB", 101, None).unwrap();
    let names = vec!["alice.xlm".to_string(), "bob.xlm".to_string(), "charlie.xlm".to_string()];
    let results = client.batch_resolve(&names);
    assert_eq!(results.len(), 3);
    assert!(results[0].is_some());
    assert!(results[1].is_some());
    assert!(results[2].is_none());
}

#[test]
fn batch_reverse_returns_names_for_multiple_addresses() {
    let mut client = ResolverContract::new();
    client.set_record("alice.xlm", OWNER, "GAAA", 100, None).unwrap();
    client.set_record("bob.xlm", OWNER, "GBBB", 101, None).unwrap();
    let addresses = vec!["GAAA".to_string(), "GBBB".to_string(), "GCCC".to_string()];
    let results = client.batch_reverse(&addresses);
    assert_eq!(results.len(), 3);
    assert_eq!(results[0], Some("alice.xlm".to_string()));
    assert_eq!(results[1], Some("bob.xlm".to_string()));
    assert_eq!(results[2], None);
}

#[test]
fn accepts_valid_text_record_keys() {
    let mut client = ResolverContract::new();
    client.set_record("alice.xlm", OWNER, "GABC", 100, None).unwrap();
    client.set_text_record("alice.xlm", OWNER, "url", "https://x", 101, None).unwrap();
    client.set_text_record("alice.xlm", OWNER, "com.twitter", "@alice", 102, None).unwrap();
    client.set_text_record("alice.xlm", OWNER, "org.did_key-1", "did:x", 103, None).unwrap();
    assert_eq!(client.resolve("alice.xlm").unwrap().text_records.len(), 3);
}

fn keyed_client() -> ResolverContract {
    let mut client = ResolverContract::new();
    client.set_record("alice.xlm", OWNER, "GABC", 100, None).unwrap();
    client
}

#[test]
fn rejects_uppercase_text_record_key() {
    let mut client = keyed_client();
    let r = client.set_text_record("alice.xlm", OWNER, "Twitter", "@alice", 101, None);
    assert_eq!(r, Err(ResolverError::InvalidKey));
}

#[test]
fn rejects_empty_text_record_key() {
    let mut client = keyed_client();
    let r = client.set_text_record("alice.xlm", OWNER, "", "val", 101, None);
    assert_eq!(r, Err(ResolverError::InvalidKey));
}

#[test]
fn rejects_overlong_text_record_key() {
    let mut client = keyed_client();
    let long_key = "a".repeat(65);
    let r = client.set_text_record("alice.xlm", OWNER, &long_key, "val", 101, None);
    assert_eq!(r, Err(ResolverError::InvalidKey));
    client.set_text_record("alice.xlm", OWNER, &"a".repeat(64), "val", 101, None).unwrap();
}

#[test]
fn rejects_text_record_key_with_space() {
    let mut client = keyed_client();
    let r = client.set_text_record("alice.xlm", OWNER, "bad key", "val", 101, None);
    assert_eq!(r, Err(ResolverError::InvalidKey));
}

#[test]
fn registry_decides_ownership_when_configured() {
    let mut client = ResolverContract::new();
    assert_eq!(client.initialize("CREGISTRY".to_string()), Ok(()));
    assert_eq!(client.initialize("CREGISTRY".to_string()), Err(ResolverError::Unauthorized));
    // The registry names GREG the owner: only GREG may write.
    assert_eq!(
        client.set_record("timmy.xlm", OWNER, "GABC", 100, Some("GREG")),
        Err(ResolverError::Unauthorized)
    );
    client.set_record("timmy.xlm", "GREG", "GABC", 100, Some("GREG")).unwrap();
    // The stored owner no longer matters once the registry answers.
    client.update_owner("timmy.xlm", "GSTALE").unwrap();
    client.set_text_record("timmy.xlm", "GREG", "url", "x", 101, Some("GREG")).unwrap();
    assert_eq!(
        client.set_text_record("timmy.xlm", "GSTALE", "url", "y", 102, Some("GREG")),
        Err(ResolverError::Unauthorized)
    );
}

#[test]
fn ownership_transfer_and_lookups() {
    let mut client = ResolverContract::new();
    assert_eq!(client.set_record("bad", OWNER, "GABC", 1, None), Err(ResolverError::Validation));
    assert_eq!(client.update_owner("none.xlm", OWNER), Err(ResolverError::RecordNotFound));
    client.set_record("timmy.xlm", OWNER, "GABC", 1, None).unwrap();
    assert!(client.has_record("timmy.xlm"));
    assert!(!client.has_record("other.xlm"));
    assert_eq!(client.get_stellar_address("timmy.xlm"), Some("GABC".to_string()));
    assert_eq!(client.transfer_record_owner("timmy.xlm", INTRUDER, "GNEW"), Err(ResolverError::Unauthorized));
    client.transfer_record_owner("timmy.xlm", OWNER, "GNEW").unwrap();
    assert_eq!(client.resolve("timmy.xlm").unwrap().owner, "GNEW");
    assert_eq!(client.set_record("timmy.xlm", OWNER, "GABC", 2, None), Err(ResolverError::Unauthorized));
    assert_eq!(
        client.set_primary_name("GOTHER", "GNEW", "timmy.xlm", None),
        Err(ResolverError::Unauthorized)
    );
    assert_eq!(ResolverError::InvalidKey.code(), 8);
}
