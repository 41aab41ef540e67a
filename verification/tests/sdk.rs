use xlm_ns::sdk::client::{
    apply_transaction_status, generated_submission_hash, name_record_from_entry,
    parse_submission_hash, resolution_from_entry, XlmNsClient, MOCK_REFERENCE_TIMESTAMP,
};
use xlm_ns::sdk::config::{ClientConfig, NetworkPreset, RetryConfig};
use xlm_ns::sdk::errors::{
    decode_error, i64_text, is_retryable, transport_is_retryable, u64_text, ContractErrorCode,
    SdkError, SigningError,
};
use xlm_ns::sdk::keys::{ExternalSigner, Keypair, KeypairSigner};
use xlm_ns::sdk::network::{check_network_passphrase, verify_transaction_passphrase};
use xlm_ns::sdk::types::{
    BuildMessageRequest, FeeBreakdown, RegisterChainRequest, RegistrationRequest,
    RenewalRequest, SubmissionStatus, TextRecordUpdate, TransferRequest,
};

const REGISTRY_ID: &str = "CAAAAAAAAAAAAAAAAAAAAAAAAAAAAAAAAAAAAAAAAAAAAAAAAAAAAAAA";
const REGISTRAR_ID: &str = "CBBBBBBBBBBBBBBBBBBBBBBBBBBBBBBBBBBBBBBBBBBBBBBBBBBBBBBB";
const RESOLVER_ID: &str = "CCCCCCCCCCCCCCCCCCCCCCCCCCCCCCCCCCCCCCCCCCCCCCCCCCCCCCCC";
const AUCTION_ID: &str = "CDDDDDDDDDDDDDDDDDDDDDDDDDDDDDDDDDDDDDDDDDDDDDDDDDDDDDDD";
const BRIDGE_ID: &str = "CEEEEEEEEEEEEEEEEEEEEEEEEEEEEEEEEEEEEEEEEEEEEEEEEEEEEEEE";
const SUBDOMAIN_ID: &str = "CFFFFFFFFFFFFFFFFFFFFFFFFFFFFFFFFFFFFFFFFFFFFFFFFFFFFFFF";
const OWNER_ADDR: &str = "GAAAAAAAAAAAAAAAAAAAAAAAAAAAAAAAAAAAAAAAAAAAAAAAAAAAAAAA";
const NEW_OWNER_ADDR: &str = "GBBBBBBBBBBBBBBBBBBBBBBBBBBBBBBBBBBBBBBBBBBBBBBBBBBBBBBB";

fn client() -> XlmNsClient {
    XlmNsClient::builder("http://localhost")
        .network_passphrase("Test SDF Network ; September 2015")
        .registry(REGISTRY_ID)
        .subdomain(SUBDOMAIN_ID)
        .bridge(BRIDGE_ID)
        .auction(AUCTION_ID)
        .registrar(REGISTRAR_ID)
        .resolver(RESOLVER_ID)
        .build()
}

fn invalid_message(err: SdkError) -> String {
    match err {
        SdkError::InvalidRequest(m) => m,
        other => panic!("expected an invalid request, got {other:?}"),
    }
}

#[test]
fn is_retryable_only_for_transient_errors() {
    assert!(is_retryable(&SdkError::Transport("timeout".into())));
    assert!(is_retryable(&SdkError::Transport("http error: status 503 service unavailable".into())));
    assert!(is_retryable(&SdkError::Transport("too many requests (429)".into())));
    assert!(is_retryable(&SdkError::Transport("connection refused".into())));
    assert!(!is_retryable(&SdkError::Transport("invalid rpc url: bad://".into())));
    assert!(is_retryable(&SdkError::TransactionTimeout { operation: "register", ledger_submitted: 42 }));
    assert!(!is_retryable(&SdkError::InvalidRequest("bad input".into())));
    assert!(!is_retryable(&SdkError::ContractError(ContractErrorCode::NameNotFound)));
    assert!(!is_retryable(&SdkError::NetworkPassphraseMismatch {
        configured: "a".into(),
        rpc_reported: "b".into(),
    }));
    assert!(!is_retryable(&SdkError::SimulationFailed { operation: "register", reason: "revert".into() }));
    assert!(!is_retryable(&SdkError::ContractInvocationFailed {
        operation: "register",
        reason: "revert".into(),
        tx_hash: None,
    }));
}

#[test]
fn permanent_transport_failures_ignore_case() {
    assert!(!transport_is_retryable("JSON Decoding Error at line 1"));
    assert!(!transport_is_retryable("Invalid Response From Server"));
    assert!(transport_is_retryable("something odd happened"));
}

#[test]
fn owner_portfolio_page_returns_cursor_and_total() {
    let first = client().list_registrations_by_owner_page(OWNER_ADDR, None, 1).unwrap();
    assert_eq!(first.items.len(), 1);
    assert_eq!(first.total, 2);
    assert_eq!(first.next_cursor, Some(1));

    let second = client().list_registrations_by_owner_page(OWNER_ADDR, first.next_cursor, 1).unwrap();
    assert_eq!(second.items.len(), 1);
    assert_eq!(second.total, 2);
    assert_eq!(second.next_cursor, None);
}

#[test]
fn portfolio_listing_edges() {
    let c = client();
    let all = c.list_registrations_by_owner(OWNER_ADDR).unwrap();
    assert_eq!(all.len(), 2);
    assert_eq!(all[0].name, "alice.xlm");
    assert_eq!(all[1].name, "bob.xlm");
    assert_eq!(all[0].address.as_deref(), Some(OWNER_ADDR));
    assert_eq!(all[0].resolver.as_deref(), Some(RESOLVER_ID));
    assert_eq!(all[1].expires_at, Some(MOCK_REFERENCE_TIMESTAMP + 2 * 31_536_000));
    assert!(c.list_registrations_by_owner("GDRA...EMPTY").unwrap().is_empty());
    assert_eq!(invalid_message(c.list_registrations_by_owner("  ").unwrap_err()), "owner must not be empty");
    let page = c.list_registrations_by_owner_page(OWNER_ADDR, Some(5), 1).unwrap();
    assert!(page.items.is_empty());
    assert_eq!(page.next_cursor, None);
    let zero = c.list_registrations_by_owner_page(OWNER_ADDR, None, 0).unwrap();
    assert_eq!(zero.items.len(), 1);
    assert_eq!(zero.next_cursor, Some(1));
    let whole = c.list_registrations_by_owner_page(OWNER_ADDR, None, 10).unwrap();
    assert_eq!(whole.items.len(), 2);
    assert_eq!(whole.next_cursor, None);
}

#[test]
fn error_decoding_works() {
    assert_eq!(decode_error(1), ContractErrorCode::NameNotFound);
    assert_eq!(decode_error(2), ContractErrorCode::NotOwner);
    assert_eq!(decode_error(99), ContractErrorCode::Other);
}

#[test]
fn error_codes_round_trip() {
    for code in [1u32, 2, 3, 4, 99] {
        assert_eq!(decode_error(code).code(), code);
    }
    assert_eq!(decode_error(7), ContractErrorCode::Other);
}

#[test]
fn test_verify_transaction_passphrase_mismatch() {
    let result = verify_transaction_passphrase(
        "Test SDF Network ; September 2015",
        "Public Global Stellar Network ; September 2015",
    );
    let err = result.unwrap_err();
    match err {
        SdkError::TransactionPassphraseMismatch { configured, in_transaction } => {
            assert_eq!(configured, "Test SDF Network ; September 2015");
            assert_eq!(in_transaction, "Public Global Stellar Network ; September 2015");
        }
        _ => panic!("wrong error variant"),
    }
}

#[test]
fn matching_passphrases_are_accepted() {
    assert!(verify_transaction_passphrase("a", "a").is_ok());
    assert!(check_network_passphrase("a", "a").is_ok());
    assert!(matches!(
        check_network_passphrase("a", "b"),
        Err(SdkError::NetworkPassphraseMismatch { .. })
    ));
}

#[test]
fn builder_from_preset_testnet_sets_rpc_and_passphrase() {
    let client = XlmNsClient::builder_from_preset(NetworkPreset::Testnet).build();
    assert!(client.rpc_url.contains("testnet"));
    assert_eq!(client.network_passphrase.as_deref(), Some("Test SDF Network ; September 2015"));
}

#[test]
fn builder_from_preset_mainnet_sets_rpc_and_passphrase() {
    let client = XlmNsClient::builder_from_preset(NetworkPreset::Mainnet).build();
    assert!(client.rpc_url.contains("soroban.stellar.org"));
    assert_eq!(
        client.network_passphrase.as_deref(),
        Some("Public Global Stellar Network ; September 2015")
    );
}

#[test]
fn missing_resolver_contract_id_is_none() {
    let c = XlmNsClient::builder("http://localhost").registry("CDAD...REGISTRY").build();
    assert!(c.resolver_contract_id.is_none());
}

#[test]
fn missing_nft_contract_id_is_none() {
    let c = XlmNsClient::builder("http://localhost").build();
    assert!(c.nft_contract_id.is_none());
}

#[test]
fn missing_bridge_contract_id_is_none() {
    let c = XlmNsClient::builder("http://localhost").build();
    assert!(c.bridge_contract_id.is_none());
}

#[test]
fn missing_auction_contract_id_is_none() {
    let c = XlmNsClient::builder("http://localhost").build();
    assert!(c.auction_contract_id.is_none());
}

#[test]
fn missing_subdomain_contract_id_is_none() {
    let c = XlmNsClient::builder("http://localhost").build();
    assert!(c.subdomain_contract_id.is_none());
}

#[test]
fn fully_specified_builder_sets_all_contract_ids() {
    let c = XlmNsClient::builder("http://localhost")
        .registry("CDAD...REGISTRY")
        .registrar("CDAD...REGISTRAR")
        .resolver("CDAD...RESOLVER")
        .auction("CDAD...AUCTION")
        .bridge("CDAD...BRIDGE")
        .subdomain("CDAD...SUBDOMAIN")
        .nft("CDAD...NFT")
        .build();
    assert!(c.registry_contract_id.is_some());
    assert!(c.registrar_contract_id.is_some());
    assert!(c.resolver_contract_id.is_some());
    assert!(c.auction_contract_id.is_some());
    assert!(c.bridge_contract_id.is_some());
    assert!(c.subdomain_contract_id.is_some());
    assert!(c.nft_contract_id.is_some());
}

#[test]
fn builder_default_config_is_applied() {
    let c = client();
    assert_eq!(c.config.timeout_ms, xlm_ns::sdk::config::DEFAULT_TIMEOUT_MS);
    assert!(c.config.user_agent.starts_with("xlm-ns-sdk/"));
}

#[test]
fn builder_accepts_custom_config() {
    let c = XlmNsClient::builder("http://localhost")
        .registry(REGISTRY_ID)
        .config(
            ClientConfig::default()
                .with_timeout_ms(2_000)
                .with_max_retries(0)
                .with_user_agent("integration-test/1.0"),
        )
        .build();
    assert_eq!(c.config.timeout_ms, 2_000);
    assert_eq!(c.config.retry.max_retries, 0);
    assert_eq!(c.config.user_agent, "integration-test/1.0");
}

#[test]
fn retry_schedule_doubles_and_stops() {
    let retry = ClientConfig::default()
        .with_max_retries(3)
        .with_initial_backoff_ms(100)
        .with_jitter(false)
        .retry;
    assert_eq!(retry.backoff_ms(0), 100);
    assert_eq!(retry.backoff_ms(1), 200);
    assert_eq!(retry.backoff_ms(2), 400);
    assert_eq!(retry.next_delay(0, true), Some(100));
    assert_eq!(retry.next_delay(2, true), Some(400));
    assert_eq!(retry.next_delay(3, true), None);
    assert_eq!(retry.next_delay(0, false), None);
    let huge = RetryConfig { max_retries: 100, initial_backoff_ms: u64::MAX / 2 + 1, jitter: false };
    assert_eq!(huge.backoff_ms(1), u64::MAX);
}

#[test]
fn quotes_use_the_registrar_pricing() {
    let q = client().quote_registration_at("  alice  ", 2, 1_000).unwrap();
    assert_eq!(q.fee_breakdown, FeeBreakdown { base_fee: 500_000_000, premium_fee: 0, network_fee: 0 });
    assert_eq!(q.total_fee, 500_000_000);
    assert_eq!(q.fee(), 500_000_000);
    assert_eq!(q.fee_currency, "XLM");
    assert_eq!(q.expires_at, 1_000 + 2 * 31_536_000);
    assert_eq!(q.grace_period_ends_at, q.expires_at + 2_592_000);
    assert_eq!(q.quoted_at, 1_000);
    assert_eq!(q.contract_id.as_deref(), Some(REGISTRAR_ID));
    let unconfigured = XlmNsClient::builder("http://localhost").build();
    let msg = invalid_message(unconfigured.quote_registration_at("alice", 1, 0).unwrap_err());
    assert!(msg.contains("registrar"));
    assert_eq!(invalid_message(client().quote_registration_at("alice", 0, 0).unwrap_err()), "duration_years must be greater than zero");
}

#[test]
fn fee_breakdown_total_saturates() {
    let f = FeeBreakdown { base_fee: u64::MAX, premium_fee: 1, network_fee: 1 };
    assert_eq!(f.total(), u64::MAX);
    let g = FeeBreakdown { base_fee: 1, premium_fee: 2, network_fee: 3 };
    assert_eq!(g.total(), 6);
}

#[test]
fn registration_is_prepared_and_receipted() {
    let c = client();
    let request = RegistrationRequest {
        label: "timmy".into(),
        owner: OWNER_ADDR.into(),
        duration_years: 1,
        signer: Some("alice".into()),
    };
    let (quote, submission) = c.prepare_register(&request, 5_000).unwrap();
    assert_eq!(submission.status, SubmissionStatus::Submitted);
    assert_eq!(submission.submitted_at, MOCK_REFERENCE_TIMESTAMP);
    assert_eq!(submission.contract_id.as_deref(), Some(REGISTRAR_ID));
    assert_eq!(submission.signer.as_deref(), Some("alice"));
    assert_eq!(submission.tx_hash, generated_submission_hash("register", "timmy"));
    let receipt = XlmNsClient::registration_receipt(request, &quote, submission);
    assert_eq!(receipt.name, "timmy.xlm");
    assert_eq!(receipt.fee_paid, 250_000_000);
    assert_eq!(receipt.expires_at, 5_000 + 31_536_000);

    let empty = RegistrationRequest { label: " ".into(), owner: OWNER_ADDR.into(), duration_years: 1, signer: None };
    assert_eq!(invalid_message(c.prepare_register(&empty, 0).unwrap_err()), "label must not be empty");
    let no_owner = RegistrationRequest { label: "timmy".into(), owner: "".into(), duration_years: 1, signer: None };
    assert_eq!(invalid_message(c.prepare_register(&no_owner, 0).unwrap_err()), "owner must not be empty");
}

#[test]
fn renewal_receipt_estimates_fee_and_expiry() {
    let c = client();
    let request = RenewalRequest { name: "timmy.xlm".into(), additional_years: 3, signer: None };
    let submission = c.prepare_renew(&request).unwrap();
    let receipt = XlmNsClient::renewal_receipt(request, submission);
    assert_eq!(receipt.fee_paid, 31);
    assert_eq!(receipt.new_expiry, MOCK_REFERENCE_TIMESTAMP + 3 * 31_536_000);
    let zero = RenewalRequest { name: "timmy.xlm".into(), additional_years: 0, signer: None };
    assert_eq!(invalid_message(c.prepare_renew(&zero).unwrap_err()), "additional_years must be greater than zero");
}

#[test]
fn transfers_and_text_records_are_validated() {
    let c = client();
    let ok = c
        .prepare_transfer(&TransferRequest { name: "timmy.xlm".into(), new_owner: NEW_OWNER_ADDR.into(), signer: None })
        .unwrap();
    assert_eq!(ok.contract_id.as_deref(), Some(REGISTRY_ID));
    let bad = c.prepare_transfer(&TransferRequest { name: "timmy.xlm".into(), new_owner: "bad".into(), signer: None });
    assert_eq!(invalid_message(bad.unwrap_err()), "new_owner is invalid: account address is not a valid account strkey");
    let blank_value = c.prepare_set_text_record(&TextRecordUpdate {
        name: "timmy.xlm".into(),
        key: "url".into(),
        value: Some("  ".into()),
        signer: None,
    });
    assert_eq!(invalid_message(blank_value.unwrap_err()), "value must not be empty");
}

#[test]
fn contract_calls_simulate_on_dry_run() {
    let c = client().with_nft(REGISTRY_ID);
    let dry = c.prepare_mint_nft("timmy.xlm", OWNER_ADDR, true).unwrap();
    assert_eq!(dry.status, SubmissionStatus::Simulated);
    assert_eq!(dry.submitted_at, 0);
    assert_eq!(dry.tx_hash, generated_submission_hash("mint", REGISTRY_ID));
    let live = c.prepare_mint_nft("timmy.xlm", OWNER_ADDR, false).unwrap();
    assert_eq!(live.status, SubmissionStatus::Submitted);
    let missing = client().simulate_and_submit(&None, "mint", None, false);
    assert_eq!(invalid_message(missing.unwrap_err()), "contract ID not configured");
}

#[test]
fn submission_hashes_are_64_hex_digits_and_parse_back() {
    let h = generated_submission_hash("register", "timmy");
    assert_eq!(h.len(), 64);
    assert!(h.chars().all(|c| c.is_ascii_hexdigit() && !c.is_ascii_uppercase()));
    assert_eq!(h, generated_submission_hash("register", "timmy"));
    assert_ne!(h, generated_submission_hash("renew", "timmy"));
    let bytes = parse_submission_hash(&format!(" {h} ")).unwrap();
    assert_eq!(bytes.len(), 32);
    let hex: String = bytes.iter().map(|b| format!("{b:02x}")).collect();
    assert_eq!(hex, h);
    assert_eq!(parse_submission_hash("xyz"), None);
    assert_eq!(parse_submission_hash(&"G".repeat(64)), None);
    assert_eq!(parse_submission_hash(&"AB".repeat(32)).unwrap()[0], 0xab);
}

#[test]
fn polled_status_settles_submissions() {
    let c = client();
    let s = c.prepare_renew(&RenewalRequest { name: "x.xlm".into(), additional_years: 1, signer: None }).unwrap();
    assert!(c.poll_target(&s).is_some());
    let confirmed = apply_transaction_status(s.clone(), Some(7), "SUCCESS");
    assert_eq!(confirmed.status, SubmissionStatus::Confirmed);
    assert_eq!(confirmed.ledger, Some(7));
    assert_eq!(apply_transaction_status(s.clone(), None, "FAILED").status, SubmissionStatus::Failed);
    assert_eq!(apply_transaction_status(s, None, "PENDING").status, SubmissionStatus::Submitted);
    let quiet = client().with_config(ClientConfig::default().with_poll_final_status(false));
    let s2 = quiet.prepare_renew(&RenewalRequest { name: "x.xlm".into(), additional_years: 1, signer: None }).unwrap();
    assert!(quiet.poll_target(&s2).is_none());
}

#[test]
fn bridge_routes_and_messages() {
    let c = client();
    assert!(c.register_chain(&RegisterChainRequest { chain: "base".into() }).is_ok());
    assert_eq!(
        invalid_message(c.register_chain(&RegisterChainRequest { chain: "solana".into() }).unwrap_err()),
        "unsupported chain: solana"
    );
    let route = c.get_route("ethereum").unwrap().unwrap();
    assert_eq!(route.destination_resolver, "0xethResolver");
    assert_eq!(c.get_route("solana").unwrap(), None);
    let msg = c.build_message(&BuildMessageRequest { name: "timmy.xlm".into(), chain: "base".into() }).unwrap();
    assert_eq!(
        msg,
        "{\"type\":\"xlm-ns-resolution\",\"name\":\"timmy.xlm\",\"destination_chain\":\"base\",\"resolver\":\"0xbaseResolver\"}"
    );
    assert_eq!(c.get_bridge_routes("timmy.xlm").unwrap().len(), 2);
}

#[test]
fn auctions_and_reads() {
    let c = client();
    let state = c.get_auction_state("active.xlm").unwrap();
    assert_eq!(state.highest_bid, 150);
    assert!(state.end_time > 0);
    assert!(matches!(
        c.get_auction_state("missing.xlm"),
        Err(SdkError::ContractError(ContractErrorCode::NameNotFound))
    ));
    assert_eq!(c.get_auction("ended.xlm").unwrap().unwrap().highest_bid, 200);
    assert_eq!(c.get_primary_name(NEW_OWNER_ADDR).unwrap(), Some("primary.xlm".to_string()));
    let records = c.get_text_records("alice.xlm").unwrap();
    assert_eq!(records.get("url").unwrap(), "https://alice.xlm");
    assert_eq!(c.get_text_record("alice.xlm", "url").unwrap().value.as_deref(), Some("mock:url"));
    assert_eq!(c.get_subdomains("timmy.xlm").unwrap().len(), 2);
    assert_eq!(c.get_nft_record("timmy.xlm").unwrap().metadata_uri.as_deref(), Some("ipfs://mock-metadata/timmy.xlm"));
    assert_eq!(c.get_nft_metadata("t").unwrap().as_deref(), Some("ipfs://mock/t"));
    assert_eq!(c.get_treasury_balance().unwrap(), 0);
    assert_eq!(c.get_owner_portfolio(OWNER_ADDR).unwrap()[0].owner, OWNER_ADDR);
    assert!(c.load_reserved_manifest(Vec::new(), None).is_err());
    assert_eq!(c.load_reserved_manifest(vec!["admin".into()], None).unwrap().tx_hash, "tx_load_manifest_mock");
}

#[test]
fn resolution_prefers_the_resolver_address() {
    let c = client();
    let entry = c.registry_entry_for("timmy.xlm");
    assert_eq!(entry.resolver.as_deref(), Some(RESOLVER_ID));
    let record = c.resolver_record_for("timmy.xlm");
    let with = resolution_from_entry("timmy.xlm", entry.clone(), Some(record));
    assert_eq!(with.address.as_deref(), Some("GDRA...RESOLVED_ADDR"));
    let without = resolution_from_entry("timmy.xlm", entry.clone(), None);
    assert_eq!(without.address.as_deref(), Some("GDRA...TARGET"));
    let meta = name_record_from_entry(entry);
    assert_eq!(meta.owner, "GDRA...OWNER");
}

#[test]
fn error_messages_read_like_the_original() {
    assert_eq!(SdkError::InvalidRequest("x".into()).message(), "invalid request: x");
    assert_eq!(
        SdkError::ContractError(ContractErrorCode::NotOwner).message(),
        "contract error: NotOwner"
    );
    assert_eq!(
        SdkError::InsufficientFee { operation: "register", required: -5, available: 12 }.message(),
        "register has insufficient fee: required -5, available 12"
    );
    assert_eq!(
        SdkError::TransactionTimeout { operation: "renew", ledger_submitted: 42 }.message(),
        "renew timed out after submission at ledger 42"
    );
    assert_eq!(
        SdkError::NetworkPassphraseMismatch { configured: "a\"b".into(), rpc_reported: "c".into() }.message(),
        "network passphrase mismatch: configured=\"a\\\"b\", rpc_reported=\"c\""
    );
    assert_eq!(
        SdkError::SigningFailed {
            operation: "signing",
            source: SigningError::Rejected { reason: "no".into() },
        }
        .message(),
        "signing signing failed: signing rejected: no"
    );
    assert_eq!(i64_text(i64::MIN), i64::MIN.to_string());
    assert_eq!(u64_text(u64::MAX), u64::MAX.to_string());
    assert_eq!(u64_text(0), "0");
}

// The all-zero seed of the strkey documentation.
const ZERO_SEED: &str = "SAAAAAAAAAAAAAAAAAAAAAAAAAAAAAAAAAAAAAAAAAAAAAAAAAAAAAAA";

#[test]
fn keypairs_reject_malformed_secrets() {
    let invalid = |s: &str| match Keypair::from_secret(s) {
        Err(SigningError::InvalidKey { reason }) => reason,
        other => panic!("expected an invalid key, got {:?}", other.map(|_| ())),
    };
    assert_eq!(invalid("   "), "secret key must not be empty");
    assert_eq!(invalid("GABC"), "secret key must start with 'S'");
    assert_eq!(invalid("S"), "secret key must start with 'S'");
    assert_eq!(invalid("SNOTAKEY"), "failed to decode secret key strkey encoding");
    assert!(matches!(
        KeypairSigner::new(""),
        Err(SdkError::SigningFailed { operation: "constructing keypair signer", .. })
    ));
}

#[test]
fn keypairs_derive_their_account_address() {
    let seed = stellar_strkey::ed25519::PrivateKey([7u8; 32]);
    let secret = seed.as_unredacted().to_string();
    let keypair = Keypair::from_secret(&format!(" {} ", secret.as_str())).unwrap();
    let expected = ed25519_dalek::SigningKey::from_bytes(&[7u8; 32]).verifying_key().to_bytes();
    let address = stellar_strkey::ed25519::PublicKey(expected).to_string();
    assert_eq!(keypair.public_key(), address.as_str());
    assert!(xlm_ns::validation::validate_account_address(keypair.public_key()).is_ok());
    let signer = KeypairSigner::new(secret.as_str()).unwrap();
    assert_eq!(signer.public_key(), address.as_str());
    assert_eq!(signer.sign_envelope(&[1, 2, 3]), vec![1, 2, 3]);
    let _ = ZERO_SEED;
}

#[test]
fn external_signers_report_hook_failures() {
    let ok = ExternalSigner::new("GPUB", |tx: &[u8]| Ok(tx.iter().rev().copied().collect()));
    assert_eq!(ok.public_key(), "GPUB");
    assert_eq!(ok.sign_envelope(&[1, 2]), Ok(vec![2, 1]));
    let refusing = ExternalSigner::new("GPUB", |_tx: &[u8]| Err("user declined".to_string()));
    assert_eq!(
        refusing.sign_envelope(&[1]),
        Err(SigningError::ExternalFailure { reason: "user declined".to_string() })
    );
}

#[test]
fn nft_lookups_and_auction_setter() {
    let c = XlmNsClient::new("http://localhost", None, None, None, None, None).with_auction(AUCTION_ID);
    assert_eq!(c.auction_contract_id.as_deref(), Some(AUCTION_ID));
    let nft = client().get_nft("42").unwrap();
    assert_eq!(nft.token_id, "42");
    assert_eq!(nft.owner, "GDRA...NFT_OWNER");
    assert_eq!(nft.metadata_uri.as_deref(), Some("ipfs://mock-metadata/42"));
    assert_eq!(invalid_message(client().get_nft(" ").unwrap_err()), "token_id must not be empty");
    assert_eq!(client().get_nft_owner("42").unwrap(), "GDRA...OWNER");
    assert_eq!(client().get_nft_metadata("7").unwrap().as_deref(), Some("ipfs://mock/7"));
}

#[test]
fn poll_timeout_setter_keeps_the_rest() {
    let base = ClientConfig::default();
    let c = base.clone().with_transaction_poll_timeout_ms(1234);
    assert_eq!(c.transaction_poll_timeout_ms, 1234);
    assert_eq!(c.timeout_ms, base.timeout_ms);
    assert_eq!(c.user_agent, base.user_agent);
    assert_eq!(c.poll_final_status, base.poll_final_status);
}

#[test]
fn only_the_probe_name_is_unregistered() {
    assert!(XlmNsClient::is_unregistered("notfound.xlm"));
    assert!(!XlmNsClient::is_unregistered("alice.xlm"));
}

#[test]
fn jitter_waits_within_the_upper_half() {
    let plain = RetryConfig { max_retries: 3, initial_backoff_ms: 100, jitter: false };
    assert_eq!(plain.wait_ms(400, 12345), 400);
    let jittered = RetryConfig { jitter: true, ..plain };
    assert_eq!(jittered.wait_ms(400, 0), 200);
    assert_eq!(jittered.wait_ms(400, 200), 400);
    assert_eq!(jittered.wait_ms(400, 201), 200);
    assert_eq!(jittered.wait_ms(401, 7), 207);
    assert_eq!(jittered.wait_ms(0, 99), 0);
    assert_eq!(jittered.wait_ms(u64::MAX, u64::MAX) >= u64::MAX / 2, true);
}

#[test]
fn renewal_accepts_the_configured_registrar_id() {
    let c = XlmNsClient::builder("http://localhost")
        .network_passphrase("Test SDF Network ; September 2015")
        .registry("CDAD...REGISTRY")
        .registrar("CDAD...REGISTRAR")
        .build();
    let request = RenewalRequest { name: "blocking.xlm".into(), additional_years: 1, signer: Some("alice".into()) };
    let submission = c.prepare_renew(&request).unwrap();
    assert_eq!(submission.status, SubmissionStatus::Submitted);
    assert_eq!(submission.contract_id.as_deref(), Some("CDAD...REGISTRAR"));
    let receipt = XlmNsClient::renewal_receipt(request, submission);
    assert_eq!(receipt.additional_years, 1);
    assert_eq!(receipt.submission.status, SubmissionStatus::Submitted);

    let none = XlmNsClient::builder("http://localhost").registry("CDAD...REGISTRY").build();
    let err = none
        .prepare_renew(&RenewalRequest { name: "test.xlm".into(), additional_years: 1, signer: None })
        .unwrap_err();
    assert_eq!(invalid_message(err), "registrar contract ID not configured");
}
