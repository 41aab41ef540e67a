use std::path::PathBuf;

use xlm_ns::cli::config::{
    config_template, load_config, validate_network_config, ConfigError, ContractKind,
    ContractOverrides, FileConfig, Network, NetworkConfig, PartialNetworkConfig, ResolveOptions,
};
use xlm_ns::cli::portfolio::{
    after_failure, after_page, is_timeout_error, requested_size, start_portfolio, FailureStep,
    PageStep, PortfolioOptions, PortfolioProgress,
};
use xlm_ns::sdk::errors::SdkError;
use xlm_ns::str_map::StrMap;

const VALID_ID: &str = "CAAAAAAAAAAAAAAAAAAAAAAAAAAAAAAAAAAAAAAAAAAAAAAAAAAAAAAA";

#[test]
fn portfolio_options_clamps_zero_batch_size() {
    let options = PortfolioOptions { batch_size: 0, limit: Some(10), page: Some(1) }.normalized();
    assert_eq!(options.batch_size, 1);
    assert_eq!(options.limit, Some(10));
    assert_eq!(options.page, Some(1));
}

#[test]
fn detects_timeout_errors_for_retry() {
    assert!(is_timeout_error(&SdkError::Transport("request timed out".to_string())));
    assert!(!is_timeout_error(&SdkError::InvalidRequest("owner must not be empty".to_string())));
}

#[test]
fn timeouts_are_recognised_in_any_case() {
    assert!(is_timeout_error(&SdkError::InvalidRequest("Gateway TIMEOUT".to_string())));
    assert!(is_timeout_error(&SdkError::TransactionTimeout { operation: "x", ledger_submitted: 1 }));
    assert!(!is_timeout_error(&SdkError::Ingestion("timeout".to_string())));
}

#[test]
fn portfolio_paging_decisions() {
    let options = PortfolioOptions { batch_size: 4, limit: Some(6), page: None };
    let start = start_portfolio(options);
    assert_eq!(start, PortfolioProgress { cursor: None, page_size: 4, fetched: 0 });
    assert_eq!(requested_size(options, start), Some(4));
    let (next, step) = after_page(options, start, 4, Some(4));
    assert_eq!(step, PageStep::Continue(4));
    assert_eq!(next.fetched, 4);
    assert_eq!(requested_size(options, next), Some(2));
    let (done, step) = after_page(options, next, 2, None);
    assert_eq!(step, PageStep::Done);
    assert_eq!(requested_size(options, done), None);

    assert_eq!(after_failure(start, true), FailureStep::Retry(2));
    assert_eq!(after_failure(start, false), FailureStep::GiveUp);
    let tiny = PortfolioProgress { page_size: 1, ..start };
    assert_eq!(after_failure(tiny, true), FailureStep::GiveUp);

    let paged = PortfolioOptions { batch_size: 10, limit: None, page: Some(3) };
    assert_eq!(start_portfolio(paged).cursor, Some(20));
    let (_, step) = after_page(paged, start_portfolio(paged), 10, Some(30));
    assert_eq!(step, PageStep::Done);
    assert_eq!(PortfolioOptions::default().batch_size, 50);
}

#[test]
fn networks_parse_case_insensitively() {
    assert_eq!(Network::parse("Testnet"), Some(Network::Testnet));
    assert_eq!(Network::parse("MAINNET"), Some(Network::Mainnet));
    assert_eq!(Network::parse("futurenet"), None);
    assert_eq!(Network::Mainnet.as_str(), "mainnet");
}

#[test]
fn contract_kinds_name_their_sources() {
    assert_eq!(ContractKind::Nft.flag_name(), "nft-contract-id");
    assert_eq!(ContractKind::Registrar.env_var(), "REGISTRAR_CONTRACT_ID");
    assert_eq!(ContractKind::Bridge.display_name(), "bridge contract");
    let overrides = ContractOverrides {
        resolver_contract_id: Some("CR".into()),
        nft_contract_id: Some("CN".into()),
        ..ContractOverrides::default()
    };
    assert_eq!(overrides.get(ContractKind::Resolver), Some("CR"));
    assert_eq!(overrides.get(ContractKind::Registry), None);
    assert_eq!(overrides.provided_kinds(), vec![ContractKind::Resolver, ContractKind::Nft]);
}

fn partial(rpc: Option<&str>, registry: Option<&str>) -> PartialNetworkConfig {
    PartialNetworkConfig {
        rpc_url: rpc.map(str::to_string),
        registry_contract_id: registry.map(str::to_string),
        ..PartialNetworkConfig::default()
    }
}

#[test]
fn config_sources_combine_in_precedence_order() {
    let mut networks = StrMap::new();
    networks.insert("mainnet".to_string(), partial(Some("https://file-mainnet"), None));
    let file = FileConfig { default: partial(Some("https://file-default"), Some(VALID_ID)), networks };
    let path = PathBuf::from("xlm-ns.toml");

    let config = load_config(
        Network::Mainnet,
        ResolveOptions::default(),
        PartialNetworkConfig::default(),
        Some((path.clone(), file)),
    )
    .unwrap();
    assert_eq!(config.rpc_url, "https://file-mainnet");
    assert_eq!(config.network_passphrase, "Public Global Stellar Network ; October 2015");
    assert_eq!(config.contract_id(ContractKind::Registry), Some(VALID_ID));
    assert_eq!(config.config_path, Some(path));

    let options = ResolveOptions { rpc_url: Some("https://flag".into()), ..ResolveOptions::default() };
    let config = load_config(Network::Testnet, options, partial(Some("https://env"), None), None).unwrap();
    assert_eq!(config.rpc_url, "https://flag");
    let config = load_config(Network::Testnet, ResolveOptions::default(), partial(Some("https://env"), None), None).unwrap();
    assert_eq!(config.rpc_url, "https://env");
    let config = load_config(Network::Testnet, ResolveOptions::default(), PartialNetworkConfig::default(), None).unwrap();
    assert_eq!(config.rpc_url, "https://soroban-testnet.stellar.org");
    assert_eq!(config.config_path, None);
}

#[test]
fn validation_reports_every_problem() {
    let config = NetworkConfig {
        network: Network::Testnet,
        rpc_url: "  ".into(),
        network_passphrase: "p".into(),
        registry_contract_id: Some("bad".into()),
        registrar_contract_id: Some(VALID_ID.into()),
        resolver_contract_id: None,
        auction_contract_id: None,
        bridge_contract_id: None,
        subdomain_contract_id: None,
        nft_contract_id: Some("".into()),
        config_path: None,
    };
    match validate_network_config(&config) {
        Err(ConfigError::Validation { path, messages }) => {
            assert_eq!(path, None);
            assert_eq!(
                messages,
                vec![
                    "rpc_url must not be empty".to_string(),
                    "registry-contract-id: contract id is not a valid contract strkey".to_string(),
                    "nft-contract-id: contract id must not be empty".to_string(),
                ]
            );
        }
        other => panic!("expected validation errors, got {other:?}"),
    }
    let options = ResolveOptions {
        contract_overrides: ContractOverrides { auction_contract_id: Some("nope".into()), ..ContractOverrides::default() },
        ..ResolveOptions::default()
    };
    assert!(matches!(
        load_config(Network::Testnet, options, PartialNetworkConfig::default(), None),
        Err(ConfigError::Validation { .. })
    ));
}

#[test]
fn overlays_replace_only_given_settings() {
    let mut base = partial(Some("a"), Some("b"));
    base.apply(partial(None, Some("c")));
    assert_eq!(base.rpc_url.as_deref(), Some("a"));
    assert_eq!(base.registry_contract_id.as_deref(), Some("c"));
}

#[test]
fn templates_name_the_network() {
    let t = config_template(Network::Testnet);
    assert!(t.starts_with("# xlm-ns configuration file\n"));
    assert!(t.contains("rpc_url = \"https://soroban-testnet.stellar.org\"\n"));
    assert!(t.contains("network_passphrase = \"Test SDF Network ; September 2015\"\n"));
    assert!(t.ends_with("\n[networks.testnet]\n"));
    let m = config_template(Network::Mainnet);
    assert!(m.contains("https://mainnet.stellar.org:443"));
    assert!(m.ends_with("[networks.mainnet]\n"));
}
