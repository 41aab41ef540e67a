//! Network configuration of the command-line tool: the networks it knows,
//! the contracts it talks to, and how flags, environment and config file
//! combine into one validated configuration.

use vstd::prelude::*;

use std::path::PathBuf;

use crate::str_map::StrMap;
use crate::text::{chars_equal, chars_of, lower_chars, lowercase_chars, trim, trim_chars};
use crate::validation::{common_error_text, contract_id_check, validate_contract_id};

verus! {

/// `std::path::PathBuf`, carried opaquely: the configuration records which
/// file it came from but never looks inside the path.
#[verifier::external_type_specification]
#[verifier::external_body]
pub struct ExPathBuf(PathBuf);

/// `std::io::Error`, carried opaquely inside `ConfigError::Read`.
#[verifier::external_type_specification]
#[verifier::external_body]
pub struct ExIoError(std::io::Error);

/// `toml::de::Error`, the parser's error, carried opaquely inside
/// `ConfigError::Parse`.
#[verifier::external_type_specification]
#[verifier::external_body]
pub struct ExTomlError(toml::de::Error);

#[derive(Debug, Clone, Copy, PartialEq, Eq, Structural)]
pub enum Network {
    Testnet,
    Mainnet,
}

/// The network a name stands for, ignoring ASCII case.
pub open spec fn network_of(value: Seq<char>) -> Option<Network> {
    if lower_chars(value) == "testnet"@ {
        Some(Network::Testnet)
    } else if lower_chars(value) == "mainnet"@ {
        Some(Network::Mainnet)
    } else {
        None
    }
}

pub open spec fn network_name(n: Network) -> Seq<char> {
    match n {
        Network::Testnet => "testnet"@,
        Network::Mainnet => "mainnet"@,
    }
}

impl Network {
    pub fn parse(value: &str) -> (r: Option<Self>)
        ensures
            r == network_of(value@),
    {
        let lower = lowercase_chars(value);
        if chars_equal(&lower, &chars_of("testnet")) {
            Some(Network::Testnet)
        } else if chars_equal(&lower, &chars_of("mainnet")) {
            Some(Network::Mainnet)
        } else {
            None
        }
    }

    pub fn as_str(&self) -> (s: &'static str)
        ensures
            s@ == network_name(*self),
    {
        match self {
            Network::Testnet => "testnet",
            Network::Mainnet => "mainnet",
        }
    }
}

#[derive(Debug, Clone, Copy, PartialEq, Eq, Structural)]
pub enum ContractKind {
    Registry,
    Registrar,
    Resolver,
    Auction,
    Bridge,
    Subdomain,
    Nft,
}

/// Every contract kind, in the order the tool lists them.
pub open spec fn all_kinds() -> Seq<ContractKind> {
    seq![
        ContractKind::Registry,
        ContractKind::Registrar,
        ContractKind::Resolver,
        ContractKind::Auction,
        ContractKind::Bridge,
        ContractKind::Subdomain,
        ContractKind::Nft,
    ]
}

pub open spec fn kind_flag(k: ContractKind) -> Seq<char> {
    match k {
        ContractKind::Registry => "registry-contract-id"@,
        ContractKind::Registrar => "registrar-contract-id"@,
        ContractKind::Resolver => "resolver-contract-id"@,
        ContractKind::Auction => "auction-contract-id"@,
        ContractKind::Bridge => "bridge-contract-id"@,
        ContractKind::Subdomain => "subdomain-contract-id"@,
        ContractKind::Nft => "nft-contract-id"@,
    }
}

impl ContractKind {
    pub fn display_name(&self) -> (s: &'static str)
        ensures
            s@ == match self {
                ContractKind::Registry => "registry contract"@,
                ContractKind::Registrar => "registrar contract"@,
                ContractKind::Resolver => "resolver contract"@,
                ContractKind::Auction => "auction contract"@,
                ContractKind::Bridge => "bridge contract"@,
                ContractKind::Subdomain => "subdomain contract"@,
                ContractKind::Nft => "nft contract"@,
            },
    {
        match self {
            ContractKind::Registry => "registry contract",
            ContractKind::Registrar => "registrar contract",
            ContractKind::Resolver => "resolver contract",
            ContractKind::Auction => "auction contract",
            ContractKind::Bridge => "bridge contract",
            ContractKind::Subdomain => "subdomain contract",
            ContractKind::Nft => "nft contract",
        }
    }

    /// The environment variable that supplies this contract's id.
    pub fn env_var(&self) -> (s: &'static str)
        ensures
            s@ == match self {
                ContractKind::Registry => "REGISTRY_CONTRACT_ID"@,
                ContractKind::Registrar => "REGISTRAR_CONTRACT_ID"@,
                ContractKind::Resolver => "RESOLVER_CONTRACT_ID"@,
                ContractKind::Auction => "AUCTION_CONTRACT_ID"@,
                ContractKind::Bridge => "BRIDGE_CONTRACT_ID"@,
                ContractKind::Subdomain => "SUBDOMAIN_CONTRACT_ID"@,
                ContractKind::Nft => "NFT_CONTRACT_ID"@,
            },
    {
        match self {
            ContractKind::Registry => "REGISTRY_CONTRACT_ID",
            ContractKind::Registrar => "REGISTRAR_CONTRACT_ID",
            ContractKind::Resolver => "RESOLVER_CONTRACT_ID",
            ContractKind::Auction => "AUCTION_CONTRACT_ID",
            ContractKind::Bridge => "BRIDGE_CONTRACT_ID",
            ContractKind::Subdomain => "SUBDOMAIN_CONTRACT_ID",
            ContractKind::Nft => "NFT_CONTRACT_ID",
        }
    }

    /// The command-line flag that supplies this contract's id.
    pub fn flag_name(&self) -> (s: &'static str)
        ensures
            s@ == kind_flag(*self),
    {
        match self {
            ContractKind::Registry => "registry-contract-id",
            ContractKind::Registrar => "registrar-contract-id",
            ContractKind::Resolver => "resolver-contract-id",
            ContractKind::Auction => "auction-contract-id",
            ContractKind::Bridge => "bridge-contract-id",
            ContractKind::Subdomain => "subdomain-contract-id",
            ContractKind::Nft => "nft-contract-id",
        }
    }
}

pub open spec fn opt_chars(o: Option<String>) -> Option<Seq<char>> {
    match o {
        Some(s) => Some(s@),
        None => None,
    }
}

pub open spec fn opt_str_chars(o: Option<&str>) -> Option<Seq<char>> {
    match o {
        Some(s) => Some(s@),
        None => None,
    }
}

fn as_str_opt(o: &Option<String>) -> (r: Option<&str>)
    ensures
        opt_str_chars(r) == opt_chars(*o),
{
    match o {
        Some(s) => Some(s.as_str()),
        None => None,
    }
}

/// Contract ids given on the command line.
#[derive(Debug, Clone, Default)]
pub struct ContractOverrides {
    pub registry_contract_id: Option<String>,
    pub registrar_contract_id: Option<String>,
    pub resolver_contract_id: Option<String>,
    pub auction_contract_id: Option<String>,
    pub bridge_contract_id: Option<String>,
    pub subdomain_contract_id: Option<String>,
    pub nft_contract_id: Option<String>,
}

/// The contract ids of a configuration or an override set, by kind.
pub ghost struct ContractIds {
    pub registry: Option<Seq<char>>,
    pub registrar: Option<Seq<char>>,
    pub resolver: Option<Seq<char>>,
    pub auction: Option<Seq<char>>,
    pub bridge: Option<Seq<char>>,
    pub subdomain: Option<Seq<char>>,
    pub nft: Option<Seq<char>>,
}

pub open spec fn id_of(ids: ContractIds, k: ContractKind) -> Option<Seq<char>> {
    match k {
        ContractKind::Registry => ids.registry,
        ContractKind::Registrar => ids.registrar,
        ContractKind::Resolver => ids.resolver,
        ContractKind::Auction => ids.auction,
        ContractKind::Bridge => ids.bridge,
        ContractKind::Subdomain => ids.subdomain,
        ContractKind::Nft => ids.nft,
    }
}

/// The kinds of `kinds` that have an id in `ids`, in order.
pub open spec fn kinds_with_id(ids: ContractIds, kinds: Seq<ContractKind>) -> Seq<ContractKind>
    decreases kinds.len(),
{
    if kinds.len() == 0 {
        Seq::empty()
    } else {
        let rest = kinds_with_id(ids, kinds.drop_last());
        if id_of(ids, kinds.last()) is Some {
            rest.push(kinds.last())
        } else {
            rest
        }
    }
}

impl View for ContractOverrides {
    type V = ContractIds;

    open spec fn view(&self) -> ContractIds {
        ContractIds {
            registry: opt_chars(self.registry_contract_id),
            registrar: opt_chars(self.registrar_contract_id),
            resolver: opt_chars(self.resolver_contract_id),
            auction: opt_chars(self.auction_contract_id),
            bridge: opt_chars(self.bridge_contract_id),
            subdomain: opt_chars(self.subdomain_contract_id),
            nft: opt_chars(self.nft_contract_id),
        }
    }
}

impl ContractOverrides {
    /// The id given for `kind`, if any.
    pub fn get(&self, kind: ContractKind) -> (r: Option<&str>)
        ensures
            opt_str_chars(r) == id_of(self@, kind),
    {
        match kind {
            ContractKind::Registry => as_str_opt(&self.registry_contract_id),
            ContractKind::Registrar => as_str_opt(&self.registrar_contract_id),
            ContractKind::Resolver => as_str_opt(&self.resolver_contract_id),
            ContractKind::Auction => as_str_opt(&self.auction_contract_id),
            ContractKind::Bridge => as_str_opt(&self.bridge_contract_id),
            ContractKind::Subdomain => as_str_opt(&self.subdomain_contract_id),
            ContractKind::Nft => as_str_opt(&self.nft_contract_id),
        }
    }

    /// The kinds an id was given for, in the tool's order.
    pub fn provided_kinds(&self) -> (v: Vec<ContractKind>)
        ensures
            v@ == kinds_with_id(self@, all_kinds()),
    {
        let mut kinds: Vec<ContractKind> = Vec::new();
        let order: Vec<ContractKind> = vec![
            ContractKind::Registry,
            ContractKind::Registrar,
            ContractKind::Resolver,
            ContractKind::Auction,
            ContractKind::Bridge,
            ContractKind::Subdomain,
            ContractKind::Nft,
        ];
        assert(order@ =~= all_kinds());
        let mut i: usize = 0;
        while i < order.len()
            invariant
                i <= order@.len(),
                order@ == all_kinds(),
                kinds@ == kinds_with_id(self@, order@.take(i as int)),
            decreases order@.len() - i,
        {
            let kind = order[i];
            assert(order@.take(i + 1 as int).drop_last() =~= order@.take(i as int));
            if self.get(kind).is_some() {
                kinds.push(kind);
            }
            i = i + 1;
        }
        assert(order@.take(order@.len() as int) =~= order@);
        kinds
    }
}

/// The configuration the tool runs with.
#[derive(Debug, Clone)]
pub struct NetworkConfig {
    pub network: Network,
    pub rpc_url: String,
    pub network_passphrase: String,
    pub registry_contract_id: Option<String>,
    pub registrar_contract_id: Option<String>,
    pub resolver_contract_id: Option<String>,
    pub auction_contract_id: Option<String>,
    pub bridge_contract_id: Option<String>,
    pub subdomain_contract_id: Option<String>,
    pub nft_contract_id: Option<String>,
    pub config_path: Option<PathBuf>,
}

pub open spec fn config_ids(c: NetworkConfig) -> ContractIds {
    ContractIds {
        registry: opt_chars(c.registry_contract_id),
        registrar: opt_chars(c.registrar_contract_id),
        resolver: opt_chars(c.resolver_contract_id),
        auction: opt_chars(c.auction_contract_id),
        bridge: opt_chars(c.bridge_contract_id),
        subdomain: opt_chars(c.subdomain_contract_id),
        nft: opt_chars(c.nft_contract_id),
    }
}

impl NetworkConfig {
    /// The configured id of the `kind` contract, if any.
    pub fn contract_id(&self, kind: ContractKind) -> (r: Option<&str>)
        ensures
            opt_str_chars(r) == id_of(config_ids(*self), kind),
    {
        match kind {
            ContractKind::Registry => as_str_opt(&self.registry_contract_id),
            ContractKind::Registrar => as_str_opt(&self.registrar_contract_id),
            ContractKind::Resolver => as_str_opt(&self.resolver_contract_id),
            ContractKind::Auction => as_str_opt(&self.auction_contract_id),
            ContractKind::Bridge => as_str_opt(&self.bridge_contract_id),
            ContractKind::Subdomain => as_str_opt(&self.subdomain_contract_id),
            ContractKind::Nft => as_str_opt(&self.nft_contract_id),
        }
    }
}

/// What the command line asks for.
#[derive(Debug, Clone, Default)]
pub struct ResolveOptions {
    pub config_path: Option<PathBuf>,
    pub rpc_url: Option<String>,
    pub network_passphrase: Option<String>,
    pub contract_overrides: ContractOverrides,
}

#[derive(Debug)]
pub enum ConfigError {
    Read { path: PathBuf, source: std::io::Error },
    Parse { path: PathBuf, source: toml::de::Error },
    Validation { path: Option<PathBuf>, messages: Vec<String> },
}


pub const TEMPLATE_HEAD: &'static str = "# xlm-ns configuration file\n#\n# Values in [default] apply to every network unless a per-network section\n# overrides them.\n\n[default]\nrpc_url = \"";

pub const TEMPLATE_MID: &'static str = "\"\nnetwork_passphrase = \"";

pub const TEMPLATE_TAIL1: &'static str = "\"\nregistry_contract_id = \"C................................................................\"\nregistrar_contract_id = \"C................................................................\"\nresolver_contract_id = \"C................................................................\"\nauction_contract_id = \"C................................................................\"\nbridge_contract_id = \"C................................................................\"\nsubdomain_contract_id = \"C................................................................\"\nnft_contract_id = \"C................................................................\"\n\n[networks.";

pub const TEMPLATE_TAIL2: &'static str = "]\n";

/// `Clone::clone` of `std::path::PathBuf`: the contract claims the copy is
/// the same path, as the standard library documents for `Clone`.
pub assume_specification[ <PathBuf as Clone>::clone ](p: &PathBuf) -> (r: PathBuf)
    ensures
        r == *p,
;

fn clone_opt(o: &Option<String>) -> (r: Option<String>)
    ensures
        opt_chars(r) == opt_chars(*o),
{
    match o {
        Some(s) => Some(s.clone()),
        None => None,
    }
}

fn clone_path(o: &Option<PathBuf>) -> (r: Option<PathBuf>)
    ensures
        r == *o,
{
    match o {
        Some(p) => Some(p.clone()),
        None => None,
    }
}

/// Settings one source (a config-file section, the environment) supplies;
/// each may be absent.
#[derive(Debug, Clone, Default)]
pub struct PartialNetworkConfig {
    pub rpc_url: Option<String>,
    pub network_passphrase: Option<String>,
    pub registry_contract_id: Option<String>,
    pub registrar_contract_id: Option<String>,
    pub resolver_contract_id: Option<String>,
    pub auction_contract_id: Option<String>,
    pub bridge_contract_id: Option<String>,
    pub subdomain_contract_id: Option<String>,
    pub nft_contract_id: Option<String>,
}

pub ghost struct PartialView {
    pub rpc_url: Option<Seq<char>>,
    pub network_passphrase: Option<Seq<char>>,
    pub ids: ContractIds,
}

impl View for PartialNetworkConfig {
    type V = PartialView;

    open spec fn view(&self) -> PartialView {
        PartialView {
            rpc_url: opt_chars(self.rpc_url),
            network_passphrase: opt_chars(self.network_passphrase),
            ids: ContractIds {
                registry: opt_chars(self.registry_contract_id),
                registrar: opt_chars(self.registrar_contract_id),
                resolver: opt_chars(self.resolver_contract_id),
                auction: opt_chars(self.auction_contract_id),
                bridge: opt_chars(self.bridge_contract_id),
                subdomain: opt_chars(self.subdomain_contract_id),
                nft: opt_chars(self.nft_contract_id),
            },
        }
    }
}

/// `first` where it is given, else `second`.
pub open spec fn prefer(first: Option<Seq<char>>, second: Option<Seq<char>>) -> Option<Seq<char>> {
    match first {
        Some(v) => Some(v),
        None => second,
    }
}

pub open spec fn prefer_ids(first: ContractIds, second: ContractIds) -> ContractIds {
    ContractIds {
        registry: prefer(first.registry, second.registry),
        registrar: prefer(first.registrar, second.registrar),
        resolver: prefer(first.resolver, second.resolver),
        auction: prefer(first.auction, second.auction),
        bridge: prefer(first.bridge, second.bridge),
        subdomain: prefer(first.subdomain, second.subdomain),
        nft: prefer(first.nft, second.nft),
    }
}

/// `base` with every setting `overlay` gives replaced by the overlay's.
pub open spec fn overlay(base: PartialView, top: PartialView) -> PartialView {
    PartialView {
        rpc_url: prefer(top.rpc_url, base.rpc_url),
        network_passphrase: prefer(top.network_passphrase, base.network_passphrase),
        ids: prefer_ids(top.ids, base.ids),
    }
}

pub open spec fn empty_partial() -> PartialView {
    PartialView {
        rpc_url: None,
        network_passphrase: None,
        ids: ContractIds {
            registry: None,
            registrar: None,
            resolver: None,
            auction: None,
            bridge: None,
            subdomain: None,
            nft: None,
        },
    }
}

fn overlay_field(base: &mut Option<String>, top: Option<String>)
    ensures
        opt_chars(*final(base)) == prefer(opt_chars(top), opt_chars(*old(base))),
{
    if top.is_some() {
        *base = top;
    }
}

impl PartialNetworkConfig {
    /// No setting given.
    pub fn empty() -> (p: Self)
        ensures
            p@ == empty_partial(),
    {
        PartialNetworkConfig {
            rpc_url: None,
            network_passphrase: None,
            registry_contract_id: None,
            registrar_contract_id: None,
            resolver_contract_id: None,
            auction_contract_id: None,
            bridge_contract_id: None,
            subdomain_contract_id: None,
            nft_contract_id: None,
        }
    }

    /// An independent copy.
    pub fn duplicate(&self) -> (p: Self)
        ensures
            p@ == self@,
    {
        PartialNetworkConfig {
            rpc_url: clone_opt(&self.rpc_url),
            network_passphrase: clone_opt(&self.network_passphrase),
            registry_contract_id: clone_opt(&self.registry_contract_id),
            registrar_contract_id: clone_opt(&self.registrar_contract_id),
            resolver_contract_id: clone_opt(&self.resolver_contract_id),
            auction_contract_id: clone_opt(&self.auction_contract_id),
            bridge_contract_id: clone_opt(&self.bridge_contract_id),
            subdomain_contract_id: clone_opt(&self.subdomain_contract_id),
            nft_contract_id: clone_opt(&self.nft_contract_id),
        }
    }

    /// Replaces every setting `other` gives; the rest are kept.
    pub fn apply(&mut self, other: Self)
        ensures
            final(self)@ == overlay(old(self)@, other@),
    {
        overlay_field(&mut self.rpc_url, other.rpc_url);
        overlay_field(&mut self.network_passphrase, other.network_passphrase);
        overlay_field(&mut self.registry_contract_id, other.registry_contract_id);
        overlay_field(&mut self.registrar_contract_id, other.registrar_contract_id);
        overlay_field(&mut self.resolver_contract_id, other.resolver_contract_id);
        overlay_field(&mut self.auction_contract_id, other.auction_contract_id);
        overlay_field(&mut self.bridge_contract_id, other.bridge_contract_id);
        overlay_field(&mut self.subdomain_contract_id, other.subdomain_contract_id);
        overlay_field(&mut self.nft_contract_id, other.nft_contract_id);
    }
}

/// A parsed config file: settings for every network, and per-network
/// sections that override them.
pub struct FileConfig {
    pub default: PartialNetworkConfig,
    pub networks: StrMap<PartialNetworkConfig>,
}

/// The settings a config file gives for `network`: its per-network section
/// laid over its default section.
pub open spec fn file_settings(
    default: PartialView,
    networks: Map<Seq<char>, PartialView>,
    network: Network,
) -> PartialView {
    if networks.contains_key(network_name(network)) {
        overlay(default, networks[network_name(network)])
    } else {
        default
    }
}

impl FileConfig {
    pub fn network(&self, network: Network) -> (p: PartialNetworkConfig)
        ensures
            p@ == file_settings(self.default@, self.networks@, network),
    {
        let mut merged = self.default.duplicate();
        match self.networks.get(network.as_str()) {
            Some(section) => merged.apply(section.duplicate()),
            None => {},
        }
        merged
    }
}

pub open spec fn default_rpc(network: Network) -> Seq<char> {
    match network {
        Network::Testnet => "https://soroban-testnet.stellar.org"@,
        Network::Mainnet => "https://mainnet.stellar.org:443"@,
    }
}

pub open spec fn default_passphrase(network: Network) -> Seq<char> {
    match network {
        Network::Testnet => "Test SDF Network ; September 2015"@,
        Network::Mainnet => "Public Global Stellar Network ; October 2015"@,
    }
}

/// The RPC endpoint used when no source gives one.
pub fn default_rpc_url(network: Network) -> (s: &'static str)
    ensures
        s@ == default_rpc(network),
{
    match network {
        Network::Testnet => "https://soroban-testnet.stellar.org",
        Network::Mainnet => "https://mainnet.stellar.org:443",
    }
}

/// The network passphrase used when no source gives one.
pub fn default_network_passphrase(network: Network) -> (s: &'static str)
    ensures
        s@ == default_passphrase(network),
{
    match network {
        Network::Testnet => "Test SDF Network ; September 2015",
        Network::Mainnet => "Public Global Stellar Network ; October 2015",
    }
}

/// The view of a resolved configuration (its file path aside).
pub ghost struct ConfigView {
    pub network: Network,
    pub rpc_url: Seq<char>,
    pub network_passphrase: Seq<char>,
    pub ids: ContractIds,
}

pub open spec fn config_view(c: NetworkConfig) -> ConfigView {
    ConfigView {
        network: c.network,
        rpc_url: c.rpc_url@,
        network_passphrase: c.network_passphrase@,
        ids: config_ids(c),
    }
}

/// The configuration the sources give: the command line first, then the
/// environment, then the config file, then the network's defaults.
pub open spec fn merged_config(
    network: Network,
    rpc_url: Option<Seq<char>>,
    network_passphrase: Option<Seq<char>>,
    overrides: ContractIds,
    env: PartialView,
    file: PartialView,
) -> ConfigView {
    ConfigView {
        network,
        rpc_url: match prefer(rpc_url, prefer(env.rpc_url, file.rpc_url)) {
            Some(v) => v,
            None => default_rpc(network),
        },
        network_passphrase: match prefer(
            network_passphrase,
            prefer(env.network_passphrase, file.network_passphrase),
        ) {
            Some(v) => v,
            None => default_passphrase(network),
        },
        ids: prefer_ids(overrides, prefer_ids(env.ids, file.ids)),
    }
}

/// The problems of a blank required value.
pub open spec fn blank_message(value: Seq<char>, message: Seq<char>) -> Seq<Seq<char>> {
    if trim_chars(value).len() == 0 {
        seq![message]
    } else {
        Seq::empty()
    }
}

/// The problems of the contract ids of `kinds`, in order: each id given and
/// rejected, reported as its flag and the reason.
pub open spec fn id_messages(ids: ContractIds, kinds: Seq<ContractKind>) -> Seq<Seq<char>>
    decreases kinds.len(),
{
    if kinds.len() == 0 {
        Seq::empty()
    } else {
        let rest = id_messages(ids, kinds.drop_last());
        let k = kinds.last();
        match id_of(ids, k) {
            Some(id) => match contract_id_check(id) {
                Err(e) => rest.push(kind_flag(k) + ": "@ + common_error_text(e)),
                Ok(_) => rest,
            },
            None => rest,
        }
    }
}

/// Every problem of a configuration, in the order they are reported.
pub open spec fn config_messages(c: ConfigView) -> Seq<Seq<char>> {
    blank_message(c.rpc_url, "rpc_url must not be empty"@) + blank_message(
        c.network_passphrase,
        "network_passphrase must not be empty"@,
    ) + id_messages(c.ids, all_kinds())
}

pub open spec fn string_views(v: Seq<String>) -> Seq<Seq<char>> {
    v.map_values(|s: String| s@)
}

fn push_string(v: &mut Vec<String>, s: String)
    ensures
        string_views(final(v)@) == string_views(old(v)@).push(s@),
{
    v.push(s);
    assert(string_views(v@) =~= string_views(old(v)@).push(s@));
}

/// Checks a configuration: the RPC endpoint and passphrase must not be
/// blank, and every contract id given must be well formed. All problems
/// are reported together.
pub fn validate_network_config(config: &NetworkConfig) -> (r: Result<(), ConfigError>)
    ensures
        config_messages(config_view(*config)).len() == 0 ==> r is Ok,
        config_messages(config_view(*config)).len() > 0 ==> (r matches Err(e) && (e matches ConfigError::Validation {
            path: p,
            messages: m,
        } && p == config.config_path && string_views(m@) == config_messages(config_view(*config)))),
{
    let mut messages: Vec<String> = Vec::new();
    if trim(config.rpc_url.as_str()).unicode_len() == 0 {
        push_string(&mut messages, String::from_str("rpc_url must not be empty"));
    }
    if trim(config.network_passphrase.as_str()).unicode_len() == 0 {
        push_string(&mut messages, String::from_str("network_passphrase must not be empty"));
    }
    let ghost head = string_views(messages@);
    assert(head =~= blank_message(config.rpc_url@, "rpc_url must not be empty"@) + blank_message(
        config.network_passphrase@,
        "network_passphrase must not be empty"@,
    ));
    let order: Vec<ContractKind> = vec![
        ContractKind::Registry,
        ContractKind::Registrar,
        ContractKind::Resolver,
        ContractKind::Auction,
        ContractKind::Bridge,
        ContractKind::Subdomain,
        ContractKind::Nft,
    ];
    assert(order@ =~= all_kinds());
    let mut i: usize = 0;
    while i < order.len()
        invariant
            i <= order@.len(),
            order@ == all_kinds(),
            string_views(messages@) == head + id_messages(config_ids(*config), order@.take(i as int)),
        decreases order@.len() - i,
    {
        let kind = order[i];
        assert(order@.take(i + 1 as int).drop_last() =~= order@.take(i as int));
        match config.contract_id(kind) {
            Some(id) => match validate_contract_id(id) {
                Err(err) => {
                    push_string(
                        &mut messages,
                        String::from_str(kind.flag_name()).concat(": ").concat(err.as_str()),
                    );
                    assert(head + id_messages(config_ids(*config), order@.take(i + 1 as int)) =~= (
                    head + id_messages(config_ids(*config), order@.take(i as int))).push(
                        kind_flag(kind) + ": "@ + common_error_text(err),
                    ));
                },
                Ok(()) => {},
            },
            None => {},
        }
        i = i + 1;
    }
    assert(order@.take(order@.len() as int) =~= order@);
    if messages.len() == 0 {
        Ok(())
    } else {
        Err(ConfigError::Validation { path: clone_path(&config.config_path), messages })
    }
}

/// Resolves the configuration for `network` from the command-line
/// `options`, the settings found in the environment and the config file
/// (with its path) where one was read, then validates it.
pub fn load_config(
    network: Network,
    options: ResolveOptions,
    env_values: PartialNetworkConfig,
    file: Option<(PathBuf, FileConfig)>,
) -> (r: Result<NetworkConfig, ConfigError>)
    ensures
        ({
            let file_view = match file {
                Some(f) => file_settings(f.1.default@, f.1.networks@, network),
                None => empty_partial(),
            };
            let merged = merged_config(
                network,
                opt_chars(options.rpc_url),
                opt_chars(options.network_passphrase),
                options.contract_overrides@,
                env_values@,
                file_view,
            );
            let path = match file {
                Some(f) => Some(f.0),
                None => None,
            };
            &&& config_messages(merged).len() == 0 ==> (r matches Ok(c) && config_view(c) == merged
                && c.config_path == path)
            &&& config_messages(merged).len() > 0 ==> (r matches Err(e) && (e matches ConfigError::Validation {
                path: p,
                messages: m,
            } && p == path && string_views(m@) == config_messages(merged)))
        }),
        r matches Ok(c) ==> {
            &&& c.network == network
            &&& options.rpc_url matches Some(v) ==> c.rpc_url@ == v@
            &&& options.rpc_url is None ==> (env_values.rpc_url matches Some(v) ==> c.rpc_url@
                == v@)
            &&& options.network_passphrase matches Some(v) ==> c.network_passphrase@ == v@
            &&& options.network_passphrase is None ==> (env_values.network_passphrase matches Some(
                v,
            ) ==> c.network_passphrase@ == v@)
        },
{
    let (file_values, config_path) = match file {
        Some((path, config)) => (config.network(network), Some(path)),
        None => (PartialNetworkConfig::empty(), None),
    };
    let mut merged = file_values;
    merged.apply(env_values);
    let o = options.contract_overrides;
    let top = PartialNetworkConfig {
        rpc_url: options.rpc_url,
        network_passphrase: options.network_passphrase,
        registry_contract_id: o.registry_contract_id,
        registrar_contract_id: o.registrar_contract_id,
        resolver_contract_id: o.resolver_contract_id,
        auction_contract_id: o.auction_contract_id,
        bridge_contract_id: o.bridge_contract_id,
        subdomain_contract_id: o.subdomain_contract_id,
        nft_contract_id: o.nft_contract_id,
    };
    merged.apply(top);
    let rpc_url = match merged.rpc_url {
        Some(v) => v,
        None => String::from_str(default_rpc_url(network)),
    };
    let network_passphrase = match merged.network_passphrase {
        Some(v) => v,
        None => String::from_str(default_network_passphrase(network)),
    };
    let config = NetworkConfig {
        network,
        rpc_url,
        network_passphrase,
        registry_contract_id: merged.registry_contract_id,
        registrar_contract_id: merged.registrar_contract_id,
        resolver_contract_id: merged.resolver_contract_id,
        auction_contract_id: merged.auction_contract_id,
        bridge_contract_id: merged.bridge_contract_id,
        subdomain_contract_id: merged.subdomain_contract_id,
        nft_contract_id: merged.nft_contract_id,
        config_path,
    };
    match validate_network_config(&config) {
        Ok(()) => Ok(config),
        Err(e) => Err(e),
    }
}

/// The text of a fresh config file for `network`.
pub open spec fn template_text(network: Network) -> Seq<char> {
    TEMPLATE_HEAD@ + default_rpc(network) + TEMPLATE_MID@ + default_passphrase(network) + TEMPLATE_TAIL1@ + network_name(network)
        + TEMPLATE_TAIL2@
}

/// A commented config file for `network`, with its endpoint and passphrase
/// filled in and placeholders for every contract id.
pub fn config_template(network: Network) -> (s: String)
    ensures
        s@ == template_text(network),
{
    String::from_str(TEMPLATE_HEAD).concat(default_rpc_url(network)).concat(TEMPLATE_MID).concat(
        default_network_passphrase(network),
    ).concat(TEMPLATE_TAIL1).concat(network.as_str()).concat(TEMPLATE_TAIL2)
}

/// Layering settings is associative and the empty layer changes nothing, so
/// the order in which sources are combined is all that matters.
pub proof fn law_overlay_layers(a: PartialView, b: PartialView, c: PartialView)
    ensures
        overlay(overlay(a, b), c) == overlay(a, overlay(b, c)),
        overlay(a, empty_partial()) == a,
        overlay(empty_partial(), a) == a,
{
    let l = overlay(overlay(a, b), c);
    let r = overlay(a, overlay(b, c));
    assert(l.rpc_url == r.rpc_url);
    assert(l.network_passphrase == r.network_passphrase);
    assert(l.ids == r.ids);
    let e = overlay(a, empty_partial());
    assert(e.ids == a.ids);
    let f = overlay(empty_partial(), a);
    assert(f.ids == a.ids);
}

/// Each setting comes from the first source that gives it: the command
/// line, then the environment, then the config file, then the defaults.
pub proof fn law_config_precedence(
    network: Network,
    rpc_url: Option<Seq<char>>,
    network_passphrase: Option<Seq<char>>,
    overrides: ContractIds,
    env: PartialView,
    file: PartialView,
    kind: ContractKind,
)
    ensures
        ({
            let m = merged_config(network, rpc_url, network_passphrase, overrides, env, file);
            &&& rpc_url matches Some(v) ==> m.rpc_url == v
            &&& rpc_url is None ==> (env.rpc_url matches Some(v) ==> m.rpc_url == v)
            &&& rpc_url is None && env.rpc_url is None ==> (file.rpc_url matches Some(v) ==> m.rpc_url
                == v)
            &&& rpc_url is None && env.rpc_url is None && file.rpc_url is None ==> m.rpc_url
                == default_rpc(network)
            &&& network_passphrase matches Some(v) ==> m.network_passphrase == v
            &&& network_passphrase is None ==> (env.network_passphrase matches Some(v)
                ==> m.network_passphrase == v)
            &&& network_passphrase is None && env.network_passphrase is None
                ==> (file.network_passphrase matches Some(v) ==> m.network_passphrase == v)
            &&& network_passphrase is None && env.network_passphrase is None
                && file.network_passphrase is None ==> m.network_passphrase == default_passphrase(
                network,
            )
            &&& m.network == network
            &&& id_of(overrides, kind) is Some ==> id_of(m.ids, kind) == id_of(overrides, kind)
            &&& id_of(overrides, kind) is None && id_of(env.ids, kind) is Some ==> id_of(m.ids, kind)
                == id_of(env.ids, kind)
            &&& id_of(overrides, kind) is None && id_of(env.ids, kind) is None ==> id_of(m.ids, kind)
                == id_of(file.ids, kind)
        }),
{
}

} // verus!
