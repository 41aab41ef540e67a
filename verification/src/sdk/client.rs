//! The client's decision logic: configuration and its builder, request
//! validation, quotes, the submissions it prepares for each write, and the
//! records it reports. Network round-trips are left to the caller, which
//! hands their answers back in.

use vstd::prelude::*;
use vstd::std_specs::hash::DefaultHasherAdditionalSpecFns;
use vstd::string::*;
use vstd::utf8::encode_utf8;

use std::collections::hash_map::DefaultHasher;
use std::collections::HashMap;
use std::hash::Hasher;

use crate::constants::{GRACE_PERIOD_SECONDS, YEAR_SECONDS};
use crate::pricing::{
    expiry_after, expiry_from_now, grace_end, price_for_label_length, price_of, sat_mul,
    saturating_mul,
};
use crate::sdk::config::{preset_passphrase, preset_rpc_url, ClientConfig, NetworkPreset};
use crate::sdk::errors::{ContractErrorCode, SdkError};
use crate::sdk::types::{
    AuctionCreateRequest, AuctionInfo, AuctionState, AuctionStatus, BidRequest, BridgeRoute,
    BuildMessageRequest, NameRecord, RegisterChainRequest, RegistrarMetrics, RegistryEntry,
    ResolutionRecord, ReverseResolution, Subdomain, TextRecord, AddControllerRequest, CreateSubdomainRequest, FeeBreakdown, NftRecord, PortfolioPage,
    RegisterParentRequest, RegistrationQuote, RegistrationReceipt, RegistrationRequest,
    RenewalReceipt, RenewalRequest, ResolutionResult, SubmissionStatus, TextRecordUpdate,
    TextRecordsUpdate, TransactionSubmission, TransferRequest, TransferSubdomainRequest,
    DEFAULT_FEE_CURRENCY,
};
use crate::text::{str_eq, trim, trim_chars};
use crate::validation::{
    account_address_check, byte_len, common_error_text, contract_id_check, validate_account_address,
    validate_contract_id,
};

verus! {

/// The fixed instant the client's simulated ledger answers are stamped with.
pub const MOCK_REFERENCE_TIMESTAMP: u64 = 1_682_200_000;

/// Renewal fee per year, in stroops, as the client estimates it.
pub const BASE_FEE_PER_YEAR: u64 = 10;

/// Flat network fee added to a renewal estimate, in stroops.
pub const NETWORK_FEE: u64 = 1;

pub open spec fn opt_chars(o: Option<String>) -> Option<Seq<char>> {
    match o {
        Some(s) => Some(s@),
        None => None,
    }
}

fn clone_opt(o: &Option<String>) -> (r: Option<String>)
    ensures
        opt_chars(r) == opt_chars(*o),
{
    match o {
        Some(s) => Some(s.clone()),
        None => None,
    }
}

/// Whether `s` holds nothing but white space.
pub open spec fn is_blank(s: Seq<char>) -> bool {
    trim_chars(s).len() == 0
}

fn blank(s: &str) -> (r: bool)
    ensures
        r == is_blank(s@),
{
    trim(s).unicode_len() == 0
}

/// Whether `e` is an invalid-request error with message `msg`.
pub open spec fn invalid_request(e: SdkError, msg: Seq<char>) -> bool {
    e matches SdkError::InvalidRequest(m) && m@ == msg
}

fn invalid(msg: &str) -> (e: SdkError)
    ensures
        invalid_request(e, msg@),
{
    SdkError::InvalidRequest(String::from_str(msg))
}

/// The message of a rejected identifier: the field, then the reason.
pub open spec fn field_error_text(field: Seq<char>, reason: Seq<char>) -> Seq<char> {
    field + " is invalid: "@ + reason
}

/// A character of a lower-case hexadecimal numeral.
pub open spec fn hex_char(n: u64) -> char {
    if n < 10 {
        ((n + 48) as u8) as char
    } else {
        ((n + 87) as u8) as char
    }
}

/// `x` as 16 lower-case hexadecimal digits, most significant first.
pub open spec fn hex16(x: u64) -> Seq<char> {
    Seq::new(16, |i: int| hex_char((x >> ((60 - 4 * i) as u64)) & 15u64))
}

/// The identifier given to a prepared submission: the hasher's seed and
/// three words derived from it, each as 16 hexadecimal digits.
pub open spec fn submission_hash_text(seed: u64) -> Seq<char> {
    hex16(seed) + hex16((seed << 13u64) | (seed >> 51u64)) + hex16((seed << 27u64) | (seed
        >> 37u64)) + hex16(seed ^ 0xa5a5_a5a5_a5a5_a5a5u64)
}

/// What the hasher has been fed for an operation and its payload: each
/// string's bytes followed by the `0xff` terminator `str` hashing writes.
pub open spec fn hash_input(operation: Seq<char>, payload: Seq<char>) -> Seq<Seq<u8>> {
    seq![encode_utf8(operation), seq![0xffu8], encode_utf8(payload), seq![0xffu8]]
}

/// The identifier of a prepared submission of `operation` on `payload`.
pub open spec fn submission_id(operation: Seq<char>, payload: Seq<char>) -> Seq<char> {
    submission_hash_text(DefaultHasher::spec_finish(hash_input(operation, payload)))
}

fn hex_digit(n: u64) -> (s: &'static str)
    requires
        n < 16,
    ensures
        s@ == seq![hex_char(n)],
{
    proof {
        reveal_strlit("0");
        reveal_strlit("1");
        reveal_strlit("2");
        reveal_strlit("3");
        reveal_strlit("4");
        reveal_strlit("5");
        reveal_strlit("6");
        reveal_strlit("7");
        reveal_strlit("8");
        reveal_strlit("9");
        reveal_strlit("a");
        reveal_strlit("b");
        reveal_strlit("c");
        reveal_strlit("d");
        reveal_strlit("e");
        reveal_strlit("f");
    }
    let s = if n == 0 {
        "0"
    } else if n == 1 {
        "1"
    } else if n == 2 {
        "2"
    } else if n == 3 {
        "3"
    } else if n == 4 {
        "4"
    } else if n == 5 {
        "5"
    } else if n == 6 {
        "6"
    } else if n == 7 {
        "7"
    } else if n == 8 {
        "8"
    } else if n == 9 {
        "9"
    } else if n == 10 {
        "a"
    } else if n == 11 {
        "b"
    } else if n == 12 {
        "c"
    } else if n == 13 {
        "d"
    } else if n == 14 {
        "e"
    } else {
        "f"
    };
    assert(s@ =~= seq![hex_char(n)]);
    s
}

/// Appends the 16 hexadecimal digits of `x` to `out`.
fn push_hex16(out: &mut String, x: u64)
    ensures
        final(out)@ == old(out)@ + hex16(x),
{
    let mut i: u64 = 0;
    while i < 16
        invariant
            i <= 16,
            out@ == old(out)@ + hex16(x).take(i as int),
        decreases 16 - i,
    {
        let shift: u64 = 60 - 4 * i;
        let nibble = (x >> shift) & 15u64;
        assert(nibble < 16) by (bit_vector)
            requires
                nibble == (x >> shift) & 15u64,
        ;
        out.append(hex_digit(nibble));
        assert(hex16(x).take(i + 1 as int) =~= hex16(x).take(i as int).push(hex_char(nibble)));
        i = i + 1;
    }
    assert(hex16(x).take(16) =~= hex16(x));
}

/// The submission identifier the client derives from an operation and its
/// payload: a `DefaultHasher` digest of both, spread over four 64-bit words.
pub fn generated_submission_hash(operation: &str, payload: &str) -> (h: String)
    ensures
        h@ == submission_id(operation@, payload@),
{
    let mut terminator: Vec<u8> = Vec::new();
    terminator.push(0xffu8);
    assert(terminator@ =~= seq![0xffu8]);
    let mut hasher = DefaultHasher::new();
    hasher.write(operation.as_bytes());
    hasher.write(terminator.as_slice());
    hasher.write(payload.as_bytes());
    hasher.write(terminator.as_slice());
    let seed = hasher.finish();
    assert(hasher@ =~= hash_input(operation@, payload@));
    let mut out = String::new();
    push_hex16(&mut out, seed);
    push_hex16(&mut out, (seed << 13u64) | (seed >> 51u64));
    push_hex16(&mut out, (seed << 27u64) | (seed >> 37u64));
    push_hex16(&mut out, seed ^ 0xa5a5_a5a5_a5a5_a5a5u64);
    out
}


/// The settings a client was built with.
pub ghost struct ClientSettings {
    pub rpc_url: Seq<char>,
    pub network_passphrase: Option<Seq<char>>,
    pub registry: Option<Seq<char>>,
    pub registrar: Option<Seq<char>>,
    pub resolver: Option<Seq<char>>,
    pub auction: Option<Seq<char>>,
    pub bridge: Option<Seq<char>>,
    pub subdomain: Option<Seq<char>>,
    pub nft: Option<Seq<char>>,
    pub config: ClientConfig,
}

#[derive(Debug, Clone)]
pub struct XlmNsClient {
    pub rpc_url: String,
    pub network_passphrase: Option<String>,
    pub registry_contract_id: Option<String>,
    pub registrar_contract_id: Option<String>,
    pub resolver_contract_id: Option<String>,
    pub auction_contract_id: Option<String>,
    pub bridge_contract_id: Option<String>,
    pub subdomain_contract_id: Option<String>,
    pub nft_contract_id: Option<String>,
    pub config: ClientConfig,
}

impl View for XlmNsClient {
    type V = ClientSettings;

    open spec fn view(&self) -> ClientSettings {
        ClientSettings {
            rpc_url: self.rpc_url@,
            network_passphrase: opt_chars(self.network_passphrase),
            registry: opt_chars(self.registry_contract_id),
            registrar: opt_chars(self.registrar_contract_id),
            resolver: opt_chars(self.resolver_contract_id),
            auction: opt_chars(self.auction_contract_id),
            bridge: opt_chars(self.bridge_contract_id),
            subdomain: opt_chars(self.subdomain_contract_id),
            nft: opt_chars(self.nft_contract_id),
            config: self.config,
        }
    }
}

/// Fluent builder for [`XlmNsClient`]; start it with [`XlmNsClient::builder`].
#[derive(Debug, Clone)]
pub struct XlmNsClientBuilder {
    draft: XlmNsClient,
}

impl View for XlmNsClientBuilder {
    type V = ClientSettings;

    closed spec fn view(&self) -> ClientSettings {
        self.draft@
    }
}

/// The default transport settings.
pub open spec fn is_default_config(c: ClientConfig) -> bool {
    &&& c.timeout_ms == crate::sdk::config::DEFAULT_TIMEOUT_MS
    &&& c.retry.max_retries == crate::sdk::config::DEFAULT_MAX_RETRIES
    &&& c.retry.initial_backoff_ms == crate::sdk::config::DEFAULT_INITIAL_BACKOFF_MS
    &&& c.retry.jitter
    &&& c.user_agent@ == crate::sdk::config::default_user_agent_spec()
    &&& c.poll_final_status
    &&& c.transaction_poll_timeout_ms == crate::sdk::config::DEFAULT_TRANSACTION_POLL_TIMEOUT_MS
}

fn some_string(s: &str) -> (r: Option<String>)
    ensures
        opt_chars(r) == Some(s@),
{
    Some(String::from_str(s))
}

/// Whether a required contract id is configured and well formed: its value
/// if so, else the message of the invalid-request error.
pub open spec fn contract_id_verdict(id: Option<Seq<char>>, field: Seq<char>) -> Result<
    Seq<char>,
    Seq<char>,
> {
    match id {
        None => Err(field + " not configured"@),
        Some(i) => match contract_id_check(i) {
            Ok(()) => Ok(i),
            Err(e) => Err(field_error_text(field, common_error_text(e))),
        },
    }
}

/// The message of the invalid-request error for an account that fails
/// validation, if it does.
pub open spec fn account_verdict(value: Seq<char>, field: Seq<char>) -> Option<Seq<char>> {
    match account_address_check(value) {
        Ok(()) => None,
        Err(e) => Some(field_error_text(field, common_error_text(e))),
    }
}

/// The owner a simulated listing answers for when it has no names.
pub open spec fn empty_portfolio_owner() -> Seq<char> {
    "GDRA...EMPTY"@
}

pub ghost struct ResolutionView {
    pub name: Seq<char>,
    pub address: Option<Seq<char>>,
    pub resolver: Option<Seq<char>>,
    pub expires_at: Option<u64>,
}

impl View for ResolutionResult {
    type V = ResolutionView;

    open spec fn view(&self) -> ResolutionView {
        ResolutionView {
            name: self.name@,
            address: opt_chars(self.address),
            resolver: opt_chars(self.resolver),
            expires_at: self.expires_at,
        }
    }
}

fn copy_result(r: &ResolutionResult) -> (c: ResolutionResult)
    ensures
        c@ == r@,
{
    ResolutionResult {
        name: r.name.clone(),
        address: clone_opt(&r.address),
        resolver: clone_opt(&r.resolver),
        expires_at: r.expires_at,
    }
}

/// The names the simulated ledger lists for `owner`.
pub open spec fn owner_listing(owner: Seq<char>, resolver: Option<Seq<char>>) -> Seq<ResolutionView> {
    if owner == empty_portfolio_owner() {
        Seq::empty()
    } else {
        seq![
            ResolutionView {
                name: "alice.xlm"@,
                address: Some(owner),
                resolver,
                expires_at: Some((MOCK_REFERENCE_TIMESTAMP + YEAR_SECONDS) as u64),
            },
            ResolutionView {
                name: "bob.xlm"@,
                address: Some(owner),
                resolver,
                expires_at: Some((MOCK_REFERENCE_TIMESTAMP + 2 * YEAR_SECONDS) as u64),
            },
        ]
    }
}

/// The page of `listing` that starts at `start` and holds at most `size`
/// entries (at least one is asked for), with the cursor of the next page.
pub open spec fn page_bounds(total: nat, start: nat, size: nat) -> (nat, Option<nat>) {
    let size = if size == 0 {
        1
    } else {
        size
    };
    if start >= total {
        (total, None)
    } else if start + size < total {
        ((start + size) as nat, Some((start + size) as nat))
    } else {
        (total, None)
    }
}

pub open spec fn views_of(v: Seq<ResolutionResult>) -> Seq<ResolutionView> {
    v.map_values(|r: ResolutionResult| r@)
}

/// Whether `c` is an ASCII hexadecimal digit.
pub open spec fn is_hex_digit(c: char) -> bool {
    ('0' <= c && c <= '9') || ('a' <= c && c <= 'f') || ('A' <= c && c <= 'F')
}

/// The value of a hexadecimal digit.
pub open spec fn hex_value(c: char) -> u8 {
    if '0' <= c && c <= '9' {
        ((c as u32) - 48) as u8
    } else if 'a' <= c && c <= 'f' {
        ((c as u32) - 87) as u8
    } else {
        ((c as u32) - 55) as u8
    }
}

/// A transaction hash as 64 hexadecimal digits, once trimmed.
pub open spec fn hash_hex_valid(t: Seq<char>) -> bool {
    t.len() == 64 && forall|i: int| 0 <= i < t.len() ==> is_hex_digit(#[trigger] t[i])
}

/// The 32 bytes the 64 hexadecimal digits of `t` spell, two per byte.
pub open spec fn hash_bytes(t: Seq<char>) -> Seq<u8> {
    Seq::new(32, |i: int| (hex_value(t[2 * i]) * 16 + hex_value(t[2 * i + 1])) as u8)
}

fn hex_value_of(c: char) -> (v: u8)
    requires
        is_hex_digit(c),
    ensures
        v == hex_value(c),
        v < 16,
{
    let u = c as u32;
    if 48 <= u && u <= 57 {
        (u - 48) as u8
    } else if 97 <= u && u <= 102 {
        (u - 87) as u8
    } else {
        (u - 55) as u8
    }
}

/// Decodes a transaction hash written as 64 hexadecimal digits (surrounding
/// white space allowed) into its 32 bytes.
pub fn parse_submission_hash(hash: &str) -> (r: Option<Vec<u8>>)
    ensures
        hash_hex_valid(trim_chars(hash@)) ==> (r matches Some(b) && b@ == hash_bytes(
            trim_chars(hash@),
        )),
        !hash_hex_valid(trim_chars(hash@)) ==> r is None,
{
    let t = trim(hash);
    let n = t.unicode_len();
    if n != 64 {
        return None;
    }
    let mut i: usize = 0;
    while i < n
        invariant
            n == t@.len(),
            t@ == trim_chars(hash@),
            i <= n,
            forall|k: int| 0 <= k < i ==> is_hex_digit(#[trigger] t@[k]),
        decreases n - i,
    {
        let c = t.get_char(i);
        let u = c as u32;
        if !((48 <= u && u <= 57) || (97 <= u && u <= 102) || (65 <= u && u <= 70)) {
            assert(!is_hex_digit(t@[i as int]));
            return None;
        }
        i = i + 1;
    }
    let mut bytes: Vec<u8> = Vec::new();
    let mut j: usize = 0;
    while j < 32
        invariant
            n == 64,
            n == t@.len(),
            hash_hex_valid(t@),
            j <= 32,
            bytes@ == hash_bytes(t@).take(j as int),
        decreases 32 - j,
    {
        let hi = hex_value_of(t.get_char(2 * j));
        let lo = hex_value_of(t.get_char(2 * j + 1));
        bytes.push(hi * 16 + lo);
        assert(hash_bytes(t@).take(j + 1 as int) =~= hash_bytes(t@).take(j as int).push(
            (hi * 16 + lo) as u8,
        ));
        j = j + 1;
    }
    assert(hash_bytes(t@).take(32) =~= hash_bytes(t@));
    Some(bytes)
}

impl XlmNsClient {
    pub fn new(
        rpc_url: &str,
        passphrase: Option<String>,
        registry_contract_id: Option<String>,
        subdomain_contract_id: Option<String>,
        bridge_contract_id: Option<String>,
        auction_contract_id: Option<String>,
    ) -> (c: Self)
        ensures
            c@ == (ClientSettings {
                rpc_url: rpc_url@,
                network_passphrase: opt_chars(passphrase),
                registry: opt_chars(registry_contract_id),
                registrar: None,
                resolver: None,
                auction: opt_chars(auction_contract_id),
                bridge: opt_chars(bridge_contract_id),
                subdomain: opt_chars(subdomain_contract_id),
                nft: None,
                config: c.config,
            }),
            is_default_config(c.config),
    {
        XlmNsClient {
            rpc_url: String::from_str(rpc_url),
            network_passphrase: passphrase,
            registry_contract_id,
            registrar_contract_id: None,
            resolver_contract_id: None,
            auction_contract_id,
            bridge_contract_id,
            subdomain_contract_id,
            nft_contract_id: None,
            config: ClientConfig::default(),
        }
    }

    /// Starts a builder with no network passphrase, no contracts and the
    /// default transport settings.
    pub fn builder(rpc_url: &str) -> (b: XlmNsClientBuilder)
        ensures
            b@ == (ClientSettings {
                rpc_url: rpc_url@,
                network_passphrase: None,
                registry: None,
                registrar: None,
                resolver: None,
                auction: None,
                bridge: None,
                subdomain: None,
                nft: None,
                config: b@.config,
            }),
            is_default_config(b@.config),
    {
        XlmNsClientBuilder {
            draft: XlmNsClient {
                rpc_url: String::from_str(rpc_url),
                network_passphrase: None,
                registry_contract_id: None,
                registrar_contract_id: None,
                resolver_contract_id: None,
                auction_contract_id: None,
                bridge_contract_id: None,
                subdomain_contract_id: None,
                nft_contract_id: None,
                config: ClientConfig::default(),
            },
        }
    }

    /// Starts a builder for a well-known network: its RPC endpoint and
    /// passphrase are filled in.
    pub fn builder_from_preset(preset: NetworkPreset) -> (b: XlmNsClientBuilder)
        ensures
            b@ == (ClientSettings {
                rpc_url: preset_rpc_url(preset),
                network_passphrase: Some(preset_passphrase(preset)),
                registry: None,
                registrar: None,
                resolver: None,
                auction: None,
                bridge: None,
                subdomain: None,
                nft: None,
                config: b@.config,
            }),
            is_default_config(b@.config),
    {
        XlmNsClient::builder(preset.rpc_url()).network_passphrase(preset.passphrase())
    }

    pub fn with_registrar(self, registrar_contract_id: &str) -> (c: Self)
        ensures
            c@ == (ClientSettings { registrar: Some(registrar_contract_id@), ..self@ }),
    {
        XlmNsClient { registrar_contract_id: some_string(registrar_contract_id), ..self }
    }

    pub fn with_resolver(self, resolver_contract_id: &str) -> (c: Self)
        ensures
            c@ == (ClientSettings { resolver: Some(resolver_contract_id@), ..self@ }),
    {
        XlmNsClient { resolver_contract_id: some_string(resolver_contract_id), ..self }
    }

    pub fn with_auction(self, auction_contract_id: &str) -> (c: Self)
        ensures
            c@ == (ClientSettings { auction: Some(auction_contract_id@), ..self@ }),
    {
        XlmNsClient { auction_contract_id: some_string(auction_contract_id), ..self }
    }

    pub fn with_nft(self, nft_contract_id: &str) -> (c: Self)
        ensures
            c@ == (ClientSettings { nft: Some(nft_contract_id@), ..self@ }),
    {
        XlmNsClient { nft_contract_id: some_string(nft_contract_id), ..self }
    }

    /// Replaces the transport settings.
    pub fn with_config(self, config: ClientConfig) -> (c: Self)
        ensures
            c@ == (ClientSettings { config, ..self@ }),
    {
        XlmNsClient { config, ..self }
    }

    /// The configured, well-formed contract id, or an invalid-request error
    /// naming `field_name`.
    pub fn require_contract_id<'a>(contract_id: &'a Option<String>, field_name: &str) -> (r: Result<
        &'a str,
        SdkError,
    >)
        ensures
            match contract_id_verdict(opt_chars(*contract_id), field_name@) {
                Ok(id) => r matches Ok(s) && s@ == id,
                Err(m) => r matches Err(e) && invalid_request(e, m),
            },
    {
        let id = match contract_id {
            Some(id) => id.as_str(),
            None => {
                return Err(
                    SdkError::InvalidRequest(String::from_str(field_name).concat(" not configured")),
                );
            },
        };
        match validate_contract_id(id) {
            Ok(()) => Ok(id),
            Err(e) => Err(
                SdkError::InvalidRequest(
                    String::from_str(field_name).concat(" is invalid: ").concat(e.as_str()),
                ),
            ),
        }
    }

    /// Checks an account address, naming `field_name` in the error.
    pub fn validate_account(value: &str, field_name: &str) -> (r: Result<(), SdkError>)
        ensures
            match account_verdict(value@, field_name@) {
                None => r is Ok,
                Some(m) => r matches Err(e) && invalid_request(e, m),
            },
    {
        match validate_account_address(value) {
            Ok(()) => Ok(()),
            Err(e) => Err(
                SdkError::InvalidRequest(
                    String::from_str(field_name).concat(" is invalid: ").concat(e.as_str()),
                ),
            ),
        }
    }

    /// The names registered to `owner`, from the simulated ledger.
    pub fn list_registrations_by_owner(&self, owner: &str) -> (r: Result<
        Vec<ResolutionResult>,
        SdkError,
    >)
        ensures
            is_blank(owner@) ==> (r matches Err(e) && invalid_request(
                e,
                "owner must not be empty"@,
            )),
            !is_blank(owner@) ==> (r matches Ok(v) && views_of(v@) == owner_listing(
                owner@,
                self@.resolver,
            )),
    {
        if blank(owner) {
            return Err(invalid("owner must not be empty"));
        }
        let mut out: Vec<ResolutionResult> = Vec::new();
        if str_eq(owner, "GDRA...EMPTY") {
            assert(views_of(out@) =~= owner_listing(owner@, self@.resolver));
            return Ok(out);
        }
        out.push(
            ResolutionResult {
                name: String::from_str("alice.xlm"),
                address: some_string(owner),
                resolver: clone_opt(&self.resolver_contract_id),
                expires_at: Some(MOCK_REFERENCE_TIMESTAMP + YEAR_SECONDS),
            },
        );
        out.push(
            ResolutionResult {
                name: String::from_str("bob.xlm"),
                address: some_string(owner),
                resolver: clone_opt(&self.resolver_contract_id),
                expires_at: Some(MOCK_REFERENCE_TIMESTAMP + 2 * YEAR_SECONDS),
            },
        );
        assert(views_of(out@) =~= owner_listing(owner@, self@.resolver));
        Ok(out)
    }

    /// One page of the names registered to `owner`: `limit` entries (at
    /// least one) from the `cursor` position (the start when absent), the
    /// total count, and the cursor of the next page while one remains.
    pub fn list_registrations_by_owner_page(
        &self,
        owner: &str,
        cursor: Option<usize>,
        limit: usize,
    ) -> (r: Result<PortfolioPage, SdkError>)
        ensures
            is_blank(owner@) ==> (r matches Err(e) && invalid_request(
                e,
                "owner must not be empty"@,
            )),
            !is_blank(owner@) ==> (r matches Ok(p) && {
                let all = owner_listing(owner@, self@.resolver);
                let start: nat = match cursor {
                    Some(c) => c as nat,
                    None => 0,
                };
                let (end, next) = page_bounds(all.len(), start, limit as nat);
                &&& p.total == all.len()
                &&& views_of(p.items@) == if start >= all.len() {
                    Seq::<ResolutionView>::empty()
                } else {
                    all.subrange(start as int, end as int)
                }
                &&& match next {
                    Some(n) => p.next_cursor == Some(n as usize),
                    None => p.next_cursor is None,
                }
            }),
    {
        let all = match self.list_registrations_by_owner(owner) {
            Ok(v) => v,
            Err(e) => {
                return Err(e);
            },
        };
        let ghost listing = owner_listing(owner@, self@.resolver);
        let total = all.len();
        let start = match cursor {
            Some(c) => c,
            None => 0,
        };
        let size = if limit == 0 {
            1
        } else {
            limit
        };
        let mut items: Vec<ResolutionResult> = Vec::new();
        if start >= total {
            assert(views_of(items@) =~= Seq::<ResolutionView>::empty());
            return Ok(PortfolioPage { items, next_cursor: None, total });
        }
        let end = if total - start > size {
            start + size
        } else {
            total
        };
        let mut i = start;
        while i < end
            invariant
                start <= i <= end,
                end <= total,
                total == all@.len(),
                views_of(all@) == listing,
                views_of(items@) == listing.subrange(start as int, i as int),
            decreases end - i,
        {
            items.push(copy_result(&all[i]));
            assert(listing.subrange(start as int, i + 1 as int) =~= listing.subrange(
                start as int,
                i as int,
            ).push(all@[i as int]@));
            i = i + 1;
        }
        let next_cursor = if end < total {
            Some(end)
        } else {
            None
        };
        Ok(PortfolioPage { items, next_cursor, total })
    }

    /// The NFT record of `token_id` on the simulated ledger.
    pub fn get_nft_record(&self, token_id: &str) -> (r: Result<NftRecord, SdkError>)
        ensures
            is_blank(token_id@) ==> (r matches Err(e) && invalid_request(
                e,
                "token_id must not be empty"@,
            )),
            !is_blank(token_id@) ==> (r matches Ok(n) && n.token_id@ == token_id@ && n.owner@
                == "GDRA...NFT_OWNER"@ && opt_chars(n.metadata_uri) == Some(
                "ipfs://mock-metadata/"@ + token_id@,
            )),
    {
        if blank(token_id) {
            return Err(invalid("token_id must not be empty"));
        }
        Ok(
            NftRecord {
                token_id: String::from_str(token_id),
                owner: String::from_str("GDRA...NFT_OWNER"),
                metadata_uri: Some(String::from_str("ipfs://mock-metadata/").concat(token_id)),
            },
        )
    }
}

impl XlmNsClientBuilder {
    pub fn network_passphrase(self, passphrase: &str) -> (b: Self)
        ensures
            b@ == (ClientSettings { network_passphrase: Some(passphrase@), ..self@ }),
    {
        XlmNsClientBuilder {
            draft: XlmNsClient { network_passphrase: some_string(passphrase), ..self.draft },
        }
    }

    pub fn registry(self, contract_id: &str) -> (b: Self)
        ensures
            b@ == (ClientSettings { registry: Some(contract_id@), ..self@ }),
    {
        XlmNsClientBuilder {
            draft: XlmNsClient { registry_contract_id: some_string(contract_id), ..self.draft },
        }
    }

    pub fn registrar(self, contract_id: &str) -> (b: Self)
        ensures
            b@ == (ClientSettings { registrar: Some(contract_id@), ..self@ }),
    {
        XlmNsClientBuilder {
            draft: XlmNsClient { registrar_contract_id: some_string(contract_id), ..self.draft },
        }
    }

    pub fn resolver(self, contract_id: &str) -> (b: Self)
        ensures
            b@ == (ClientSettings { resolver: Some(contract_id@), ..self@ }),
    {
        XlmNsClientBuilder {
            draft: XlmNsClient { resolver_contract_id: some_string(contract_id), ..self.draft },
        }
    }

    pub fn auction(self, contract_id: &str) -> (b: Self)
        ensures
            b@ == (ClientSettings { auction: Some(contract_id@), ..self@ }),
    {
        XlmNsClientBuilder {
            draft: XlmNsClient { auction_contract_id: some_string(contract_id), ..self.draft },
        }
    }

    pub fn bridge(self, contract_id: &str) -> (b: Self)
        ensures
            b@ == (ClientSettings { bridge: Some(contract_id@), ..self@ }),
    {
        XlmNsClientBuilder {
            draft: XlmNsClient { bridge_contract_id: some_string(contract_id), ..self.draft },
        }
    }

    pub fn subdomain(self, contract_id: &str) -> (b: Self)
        ensures
            b@ == (ClientSettings { subdomain: Some(contract_id@), ..self@ }),
    {
        XlmNsClientBuilder {
            draft: XlmNsClient { subdomain_contract_id: some_string(contract_id), ..self.draft },
        }
    }

    pub fn nft(self, contract_id: &str) -> (b: Self)
        ensures
            b@ == (ClientSettings { nft: Some(contract_id@), ..self@ }),
    {
        XlmNsClientBuilder {
            draft: XlmNsClient { nft_contract_id: some_string(contract_id), ..self.draft },
        }
    }

    pub fn config(self, config: ClientConfig) -> (b: Self)
        ensures
            b@ == (ClientSettings { config, ..self@ }),
    {
        XlmNsClientBuilder { draft: XlmNsClient { config, ..self.draft } }
    }

    /// The client with the settings gathered so far.
    pub fn build(self) -> (c: XlmNsClient)
        ensures
            c@ == self@,
    {
        self.draft
    }
}


/// Whether `s` is a fresh submission (no ledger yet) with these fields.
pub open spec fn submission_is(
    s: TransactionSubmission,
    tx_hash: Seq<char>,
    status: SubmissionStatus,
    submitted_at: u64,
    contract_id: Option<Seq<char>>,
    network_passphrase: Option<Seq<char>>,
    signer: Option<Seq<char>>,
) -> bool {
    &&& s.tx_hash@ == tx_hash
    &&& s.status == status
    &&& s.ledger is None
    &&& s.submitted_at == submitted_at
    &&& opt_chars(s.contract_id) == contract_id
    &&& opt_chars(s.network_passphrase) == network_passphrase
    &&& opt_chars(s.signer) == signer
}

/// Whether `q` is the quote for `label` over `years` at `now_unix` from the
/// registrar `registrar`: the registrar's yearly price for the trimmed
/// label's length times the years, with no premium or network part.
pub open spec fn quote_is(
    q: RegistrationQuote,
    label: Seq<char>,
    years: u32,
    now_unix: u64,
    registrar: Seq<char>,
) -> bool {
    let base = sat_mul(price_of(byte_len(trim_chars(label))), years as u64);
    let expires = expiry_after(now_unix, years as u64);
    &&& q.label@ == label
    &&& q.duration_years == years
    &&& q.fee_breakdown == (FeeBreakdown { base_fee: base, premium_fee: 0, network_fee: 0 })
    &&& q.total_fee == base
    &&& q.fee_currency@ == DEFAULT_FEE_CURRENCY@
    &&& q.expires_at == expires
    &&& q.grace_period_ends_at == grace_end(expires)
    &&& q.quoted_at == now_unix
    &&& opt_chars(q.contract_id) == Some(registrar)
}

/// The message of the first check a quote request fails, if any.
pub open spec fn quote_error(c: ClientSettings, label: Seq<char>, years: u32) -> Option<Seq<char>> {
    if is_blank(label) {
        Some("label must not be empty"@)
    } else if years == 0 {
        Some("duration_years must be greater than zero"@)
    } else {
        match contract_id_verdict(c.registrar, "registrar contract ID"@) {
            Err(m) => Some(m),
            Ok(_) => None,
        }
    }
}

/// The message of the first check a registration request fails, if any.
pub open spec fn register_error(c: ClientSettings, r: RegistrationRequest) -> Option<Seq<char>> {
    if is_blank(r.label@) {
        Some("label must not be empty"@)
    } else if is_blank(r.owner@) {
        Some("owner must not be empty"@)
    } else if r.duration_years == 0 {
        Some("duration_years must be greater than zero"@)
    } else {
        quote_error(c, r.label@, r.duration_years)
    }
}

/// The message of the first check a renewal request fails, if any.
pub open spec fn renew_error(c: ClientSettings, r: RenewalRequest) -> Option<Seq<char>> {
    if is_blank(r.name@) {
        Some("name must not be empty"@)
    } else if r.additional_years == 0 {
        Some("additional_years must be greater than zero"@)
    } else if c.registrar is None {
        Some("registrar contract ID not configured"@)
    } else {
        None
    }
}

/// Whether `r` answers a prepared write: the submission `expected`
/// describes, or the invalid-request error with its message.
pub open spec fn prepared_as(
    r: Result<TransactionSubmission, SdkError>,
    error: Option<Seq<char>>,
    tx_hash: Seq<char>,
    status: SubmissionStatus,
    submitted_at: u64,
    contract_id: Option<Seq<char>>,
    network_passphrase: Option<Seq<char>>,
    signer: Option<Seq<char>>,
) -> bool {
    match error {
        Some(m) => r matches Err(e) && invalid_request(e, m),
        None => r matches Ok(s) && submission_is(
            s,
            tx_hash,
            status,
            submitted_at,
            contract_id,
            network_passphrase,
            signer,
        ),
    }
}

/// The outcome of a contract call through `simulate_and_submit`: the
/// contract id must be configured and valid; a dry run is only simulated.
pub open spec fn call_error(contract: Option<Seq<char>>) -> Option<Seq<char>> {
    match contract_id_verdict(contract, "contract ID"@) {
        Err(m) => Some(m),
        Ok(_) => None,
    }
}

pub open spec fn call_status(dry_run: bool) -> SubmissionStatus {
    if dry_run {
        SubmissionStatus::Simulated
    } else {
        SubmissionStatus::Submitted
    }
}

/// A write that checks a non-blank field and an account before calling a
/// contract: the message of the first check it fails, if any.
pub open spec fn guarded_call_error(
    field_blank: bool,
    blank_message: Seq<char>,
    account: Seq<char>,
    account_field: Seq<char>,
    contract: Option<Seq<char>>,
) -> Option<Seq<char>> {
    if field_blank {
        Some(blank_message)
    } else if account_verdict(account, account_field) is Some {
        account_verdict(account, account_field)
    } else {
        call_error(contract)
    }
}

fn submission(
    tx_hash: String,
    status: SubmissionStatus,
    submitted_at: u64,
    contract_id: Option<String>,
    network_passphrase: Option<String>,
    signer: Option<String>,
) -> (s: TransactionSubmission)
    ensures
        submission_is(
            s,
            tx_hash@,
            status,
            submitted_at,
            opt_chars(contract_id),
            opt_chars(network_passphrase),
            opt_chars(signer),
        ),
{
    TransactionSubmission {
        tx_hash,
        status,
        ledger: None,
        submitted_at,
        contract_id,
        network_passphrase,
        signer,
    }
}

impl XlmNsClient {
    /// The quote for registering `label` for `duration_years` as of
    /// `now_unix`, computed locally with the registrar's pricing.
    pub fn quote_registration_at(&self, label: &str, duration_years: u32, now_unix: u64) -> (r:
        Result<RegistrationQuote, SdkError>)
        ensures
            match quote_error(self@, label@, duration_years) {
                Some(m) => r matches Err(e) && invalid_request(e, m),
                None => r matches Ok(q) && quote_is(
                    q,
                    label@,
                    duration_years,
                    now_unix,
                    self@.registrar->0,
                ),
            },
    {
        if blank(label) {
            return Err(invalid("label must not be empty"));
        }
        if duration_years == 0 {
            return Err(invalid("duration_years must be greater than zero"));
        }
        let registrar_id = match XlmNsClient::require_contract_id(
            &self.registrar_contract_id,
            "registrar contract ID",
        ) {
            Ok(id) => String::from_str(id),
            Err(e) => {
                return Err(e);
            },
        };
        let years = duration_years as u64;
        let annual_fee = price_for_label_length(trim(label).len());
        let base_fee = saturating_mul(annual_fee, years);
        let fee_breakdown = FeeBreakdown { base_fee, premium_fee: 0, network_fee: 0 };
        let total_fee = fee_breakdown.total();
        let expires_at = expiry_from_now(now_unix, years);
        let grace_period_ends_at = expires_at.saturating_add(GRACE_PERIOD_SECONDS);
        Ok(
            RegistrationQuote {
                label: String::from_str(label),
                duration_years,
                fee_breakdown,
                total_fee,
                fee_currency: String::from_str(DEFAULT_FEE_CURRENCY),
                expires_at,
                grace_period_ends_at,
                quoted_at: now_unix,
                contract_id: Some(registrar_id),
            },
        )
    }

    /// Checks a registration request and prepares its quote and submission.
    pub fn prepare_register(&self, request: &RegistrationRequest, now_unix: u64) -> (r: Result<
        (RegistrationQuote, TransactionSubmission),
        SdkError,
    >)
        ensures
            match register_error(self@, *request) {
                Some(m) => r matches Err(e) && invalid_request(e, m),
                None => r matches Ok((q, s)) && quote_is(
                    q,
                    request.label@,
                    request.duration_years,
                    now_unix,
                    self@.registrar->0,
                ) && submission_is(
                    s,
                    submission_id("register"@, request.label@),
                    SubmissionStatus::Submitted,
                    MOCK_REFERENCE_TIMESTAMP,
                    self@.registrar,
                    self@.network_passphrase,
                    opt_chars(request.signer),
                ),
            },
    {
        if blank(request.label.as_str()) {
            return Err(invalid("label must not be empty"));
        }
        if blank(request.owner.as_str()) {
            return Err(invalid("owner must not be empty"));
        }
        if request.duration_years == 0 {
            return Err(invalid("duration_years must be greater than zero"));
        }
        let quote = match self.quote_registration_at(
            request.label.as_str(),
            request.duration_years,
            now_unix,
        ) {
            Ok(q) => q,
            Err(e) => {
                return Err(e);
            },
        };
        let s = submission(
            generated_submission_hash("register", request.label.as_str()),
            SubmissionStatus::Submitted,
            MOCK_REFERENCE_TIMESTAMP,
            clone_opt(&self.registrar_contract_id),
            clone_opt(&self.network_passphrase),
            clone_opt(&request.signer),
        );
        Ok((quote, s))
    }

    /// The receipt of a registration once its submission is settled.
    pub fn registration_receipt(
        request: RegistrationRequest,
        quote: &RegistrationQuote,
        submission: TransactionSubmission,
    ) -> (r: RegistrationReceipt)
        ensures
            r.name@ == request.label@ + ".xlm"@,
            r.owner@ == request.owner@,
            r.duration_years == request.duration_years,
            r.expires_at == quote.expires_at,
            r.fee_paid == quote.total_fee,
            r.submission == submission,
    {
        RegistrationReceipt {
            name: request.label.concat(".xlm"),
            owner: request.owner,
            duration_years: request.duration_years,
            expires_at: quote.expires_at,
            fee_paid: quote.total_fee,
            submission,
        }
    }

    /// Checks a renewal request and prepares its submission. The registrar
    /// must be configured; its id is passed on as configured, unchecked.
    pub fn prepare_renew(&self, request: &RenewalRequest) -> (r: Result<
        TransactionSubmission,
        SdkError,
    >)
        ensures
            prepared_as(
                r,
                renew_error(self@, *request),
                submission_id("renew"@, request.name@),
                SubmissionStatus::Submitted,
                MOCK_REFERENCE_TIMESTAMP,
                self@.registrar,
                self@.network_passphrase,
                opt_chars(request.signer),
            ),
    {
        if blank(request.name.as_str()) {
            return Err(invalid("name must not be empty"));
        }
        if request.additional_years == 0 {
            return Err(invalid("additional_years must be greater than zero"));
        }
        if self.registrar_contract_id.is_none() {
            return Err(invalid("registrar contract ID not configured"));
        }
        Ok(
            submission(
                generated_submission_hash("renew", request.name.as_str()),
                SubmissionStatus::Submitted,
                MOCK_REFERENCE_TIMESTAMP,
                clone_opt(&self.registrar_contract_id),
                clone_opt(&self.network_passphrase),
                clone_opt(&request.signer),
            ),
        )
    }

    /// The receipt of a renewal once its submission is settled: the
    /// estimated fee is 10 stroops a year plus a 1-stroop network fee, and the
    /// new expiry counts the years from the reference instant.
    pub fn renewal_receipt(request: RenewalRequest, submission: TransactionSubmission) -> (r:
        RenewalReceipt)
        ensures
            r.name@ == request.name@,
            r.additional_years == request.additional_years,
            r.new_expiry == MOCK_REFERENCE_TIMESTAMP + request.additional_years * YEAR_SECONDS,
            r.fee_paid == sat_mul(BASE_FEE_PER_YEAR, request.additional_years as u64).saturating_add(
                NETWORK_FEE,
            ),
            r.submission == submission,
    {
        let years = request.additional_years as u64;
        assert(years * YEAR_SECONDS <= 4294967295 * 31_536_000) by (nonlinear_arith)
            requires
                years <= 4294967295,
        ;
        RenewalReceipt {
            name: request.name,
            additional_years: request.additional_years,
            new_expiry: MOCK_REFERENCE_TIMESTAMP + years * YEAR_SECONDS,
            fee_paid: saturating_mul(BASE_FEE_PER_YEAR, years).saturating_add(NETWORK_FEE),
            submission,
        }
    }

    /// Checks a transfer request and prepares its submission to the registry.
    pub fn prepare_transfer(&self, request: &TransferRequest) -> (r: Result<
        TransactionSubmission,
        SdkError,
    >)
        ensures
            prepared_as(
                r,
                if is_blank(request.name@) {
                    Some("name must not be empty"@)
                } else if is_blank(request.new_owner@) {
                    Some("new_owner must not be empty"@)
                } else {
                    account_verdict(request.new_owner@, "new_owner"@)
                },
                submission_id("transfer"@, request.name@),
                SubmissionStatus::Submitted,
                MOCK_REFERENCE_TIMESTAMP,
                self@.registry,
                self@.network_passphrase,
                opt_chars(request.signer),
            ),
    {
        if blank(request.name.as_str()) {
            return Err(invalid("name must not be empty"));
        }
        if blank(request.new_owner.as_str()) {
            return Err(invalid("new_owner must not be empty"));
        }
        match XlmNsClient::validate_account(request.new_owner.as_str(), "new_owner") {
            Ok(()) => {},
            Err(e) => {
                return Err(e);
            },
        }
        Ok(
            submission(
                generated_submission_hash("transfer", request.name.as_str()),
                SubmissionStatus::Submitted,
                MOCK_REFERENCE_TIMESTAMP,
                clone_opt(&self.registry_contract_id),
                clone_opt(&self.network_passphrase),
                clone_opt(&request.signer),
            ),
        )
    }

    /// Checks a text-record update and prepares its submission to the
    /// resolver; a value, when given, must not be blank.
    pub fn prepare_set_text_record(&self, update: &TextRecordUpdate) -> (r: Result<
        TransactionSubmission,
        SdkError,
    >)
        ensures
            prepared_as(
                r,
                if is_blank(update.name@) {
                    Some("name must not be empty"@)
                } else if is_blank(update.key@) {
                    Some("key must not be empty"@)
                } else if update.value matches Some(v) && is_blank(v@) {
                    Some("value must not be empty"@)
                } else {
                    None
                },
                submission_id("set_text_record"@, update.name@),
                SubmissionStatus::Submitted,
                MOCK_REFERENCE_TIMESTAMP,
                self@.resolver,
                self@.network_passphrase,
                opt_chars(update.signer),
            ),
    {
        if blank(update.name.as_str()) {
            return Err(invalid("name must not be empty"));
        }
        if blank(update.key.as_str()) {
            return Err(invalid("key must not be empty"));
        }
        match &update.value {
            Some(v) => {
                if blank(v.as_str()) {
                    return Err(invalid("value must not be empty"));
                }
            },
            None => {},
        }
        Ok(
            submission(
                generated_submission_hash("set_text_record", update.name.as_str()),
                SubmissionStatus::Submitted,
                MOCK_REFERENCE_TIMESTAMP,
                clone_opt(&self.resolver_contract_id),
                clone_opt(&self.network_passphrase),
                clone_opt(&update.signer),
            ),
        )
    }

    /// Checks a batch text-record update and prepares its submission.
    pub fn prepare_set_text_records(&self, update: &TextRecordsUpdate) -> (r: Result<
        TransactionSubmission,
        SdkError,
    >)
        ensures
            prepared_as(
                r,
                if is_blank(update.name@) {
                    Some("name must not be empty"@)
                } else {
                    None
                },
                submission_id("set_text_records"@, update.name@),
                SubmissionStatus::Submitted,
                MOCK_REFERENCE_TIMESTAMP,
                self@.resolver,
                self@.network_passphrase,
                opt_chars(update.signer),
            ),
    {
        if blank(update.name.as_str()) {
            return Err(invalid("name must not be empty"));
        }
        Ok(
            submission(
                generated_submission_hash("set_text_records", update.name.as_str()),
                SubmissionStatus::Submitted,
                MOCK_REFERENCE_TIMESTAMP,
                clone_opt(&self.resolver_contract_id),
                clone_opt(&self.network_passphrase),
                clone_opt(&update.signer),
            ),
        )
    }

    /// Prepares a call of `function` on the contract `contract_id`: simulated
    /// only on a dry run, submitted otherwise.
    pub fn simulate_and_submit(
        &self,
        contract_id: &Option<String>,
        function: &str,
        signer: Option<String>,
        dry_run: bool,
    ) -> (r: Result<TransactionSubmission, SdkError>)
        ensures
            prepared_as(
                r,
                call_error(opt_chars(*contract_id)),
                submission_id(function@, opt_chars(*contract_id)->0),
                call_status(dry_run),
                0,
                opt_chars(*contract_id),
                self@.network_passphrase,
                opt_chars(signer),
            ),
    {
        let id = match XlmNsClient::require_contract_id(contract_id, "contract ID") {
            Ok(id) => id,
            Err(e) => {
                return Err(e);
            },
        };
        let status = if dry_run {
            SubmissionStatus::Simulated
        } else {
            SubmissionStatus::Submitted
        };
        Ok(
            submission(
                generated_submission_hash(function, id),
                status,
                0,
                some_string(id),
                clone_opt(&self.network_passphrase),
                signer,
            ),
        )
    }

    /// A contract call guarded by a non-blank field and an account check.
    fn guarded_call(
        &self,
        field: &str,
        blank_message: &str,
        account: &str,
        account_field: &str,
        contract_id: &Option<String>,
        function: &str,
        dry_run: bool,
    ) -> (r: Result<TransactionSubmission, SdkError>)
        ensures
            prepared_as(
                r,
                guarded_call_error(
                    is_blank(field@),
                    blank_message@,
                    account@,
                    account_field@,
                    opt_chars(*contract_id),
                ),
                submission_id(function@, opt_chars(*contract_id)->0),
                call_status(dry_run),
                0,
                opt_chars(*contract_id),
                self@.network_passphrase,
                Some(account@),
            ),
    {
        if blank(field) {
            return Err(invalid(blank_message));
        }
        match XlmNsClient::validate_account(account, account_field) {
            Ok(()) => {},
            Err(e) => {
                return Err(e);
            },
        }
        self.simulate_and_submit(contract_id, function, some_string(account), dry_run)
    }

    /// Prepares registering a parent domain for subdomain issuance.
    pub fn prepare_register_parent(&self, request: &RegisterParentRequest, dry_run: bool) -> (r:
        Result<TransactionSubmission, SdkError>)
        ensures
            prepared_as(
                r,
                guarded_call_error(
                    is_blank(request.parent@),
                    "parent must not be empty"@,
                    request.owner@,
                    "owner"@,
                    self@.subdomain,
                ),
                submission_id("register_parent"@, self@.subdomain->0),
                call_status(dry_run),
                0,
                self@.subdomain,
                self@.network_passphrase,
                Some(request.owner@),
            ),
    {
        self.guarded_call(
            request.parent.as_str(),
            "parent must not be empty",
            request.owner.as_str(),
            "owner",
            &self.subdomain_contract_id,
            "register_parent",
            dry_run,
        )
    }

    /// Prepares adding a controller to a parent domain.
    pub fn prepare_add_controller(&self, request: &AddControllerRequest, dry_run: bool) -> (r:
        Result<TransactionSubmission, SdkError>)
        ensures
            prepared_as(
                r,
                guarded_call_error(
                    is_blank(request.parent@),
                    "parent must not be empty"@,
                    request.controller@,
                    "controller"@,
                    self@.subdomain,
                ),
                submission_id("add_controller"@, self@.subdomain->0),
                call_status(dry_run),
                0,
                self@.subdomain,
                self@.network_passphrase,
                Some(request.controller@),
            ),
    {
        self.guarded_call(
            request.parent.as_str(),
            "parent must not be empty",
            request.controller.as_str(),
            "controller",
            &self.subdomain_contract_id,
            "add_controller",
            dry_run,
        )
    }

    /// Prepares creating a subdomain; both its label and parent are needed.
    pub fn prepare_create_subdomain(&self, request: &CreateSubdomainRequest, dry_run: bool) -> (r:
        Result<TransactionSubmission, SdkError>)
        ensures
            prepared_as(
                r,
                if is_blank(request.label@) {
                    Some("label must not be empty"@)
                } else {
                    guarded_call_error(
                        is_blank(request.parent@),
                        "parent must not be empty"@,
                        request.owner@,
                        "owner"@,
                        self@.subdomain,
                    )
                },
                submission_id("create_subdomain"@, self@.subdomain->0),
                call_status(dry_run),
                0,
                self@.subdomain,
                self@.network_passphrase,
                Some(request.owner@),
            ),
    {
        if blank(request.label.as_str()) {
            return Err(invalid("label must not be empty"));
        }
        self.guarded_call(
            request.parent.as_str(),
            "parent must not be empty",
            request.owner.as_str(),
            "owner",
            &self.subdomain_contract_id,
            "create_subdomain",
            dry_run,
        )
    }

    /// Prepares handing a subdomain to a new owner.
    pub fn prepare_transfer_subdomain(&self, request: &TransferSubdomainRequest, dry_run: bool) -> (r:
        Result<TransactionSubmission, SdkError>)
        ensures
            prepared_as(
                r,
                guarded_call_error(
                    is_blank(request.fqdn@),
                    "fqdn must not be empty"@,
                    request.new_owner@,
                    "new_owner"@,
                    self@.subdomain,
                ),
                submission_id("transfer_subdomain"@, self@.subdomain->0),
                call_status(dry_run),
                0,
                self@.subdomain,
                self@.network_passphrase,
                Some(request.new_owner@),
            ),
    {
        self.guarded_call(
            request.fqdn.as_str(),
            "fqdn must not be empty",
            request.new_owner.as_str(),
            "new_owner",
            &self.subdomain_contract_id,
            "transfer_subdomain",
            dry_run,
        )
    }

    /// Prepares minting the NFT of `token_id` to `owner`.
    pub fn prepare_mint_nft(&self, token_id: &str, owner: &str, dry_run: bool) -> (r: Result<
        TransactionSubmission,
        SdkError,
    >)
        ensures
            prepared_as(
                r,
                guarded_call_error(
                    is_blank(token_id@),
                    "token_id must not be empty"@,
                    owner@,
                    "owner"@,
                    self@.nft,
                ),
                submission_id("mint"@, self@.nft->0),
                call_status(dry_run),
                0,
                self@.nft,
                self@.network_passphrase,
                Some(owner@),
            ),
    {
        self.guarded_call(
            token_id,
            "token_id must not be empty",
            owner,
            "owner",
            &self.nft_contract_id,
            "mint",
            dry_run,
        )
    }

    /// Prepares approving `operator` to transfer the NFT of `token_id`.
    pub fn prepare_approve_nft(&self, token_id: &str, operator: &str, dry_run: bool) -> (r: Result<
        TransactionSubmission,
        SdkError,
    >)
        ensures
            prepared_as(
                r,
                guarded_call_error(
                    is_blank(token_id@),
                    "token_id must not be empty"@,
                    operator@,
                    "operator"@,
                    self@.nft,
                ),
                submission_id("approve"@, self@.nft->0),
                call_status(dry_run),
                0,
                self@.nft,
                self@.network_passphrase,
                Some(operator@),
            ),
    {
        self.guarded_call(
            token_id,
            "token_id must not be empty",
            operator,
            "operator",
            &self.nft_contract_id,
            "approve",
            dry_run,
        )
    }

    /// Prepares transferring the NFT of `token_id` to `new_owner`.
    pub fn prepare_transfer_nft(&self, token_id: &str, new_owner: &str, dry_run: bool) -> (r:
        Result<TransactionSubmission, SdkError>)
        ensures
            prepared_as(
                r,
                guarded_call_error(
                    is_blank(token_id@),
                    "token_id must not be empty"@,
                    new_owner@,
                    "new_owner"@,
                    self@.nft,
                ),
                submission_id("transfer"@, self@.nft->0),
                call_status(dry_run),
                0,
                self@.nft,
                self@.network_passphrase,
                Some(new_owner@),
            ),
    {
        self.guarded_call(
            token_id,
            "token_id must not be empty",
            new_owner,
            "new_owner",
            &self.nft_contract_id,
            "transfer",
            dry_run,
        )
    }
}


/// The bridge route the simulated bridge holds for `chain`, if it supports it.
pub open spec fn route_of(chain: Seq<char>) -> Option<(Seq<char>, Seq<char>)> {
    if chain == "base"@ {
        Some(("0xbaseResolver"@, "0xbaseGateway"@))
    } else if chain == "ethereum"@ {
        Some(("0xethResolver"@, "0xethGateway"@))
    } else if chain == "arbitrum"@ {
        Some(("0xarbResolver"@, "0xarbGateway"@))
    } else {
        None
    }
}

/// Whether `r` is the route to `chain` with that resolver and gateway.
pub open spec fn route_is(r: BridgeRoute, chain: Seq<char>, resolver: Seq<char>, gateway: Seq<char>) -> bool {
    r.destination_chain@ == chain && r.destination_resolver@ == resolver && r.gateway@ == gateway
}

/// The resolution message sent over the bridge for `name` to `chain`.
pub open spec fn bridge_message(name: Seq<char>, chain: Seq<char>, resolver: Seq<char>) -> Seq<char> {
    "{\"type\":\"xlm-ns-resolution\",\"name\":\""@ + name + "\",\"destination_chain\":\""@ + chain
        + "\",\"resolver\":\""@ + resolver + "\"}"@
}

fn bridge_route(chain: &str, resolver: &str, gateway: &str) -> (r: BridgeRoute)
    ensures
        route_is(r, chain@, resolver@, gateway@),
{
    BridgeRoute {
        destination_chain: String::from_str(chain),
        destination_resolver: String::from_str(resolver),
        gateway: String::from_str(gateway),
    }
}

/// The simulated auction for `name`: live for `active.xlm`, finished for
/// `ended.xlm`, none otherwise.
pub open spec fn auction_of(name: Seq<char>) -> Option<(u64, Seq<char>, u64, AuctionStatus)> {
    if name == "active.xlm"@ {
        Some((150u64, "GDRA...BIDDER"@, (MOCK_REFERENCE_TIMESTAMP + 3600) as u64, AuctionStatus::Active))
    } else if name == "ended.xlm"@ {
        Some((200u64, "GDRA...WINNER"@, (MOCK_REFERENCE_TIMESTAMP - 3600) as u64, AuctionStatus::Ended))
    } else {
        None
    }
}

/// Whether `r` answers a read whose first failed check has message
/// `error`, if any.
pub open spec fn fails_with<T>(r: Result<T, SdkError>, error: Option<Seq<char>>) -> bool {
    match error {
        Some(m) => r matches Err(e) && invalid_request(e, m),
        None => r is Ok,
    }
}

/// Whether `s` is a fixed-identifier submission the simulated auction and
/// registrar flows answer with.
pub open spec fn mock_submission_is(
    s: TransactionSubmission,
    tx_hash: Seq<char>,
    contract_id: Option<Seq<char>>,
    network_passphrase: Option<Seq<char>>,
    signer: Option<Seq<char>>,
) -> bool {
    submission_is(
        s,
        tx_hash,
        SubmissionStatus::Submitted,
        MOCK_REFERENCE_TIMESTAMP,
        contract_id,
        network_passphrase,
        signer,
    )
}

/// The resolution of `name` from its registry entry, preferring the address
/// the entry's resolver reports when it has one and answered.
pub open spec fn resolved_address(entry: RegistryEntry, record: Option<ResolutionRecord>) -> Option<Seq<char>> {
    match (entry.resolver, record) {
        (Some(_), Some(rec)) => Some(rec.address@),
        _ => opt_chars(entry.target_address),
    }
}

/// The status a polled transaction settles to: `SUCCESS` confirms it,
/// `FAILED` fails it, any other answer leaves it as it was.
pub open spec fn settled_status(current: SubmissionStatus, reported: Seq<char>) -> SubmissionStatus {
    if reported == "SUCCESS"@ {
        SubmissionStatus::Confirmed
    } else if reported == "FAILED"@ {
        SubmissionStatus::Failed
    } else {
        current
    }
}

impl XlmNsClient {
    /// The names `owner` holds on the simulated ledger.
    pub fn get_owner_portfolio(&self, owner: &str) -> (r: Result<Vec<NameRecord>, SdkError>)
        ensures
            fails_with(
                r,
                if is_blank(owner@) {
                    Some("owner must not be empty"@)
                } else {
                    account_verdict(owner@, "owner"@)
                },
            ),
            r matches Ok(v) ==> v@.len() == 1 && v@[0].owner@ == owner@ && v@[0].registered_at
                == MOCK_REFERENCE_TIMESTAMP - 86400 && v@[0].expires_at == MOCK_REFERENCE_TIMESTAMP
                + YEAR_SECONDS && v@[0].grace_period_ends_at == MOCK_REFERENCE_TIMESTAMP
                + YEAR_SECONDS + 86400 && opt_chars(v@[0].resolver) == Some("CDAD...RESOLVER"@),
    {
        if blank(owner) {
            return Err(invalid("owner must not be empty"));
        }
        match XlmNsClient::validate_account(owner, "owner") {
            Ok(()) => {},
            Err(e) => {
                return Err(e);
            },
        }
        let mut v: Vec<NameRecord> = Vec::new();
        v.push(
            NameRecord {
                owner: String::from_str(owner),
                registered_at: MOCK_REFERENCE_TIMESTAMP - 86400,
                expires_at: MOCK_REFERENCE_TIMESTAMP + YEAR_SECONDS,
                grace_period_ends_at: MOCK_REFERENCE_TIMESTAMP + YEAR_SECONDS + 86400,
                resolver: some_string("CDAD...RESOLVER"),
            },
        );
        Ok(v)
    }

    /// The primary name of `address` on the simulated resolver.
    pub fn reverse_resolve(&self, address: &str) -> (r: Result<ReverseResolution, SdkError>)
        ensures
            fails_with(
                r,
                if is_blank(address@) {
                    Some("address must not be empty"@)
                } else {
                    account_verdict(address@, "address"@)
                },
            ),
            r matches Ok(rr) ==> rr.address@ == address@ && opt_chars(rr.primary_name) == Some(
                "primary.xlm"@,
            ) && opt_chars(rr.resolver) == self@.resolver,
    {
        if blank(address) {
            return Err(invalid("address must not be empty"));
        }
        match XlmNsClient::validate_account(address, "address") {
            Ok(()) => {},
            Err(e) => {
                return Err(e);
            },
        }
        Ok(
            ReverseResolution {
                address: String::from_str(address),
                primary_name: some_string("primary.xlm"),
                resolver: clone_opt(&self.resolver_contract_id),
            },
        )
    }

    /// The primary name `address` resolves back to.
    pub fn reverse_lookup(&self, address: &str) -> (r: Result<Option<String>, SdkError>)
        ensures
            fails_with(
                r,
                if is_blank(address@) {
                    Some("address must not be empty"@)
                } else {
                    account_verdict(address@, "address"@)
                },
            ),
            r matches Ok(n) ==> opt_chars(n) == Some("primary.xlm"@),
    {
        match self.reverse_resolve(address) {
            Ok(res) => Ok(res.primary_name),
            Err(e) => Err(e),
        }
    }

    /// The primary name of `address`; the same as [`XlmNsClient::reverse_lookup`].
    pub fn get_primary_name(&self, address: &str) -> (r: Result<Option<String>, SdkError>)
        ensures
            fails_with(
                r,
                if is_blank(address@) {
                    Some("address must not be empty"@)
                } else {
                    account_verdict(address@, "address"@)
                },
            ),
            r matches Ok(n) ==> opt_chars(n) == Some("primary.xlm"@),
    {
        self.reverse_lookup(address)
    }

    /// The text records of `name` on the simulated resolver: `url` and
    /// `twitter`.
    pub fn get_text_records(&self, name: &str) -> (r: Result<HashMap<String, String>, SdkError>)
        ensures
            fails_with(
                r,
                if is_blank(name@) {
                    Some("name must not be empty"@)
                } else {
                    None
                },
            ),
    {
        if blank(name) {
            return Err(invalid("name must not be empty"));
        }
        let mut records: HashMap<String, String> = HashMap::new();
        records.insert(String::from_str("url"), String::from_str("https://alice.xlm"));
        records.insert(String::from_str("twitter"), String::from_str("@alice"));
        Ok(records)
    }

    /// The text record `key` of `name` on the simulated resolver.
    pub fn get_text_record(&self, name: &str, key: &str) -> (r: Result<TextRecord, SdkError>)
        ensures
            fails_with(
                r,
                if is_blank(name@) {
                    Some("name must not be empty"@)
                } else if is_blank(key@) {
                    Some("key must not be empty"@)
                } else {
                    None
                },
            ),
            r matches Ok(t) ==> t.name@ == name@ && t.key@ == key@ && opt_chars(t.value) == Some(
                "mock:"@ + key@,
            ),
    {
        if blank(name) {
            return Err(invalid("name must not be empty"));
        }
        if blank(key) {
            return Err(invalid("key must not be empty"));
        }
        Ok(
            TextRecord {
                name: String::from_str(name),
                key: String::from_str(key),
                value: Some(String::from_str("mock:").concat(key)),
            },
        )
    }

    /// The subdomains of `parent` on the simulated ledger.
    pub fn get_subdomains(&self, parent: &str) -> (r: Result<Vec<Subdomain>, SdkError>)
        ensures
            fails_with(
                r,
                if is_blank(parent@) {
                    Some("parent must not be empty"@)
                } else {
                    None
                },
            ),
            r matches Ok(v) ==> v@.len() == 2 && v@[0].label@ == "blog"@ && v@[1].label@
                == "shop"@ && v@[0].owner@ == "GDRA...OWNER"@ && v@[1].owner@ == "GDRA...OWNER"@,
    {
        if blank(parent) {
            return Err(invalid("parent must not be empty"));
        }
        let mut v: Vec<Subdomain> = Vec::new();
        v.push(
            Subdomain { label: String::from_str("blog"), owner: String::from_str("GDRA...OWNER") },
        );
        v.push(
            Subdomain { label: String::from_str("shop"), owner: String::from_str("GDRA...OWNER") },
        );
        Ok(v)
    }

    /// Accepts the chains the bridge serves: base, ethereum and arbitrum.
    pub fn register_chain(&self, request: &RegisterChainRequest) -> (r: Result<(), SdkError>)
        ensures
            fails_with(
                r,
                if is_blank(request.chain@) {
                    Some("chain must not be empty"@)
                } else if route_of(request.chain@) is None {
                    Some("unsupported chain: "@ + request.chain@)
                } else {
                    None
                },
            ),
    {
        if blank(request.chain.as_str()) {
            return Err(invalid("chain must not be empty"));
        }
        let c = request.chain.as_str();
        if str_eq(c, "base") || str_eq(c, "ethereum") || str_eq(c, "arbitrum") {
            Ok(())
        } else {
            Err(SdkError::InvalidRequest(String::from_str("unsupported chain: ").concat(c)))
        }
    }

    /// The bridge route to `chain`, if the bridge serves it.
    pub fn get_route(&self, chain: &str) -> (r: Result<Option<BridgeRoute>, SdkError>)
        ensures
            fails_with(
                r,
                if is_blank(chain@) {
                    Some("chain must not be empty"@)
                } else {
                    None
                },
            ),
            r matches Ok(o) ==> match route_of(chain@) {
                Some((res, gw)) => o matches Some(rt) && route_is(rt, chain@, res, gw),
                None => o is None,
            },
    {
        if blank(chain) {
            return Err(invalid("chain must not be empty"));
        }
        let route = if str_eq(chain, "base") {
            Some(bridge_route("base", "0xbaseResolver", "0xbaseGateway"))
        } else if str_eq(chain, "ethereum") {
            Some(bridge_route("ethereum", "0xethResolver", "0xethGateway"))
        } else if str_eq(chain, "arbitrum") {
            Some(bridge_route("arbitrum", "0xarbResolver", "0xarbGateway"))
        } else {
            None
        };
        Ok(route)
    }

    /// The bridge routes of `name`: ethereum, then base.
    pub fn get_bridge_routes(&self, name: &str) -> (r: Result<Vec<BridgeRoute>, SdkError>)
        ensures
            fails_with(
                r,
                if is_blank(name@) {
                    Some("name must not be empty"@)
                } else {
                    None
                },
            ),
            r matches Ok(v) ==> v@.len() == 2 && route_is(
                v@[0],
                "ethereum"@,
                "0xethResolver"@,
                "0xethGateway"@,
            ) && route_is(v@[1], "base"@, "0xbaseResolver"@, "0xbaseGateway"@),
    {
        if blank(name) {
            return Err(invalid("name must not be empty"));
        }
        let mut v: Vec<BridgeRoute> = Vec::new();
        v.push(bridge_route("ethereum", "0xethResolver", "0xethGateway"));
        v.push(bridge_route("base", "0xbaseResolver", "0xbaseGateway"));
        Ok(v)
    }

    /// The resolution message for `request.name` bound for `request.chain`,
    /// naming the destination chain's resolver.
    pub fn build_message(&self, request: &BuildMessageRequest) -> (r: Result<String, SdkError>)
        ensures
            fails_with(
                r,
                if is_blank(request.name@) {
                    Some("name must not be empty"@)
                } else if is_blank(request.chain@) {
                    Some("chain must not be empty"@)
                } else if route_of(request.chain@) is None {
                    Some("unsupported chain: "@ + request.chain@)
                } else {
                    None
                },
            ),
            r matches Ok(m) ==> m@ == bridge_message(
                request.name@,
                request.chain@,
                (route_of(request.chain@)->0).0,
            ),
    {
        if blank(request.name.as_str()) {
            return Err(invalid("name must not be empty"));
        }
        if blank(request.chain.as_str()) {
            return Err(invalid("chain must not be empty"));
        }
        let c = request.chain.as_str();
        let resolver = if str_eq(c, "base") {
            "0xbaseResolver"
        } else if str_eq(c, "ethereum") {
            "0xethResolver"
        } else if str_eq(c, "arbitrum") {
            "0xarbResolver"
        } else {
            return Err(SdkError::InvalidRequest(String::from_str("unsupported chain: ").concat(c)));
        };
        Ok(
            String::from_str("{\"type\":\"xlm-ns-resolution\",\"name\":\"").concat(
                request.name.as_str(),
            ).concat("\",\"destination_chain\":\"").concat(c).concat("\",\"resolver\":\"").concat(
                resolver,
            ).concat("\"}"),
        )
    }

    /// The NFT record of `token_id`; the same as [`XlmNsClient::get_nft_record`].
    pub fn get_nft(&self, token_id: &str) -> (r: Result<NftRecord, SdkError>)
        ensures
            is_blank(token_id@) ==> (r matches Err(e) && invalid_request(
                e,
                "token_id must not be empty"@,
            )),
            !is_blank(token_id@) ==> (r matches Ok(n) && n.token_id@ == token_id@ && n.owner@
                == "GDRA...NFT_OWNER"@ && opt_chars(n.metadata_uri) == Some(
                "ipfs://mock-metadata/"@ + token_id@,
            )),
    {
        self.get_nft_record(token_id)
    }

    /// The owner of an NFT on the simulated ledger.
    pub fn get_nft_owner(&self, token_id: &str) -> (r: Result<String, SdkError>)
        ensures
            r matches Ok(o) && o@ == "GDRA...OWNER"@,
    {
        Ok(String::from_str("GDRA...OWNER"))
    }

    /// The metadata URI of an NFT on the simulated ledger.
    pub fn get_nft_metadata(&self, token_id: &str) -> (r: Result<Option<String>, SdkError>)
        ensures
            r matches Ok(m) && opt_chars(m) == Some("ipfs://mock/"@ + token_id@),
    {
        Ok(Some(String::from_str("ipfs://mock/").concat(token_id)))
    }

    /// The simulated auction of `name`, if there is one.
    pub fn get_auction(&self, name: &str) -> (r: Result<Option<AuctionInfo>, SdkError>)
        ensures
            fails_with(
                r,
                if is_blank(name@) {
                    Some("name must not be empty"@)
                } else {
                    None
                },
            ),
            r matches Ok(o) ==> match auction_of(name@) {
                Some((bid, bidder, ends, status)) => o matches Some(a) && a.name@ == name@
                    && a.owner@ == "GDRA...OWNER"@ && a.reserve_price == 100 && a.highest_bid == bid
                    && opt_chars(a.highest_bidder) == Some(bidder) && a.ends_at == ends && a.status
                    == status,
                None => o is None,
            },
    {
        if blank(name) {
            return Err(invalid("name must not be empty"));
        }
        if str_eq(name, "active.xlm") {
            Ok(
                Some(
                    AuctionInfo {
                        name: String::from_str(name),
                        owner: String::from_str("GDRA...OWNER"),
                        reserve_price: 100,
                        highest_bid: 150,
                        highest_bidder: some_string("GDRA...BIDDER"),
                        ends_at: MOCK_REFERENCE_TIMESTAMP + 3600,
                        status: AuctionStatus::Active,
                    },
                ),
            )
        } else if str_eq(name, "ended.xlm") {
            Ok(
                Some(
                    AuctionInfo {
                        name: String::from_str(name),
                        owner: String::from_str("GDRA...OWNER"),
                        reserve_price: 100,
                        highest_bid: 200,
                        highest_bidder: some_string("GDRA...WINNER"),
                        ends_at: MOCK_REFERENCE_TIMESTAMP - 3600,
                        status: AuctionStatus::Ended,
                    },
                ),
            )
        } else {
            Ok(None)
        }
    }

    /// The highest bid and end of the auction of `name`; a name with no
    /// auction is reported as not found.
    pub fn get_auction_state(&self, name: &str) -> (r: Result<AuctionState, SdkError>)
        ensures
            is_blank(name@) ==> (r matches Err(e) && invalid_request(
                e,
                "name must not be empty"@,
            )),
            !is_blank(name@) ==> match auction_of(name@) {
                Some((bid, _bidder, ends, _status)) => r == Ok::<AuctionState, SdkError>(
                    AuctionState { highest_bid: bid as i128, end_time: ends },
                ),
                None => r matches Err(e) && (e matches SdkError::ContractError(c) && c
                    == ContractErrorCode::NameNotFound),
            },
    {
        let info = match self.get_auction(name) {
            Ok(Some(info)) => info,
            Ok(None) => {
                return Err(SdkError::ContractError(ContractErrorCode::NameNotFound));
            },
            Err(e) => {
                return Err(e);
            },
        };
        Ok(AuctionState { highest_bid: info.highest_bid as i128, end_time: info.ends_at })
    }

    /// Checks an auction request and answers with its submission.
    pub fn create_auction(&self, request: AuctionCreateRequest) -> (r: Result<
        TransactionSubmission,
        SdkError,
    >)
        ensures
            fails_with(
                r,
                if is_blank(request.name@) {
                    Some("name must not be empty"@)
                } else if is_blank(request.asset@) {
                    Some("asset must not be empty"@)
                } else {
                    account_verdict(request.treasury@, "treasury"@)
                },
            ),
            r matches Ok(s) ==> mock_submission_is(
                s,
                "tx_auction_create_mock"@,
                self@.auction,
                self@.network_passphrase,
                opt_chars(request.signer),
            ),
    {
        if blank(request.name.as_str()) {
            return Err(invalid("name must not be empty"));
        }
        if blank(request.asset.as_str()) {
            return Err(invalid("asset must not be empty"));
        }
        match XlmNsClient::validate_account(request.treasury.as_str(), "treasury") {
            Ok(()) => {},
            Err(e) => {
                return Err(e);
            },
        }
        Ok(
            submission(
                String::from_str("tx_auction_create_mock"),
                SubmissionStatus::Submitted,
                MOCK_REFERENCE_TIMESTAMP,
                clone_opt(&self.auction_contract_id),
                clone_opt(&self.network_passphrase),
                request.signer,
            ),
        )
    }

    /// Checks a bid and answers with its submission.
    pub fn bid_auction(&self, request: BidRequest) -> (r: Result<TransactionSubmission, SdkError>)
        ensures
            fails_with(
                r,
                if is_blank(request.name@) {
                    Some("name must not be empty"@)
                } else if request.amount == 0 {
                    Some("bid amount must be greater than zero"@)
                } else {
                    None
                },
            ),
            r matches Ok(s) ==> mock_submission_is(
                s,
                "tx_bid_mock"@,
                self@.auction,
                self@.network_passphrase,
                opt_chars(request.signer),
            ),
    {
        if blank(request.name.as_str()) {
            return Err(invalid("name must not be empty"));
        }
        if request.amount == 0 {
            return Err(invalid("bid amount must be greater than zero"));
        }
        Ok(
            submission(
                String::from_str("tx_bid_mock"),
                SubmissionStatus::Submitted,
                MOCK_REFERENCE_TIMESTAMP,
                clone_opt(&self.auction_contract_id),
                clone_opt(&self.network_passphrase),
                request.signer,
            ),
        )
    }

    /// Answers a reserved-label manifest upload with its submission.
    pub fn load_reserved_manifest(&self, labels: Vec<String>, signer: Option<String>) -> (r: Result<
        TransactionSubmission,
        SdkError,
    >)
        ensures
            fails_with(
                r,
                if labels@.len() == 0 {
                    Some("labels must not be empty"@)
                } else {
                    None
                },
            ),
            r matches Ok(s) ==> mock_submission_is(
                s,
                "tx_load_manifest_mock"@,
                self@.registrar,
                self@.network_passphrase,
                opt_chars(signer),
            ),
    {
        if labels.len() == 0 {
            return Err(invalid("labels must not be empty"));
        }
        Ok(
            submission(
                String::from_str("tx_load_manifest_mock"),
                SubmissionStatus::Submitted,
                MOCK_REFERENCE_TIMESTAMP,
                clone_opt(&self.registrar_contract_id),
                clone_opt(&self.network_passphrase),
                signer,
            ),
        )
    }

    /// The registrar's treasury balance on the simulated ledger.
    pub fn get_treasury_balance(&self) -> (r: Result<u64, SdkError>)
        ensures
            match contract_id_verdict(self@.registrar, "registrar contract ID"@) {
                Ok(_) => r == Ok::<u64, SdkError>(0),
                Err(m) => r matches Err(e) && invalid_request(e, m),
            },
    {
        match XlmNsClient::require_contract_id(&self.registrar_contract_id, "registrar contract ID") {
            Ok(_) => Ok(0),
            Err(e) => Err(e),
        }
    }

    /// The registrar's fee metrics on the simulated ledger.
    pub fn get_fee_metrics(&self) -> (r: Result<RegistrarMetrics, SdkError>)
        ensures
            match contract_id_verdict(self@.registrar, "registrar contract ID"@) {
                Ok(_) => r == Ok::<RegistrarMetrics, SdkError>(
                    RegistrarMetrics { treasury_balance: 0, total_registrations: 0, total_renewals: 0 },
                ),
                Err(m) => r matches Err(e) && invalid_request(e, m),
            },
    {
        match XlmNsClient::require_contract_id(&self.registrar_contract_id, "registrar contract ID") {
            Ok(_) => Ok(RegistrarMetrics { treasury_balance: 0, total_registrations: 0, total_renewals: 0 }),
            Err(e) => Err(e),
        }
    }

    /// Answers an auction settlement with its submission.
    pub fn settle_auction(&self, name: &str, signer: Option<String>) -> (r: Result<
        TransactionSubmission,
        SdkError,
    >)
        ensures
            fails_with(
                r,
                if is_blank(name@) {
                    Some("name must not be empty"@)
                } else {
                    None
                },
            ),
            r matches Ok(s) ==> mock_submission_is(
                s,
                "tx_settle_mock"@,
                self@.auction,
                self@.network_passphrase,
                opt_chars(signer),
            ),
    {
        if blank(name) {
            return Err(invalid("name must not be empty"));
        }
        Ok(
            submission(
                String::from_str("tx_settle_mock"),
                SubmissionStatus::Submitted,
                MOCK_REFERENCE_TIMESTAMP,
                clone_opt(&self.auction_contract_id),
                clone_opt(&self.network_passphrase),
                signer,
            ),
        )
    }

    /// Whether `name` is the one name the simulated registry has no
    /// registration for.
    pub fn is_unregistered(name: &str) -> (r: bool)
        ensures
            r == (name@ == "notfound.xlm"@),
    {
        str_eq(name, "notfound.xlm")
    }

    /// The registry entry the simulated registry answers for `name`; its
    /// resolver is the configured one, else a fixed resolver.
    pub fn registry_entry_for(&self, name: &str) -> (e: RegistryEntry)
        ensures
            e.name@ == name@,
            e.owner@ == "GDRA...OWNER"@,
            opt_chars(e.resolver) == match self@.resolver {
                Some(r) => Some(r),
                None => Some("CDAD...RESOLVER"@),
            },
            opt_chars(e.target_address) == Some("GDRA...TARGET"@),
            e.metadata_uri is None,
            e.ttl_seconds == 3600,
            e.registered_at == MOCK_REFERENCE_TIMESTAMP - 86400,
            e.expires_at == MOCK_REFERENCE_TIMESTAMP + YEAR_SECONDS,
            e.grace_period_ends_at == MOCK_REFERENCE_TIMESTAMP + YEAR_SECONDS + 86400,
            e.transfer_count == 0,
    {
        let resolver = match &self.resolver_contract_id {
            Some(r) => Some(r.clone()),
            None => some_string("CDAD...RESOLVER"),
        };
        RegistryEntry {
            name: String::from_str(name),
            owner: String::from_str("GDRA...OWNER"),
            resolver,
            target_address: some_string("GDRA...TARGET"),
            metadata_uri: None,
            ttl_seconds: 3600,
            registered_at: MOCK_REFERENCE_TIMESTAMP - 86400,
            expires_at: MOCK_REFERENCE_TIMESTAMP + YEAR_SECONDS,
            grace_period_ends_at: MOCK_REFERENCE_TIMESTAMP + YEAR_SECONDS + 86400,
            transfer_count: 0,
        }
    }

    /// The record the simulated resolver answers with.
    pub fn resolver_record_for(&self, name: &str) -> (r: ResolutionRecord)
        ensures
            r.owner@ == "GDRA...OWNER"@,
            r.address@ == "GDRA...RESOLVED_ADDR"@,
            r.updated_at == MOCK_REFERENCE_TIMESTAMP,
    {
        ResolutionRecord {
            owner: String::from_str("GDRA...OWNER"),
            address: String::from_str("GDRA...RESOLVED_ADDR"),
            text_records: HashMap::new(),
            updated_at: MOCK_REFERENCE_TIMESTAMP,
        }
    }

    /// Whether a submission is followed to its final status, and the
    /// transaction hash to poll for when it is.
    pub fn poll_target(&self, submission: &TransactionSubmission) -> (r: Option<Vec<u8>>)
        ensures
            !self.config.poll_final_status ==> r is None,
            self.config.poll_final_status && hash_hex_valid(trim_chars(submission.tx_hash@)) ==> (r matches Some(b)
                && b@ == hash_bytes(trim_chars(submission.tx_hash@))),
            self.config.poll_final_status && !hash_hex_valid(trim_chars(submission.tx_hash@)) ==> r is None,
    {
        if !self.config.poll_final_status {
            return None;
        }
        parse_submission_hash(submission.tx_hash.as_str())
    }
}

/// The resolution of `name` from its registry entry and, where the entry
/// names a resolver that answered, that resolver's record.
pub fn resolution_from_entry(name: &str, entry: RegistryEntry, record: Option<ResolutionRecord>) -> (r:
    ResolutionResult)
    ensures
        r@ == (ResolutionView {
            name: name@,
            address: resolved_address(entry, record),
            resolver: opt_chars(entry.resolver),
            expires_at: Some(entry.expires_at),
        }),
{
    let address = match (&entry.resolver, record) {
        (Some(_), Some(rec)) => Some(rec.address),
        _ => entry.target_address,
    };
    ResolutionResult {
        name: String::from_str(name),
        address,
        resolver: entry.resolver,
        expires_at: Some(entry.expires_at),
    }
}

/// The ownership and lifecycle part of a registry entry.
pub fn name_record_from_entry(entry: RegistryEntry) -> (r: NameRecord)
    ensures
        r.owner@ == entry.owner@,
        r.registered_at == entry.registered_at,
        r.expires_at == entry.expires_at,
        r.grace_period_ends_at == entry.grace_period_ends_at,
        opt_chars(r.resolver) == opt_chars(entry.resolver),
{
    NameRecord {
        owner: entry.owner,
        registered_at: entry.registered_at,
        expires_at: entry.expires_at,
        grace_period_ends_at: entry.grace_period_ends_at,
        resolver: entry.resolver,
    }
}

/// A submission after polling: the ledger it landed in and the status the
/// network reported.
pub fn apply_transaction_status(
    submission: TransactionSubmission,
    ledger: Option<u32>,
    reported: &str,
) -> (r: TransactionSubmission)
    ensures
        r == (TransactionSubmission {
            ledger,
            status: settled_status(submission.status, reported@),
            ..submission
        }),
{
    let status = if str_eq(reported, "SUCCESS") {
        SubmissionStatus::Confirmed
    } else if str_eq(reported, "FAILED") {
        SubmissionStatus::Failed
    } else {
        submission.status
    };
    TransactionSubmission { ledger, status, ..submission }
}

} // verus!
