//! Requests, receipts and records exchanged with the SDK client.

use vstd::prelude::*;

use std::collections::HashMap;

verus! {

/// The currency fees are quoted in.
pub const DEFAULT_FEE_CURRENCY: &'static str = "XLM";

#[derive(Debug, Clone, PartialEq, Eq)]
pub struct RegistrationRequest {
    pub label: String,
    pub owner: String,
    pub duration_years: u32,
    pub signer: Option<String>,
}

#[derive(Debug, Clone, Copy, PartialEq, Eq, Structural)]
pub struct FeeBreakdown {
    pub base_fee: u64,
    pub premium_fee: u64,
    pub network_fee: u64,
}

impl FeeBreakdown {
    /// The sum of the three parts, saturating at `u64::MAX`.
    pub fn total(&self) -> (t: u64)
        ensures
            t == self.base_fee.saturating_add(self.premium_fee).saturating_add(self.network_fee),
    {
        self.base_fee.saturating_add(self.premium_fee).saturating_add(self.network_fee)
    }
}

#[derive(Debug, Clone, PartialEq, Eq)]
pub struct RegistrationQuote {
    pub label: String,
    pub duration_years: u32,
    pub fee_breakdown: FeeBreakdown,
    pub total_fee: u64,
    pub fee_currency: String,
    pub expires_at: u64,
    pub grace_period_ends_at: u64,
    pub quoted_at: u64,
    pub contract_id: Option<String>,
}

impl RegistrationQuote {
    /// The headline fee a caller should pay.
    pub fn fee(&self) -> (f: u64)
        ensures
            f == self.total_fee,
    {
        self.total_fee
    }
}

#[derive(Debug, Clone, PartialEq, Eq)]
pub struct RenewalRequest {
    pub name: String,
    pub additional_years: u32,
    pub signer: Option<String>,
}

#[derive(Debug, Clone, Copy, PartialEq, Eq, Structural)]
pub enum SubmissionStatus {
    Simulated,
    Submitted,
    Confirmed,
    Failed,
}

pub open spec fn submission_status_name(s: SubmissionStatus) -> Seq<char> {
    match s {
        SubmissionStatus::Simulated => "simulated"@,
        SubmissionStatus::Submitted => "submitted"@,
        SubmissionStatus::Confirmed => "confirmed"@,
        SubmissionStatus::Failed => "failed"@,
    }
}

impl SubmissionStatus {
    /// The lower-case name of the status.
    pub fn as_str(&self) -> (s: &'static str)
        ensures
            s@ == submission_status_name(*self),
    {
        match self {
            SubmissionStatus::Simulated => "simulated",
            SubmissionStatus::Submitted => "submitted",
            SubmissionStatus::Confirmed => "confirmed",
            SubmissionStatus::Failed => "failed",
        }
    }
}

#[derive(Debug, Clone, PartialEq, Eq)]
pub struct TransactionSubmission {
    pub tx_hash: String,
    pub status: SubmissionStatus,
    pub ledger: Option<u32>,
    pub submitted_at: u64,
    pub contract_id: Option<String>,
    pub network_passphrase: Option<String>,
    pub signer: Option<String>,
}

#[derive(Debug, Clone, PartialEq, Eq)]
pub struct RegistrationReceipt {
    pub name: String,
    pub owner: String,
    pub duration_years: u32,
    pub expires_at: u64,
    pub fee_paid: u64,
    pub submission: TransactionSubmission,
}

#[derive(Debug, Clone, PartialEq, Eq)]
pub struct RegisterResult {
    pub name: String,
    pub owner: String,
    pub tx_hash: String,
    pub ledger_sequence: u32,
}

#[derive(Debug, Clone, PartialEq, Eq)]
pub struct RenewalReceipt {
    pub name: String,
    pub additional_years: u32,
    pub new_expiry: u64,
    pub fee_paid: u64,
    pub submission: TransactionSubmission,
}

#[derive(Debug, Clone, PartialEq, Eq)]
pub struct RenewResult {
    pub name: String,
    pub new_expiry_ledger: u32,
    pub tx_hash: String,
    pub ledger_sequence: u32,
}

/// The raw renewal outcome.
pub type RenewalResult = RenewalReceipt;

#[derive(Debug, Clone, PartialEq, Eq)]
pub struct ResolutionResult {
    pub name: String,
    pub address: Option<String>,
    pub resolver: Option<String>,
    pub expires_at: Option<u64>,
}

#[derive(Debug, Clone, PartialEq, Eq)]
pub struct PortfolioPage {
    pub items: Vec<ResolutionResult>,
    pub next_cursor: Option<usize>,
    pub total: usize,
}

#[derive(Debug, Clone, PartialEq, Eq)]
pub struct ReverseResolution {
    pub address: String,
    pub primary_name: Option<String>,
    pub resolver: Option<String>,
}

#[derive(Debug, Clone, PartialEq, Eq)]
pub struct TextRecord {
    pub name: String,
    pub key: String,
    pub value: Option<String>,
}

#[derive(Debug, Clone, PartialEq, Eq)]
pub struct TextRecordUpdate {
    pub name: String,
    pub key: String,
    pub value: Option<String>,
    pub signer: Option<String>,
}

#[derive(Debug, Clone, PartialEq, Eq)]
pub struct TextRecordsUpdate {
    pub name: String,
    pub records: HashMap<String, Option<String>>,
    pub signer: Option<String>,
}

#[derive(Debug, Clone, PartialEq, Eq)]
pub struct TransferRequest {
    pub name: String,
    pub new_owner: String,
    pub signer: Option<String>,
}

#[derive(Debug, Clone)]
pub struct RegisterParentRequest {
    pub parent: String,
    pub owner: String,
}

#[derive(Debug, Clone)]
pub struct AddControllerRequest {
    pub parent: String,
    pub controller: String,
}

#[derive(Debug, Clone)]
pub struct CreateSubdomainRequest {
    pub label: String,
    pub parent: String,
    pub owner: String,
}

#[derive(Debug, Clone)]
pub struct TransferSubdomainRequest {
    pub fqdn: String,
    pub new_owner: String,
}

#[derive(Debug, Clone)]
pub struct ParentDomain {
    pub owner: String,
    pub controllers: Vec<String>,
}

#[derive(Debug, Clone)]
pub struct SubdomainRecord {
    pub parent: String,
    pub owner: String,
    pub created_at: u64,
}

#[derive(Debug, Clone, PartialEq, Eq)]
pub struct Subdomain {
    pub label: String,
    pub owner: String,
}

#[derive(Debug, Clone)]
pub struct RegisterChainRequest {
    pub chain: String,
}

#[derive(Debug, Clone)]
pub struct BuildMessageRequest {
    pub name: String,
    pub chain: String,
}

#[derive(Debug, Clone, PartialEq, Eq)]
pub struct BridgeRoute {
    pub destination_chain: String,
    pub destination_resolver: String,
    pub gateway: String,
}

#[derive(Debug, Clone, PartialEq, Eq)]
pub struct NftRecord {
    pub token_id: String,
    pub owner: String,
    pub metadata_uri: Option<String>,
}

/// Cumulative fee and operation metrics returned by the registrar's read APIs.
#[derive(Debug, Clone, Copy, PartialEq, Eq, Structural)]
pub struct RegistrarMetrics {
    pub treasury_balance: u64,
    pub total_registrations: u64,
    pub total_renewals: u64,
}

#[derive(Debug, Clone, PartialEq, Eq)]
pub struct NameRecord {
    pub owner: String,
    pub registered_at: u64,
    pub expires_at: u64,
    pub grace_period_ends_at: u64,
    pub resolver: Option<String>,
}

#[derive(Debug, Clone, Copy, PartialEq, Eq, Structural)]
pub struct AuctionState {
    pub highest_bid: i128,
    pub end_time: u64,
}

/// A registry entry as the registry contract reports it.
#[derive(Debug, Clone)]
pub struct RegistryEntry {
    pub name: String,
    pub owner: String,
    pub resolver: Option<String>,
    pub target_address: Option<String>,
    pub metadata_uri: Option<String>,
    pub ttl_seconds: u64,
    pub registered_at: u64,
    pub expires_at: u64,
    pub grace_period_ends_at: u64,
    pub transfer_count: u32,
}

/// A resolution record as the resolver contract reports it.
#[derive(Debug, Clone)]
pub struct ResolutionRecord {
    pub owner: String,
    pub address: String,
    pub text_records: HashMap<String, String>,
    pub updated_at: u64,
}

#[derive(Debug, Clone)]
pub struct AuctionInfo {
    pub name: String,
    pub owner: String,
    pub reserve_price: u64,
    pub highest_bid: u64,
    pub highest_bidder: Option<String>,
    pub ends_at: u64,
    pub status: AuctionStatus,
}

#[derive(Debug, Clone, Copy, PartialEq, Eq, Structural)]
pub enum AuctionStatus {
    Active,
    Ended,
    Settled,
}

pub open spec fn auction_status_name(s: AuctionStatus) -> Seq<char> {
    match s {
        AuctionStatus::Active => "active"@,
        AuctionStatus::Ended => "ended"@,
        AuctionStatus::Settled => "settled"@,
    }
}

impl AuctionStatus {
    /// The lower-case name of the status.
    pub fn as_str(&self) -> (s: &'static str)
        ensures
            s@ == auction_status_name(*self),
    {
        match self {
            AuctionStatus::Active => "active",
            AuctionStatus::Ended => "ended",
            AuctionStatus::Settled => "settled",
        }
    }
}

#[derive(Debug, Clone)]
pub struct AuctionCreateRequest {
    pub name: String,
    pub asset: String,
    pub treasury: String,
    pub reserve_price: u64,
    pub duration_seconds: u64,
    pub signer: Option<String>,
}

#[derive(Debug, Clone)]
pub struct BidRequest {
    pub name: String,
    pub amount: u64,
    pub signer: Option<String>,
}

/// Typed output from a pre-flight simulation of a write operation.
#[derive(Debug, Clone, PartialEq, Eq)]
pub struct SimulationResult {
    /// Estimated fee in stroops that the operation will consume.
    pub fee_estimate: u64,
    /// Addresses whose authorization is required for the transaction.
    pub auth_addresses: Vec<String>,
    /// Human-readable error message if simulation detected a contract error.
    pub error: Option<String>,
    /// `true` when simulation found no errors and the transaction can be submitted.
    pub success: bool,
}

} // verus!
