//! Errors the SDK reports, the contract error codes it decodes, and which
//! failures are worth retrying.

use vstd::prelude::*;
use vstd::string::*;

use crate::text::{chars_of, contains_chars, lower_chars, lowercase_chars, vec_contains_chars};

verus! {

/// Error codes the name-service contracts report.
#[derive(Debug, Clone, Copy, PartialEq, Eq, Structural)]
pub enum ContractErrorCode {
    NameNotFound,
    NotOwner,
    Expired,
    InvalidLabel,
    Other,
}

impl ContractErrorCode {
    /// The numeric code of this error on the wire.
    pub fn code(&self) -> (c: u32)
        ensures
            c == match self {
                ContractErrorCode::NameNotFound => 1u32,
                ContractErrorCode::NotOwner => 2u32,
                ContractErrorCode::Expired => 3u32,
                ContractErrorCode::InvalidLabel => 4u32,
                ContractErrorCode::Other => 99u32,
            },
    {
        match self {
            ContractErrorCode::NameNotFound => 1,
            ContractErrorCode::NotOwner => 2,
            ContractErrorCode::Expired => 3,
            ContractErrorCode::InvalidLabel => 4,
            ContractErrorCode::Other => 99,
        }
    }
}

/// Why a transaction could not be signed.
#[derive(Debug, Clone, PartialEq, Eq)]
pub enum SigningError {
    Rejected { reason: String },
    InvalidKey { reason: String },
    ExternalFailure { reason: String },
    MalformedEnvelope { reason: String },
}

#[derive(Debug)]
pub enum SdkError {
    InvalidRequest(String),
    Transport(String),
    Ingestion(String),
    ContractError(ContractErrorCode),
    /// The network passphrase returned by the RPC server does not match the
    /// passphrase configured in the client.
    NetworkPassphraseMismatch { configured: String, rpc_reported: String },
    /// The network passphrase embedded in a transaction does not match the
    /// passphrase configured in the client.
    TransactionPassphraseMismatch { configured: String, in_transaction: String },
    ContractInvocationFailed { operation: &'static str, reason: String, tx_hash: Option<String> },
    SimulationFailed { operation: &'static str, reason: String },
    InsufficientFee { operation: &'static str, required: i64, available: i64 },
    TransactionTimeout { operation: &'static str, ledger_submitted: u32 },
    SigningFailed { operation: &'static str, source: SigningError },
}

/// The contract error a numeric code stands for.
pub open spec fn error_of_code(code: u32) -> ContractErrorCode {
    if code == 1 {
        ContractErrorCode::NameNotFound
    } else if code == 2 {
        ContractErrorCode::NotOwner
    } else if code == 3 {
        ContractErrorCode::Expired
    } else if code == 4 {
        ContractErrorCode::InvalidLabel
    } else {
        ContractErrorCode::Other
    }
}

pub fn decode_error(code: u32) -> (e: ContractErrorCode)
    ensures
        e == error_of_code(code),
{
    match code {
        1 => ContractErrorCode::NameNotFound,
        2 => ContractErrorCode::NotOwner,
        3 => ContractErrorCode::Expired,
        4 => ContractErrorCode::InvalidLabel,
        _ => ContractErrorCode::Other,
    }
}

/// A transport failure is permanent when its message, ASCII lower-cased,
/// names a bad RPC URL or an undecodable response; every other transport
/// failure (rate limits, 5xx statuses, time-outs, refused or reset
/// connections, and anything unclassified) is worth retrying.
pub open spec fn transport_retryable(message: Seq<char>) -> bool {
    let m = lower_chars(message);
    !(contains_chars(m, "invalid rpc url"@) || contains_chars(m, "json decoding error"@)
        || contains_chars(m, "invalid response from server"@))
}

pub fn transport_is_retryable(message: &str) -> (r: bool)
    ensures
        r == transport_retryable(message@),
{
    let msg = lowercase_chars(message);
    if vec_contains_chars(&msg, &chars_of("invalid rpc url")) || vec_contains_chars(
        &msg,
        &chars_of("json decoding error"),
    ) || vec_contains_chars(&msg, &chars_of("invalid response from server")) {
        return false;
    }
    true
}

/// Whether an RPC call that failed with `err` may be retried: time-outs and
/// transient transport failures are; everything else is permanent.
pub open spec fn retryable(err: SdkError) -> bool {
    match err {
        SdkError::TransactionTimeout { .. } => true,
        SdkError::Transport(message) => transport_retryable(message@),
        _ => false,
    }
}

/// Returns `true` when an RPC call may be retried with exponential backoff.
pub fn is_retryable(err: &SdkError) -> (r: bool)
    ensures
        r == retryable(*err),
{
    match err {
        SdkError::TransactionTimeout { .. } => true,
        SdkError::Transport(message) => transport_is_retryable(message.as_str()),
        SdkError::InvalidRequest(_) => false,
        SdkError::Ingestion(_) => false,
        SdkError::ContractError(_) => false,
        SdkError::NetworkPassphraseMismatch { .. } => false,
        SdkError::TransactionPassphraseMismatch { .. } => false,
        SdkError::ContractInvocationFailed { .. } => false,
        SdkError::SimulationFailed { .. } => false,
        SdkError::InsufficientFee { .. } => false,
        SdkError::SigningFailed { .. } => false,
    }
}


/// The decimal numeral of `n`, most significant digit first.
pub open spec fn decimal(n: nat) -> Seq<char>
    decreases n,
{
    if n < 10 {
        seq![((n + 48) as u8) as char]
    } else {
        decimal(n / 10).push((((n % 10) + 48) as u8) as char)
    }
}

/// The decimal numeral of a signed integer, with a leading `-` when negative.
pub open spec fn signed_decimal(n: int) -> Seq<char> {
    if n < 0 {
        seq!['-'] + decimal((-n) as nat)
    } else {
        decimal(n as nat)
    }
}

fn digit_str(d: u64) -> (s: &'static str)
    requires
        d < 10,
    ensures
        s@ == seq![((d + 48) as u8) as char],
{
    proof {
        reveal_strlit("0");
        reveal_strlit("1");
        reveal_strlit("2");
        reveal_strlit("3");
        reveal_strlit("4");
        reveal_strlit("5");
        reveal_strlit("6");
        reveal_strlit("7");
        reveal_strlit("8");
        reveal_strlit("9");
    }
    let s = if d == 0 {
        "0"
    } else if d == 1 {
        "1"
    } else if d == 2 {
        "2"
    } else if d == 3 {
        "3"
    } else if d == 4 {
        "4"
    } else if d == 5 {
        "5"
    } else if d == 6 {
        "6"
    } else if d == 7 {
        "7"
    } else if d == 8 {
        "8"
    } else {
        "9"
    };
    assert(s@ =~= seq![((d + 48) as u8) as char]);
    s
}

/// Appends the decimal numeral of `n` to `out`.
fn push_decimal(out: &mut String, n: u64)
    ensures
        final(out)@ == old(out)@ + decimal(n as nat),
    decreases n,
{
    if n < 10 {
        out.append(digit_str(n));
    } else {
        push_decimal(out, n / 10);
        out.append(digit_str(n % 10));
        assert(decimal(n as nat) == decimal((n / 10) as nat).push((((n % 10) + 48) as u8) as char));
        assert(old(out)@ + decimal((n / 10) as nat) + seq![(((n % 10) + 48) as u8) as char]
            =~= old(out)@ + decimal(n as nat));
    }
}

/// The decimal text of `n`.
pub fn u64_text(n: u64) -> (s: String)
    ensures
        s@ == decimal(n as nat),
{
    let mut out = String::new();
    push_decimal(&mut out, n);
    out
}

/// The decimal text of `n`, with a leading `-` when negative.
pub fn i64_text(n: i64) -> (s: String)
    ensures
        s@ == signed_decimal(n as int),
{
    if n < 0 {
        let magnitude: u64 = if n == i64::MIN {
            9_223_372_036_854_775_808u64
        } else {
            (-n) as u64
        };
        proof {
            reveal_strlit("-");
        }
        let mut out = String::from_str("-");
        push_decimal(&mut out, magnitude);
        assert(magnitude as int == -(n as int));
        assert(out@ =~= seq!['-'] + decimal(magnitude as nat));
        out
    } else {
        u64_text(n as u64)
    }
}

/// How a string is written by its `Debug` format: quoted, with quotes,
/// backslashes and unprintable characters escaped.
pub uninterp spec fn debug_quoted(s: Seq<char>) -> Seq<char>;

/// Formats `s` with `format!("{s:?}")`, the standard library's `Debug` for
/// `str`. The contract claims only that the text is a function of `s`.
#[verifier::external_body]
fn debug_text(s: &str) -> (r: String)
    ensures
        r@ == debug_quoted(s@),
{
    format!("{s:?}")
}

/// The name of a contract error code, as its `Debug` format writes it.
pub open spec fn code_name(c: ContractErrorCode) -> Seq<char> {
    match c {
        ContractErrorCode::NameNotFound => "NameNotFound"@,
        ContractErrorCode::NotOwner => "NotOwner"@,
        ContractErrorCode::Expired => "Expired"@,
        ContractErrorCode::InvalidLabel => "InvalidLabel"@,
        ContractErrorCode::Other => "Other"@,
    }
}

impl ContractErrorCode {
    pub fn name(&self) -> (s: &'static str)
        ensures
            s@ == code_name(*self),
    {
        match self {
            ContractErrorCode::NameNotFound => "NameNotFound",
            ContractErrorCode::NotOwner => "NotOwner",
            ContractErrorCode::Expired => "Expired",
            ContractErrorCode::InvalidLabel => "InvalidLabel",
            ContractErrorCode::Other => "Other",
        }
    }
}

/// The message of a signing error.
pub open spec fn signing_text(e: SigningError) -> Seq<char> {
    match e {
        SigningError::Rejected { reason } => "signing rejected: "@ + reason@,
        SigningError::InvalidKey { reason } => "invalid signing key: "@ + reason@,
        SigningError::ExternalFailure { reason } => "external signer failed: "@ + reason@,
        SigningError::MalformedEnvelope { reason } => "malformed transaction envelope: "@ + reason@,
    }
}

impl SigningError {
    /// The human-readable message of this error.
    pub fn message(&self) -> (s: String)
        ensures
            s@ == signing_text(*self),
    {
        match self {
            SigningError::Rejected { reason } => String::from_str("signing rejected: ").concat(
                reason.as_str(),
            ),
            SigningError::InvalidKey { reason } => String::from_str("invalid signing key: ").concat(
                reason.as_str(),
            ),
            SigningError::ExternalFailure { reason } => String::from_str(
                "external signer failed: ",
            ).concat(reason.as_str()),
            SigningError::MalformedEnvelope { reason } => String::from_str(
                "malformed transaction envelope: ",
            ).concat(reason.as_str()),
        }
    }
}

/// The message of an SDK error.
pub open spec fn sdk_error_text(e: SdkError) -> Seq<char> {
    match e {
        SdkError::InvalidRequest(m) => "invalid request: "@ + m@,
        SdkError::Transport(m) => "transport error: "@ + m@,
        SdkError::Ingestion(m) => "ingestion error: "@ + m@,
        SdkError::ContractError(c) => "contract error: "@ + code_name(c),
        SdkError::NetworkPassphraseMismatch { configured, rpc_reported } =>
            "network passphrase mismatch: configured="@ + debug_quoted(configured@)
            + ", rpc_reported="@ + debug_quoted(rpc_reported@),
        SdkError::TransactionPassphraseMismatch { configured, in_transaction } =>
            "transaction passphrase mismatch: configured="@ + debug_quoted(configured@)
            + ", in_transaction="@ + debug_quoted(in_transaction@),
        SdkError::ContractInvocationFailed { operation, reason, tx_hash } => match tx_hash {
            Some(h) => operation@ + " failed: "@ + reason@ + " (tx: "@ + h@ + ")"@,
            None => operation@ + " failed: "@ + reason@,
        },
        SdkError::SimulationFailed { operation, reason } => operation@ + " simulation failed: "@
            + reason@,
        SdkError::InsufficientFee { operation, required, available } => operation@
            + " has insufficient fee: required "@ + signed_decimal(required as int)
            + ", available "@ + signed_decimal(available as int),
        SdkError::TransactionTimeout { operation, ledger_submitted } => operation@
            + " timed out after submission at ledger "@ + decimal(ledger_submitted as nat),
        SdkError::SigningFailed { operation, source } => operation@ + " signing failed: "@
            + signing_text(source),
    }
}

impl SdkError {
    /// The human-readable message of this error.
    pub fn message(&self) -> (s: String)
        ensures
            s@ == sdk_error_text(*self),
    {
        match self {
            SdkError::InvalidRequest(m) => String::from_str("invalid request: ").concat(m.as_str()),
            SdkError::Transport(m) => String::from_str("transport error: ").concat(m.as_str()),
            SdkError::Ingestion(m) => String::from_str("ingestion error: ").concat(m.as_str()),
            SdkError::ContractError(c) => String::from_str("contract error: ").concat(c.name()),
            SdkError::NetworkPassphraseMismatch { configured, rpc_reported } => String::from_str(
                "network passphrase mismatch: configured=",
            ).concat(debug_text(configured.as_str()).as_str()).concat(", rpc_reported=").concat(
                debug_text(rpc_reported.as_str()).as_str(),
            ),
            SdkError::TransactionPassphraseMismatch { configured, in_transaction } =>
                String::from_str("transaction passphrase mismatch: configured=").concat(
                debug_text(configured.as_str()).as_str(),
            ).concat(", in_transaction=").concat(debug_text(in_transaction.as_str()).as_str()),
            SdkError::ContractInvocationFailed { operation, reason, tx_hash } => {
                let base = String::from_str(operation).concat(" failed: ").concat(reason.as_str());
                match tx_hash {
                    Some(h) => base.concat(" (tx: ").concat(h.as_str()).concat(")"),
                    None => base,
                }
            },
            SdkError::SimulationFailed { operation, reason } => String::from_str(operation).concat(
                " simulation failed: ",
            ).concat(reason.as_str()),
            SdkError::InsufficientFee { operation, required, available } => String::from_str(
                operation,
            ).concat(" has insufficient fee: required ").concat(i64_text(*required).as_str()).concat(
                ", available ",
            ).concat(i64_text(*available).as_str()),
            SdkError::TransactionTimeout { operation, ledger_submitted } => String::from_str(
                operation,
            ).concat(" timed out after submission at ledger ").concat(
                u64_text(*ledger_submitted as u64).as_str(),
            ),
            SdkError::SigningFailed { operation, source } => String::from_str(operation).concat(
                " signing failed: ",
            ).concat(source.message().as_str()),
        }
    }
}

} // verus!
