//! Transport configuration of the client (time-outs, retries, user agent,
//! status polling) and the well-known Stellar networks.

use vstd::prelude::*;

verus! {

/// Default time-out of one RPC request, in milliseconds.
pub const DEFAULT_TIMEOUT_MS: u64 = 30_000;

/// Default time spent polling for a submitted transaction's final status,
/// in milliseconds.
pub const DEFAULT_TRANSACTION_POLL_TIMEOUT_MS: u64 = 30_000;

/// Default number of retries after the first attempt.
pub const DEFAULT_MAX_RETRIES: u32 = 3;

/// Default delay before the first retry, in milliseconds.
pub const DEFAULT_INITIAL_BACKOFF_MS: u64 = 200;

/// How failed RPC calls are retried.
#[derive(Debug, Clone, Copy, PartialEq, Eq, Structural)]
pub struct RetryConfig {
    /// Retries allowed after the first attempt.
    pub max_retries: u32,
    /// Delay before the first retry; each later retry waits twice as long.
    pub initial_backoff_ms: u64,
    /// Whether the caller spreads the delays randomly.
    pub jitter: bool,
}

/// Transport-level controls shared by the client's calls.
#[derive(Debug, Clone)]
pub struct ClientConfig {
    pub timeout_ms: u64,
    pub retry: RetryConfig,
    pub user_agent: String,
    /// Whether submissions are followed until they reach a final status.
    pub poll_final_status: bool,
    pub transaction_poll_timeout_ms: u64,
}

/// The user agent the client announces by default.
pub open spec fn default_user_agent_spec() -> Seq<char> {
    "xlm-ns-sdk/0.1.0"@
}

pub fn default_user_agent() -> (s: String)
    ensures
        s@ == default_user_agent_spec(),
{
    String::from_str("xlm-ns-sdk/0.1.0")
}

impl Default for RetryConfig {
    fn default() -> (c: Self)
        ensures
            c.max_retries == DEFAULT_MAX_RETRIES,
            c.initial_backoff_ms == DEFAULT_INITIAL_BACKOFF_MS,
            c.jitter,
    {
        RetryConfig {
            max_retries: DEFAULT_MAX_RETRIES,
            initial_backoff_ms: DEFAULT_INITIAL_BACKOFF_MS,
            jitter: true,
        }
    }
}

impl Default for ClientConfig {
    fn default() -> (c: Self)
        ensures
            c.timeout_ms == DEFAULT_TIMEOUT_MS,
            c.retry.max_retries == DEFAULT_MAX_RETRIES,
            c.retry.initial_backoff_ms == DEFAULT_INITIAL_BACKOFF_MS,
            c.retry.jitter,
            c.user_agent@ == default_user_agent_spec(),
            c.poll_final_status,
            c.transaction_poll_timeout_ms == DEFAULT_TRANSACTION_POLL_TIMEOUT_MS,
    {
        ClientConfig {
            timeout_ms: DEFAULT_TIMEOUT_MS,
            retry: RetryConfig {
                max_retries: DEFAULT_MAX_RETRIES,
                initial_backoff_ms: DEFAULT_INITIAL_BACKOFF_MS,
                jitter: true,
            },
            user_agent: default_user_agent(),
            poll_final_status: true,
            transaction_poll_timeout_ms: DEFAULT_TRANSACTION_POLL_TIMEOUT_MS,
        }
    }
}

impl ClientConfig {
    pub fn with_timeout_ms(self, timeout_ms: u64) -> (c: Self)
        ensures
            c.timeout_ms == timeout_ms,
            c.retry == self.retry,
            c.user_agent@ == self.user_agent@,
            c.poll_final_status == self.poll_final_status,
            c.transaction_poll_timeout_ms == self.transaction_poll_timeout_ms,
    {
        ClientConfig { timeout_ms, ..self }
    }

    pub fn with_max_retries(self, max_retries: u32) -> (c: Self)
        ensures
            c.retry == (RetryConfig { max_retries, ..self.retry }),
            c.timeout_ms == self.timeout_ms,
            c.user_agent@ == self.user_agent@,
            c.poll_final_status == self.poll_final_status,
            c.transaction_poll_timeout_ms == self.transaction_poll_timeout_ms,
    {
        ClientConfig { retry: RetryConfig { max_retries, ..self.retry }, ..self }
    }

    pub fn with_initial_backoff_ms(self, initial_backoff_ms: u64) -> (c: Self)
        ensures
            c.retry == (RetryConfig { initial_backoff_ms, ..self.retry }),
            c.timeout_ms == self.timeout_ms,
            c.user_agent@ == self.user_agent@,
            c.poll_final_status == self.poll_final_status,
            c.transaction_poll_timeout_ms == self.transaction_poll_timeout_ms,
    {
        ClientConfig { retry: RetryConfig { initial_backoff_ms, ..self.retry }, ..self }
    }

    pub fn with_jitter(self, jitter: bool) -> (c: Self)
        ensures
            c.retry == (RetryConfig { jitter, ..self.retry }),
            c.timeout_ms == self.timeout_ms,
            c.user_agent@ == self.user_agent@,
            c.poll_final_status == self.poll_final_status,
            c.transaction_poll_timeout_ms == self.transaction_poll_timeout_ms,
    {
        ClientConfig { retry: RetryConfig { jitter, ..self.retry }, ..self }
    }

    pub fn with_user_agent(self, user_agent: &str) -> (c: Self)
        ensures
            c.user_agent@ == user_agent@,
            c.timeout_ms == self.timeout_ms,
            c.retry == self.retry,
            c.poll_final_status == self.poll_final_status,
            c.transaction_poll_timeout_ms == self.transaction_poll_timeout_ms,
    {
        ClientConfig { user_agent: String::from_str(user_agent), ..self }
    }

    pub fn with_poll_final_status(self, poll_final_status: bool) -> (c: Self)
        ensures
            c.poll_final_status == poll_final_status,
            c.timeout_ms == self.timeout_ms,
            c.retry == self.retry,
            c.user_agent@ == self.user_agent@,
            c.transaction_poll_timeout_ms == self.transaction_poll_timeout_ms,
    {
        ClientConfig { poll_final_status, ..self }
    }

    pub fn with_transaction_poll_timeout_ms(self, timeout_ms: u64) -> (c: Self)
        ensures
            c.transaction_poll_timeout_ms == timeout_ms,
            c.timeout_ms == self.timeout_ms,
            c.retry == self.retry,
            c.user_agent@ == self.user_agent@,
            c.poll_final_status == self.poll_final_status,
    {
        ClientConfig { transaction_poll_timeout_ms: timeout_ms, ..self }
    }
}

/// The delay before retry number `attempt` (counted from 0): the initial
/// backoff, doubled once per earlier retry, saturating at `u64::MAX`.
pub open spec fn backoff_delay(initial_ms: u64, attempt: nat) -> u64
    decreases attempt,
{
    if attempt == 0 {
        initial_ms
    } else {
        let prev = backoff_delay(initial_ms, (attempt - 1) as nat);
        if prev > u64::MAX / 2 {
            u64::MAX
        } else {
            (prev * 2) as u64
        }
    }
}

/// The wait before retry `attempt` of a call that failed with a retryable
/// error, or `None` when the retries are used up.
pub open spec fn retry_delay(retry: RetryConfig, attempt: u32, retryable: bool) -> Option<u64> {
    if retryable && attempt < retry.max_retries {
        Some(backoff_delay(retry.initial_backoff_ms, attempt as nat))
    } else {
        None
    }
}

impl RetryConfig {
    /// The wait before retry number `attempt`, before any jitter.
    pub fn backoff_ms(&self, attempt: u32) -> (d: u64)
        ensures
            d == backoff_delay(self.initial_backoff_ms, attempt as nat),
    {
        let mut d = self.initial_backoff_ms;
        let mut i: u32 = 0;
        while i < attempt
            invariant
                i <= attempt,
                d == backoff_delay(self.initial_backoff_ms, i as nat),
            decreases attempt - i,
        {
            d = if d > u64::MAX / 2 {
                u64::MAX
            } else {
                d * 2
            };
            i = i + 1;
        }
        d
    }

    /// After a failed attempt, whether to try again and after how long:
    /// only retryable failures are retried, at most `max_retries` times.
    pub fn next_delay(&self, attempt: u32, retryable: bool) -> (r: Option<u64>)
        ensures
            r == retry_delay(*self, attempt, retryable),
    {
        if retryable && attempt < self.max_retries {
            Some(self.backoff_ms(attempt))
        } else {
            None
        }
    }

    /// The wait actually slept for a scheduled `delay_ms`: the delay itself
    /// without jitter; with jitter, a point of its upper half picked by
    /// `entropy`, so that clients do not retry in lock-step.
    pub fn wait_ms(&self, delay_ms: u64, entropy: u64) -> (w: u64)
        ensures
            !self.jitter ==> w == delay_ms,
            self.jitter ==> w == delay_ms / 2 + entropy % ((delay_ms - delay_ms / 2) + 1) as u64,
            self.jitter ==> delay_ms / 2 <= w <= delay_ms,
    {
        if self.jitter {
            let half = delay_ms / 2;
            let span: u64 = delay_ms - half;
            half + entropy % (span + 1)
        } else {
            delay_ms
        }
    }
}

/// The retry schedule doubles: while nothing saturates, retry `k` waits
/// `initial * 2^k`, and a later retry never waits less than an earlier one.
pub proof fn law_backoff_doubles(initial_ms: u64, k: nat)
    ensures
        backoff_delay(initial_ms, k + 1) >= backoff_delay(initial_ms, k),
        backoff_delay(initial_ms, k) <= u64::MAX / 2 ==> backoff_delay(initial_ms, k + 1) == 2
            * backoff_delay(initial_ms, k),
{
}

/// A failure that is not retryable is never retried, and no call is
/// retried more than `max_retries` times.
pub proof fn law_retry_bounded(retry: RetryConfig, attempt: u32, retryable: bool)
    ensures
        !retryable ==> retry_delay(retry, attempt, retryable) is None,
        attempt >= retry.max_retries ==> retry_delay(retry, attempt, retryable) is None,
{
}

/// The well-known Stellar networks.
#[derive(Debug, Clone, Copy, PartialEq, Eq, Structural)]
pub enum NetworkPreset {
    Testnet,
    Mainnet,
    Futurenet,
}

pub open spec fn preset_rpc_url(p: NetworkPreset) -> Seq<char> {
    match p {
        NetworkPreset::Testnet => "https://soroban-testnet.stellar.org"@,
        NetworkPreset::Mainnet => "https://soroban.stellar.org"@,
        NetworkPreset::Futurenet => "https://rpc-futurenet.stellar.org"@,
    }
}

pub open spec fn preset_passphrase(p: NetworkPreset) -> Seq<char> {
    match p {
        NetworkPreset::Testnet => "Test SDF Network ; September 2015"@,
        NetworkPreset::Mainnet => "Public Global Stellar Network ; September 2015"@,
        NetworkPreset::Futurenet => "Test SDF Future Network ; October 2022"@,
    }
}

impl NetworkPreset {
    /// The public RPC endpoint of the network.
    pub fn rpc_url(&self) -> (s: &'static str)
        ensures
            s@ == preset_rpc_url(*self),
    {
        match self {
            NetworkPreset::Testnet => "https://soroban-testnet.stellar.org",
            NetworkPreset::Mainnet => "https://soroban.stellar.org",
            NetworkPreset::Futurenet => "https://rpc-futurenet.stellar.org",
        }
    }

    /// The network passphrase transactions on the network are signed for.
    pub fn passphrase(&self) -> (s: &'static str)
        ensures
            s@ == preset_passphrase(*self),
    {
        match self {
            NetworkPreset::Testnet => "Test SDF Network ; September 2015",
            NetworkPreset::Mainnet => "Public Global Stellar Network ; September 2015",
            NetworkPreset::Futurenet => "Test SDF Future Network ; October 2022",
        }
    }
}

} // verus!
