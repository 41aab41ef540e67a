//! Integer bookkeeping of the contract health monitor: the counters each
//! poll derives from the previous snapshot, the window the registration
//! baseline averages over, and the alerts that carry no measurements.
//! Rates and percentages are computed by the caller.

use vstd::prelude::*;

verus! {

/// The contracts the monitor watches.
#[derive(Debug, Clone)]
pub struct ContractConfig {
    pub registry_contract_id: Option<String>,
    pub registrar_contract_id: Option<String>,
    pub resolver_contract_id: Option<String>,
    pub auction_contract_id: Option<String>,
}

/// Where alerts are sent.
#[derive(Debug, Clone)]
pub struct AlertChannelConfig {
    pub slack_webhook_url: Option<String>,
    pub pagerduty_url: Option<String>,
    pub email_recipient: Option<String>,
    pub generic_webhook_url: Option<String>,
}

#[derive(Debug, Clone)]
pub struct Alert {
    pub name: String,
    pub description: String,
    pub severity: String,
    pub current_value: String,
    pub threshold: String,
}

/// Whether `a` is the alert with these texts.
pub open spec fn alert_is(
    a: Alert,
    name: Seq<char>,
    description: Seq<char>,
    severity: Seq<char>,
    current_value: Seq<char>,
    threshold: Seq<char>,
) -> bool {
    &&& a.name@ == name
    &&& a.description@ == description
    &&& a.severity@ == severity
    &&& a.current_value@ == current_value
    &&& a.threshold@ == threshold
}

/// The warning raised when no registration happened in the last hour.
pub fn zero_registration_alert() -> (a: Alert)
    ensures
        alert_is(
            a,
            "Zero Registration Activity"@,
            "No new registrations have occurred in the last hour."@,
            "WARNING"@,
            "0 registrations"@,
            "0 registrations for > 1 hour"@,
        ),
{
    Alert {
        name: String::from_str("Zero Registration Activity"),
        description: String::from_str("No new registrations have occurred in the last hour."),
        severity: String::from_str("WARNING"),
        current_value: String::from_str("0 registrations"),
        threshold: String::from_str("0 registrations for > 1 hour"),
    }
}

/// The critical alert raised when a poll cannot reach the RPC server.
pub fn rpc_failure_alert(reason: &str) -> (a: Alert)
    ensures
        alert_is(
            a,
            "RPC Connectivity Failure"@,
            "Failed to connect or poll from Soroban RPC: "@ + reason@,
            "CRITICAL"@,
            "Disconnected"@,
            "Unreachable"@,
        ),
{
    Alert {
        name: String::from_str("RPC Connectivity Failure"),
        description: String::from_str("Failed to connect or poll from Soroban RPC: ").concat(reason),
        severity: String::from_str("CRITICAL"),
        current_value: String::from_str("Disconnected"),
        threshold: String::from_str("Unreachable"),
    }
}

/// The sum of the last `count` entries of `s`.
pub open spec fn sum_last(s: Seq<u64>, count: nat) -> int
    decreases count,
{
    if count == 0 || s.len() == 0 {
        0
    } else {
        s.last() + sum_last(s.drop_last(), (count - 1) as nat)
    }
}

/// The registration baseline averages the hourly volumes of the latest
/// snapshots, at most ten of them, once three are on record: their sum and
/// how many there are.
pub open spec fn baseline_span(volumes: Seq<u64>) -> Option<(int, nat)> {
    if volumes.len() >= 3 {
        let count: nat = if volumes.len() < 10 {
            volumes.len()
        } else {
            10
        };
        Some((sum_last(volumes, count), count))
    } else {
        None
    }
}

proof fn lemma_sum_last_bound(s: Seq<u64>, count: nat)
    ensures
        0 <= sum_last(s, count) <= count * u64::MAX,
    decreases count,
{
    if count > 0 && s.len() > 0 {
        lemma_sum_last_bound(s.drop_last(), (count - 1) as nat);
    }
}

/// The sum and number of the hourly volumes the baseline averages, or
/// `None` while fewer than three snapshots are on record.
pub fn baseline_window(volumes: &Vec<u64>) -> (r: Option<(u128, usize)>)
    ensures
        match baseline_span(volumes@) {
            Some((sum, count)) => r == Some((sum as u128, count as usize)),
            None => r is None,
        },
{
    let n = volumes.len();
    if n < 3 {
        return None;
    }
    let count: usize = if n < 10 {
        n
    } else {
        10
    };
    let mut sum: u128 = 0;
    let mut taken: usize = 0;
    while taken < count
        invariant
            n == volumes@.len(),
            count <= n,
            count <= 10,
            taken <= count,
            sum == sum_last(volumes@, taken as nat),
            sum <= taken * u64::MAX,
        decreases count - taken,
    {
        proof {
            lemma_sum_last_step(volumes@, taken as nat);
        }
        sum = sum + volumes[n - 1 - taken] as u128;
        taken = taken + 1;
    }
    Some((sum, count))
}

proof fn lemma_sum_last_step(s: Seq<u64>, k: nat)
    requires
        k < s.len(),
    ensures
        sum_last(s, k + 1) == sum_last(s, k) + s[s.len() - 1 - k],
    decreases k,
{
    let d = s.drop_last();
    assert(sum_last(s, k + 1) == s.last() + sum_last(d, k));
    if k > 0 {
        lemma_sum_last_step(d, (k - 1) as nat);
        assert(d[d.len() - 1 - (k - 1)] == s[s.len() - 1 - k]);
        assert(sum_last(s, k) == s.last() + sum_last(d, (k - 1) as nat));
    } else {
        assert(sum_last(d, 0) == 0);
        assert(sum_last(s, 0) == 0);
    }
}

/// The counters of the previous snapshot that the next one builds on.
#[derive(Debug, Clone, Copy, PartialEq, Eq, Structural)]
pub struct PreviousCounters {
    pub total_registrations: u64,
    pub registration_volume_day: u64,
    pub contract_balance_xlm: u64,
}

/// The integer counters of a poll.
#[derive(Debug, Clone, Copy, PartialEq, Eq, Structural)]
pub struct PollCounters {
    pub total_registrations: u64,
    pub contract_balance_xlm: u64,
    pub registration_volume_hour: u64,
    pub registration_volume_day: u64,
    pub storage_entry_count: u64,
}

/// The registration total of a poll: the registrar's, or when it reports
/// none, one more than last time (120 on the first poll).
pub open spec fn poll_total(previous: Option<PreviousCounters>, fetched_total: u64) -> int {
    if fetched_total != 0 {
        fetched_total as int
    } else {
        match previous {
            Some(p) => p.total_registrations + 1,
            None => 120,
        }
    }
}

/// The treasury balance of a poll: the registrar's, or when it reports none,
/// five more than last time (2500 on the first poll).
pub open spec fn poll_balance(previous: Option<PreviousCounters>, fetched_balance: u64) -> int {
    if fetched_balance != 0 {
        fetched_balance as int
    } else {
        match previous {
            Some(p) => p.contract_balance_xlm + 5,
            None => 2500,
        }
    }
}

/// Registrations in the last hour: growth of the total since last time, at
/// least one (one on the first poll).
pub open spec fn poll_volume_hour(previous: Option<PreviousCounters>, total: int) -> int {
    match previous {
        Some(p) => if total - p.total_registrations < 1 {
            1
        } else {
            total - p.total_registrations
        },
        None => 1,
    }
}

/// Registrations in the last day: last day's count plus this hour's, at
/// least ten (ten on the first poll).
pub open spec fn poll_volume_day(previous: Option<PreviousCounters>, hour: int) -> int {
    match previous {
        Some(p) => if p.registration_volume_day + hour < 10 {
            10
        } else {
            p.registration_volume_day + hour
        },
        None => 10,
    }
}

/// Whether every counter of a poll fits in 64 bits (storage counts ten
/// entries per registration over a base of 500).
pub open spec fn counters_fit(previous: Option<PreviousCounters>, fetched_total: u64, fetched_balance: u64) -> bool {
    let total = poll_total(previous, fetched_total);
    &&& total <= u64::MAX
    &&& poll_balance(previous, fetched_balance) <= u64::MAX
    &&& poll_volume_day(previous, poll_volume_hour(previous, total)) <= u64::MAX
    &&& total * 10 + 500 <= u64::MAX
}

/// The counters of a poll from those of the previous snapshot and what the
/// registrar reported.
pub fn poll_counters(
    previous: Option<PreviousCounters>,
    fetched_total: u64,
    fetched_balance: u64,
) -> (c: PollCounters)
    requires
        counters_fit(previous, fetched_total, fetched_balance),
    ensures
        c.total_registrations == poll_total(previous, fetched_total),
        c.contract_balance_xlm == poll_balance(previous, fetched_balance),
        c.registration_volume_hour == poll_volume_hour(previous, c.total_registrations as int),
        c.registration_volume_day == poll_volume_day(
            previous,
            c.registration_volume_hour as int,
        ),
        c.storage_entry_count == c.total_registrations * 10 + 500,
{
    let total = if fetched_total != 0 {
        fetched_total
    } else {
        match previous {
            Some(p) => p.total_registrations + 1,
            None => 120,
        }
    };
    let balance = if fetched_balance != 0 {
        fetched_balance
    } else {
        match previous {
            Some(p) => p.contract_balance_xlm + 5,
            None => 2500,
        }
    };
    let (hour, day) = match previous {
        Some(p) => {
            let grown = total.saturating_sub(p.total_registrations);
            let hour = if grown < 1 {
                1
            } else {
                grown
            };
            let day_sum = p.registration_volume_day + hour;
            (hour, if day_sum < 10 {
                10
            } else {
                day_sum
            })
        },
        None => (1, 10),
    };
    PollCounters {
        total_registrations: total,
        contract_balance_xlm: balance,
        registration_volume_hour: hour,
        registration_volume_day: day,
        storage_entry_count: total * 10 + 500,
    }
}

/// The counters of a poll, or `None` when one of them would not fit in 64
/// bits.
pub fn checked_poll_counters(
    previous: Option<PreviousCounters>,
    fetched_total: u64,
    fetched_balance: u64,
) -> (r: Option<PollCounters>)
    ensures
        r is Some <==> counters_fit(previous, fetched_total, fetched_balance),
        r matches Some(c) ==> {
            &&& c.total_registrations == poll_total(previous, fetched_total)
            &&& c.contract_balance_xlm == poll_balance(previous, fetched_balance)
            &&& c.registration_volume_hour == poll_volume_hour(
                previous,
                c.total_registrations as int,
            )
            &&& c.registration_volume_day == poll_volume_day(
                previous,
                c.registration_volume_hour as int,
            )
            &&& c.storage_entry_count == c.total_registrations * 10 + 500
        },
{
    let total: u64 = if fetched_total != 0 {
        fetched_total
    } else {
        match previous {
            Some(p) => {
                if p.total_registrations == u64::MAX {
                    return None;
                }
                p.total_registrations + 1
            },
            None => 120,
        }
    };
    if fetched_balance == 0 {
        if let Some(p) = previous {
            if p.contract_balance_xlm > u64::MAX - 5 {
                return None;
            }
        }
    }
    if total > (u64::MAX - 500) / 10 {
        return None;
    }
    if let Some(p) = previous {
        let grown = total.saturating_sub(p.total_registrations);
        let hour: u64 = if grown < 1 {
            1
        } else {
            grown
        };
        if p.registration_volume_day > u64::MAX - hour {
            return None;
        }
    }
    Some(poll_counters(previous, fetched_total, fetched_balance))
}

/// Active auctions a poll reports: three when an auction contract is
/// watched, none otherwise.
pub fn auction_activity(config: &ContractConfig) -> (n: u64)
    ensures
        n == if config.auction_contract_id is Some {
            3u64
        } else {
            0u64
        },
{
    if config.auction_contract_id.is_some() {
        3
    } else {
        0
    }
}

} // verus!
