use xlm_ns::monitor::{
    auction_activity, baseline_window, checked_poll_counters, poll_counters, rpc_failure_alert, zero_registration_alert,
    ContractConfig, PreviousCounters,
};

#[test]
fn baseline_averages_the_latest_ten_volumes() {
    assert_eq!(baseline_window(&vec![5, 6]), None);
    assert_eq!(baseline_window(&vec![1, 2, 3]), Some((6, 3)));
    let volumes: Vec<u64> = (1..=12).collect();
    assert_eq!(baseline_window(&volumes), Some(((3..=12).sum::<u64>() as u128, 10)));
    assert_eq!(baseline_window(&vec![u64::MAX; 10]), Some((u64::MAX as u128 * 10, 10)));
}

#[test]
fn first_poll_uses_defaults() {
    let c = poll_counters(None, 0, 0);
    assert_eq!(c.total_registrations, 120);
    assert_eq!(c.contract_balance_xlm, 2500);
    assert_eq!(c.registration_volume_hour, 1);
    assert_eq!(c.registration_volume_day, 10);
    assert_eq!(c.storage_entry_count, 1700);
}

#[test]
fn later_polls_grow_from_the_previous_snapshot() {
    let prev = PreviousCounters { total_registrations: 100, registration_volume_day: 15, contract_balance_xlm: 40 };
    let c = poll_counters(Some(prev), 0, 0);
    assert_eq!(c.total_registrations, 101);
    assert_eq!(c.contract_balance_xlm, 45);
    assert_eq!(c.registration_volume_hour, 1);
    assert_eq!(c.registration_volume_day, 16);
    let c = poll_counters(Some(prev), 130, 7);
    assert_eq!(c.registration_volume_hour, 30);
    assert_eq!(c.registration_volume_day, 45);
    assert_eq!(c.contract_balance_xlm, 7);
}

#[test]
fn fixed_alerts_and_auction_activity() {
    let zero = zero_registration_alert();
    assert_eq!(zero.name, "Zero Registration Activity");
    assert_eq!(zero.severity, "WARNING");
    let rpc = rpc_failure_alert("refused");
    assert_eq!(rpc.description, "Failed to connect or poll from Soroban RPC: refused");
    assert_eq!(rpc.severity, "CRITICAL");
    let mut contracts = ContractConfig {
        registry_contract_id: None,
        registrar_contract_id: None,
        resolver_contract_id: None,
        auction_contract_id: Some("CDAD...AUCTION".into()),
    };
    assert_eq!(auction_activity(&contracts), 3);
    contracts.auction_contract_id = None;
    assert_eq!(auction_activity(&contracts), 0);
}

#[test]
fn checked_counters_refuse_overflow() {
    assert_eq!(checked_poll_counters(None, 0, 0), Some(poll_counters(None, 0, 0)));
    let prev = PreviousCounters { total_registrations: u64::MAX, registration_volume_day: 0, contract_balance_xlm: 0 };
    assert_eq!(checked_poll_counters(Some(prev), 0, 1), None);
    assert_eq!(checked_poll_counters(None, u64::MAX / 10, 1), None);
    let prev = PreviousCounters { total_registrations: 5, registration_volume_day: 0, contract_balance_xlm: u64::MAX };
    assert_eq!(checked_poll_counters(Some(prev), 10, 0), None);
    assert_eq!(checked_poll_counters(Some(prev), 10, 3).map(|c| c.registration_volume_hour), Some(5));
    let prev = PreviousCounters { total_registrations: 0, registration_volume_day: u64::MAX, contract_balance_xlm: 1 };
    assert_eq!(checked_poll_counters(Some(prev), 10, 0), None);
}
