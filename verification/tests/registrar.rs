use xlm_ns::constants::GRACE_PERIOD_SECONDS;
use xlm_ns::pricing::{expiry_from_now, price_for_label_length, within_grace_period};
use xlm_ns::registrar::{can_renew, RegistrarContract, RegistrarError, RegistrationStatus};

const REGISTRY: &str = "CREGISTRY";

fn registrar() -> RegistrarContract {
    let mut c = RegistrarContract::new();
    c.initialize(REGISTRY.to_string());
    c
}

#[test]
fn applies_tiered_pricing() {
    assert_eq!(price_for_label_length(3), 1_000_000_000);
    assert_eq!(price_for_label_length(5), 250_000_000);
    assert_eq!(price_for_label_length(12), 100_000_000);
}

#[test]
fn computes_expiry_and_grace_period() {
    let expiry = expiry_from_now(100, 1);
    assert!(within_grace_period(expiry, expiry + 10));
    assert!(can_renew(expiry, expiry + 10).unwrap());
}

#[test]
fn stores_registrations_in_contract_storage() {
    let mut client = registrar();
    let owner = "GOWNER";
    let quote = RegistrarContract::quote_registration("timmy", 1, 100).unwrap();
    client.register("timmy", owner, 1, quote.fee_stroops, 100).unwrap();
    assert!(!client.is_available("timmy", 101));

    client.renew("timmy.xlm", owner, 1, quote.fee_stroops, 200).unwrap();

    let record = client.registration("timmy.xlm").unwrap();
    assert_eq!(record.owner, owner);
    assert!(client.treasury_balance() >= quote.fee_stroops * 2);
}

#[test]
fn can_renew_active_registration_before_expiry() {
    let result = can_renew(2000, 1000);
    assert!(result.is_ok());
    assert!(result.unwrap());
}

#[test]
fn can_renew_at_exact_expiry() {
    let result = can_renew(2000, 2000);
    assert!(result.is_ok());
    assert!(result.unwrap());
}

#[test]
fn can_renew_during_grace_period() {
    let expiry = 1000;
    let _grace_end = expiry + GRACE_PERIOD_SECONDS;
    let now = expiry + 100;
    let result = can_renew(expiry, now);
    assert!(result.is_ok());
    assert!(result.unwrap());
}

#[test]
fn can_renew_at_grace_period_boundary_minus_one() {
    let expiry = 1000;
    let grace_end = expiry + GRACE_PERIOD_SECONDS;
    let result = can_renew(expiry, grace_end - 1);
    assert!(result.is_ok());
    assert!(result.unwrap());
}

#[test]
fn can_renew_at_exact_grace_period_end() {
    let expiry = 1000;
    let grace_end = expiry + GRACE_PERIOD_SECONDS;
    let result = can_renew(expiry, grace_end);
    assert!(result.is_ok());
    assert!(result.unwrap());
}

#[test]
fn cannot_renew_claimable_registration_after_grace_period() {
    let expiry = 1000;
    let grace_end = expiry + GRACE_PERIOD_SECONDS;
    let result = can_renew(expiry, grace_end + 1);
    assert!(result.is_err());
    assert_eq!(result.unwrap_err(), RegistrarError::RegistrationClaimable);
}

#[test]
fn cannot_renew_claimable_registration_far_future() {
    let expiry = 1000;
    let grace_end = expiry + GRACE_PERIOD_SECONDS;
    let result = can_renew(expiry, grace_end + 1000000);
    assert!(result.is_err());
    assert_eq!(result.unwrap_err(), RegistrarError::RegistrationClaimable);
}

#[test]
fn renew_fails_for_claimable_registration() {
    let mut client = registrar();
    let quote = RegistrarContract::quote_registration("test", 1, 100).unwrap();
    client.register("test", "GOWNER", 1, quote.fee_stroops, 100).unwrap();
    let after_grace = quote.grace_period_ends_at + 1;
    let result = client.renew("test.xlm", "GOWNER", 1, quote.fee_stroops, after_grace);
    assert!(matches!(result, Err(RegistrarError::RegistrationClaimable)));
}

#[test]
fn renew_succeeds_at_grace_period_boundary() {
    let mut client = registrar();
    let quote = RegistrarContract::quote_registration("boundary", 1, 100).unwrap();
    client.register("boundary", "GOWNER", 1, quote.fee_stroops, 100).unwrap();
    client
        .renew("boundary.xlm", "GOWNER", 1, quote.fee_stroops, quote.grace_period_ends_at)
        .unwrap();
    let record = client.registration("boundary.xlm").unwrap();
    assert!(record.expires_at > quote.expiry_unix);
}

#[test]
fn declares_that_admin_recovery_is_not_supported() {
    let client = RegistrarContract::new();
    assert!(!client.supports_admin_recovery());
}

#[test]
fn quote_includes_pricing_breakdown() {
    let quote = RegistrarContract::quote_registration("alice", 2, 100).unwrap();
    assert_eq!(quote.pricing.annual_fee_stroops, 250_000_000);
    assert_eq!(quote.pricing.duration_years, 2);
    assert_eq!(quote.pricing.premium_stroops, 0);
    assert_eq!(quote.fee_stroops, 500_000_000);

    let short_quote = RegistrarContract::quote_registration("foo", 1, 100).unwrap();
    assert_eq!(short_quote.pricing.annual_fee_stroops, 1_000_000_000);
    assert_eq!(short_quote.pricing.duration_years, 1);
    assert_eq!(short_quote.fee_stroops, 1_000_000_000);

    let long_quote = RegistrarContract::quote_registration("longerlabel", 3, 100).unwrap();
    assert_eq!(long_quote.pricing.annual_fee_stroops, 100_000_000);
    assert_eq!(long_quote.pricing.duration_years, 3);
    assert_eq!(long_quote.fee_stroops, 300_000_000);
}

#[test]
fn fee_metrics_track_operations() {
    let mut client = registrar();
    let quote1 = RegistrarContract::quote_registration("alpha", 1, 100).unwrap();
    let quote2 = RegistrarContract::quote_registration("delta", 1, 100).unwrap();
    client.register("alpha", "GOWNER1", 1, quote1.fee_stroops, 100).unwrap();
    client.register("delta", "GOWNER2", 1, quote2.fee_stroops, 100).unwrap();
    client.renew("alpha.xlm", "GOWNER1", 1, quote1.fee_stroops, 200).unwrap();

    let metrics = client.fee_metrics();
    assert_eq!(metrics.total_registrations, 2);
    assert_eq!(metrics.total_renewals, 1);
    assert_eq!(
        metrics.treasury_balance,
        quote1.fee_stroops + quote2.fee_stroops + quote1.fee_stroops
    );
    assert_eq!(metrics.treasury_balance, client.treasury_balance());
}

#[test]
fn status_is_unavailable_for_unknown_name() {
    let client = registrar();
    assert_eq!(client.registration_status("ghost", 1000), RegistrationStatus::Unavailable);
}

#[test]
fn status_is_reserved_for_reserved_label() {
    let mut client = registrar();
    client.reserve_label("admin").unwrap();
    assert_eq!(client.registration_status("admin", 1000), RegistrationStatus::Reserved);
}

#[test]
fn status_is_active_during_registration_period() {
    let mut client = registrar();
    let quote = RegistrarContract::quote_registration("alive", 1, 100).unwrap();
    client.register("alive", "GOWNER", 1, quote.fee_stroops, 100).unwrap();
    assert_eq!(
        client.registration_status("alive", quote.expiry_unix - 1),
        RegistrationStatus::Active
    );
}

#[test]
fn status_is_grace_period_after_expiry() {
    let mut client = registrar();
    let quote = RegistrarContract::quote_registration("gracing", 1, 100).unwrap();
    client.register("gracing", "GOWNER", 1, quote.fee_stroops, 100).unwrap();
    assert_eq!(
        client.registration_status("gracing", quote.expiry_unix + 1),
        RegistrationStatus::GracePeriod
    );
}

#[test]
fn status_is_claimable_after_grace_period() {
    let mut client = registrar();
    let quote = RegistrarContract::quote_registration("expired", 1, 100).unwrap();
    client.register("expired", "GOWNER", 1, quote.fee_stroops, 100).unwrap();
    assert_eq!(
        client.registration_status("expired", quote.grace_period_ends_at + 1),
        RegistrationStatus::Claimable
    );
}

#[test]
fn treasury_accumulates_exact_fees_across_registrations() {
    let mut client = registrar();
    let q1 = RegistrarContract::quote_registration("pay1", 1, 100).unwrap();
    let q2 = RegistrarContract::quote_registration("pay2", 2, 100).unwrap();
    client.register("pay1", "GOWNER1", 1, q1.fee_stroops, 100).unwrap();
    client.register("pay2", "GOWNER2", 2, q2.fee_stroops, 100).unwrap();
    let expected = q1.fee_stroops + q2.fee_stroops;
    assert_eq!(client.treasury_balance(), expected);
    let report = client.accounting_report();
    assert_eq!(report.treasury_balance, expected);
    assert_eq!(report.total_registrations, 2);
    assert_eq!(report.total_renewals, 0);
}

#[test]
fn treasury_accumulates_overpayment_stroops() {
    let mut client = registrar();
    let quote = RegistrarContract::quote_registration("over", 1, 100).unwrap();
    let overpay = quote.fee_stroops + 9_999;
    client.register("over", "GOWNER", 1, overpay, 100).unwrap();
    assert_eq!(client.treasury_balance(), overpay);
    assert_eq!(client.accounting_report().treasury_balance, overpay);
}

#[test]
fn registration_fails_on_insufficient_payment() {
    let mut client = registrar();
    let quote = RegistrarContract::quote_registration("cheap", 1, 100).unwrap();
    let underpay = quote.fee_stroops - 1;
    let result = client.register("cheap", "GOWNER", 1, underpay, 100);
    assert!(matches!(result, Err(RegistrarError::InsufficientFee)));
    assert_eq!(client.treasury_balance(), 0);
    assert_eq!(client.accounting_report().total_registrations, 0);
}

#[test]
fn renewal_count_and_treasury_update_correctly() {
    let mut client = registrar();
    let q = RegistrarContract::quote_registration("renew", 1, 100).unwrap();
    client.register("renew", "GOWNER", 1, q.fee_stroops, 100).unwrap();
    client.renew("renew.xlm", "GOWNER", 1, q.fee_stroops, 200).unwrap();
    client.renew("renew.xlm", "GOWNER", 1, q.fee_stroops, 300).unwrap();
    let report = client.accounting_report();
    assert_eq!(report.total_registrations, 1);
    assert_eq!(report.total_renewals, 2);
    assert_eq!(report.treasury_balance, q.fee_stroops * 3);
    assert_eq!(report.treasury_balance, client.treasury_balance());
}

#[test]
fn accounting_report_matches_fee_metrics() {
    let mut client = registrar();
    let q = RegistrarContract::quote_registration("match", 1, 100).unwrap();
    client.register("match", "GOWNER", 1, q.fee_stroops, 100).unwrap();
    let metrics = client.fee_metrics();
    let report = client.accounting_report();
    assert_eq!(metrics.treasury_balance, report.treasury_balance);
    assert_eq!(metrics.total_registrations, report.total_registrations);
    assert_eq!(metrics.total_renewals, report.total_renewals);
}

#[test]
fn registration_returns_the_registry_call() {
    let mut client = registrar();
    let q = RegistrarContract::quote_registration("timmy", 2, 1_000).unwrap();
    let call = client.register("timmy", "GOWNER", 2, q.fee_stroops, 1_000).unwrap();
    assert_eq!(call.name, "timmy.xlm");
    assert_eq!(call.owner, "GOWNER");
    assert_eq!(call.registered_at, 1_000);
    assert_eq!(call.expires_at, 1_000 + 2 * 31_536_000);
    assert_eq!(call.grace_period_ends_at, call.expires_at + GRACE_PERIOD_SECONDS);
}

#[test]
fn registration_errors_cover_every_rule() {
    let mut uninitialised = RegistrarContract::new();
    let q = RegistrarContract::quote_registration("timmy", 1, 100).unwrap();
    assert!(matches!(
        uninitialised.register("timmy", "GOWNER", 1, q.fee_stroops, 100),
        Err(RegistrarError::NotInitialized)
    ));

    let mut client = registrar();
    assert!(matches!(client.register("ab", "GOWNER", 1, u64::MAX, 100), Err(RegistrarError::Validation)));
    assert!(matches!(client.register("timmy", "GOWNER", 0, u64::MAX, 100), Err(RegistrarError::Validation)));
    client.reserve_label("admin").unwrap();
    assert!(matches!(client.register("admin", "GOWNER", 1, u64::MAX, 100), Err(RegistrarError::Reserved)));
    client.register("timmy", "GOWNER", 1, q.fee_stroops, 100).unwrap();
    assert!(matches!(
        client.register("timmy", "GOTHER", 1, q.fee_stroops, 200),
        Err(RegistrarError::AlreadyRegistered)
    ));
    // Once the grace window has passed, anyone may register the name.
    let later = q.grace_period_ends_at + 1;
    let q2 = RegistrarContract::quote_registration("timmy", 1, later).unwrap();
    client.register("timmy", "GOTHER", 1, q2.fee_stroops, later).unwrap();
    assert_eq!(client.registration("timmy.xlm").unwrap().owner, "GOTHER");
}

#[test]
fn renewal_errors_cover_every_rule() {
    let mut client = registrar();
    let q = RegistrarContract::quote_registration("timmy", 1, 100).unwrap();
    client.register("timmy", "GOWNER", 1, q.fee_stroops, 100).unwrap();
    assert!(matches!(client.renew("timmy", "GOWNER", 1, q.fee_stroops, 200), Err(RegistrarError::Validation)));
    assert!(matches!(client.renew("other.xlm", "GOWNER", 1, q.fee_stroops, 200), Err(RegistrarError::NotFound)));
    assert!(matches!(client.renew("timmy.xlm", "GOTHER", 1, q.fee_stroops, 200), Err(RegistrarError::Unauthorized)));
    assert!(matches!(client.renew("timmy.xlm", "GOWNER", 1, q.fee_stroops - 1, 200), Err(RegistrarError::InsufficientFee)));
    assert_eq!(client.fee_metrics().total_renewals, 0);
}

#[test]
fn renewal_extends_from_later_of_expiry_and_now() {
    let mut client = registrar();
    let q = RegistrarContract::quote_registration("timmy", 1, 100).unwrap();
    client.register("timmy", "GOWNER", 1, q.fee_stroops, 100).unwrap();
    // Renewing while active extends from the current expiry.
    let call = client.renew("timmy.xlm", "GOWNER", 1, q.fee_stroops, 200).unwrap();
    assert_eq!(call.expires_at, q.expiry_unix + 31_536_000);
    // Renewing in the grace window extends from now.
    let now = call.expires_at + 10;
    let call2 = client.renew("timmy.xlm", "GOWNER", 1, q.fee_stroops, now).unwrap();
    assert_eq!(call2.expires_at, now + 31_536_000);
    let rec = client.registration("timmy.xlm").unwrap();
    assert_eq!(rec.registered_at, 100);
    assert_eq!(rec.renewed_at, now);
    assert_eq!(rec.fee_paid, q.fee_stroops * 3);
}

#[test]
fn reserved_manifest_counts_new_valid_labels() {
    let mut client = registrar();
    client.reserve_label("admin").unwrap();
    let labels = vec!["admin".to_string(), "root".to_string(), "x".to_string(), "root".to_string(), "ops".to_string()];
    assert_eq!(client.load_reserved_manifest(&labels), Ok(2));
    assert_eq!(client.registration_status("root", 0), RegistrationStatus::Reserved);
    assert_eq!(client.registration_status("ops", 0), RegistrationStatus::Reserved);
    assert_eq!(client.reserve_label("-bad"), Err(RegistrarError::Validation));
}

#[test]
fn error_codes_match_the_contract() {
    assert_eq!(RegistrarError::InsufficientFee.code(), 1);
    assert_eq!(RegistrarError::RegistrationClaimable.code(), 8);
    assert_eq!(RegistrarError::NotInitialized.code(), 9);
}

#[test]
fn saturating_expiry_never_wraps() {
    assert_eq!(expiry_from_now(u64::MAX - 5, 1), u64::MAX);
    assert!(!within_grace_period(100, 100));
    assert!(within_grace_period(100, 101));
    assert!(within_grace_period(100, 100 + GRACE_PERIOD_SECONDS));
    assert!(!within_grace_period(100, 101 + GRACE_PERIOD_SECONDS));
}

#[test]
fn owner_renews_within_grace_window() {
    let mut client = registrar();
    let owner = "GOWNER";
    let quote = RegistrarContract::quote_registration("grace", 1, 100).unwrap();
    client.register("grace", owner, 1, quote.fee_stroops, 100).unwrap();
    let before = client.registration("grace.xlm").unwrap();
    let now = before.expires_at + GRACE_PERIOD_SECONDS;
    let payment = price_for_label_length(5) * 2;
    let treasury = client.treasury_balance();
    let renewals = client.fee_metrics().total_renewals;
    client.renew("grace.xlm", owner, 2, payment, now).unwrap();
    let after = client.registration("grace.xlm").unwrap();
    assert_eq!(after.expires_at, expiry_from_now(now, 2));
    assert_eq!(after.grace_period_ends_at, after.expires_at + GRACE_PERIOD_SECONDS);
    assert_eq!(after.renewed_at, now);
    assert_eq!(after.fee_paid, before.fee_paid + payment);
    assert_eq!(after.owner, owner);
    assert_eq!(after.registered_at, before.registered_at);
    assert_eq!(client.treasury_balance(), treasury + payment);
    assert_eq!(client.fee_metrics().total_renewals, renewals + 1);
}
