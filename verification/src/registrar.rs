//! The registrar: quotes, registrations, renewals, reserved labels and the
//! treasury accounts. Storage is held in the contract value itself; the
//! calls the registrar makes on the registry are returned to the host.

use vstd::prelude::*;
use vstd::string::*;

use crate::constants::{GRACE_PERIOD_SECONDS, YEAR_SECONDS};
use crate::pricing::{
    expiry_after, expiry_from_now, grace_end, law_price_tiers, price_for_label_length, price_of, sat_mul,
    saturating_mul,
};
use crate::str_map::StrMap;
use crate::text::str_eq;
use crate::validation::{
    byte_len, find_from, fqdn_check, is_label_char, label_check, lemma_find_from, parse_fqdn,
    validate_label, validate_registration_years, years_check, CommonError, Tld,
};

verus! {

/// Admin recovery (forced transfer, burn or reassignment) is not offered.
pub const ADMIN_RECOVERY_SUPPORTED: bool = false;

#[derive(Clone, Copy, Debug, PartialEq, Eq, Structural)]
pub struct PricingBreakdown {
    pub annual_fee_stroops: u64,
    pub duration_years: u64,
    pub premium_stroops: u64,
}

#[derive(Clone, Copy, Debug, PartialEq, Eq, Structural)]
pub struct RegistrationQuote {
    pub fee_stroops: u64,
    pub expiry_unix: u64,
    pub grace_period_ends_at: u64,
    pub pricing: PricingBreakdown,
}

#[derive(Clone, Copy, Debug, PartialEq, Eq, Structural)]
pub struct RegistrarMetrics {
    pub treasury_balance: u64,
    pub total_registrations: u64,
    pub total_renewals: u64,
}

/// Lifecycle status of a label from the registrar's point of view.
#[derive(Clone, Copy, Debug, PartialEq, Eq, Structural)]
pub enum RegistrationStatus {
    /// Never registered, or no record exists.
    Unavailable,
    /// Registered and not yet expired.
    Active,
    /// Expired but within the grace window; only the owner may renew.
    GracePeriod,
    /// Past the grace window; anyone may register the name.
    Claimable,
    /// On the reserved-label list; it cannot be registered.
    Reserved,
}

#[derive(Clone, Copy, Debug, PartialEq, Eq, Structural)]
pub enum RegistrarError {
    InsufficientFee,
    NotFound,
    NotRenewable,
    AlreadyRegistered,
    Reserved,
    Unauthorized,
    Validation,
    RegistrationClaimable,
    NotInitialized,
}

impl RegistrarError {
    /// The numeric code the contract reports for this error.
    pub fn code(&self) -> (c: u32)
        ensures
            c == match *self {
                RegistrarError::InsufficientFee => 1u32,
                RegistrarError::NotFound => 2u32,
                RegistrarError::NotRenewable => 3u32,
                RegistrarError::AlreadyRegistered => 4u32,
                RegistrarError::Reserved => 5u32,
                RegistrarError::Unauthorized => 6u32,
                RegistrarError::Validation => 7u32,
                RegistrarError::RegistrationClaimable => 8u32,
                RegistrarError::NotInitialized => 9u32,
            },
    {
        match self {
            RegistrarError::InsufficientFee => 1,
            RegistrarError::NotFound => 2,
            RegistrarError::NotRenewable => 3,
            RegistrarError::AlreadyRegistered => 4,
            RegistrarError::Reserved => 5,
            RegistrarError::Unauthorized => 6,
            RegistrarError::Validation => 7,
            RegistrarError::RegistrationClaimable => 8,
            RegistrarError::NotInitialized => 9,
        }
    }
}

#[derive(Debug)]
pub struct RegistrationRecord {
    pub name: String,
    pub owner: String,
    pub registered_at: u64,
    pub expires_at: u64,
    pub grace_period_ends_at: u64,
    pub fee_paid: u64,
    pub renewed_at: u64,
}

pub ghost struct RecordView {
    pub name: Seq<char>,
    pub owner: Seq<char>,
    pub registered_at: u64,
    pub expires_at: u64,
    pub grace_period_ends_at: u64,
    pub fee_paid: u64,
    pub renewed_at: u64,
}

impl View for RegistrationRecord {
    type V = RecordView;

    open spec fn view(&self) -> RecordView {
        RecordView {
            name: self.name@,
            owner: self.owner@,
            registered_at: self.registered_at,
            expires_at: self.expires_at,
            grace_period_ends_at: self.grace_period_ends_at,
            fee_paid: self.fee_paid,
            renewed_at: self.renewed_at,
        }
    }
}

impl Clone for RegistrationRecord {
    fn clone(&self) -> (r: Self)
        ensures
            r@ == self@,
    {
        RegistrationRecord {
            name: self.name.clone(),
            owner: self.owner.clone(),
            registered_at: self.registered_at,
            expires_at: self.expires_at,
            grace_period_ends_at: self.grace_period_ends_at,
            fee_paid: self.fee_paid,
            renewed_at: self.renewed_at,
        }
    }
}

/// The registry call a successful registration asks the host to make.
#[derive(Debug)]
pub struct RegistryRegistration {
    pub name: String,
    pub owner: String,
    pub registered_at: u64,
    pub expires_at: u64,
    pub grace_period_ends_at: u64,
}

/// The registry call a successful renewal asks the host to make.
#[derive(Debug)]
pub struct RegistryRenewal {
    pub name: String,
    pub owner: String,
    pub expires_at: u64,
    pub grace_period_ends_at: u64,
    pub renewed_at: u64,
}

/// Abstract registrar storage.
pub ghost struct RegistrarState {
    pub registrations: Map<Seq<char>, RecordView>,
    pub reserved: Set<Seq<char>>,
    pub treasury: u64,
    pub total_registrations: u64,
    pub total_renewals: u64,
    pub registry: Option<Seq<char>>,
}

pub struct RegistrarContract {
    registrations: StrMap<RegistrationRecord>,
    reserved: StrMap<bool>,
    treasury: u64,
    registration_count: u64,
    renewal_count: u64,
    registry: Option<String>,
}

/// The `.xlm` name of a label.
pub open spec fn xlm_name(label: Seq<char>) -> Seq<char> {
    label + ".xlm"@
}

/// The quote the registrar gives for `label` over `years` from `now_unix`.
pub open spec fn quote_of(label: Seq<char>, years: u64, now_unix: u64) -> RegistrationQuote {
    let annual = price_of(byte_len(label));
    let expiry = expiry_after(now_unix, years);
    RegistrationQuote {
        fee_stroops: sat_mul(annual, years),
        expiry_unix: expiry,
        grace_period_ends_at: grace_end(expiry),
        pricing: PricingBreakdown {
            annual_fee_stroops: annual,
            duration_years: years,
            premium_stroops: 0,
        },
    }
}

/// Renewal is allowed up to and including the end of the grace window;
/// after it the registration is claimable by anyone.
pub open spec fn renew_verdict(expiry_unix: u64, now_unix: u64) -> Result<bool, RegistrarError> {
    if now_unix > grace_end(expiry_unix) {
        Err(RegistrarError::RegistrationClaimable)
    } else {
        Ok(true)
    }
}

/// Whether a registration with this expiry may still be renewed at `now_unix`.
pub fn can_renew(expiry_unix: u64, now_unix: u64) -> (r: Result<bool, RegistrarError>)
    ensures
        r == renew_verdict(expiry_unix, now_unix),
{
    let grace_period_end = expiry_unix.saturating_add(GRACE_PERIOD_SECONDS);
    if now_unix > grace_period_end {
        return Err(RegistrarError::RegistrationClaimable);
    }
    Ok(now_unix <= grace_period_end)
}

fn build_quote(label: &str, years: u64, now_unix: u64) -> (q: RegistrationQuote)
    ensures
        q == quote_of(label@, years, now_unix),
{
    let annual_fee = price_for_label_length(label.len());
    let expiry_unix = expiry_from_now(now_unix, years);
    RegistrationQuote {
        fee_stroops: saturating_mul(annual_fee, years),
        expiry_unix,
        grace_period_ends_at: expiry_unix.saturating_add(GRACE_PERIOD_SECONDS),
        pricing: PricingBreakdown {
            annual_fee_stroops: annual_fee,
            duration_years: years,
            premium_stroops: 0,
        },
    }
}

/// The `.xlm` name of a valid label.
pub fn build_xlm_name(label: &str) -> (r: Result<String, RegistrarError>)
    ensures
        label_check(label@) is Ok ==> (r matches Ok(n) && n@ == xlm_name(label@)),
        label_check(label@) is Err ==> r == Err::<String, RegistrarError>(
            RegistrarError::Validation,
        ),
{
    match validate_label(label) {
        Err(_) => Err(RegistrarError::Validation),
        Ok(()) => Ok(String::from_str(label).concat(".xlm")),
    }
}

/// The first rule a registration of `label` breaks, if any.
pub open spec fn register_error(
    s: RegistrarState,
    label: Seq<char>,
    years: u64,
    payment_stroops: u64,
    now_unix: u64,
) -> Option<RegistrarError> {
    let name = xlm_name(label);
    if label_check(label) is Err || years_check(years) is Err {
        Some(RegistrarError::Validation)
    } else if s.reserved.contains(label) {
        Some(RegistrarError::Reserved)
    } else if payment_stroops < quote_of(label, years, now_unix).fee_stroops {
        Some(RegistrarError::InsufficientFee)
    } else if s.registrations.contains_key(name) && now_unix
        <= s.registrations[name].grace_period_ends_at {
        Some(RegistrarError::AlreadyRegistered)
    } else if s.registry is None {
        Some(RegistrarError::NotInitialized)
    } else {
        None
    }
}

/// Storage after a successful registration.
pub open spec fn registered_state(
    s: RegistrarState,
    label: Seq<char>,
    owner: Seq<char>,
    years: u64,
    payment_stroops: u64,
    now_unix: u64,
) -> RegistrarState {
    let q = quote_of(label, years, now_unix);
    RegistrarState {
        registrations: s.registrations.insert(
            xlm_name(label),
            RecordView {
                name: xlm_name(label),
                owner,
                registered_at: now_unix,
                expires_at: q.expiry_unix,
                grace_period_ends_at: q.grace_period_ends_at,
                fee_paid: payment_stroops,
                renewed_at: now_unix,
            },
        ),
        treasury: s.treasury.saturating_add(payment_stroops),
        total_registrations: s.total_registrations.saturating_add(1),
        ..s
    }
}

/// The label inside a fully-qualified name.
pub open spec fn label_of(name: Seq<char>) -> Seq<char> {
    fqdn_check(name)->Ok_0.0
}

/// The first rule a renewal breaks, if any.
pub open spec fn renew_error(
    s: RegistrarState,
    name: Seq<char>,
    caller: Seq<char>,
    years: u64,
    payment_stroops: u64,
    now_unix: u64,
) -> Option<RegistrarError> {
    if fqdn_check(name) is Err || years_check(years) is Err {
        Some(RegistrarError::Validation)
    } else if !s.registrations.contains_key(name) {
        Some(RegistrarError::NotFound)
    } else if s.registrations[name].owner != caller {
        Some(RegistrarError::Unauthorized)
    } else if renew_verdict(s.registrations[name].expires_at, now_unix) is Err {
        Some(RegistrarError::RegistrationClaimable)
    } else if payment_stroops < sat_mul(price_of(byte_len(label_of(name))), years) {
        Some(RegistrarError::InsufficientFee)
    } else if s.registry is None {
        Some(RegistrarError::NotInitialized)
    } else {
        None
    }
}

/// The new expiry of a renewal: `years` after the later of the current
/// expiry and `now_unix`.
pub open spec fn renewed_expiry(expires_at: u64, years: u64, now_unix: u64) -> u64 {
    let base = if expires_at > now_unix {
        expires_at
    } else {
        now_unix
    };
    expiry_after(base, years)
}

/// Storage after a successful renewal.
pub open spec fn renewed_state(
    s: RegistrarState,
    name: Seq<char>,
    years: u64,
    payment_stroops: u64,
    now_unix: u64,
) -> RegistrarState {
    let r = s.registrations[name];
    let expires = renewed_expiry(r.expires_at, years, now_unix);
    RegistrarState {
        registrations: s.registrations.insert(
            name,
            RecordView {
                expires_at: expires,
                grace_period_ends_at: grace_end(expires),
                renewed_at: now_unix,
                fee_paid: r.fee_paid.saturating_add(payment_stroops),
                ..r
            },
        ),
        treasury: s.treasury.saturating_add(payment_stroops),
        total_renewals: s.total_renewals.saturating_add(1),
        ..s
    }
}

/// The lifecycle status of `label` in `s` at `now_unix`.
pub open spec fn status_of(s: RegistrarState, label: Seq<char>, now_unix: u64) -> RegistrationStatus {
    let name = xlm_name(label);
    if s.reserved.contains(label) {
        RegistrationStatus::Reserved
    } else if label_check(label) is Err || !s.registrations.contains_key(name) {
        RegistrationStatus::Unavailable
    } else if now_unix <= s.registrations[name].expires_at {
        RegistrationStatus::Active
    } else if now_unix <= s.registrations[name].grace_period_ends_at {
        RegistrationStatus::GracePeriod
    } else {
        RegistrationStatus::Claimable
    }
}

/// Whether `label` can be registered by anyone at `now_unix`.
pub open spec fn available(s: RegistrarState, label: Seq<char>, now_unix: u64) -> bool {
    let name = xlm_name(label);
    if label_check(label) is Err {
        false
    } else if s.registrations.contains_key(name) {
        now_unix > s.registrations[name].grace_period_ends_at
    } else {
        true
    }
}

/// Reserved labels and count after loading a manifest of labels in order:
/// each valid label not yet reserved is added and counted.
pub open spec fn manifest_fold(reserved: Set<Seq<char>>, labels: Seq<Seq<char>>) -> (Set<Seq<char>>, nat)
    decreases labels.len(),
{
    if labels.len() == 0 {
        (reserved, 0)
    } else {
        let prev = manifest_fold(reserved, labels.drop_last());
        let l = labels.last();
        if label_check(l) is Ok && !prev.0.contains(l) {
            (prev.0.insert(l), prev.1 + 1)
        } else {
            prev
        }
    }
}

pub proof fn lemma_manifest_count_bound(reserved: Set<Seq<char>>, labels: Seq<Seq<char>>)
    ensures
        manifest_fold(reserved, labels).1 <= labels.len(),
    decreases labels.len(),
{
    if labels.len() > 0 {
        lemma_manifest_count_bound(reserved, labels.drop_last());
    }
}

/// Every stored record sits under its own name, a well-formed `.xlm` name,
/// and its grace window ends one grace period after its expiry.
pub open spec fn records_consistent(m: Map<Seq<char>, RecordView>) -> bool {
    forall|k: Seq<char>|
        #[trigger] m.contains_key(k) ==> {
            &&& m[k].name == k
            &&& m[k].grace_period_ends_at == grace_end(m[k].expires_at)
            &&& fqdn_check(k) == Ok::<(Seq<char>, Tld), CommonError>((label_of(k), Tld::Xlm))
        }
}

/// The `.xlm` name of a valid label parses back into that label.
pub proof fn lemma_xlm_name_parses(label: Seq<char>)
    requires
        label_check(label) is Ok,
    ensures
        fqdn_check(xlm_name(label)) == Ok::<(Seq<char>, Tld), CommonError>((label, Tld::Xlm)),
        label_of(xlm_name(label)) == label,
{
    reveal_strlit(".xlm");
    reveal_strlit("xlm");
    let s = xlm_name(label);
    let n = label.len() as int;
    assert(s.len() == n + 4);
    assert(s[n] == '.');
    assert forall|k: int| 0 <= k < n implies s[k] != '.' by {
        assert(s[k] == label[k]);
        assert(is_label_char(label[k]));
    }
    lemma_find_from(s, '.', 0);
    assert(find_from(s, '.', 0) == n) by {
        if find_from(s, '.', 0) < n {
            let f = find_from(s, '.', 0);
            assert(s[f] == '.');
        }
        if find_from(s, '.', 0) > n {
            assert(s[n] != '.');
        }
    }
    let rest = s.subrange(n + 1, s.len() as int);
    assert(rest =~= "xlm"@);
    assert(s.subrange(0, n) =~= label);
    lemma_find_from(rest, '.', 0);
    assert(find_from(rest, '.', 0) == rest.len()) by {
        if find_from(rest, '.', 0) < rest.len() {
            let f = find_from(rest, '.', 0);
            assert(rest[f] == '.');
        }
    }
}

impl View for RegistrarContract {
    type V = RegistrarState;

    closed spec fn view(&self) -> RegistrarState {
        RegistrarState {
            registrations: self.registrations@,
            reserved: self.reserved@.dom(),
            treasury: self.treasury,
            total_registrations: self.registration_count,
            total_renewals: self.renewal_count,
            registry: match self.registry {
                Some(r) => Some(r@),
                None => None,
            },
        }
    }
}

impl RegistrarContract {
    /// The contract's internal invariant.
    pub closed spec fn wf(&self) -> bool {
        records_consistent(self.registrations@)
    }

    /// A registrar with empty storage and no registry configured.
    pub fn new() -> (c: Self)
        ensures
            c.wf(),
            c@.registrations == Map::<Seq<char>, RecordView>::empty(),
            c@.reserved == Set::<Seq<char>>::empty(),
            c@.treasury == 0,
            c@.total_registrations == 0,
            c@.total_renewals == 0,
            c@.registry is None,
    {
        let c = RegistrarContract {
            registrations: StrMap::new(),
            reserved: StrMap::new(),
            treasury: 0,
            registration_count: 0,
            renewal_count: 0,
            registry: None,
        };
        assert(c@.reserved =~= Set::<Seq<char>>::empty());
        c
    }

    /// Records the registry contract the registrar reports to.
    pub fn initialize(&mut self, registry: String)
        requires
            old(self).wf(),
        ensures
            final(self).wf(),
            final(self)@ == (RegistrarState { registry: Some(registry@), ..old(self)@ }),
    {
        self.registry = Some(registry);
    }

    /// Adds a valid label to the reserved list.
    pub fn reserve_label(&mut self, label: &str) -> (r: Result<(), RegistrarError>)
        requires
            old(self).wf(),
        ensures
            final(self).wf(),
            label_check(label@) is Err ==> r == Err::<(), RegistrarError>(
                RegistrarError::Validation,
            ) && final(self)@ == old(self)@,
            label_check(label@) is Ok ==> r is Ok && final(self)@ == (RegistrarState {
                reserved: old(self)@.reserved.insert(label@),
                ..old(self)@
            }),
    {
        if validate_label(label).is_err() {
            return Err(RegistrarError::Validation);
        }
        if !self.reserved.contains_key(label) {
            self.reserved.insert(String::from_str(label), true);
        }
        assert(self@.reserved =~= old(self)@.reserved.insert(label@));
        Ok(())
    }

    /// Reserves every valid label of `labels` in order and returns how many
    /// were newly added; invalid or already reserved labels are skipped.
    pub fn load_reserved_manifest(&mut self, labels: &Vec<String>) -> (r: Result<
        u32,
        RegistrarError,
    >)
        requires
            old(self).wf(),
            labels@.len() <= u32::MAX,
        ensures
            final(self).wf(),
            (r matches Ok(n) && n == manifest_fold(
                old(self)@.reserved,
                labels@.map_values(|l: String| l@),
            ).1),
            final(self)@ == (RegistrarState {
                reserved: manifest_fold(old(self)@.reserved, labels@.map_values(|l: String| l@)).0,
                ..old(self)@
            }),
    {
        let ghost all = labels@.map_values(|l: String| l@);
        let mut added: u32 = 0;
        let mut i: usize = 0;
        while i < labels.len()
            invariant
                self.wf(),
                i <= labels@.len(),
                labels@.len() <= u32::MAX,
                all == labels@.map_values(|l: String| l@),
                self@ == (RegistrarState {
                    reserved: manifest_fold(old(self)@.reserved, all.take(i as int)).0,
                    ..old(self)@
                }),
                added == manifest_fold(old(self)@.reserved, all.take(i as int)).1,
            decreases labels@.len() - i,
        {
            proof {
                lemma_manifest_count_bound(old(self)@.reserved, all.take(i as int));
                assert(all.take(i + 1 as int).drop_last() =~= all.take(i as int));
                assert(all.take(i + 1 as int).last() == labels@[i as int]@);
            }
            let label = labels[i].as_str();
            if validate_label(label).is_ok() && !self.reserved.contains_key(label) {
                self.reserved.insert(String::from_str(label), true);
                added = added + 1;
                assert(self@.reserved =~= manifest_fold(
                    old(self)@.reserved,
                    all.take(i + 1 as int),
                ).0);
            }
            i = i + 1;
        }
        assert(all.take(labels@.len() as int) =~= all);
        Ok(added)
    }

    /// The price, expiry and grace window of registering `label` for `years`.
    pub fn quote_registration(label: &str, years: u64, now_unix: u64) -> (r: Result<
        RegistrationQuote,
        RegistrarError,
    >)
        ensures
            label_check(label@) is Err || years_check(years) is Err ==> r == Err::<
                RegistrationQuote,
                RegistrarError,
            >(RegistrarError::Validation),
            label_check(label@) is Ok && years_check(years) is Ok ==> r == Ok::<
                RegistrationQuote,
                RegistrarError,
            >(quote_of(label@, years, now_unix)),
    {
        if validate_label(label).is_err() {
            return Err(RegistrarError::Validation);
        }
        if validate_registration_years(years).is_err() {
            return Err(RegistrarError::Validation);
        }
        Ok(build_quote(label, years, now_unix))
    }

    /// Registers `label.xlm` to `owner` for `years`, charging `payment_stroops`
    /// to the treasury. A name is free when it was never registered or its
    /// grace window has passed. On success the registry call to make is
    /// returned; on any error storage is left as it was.
    pub fn register(
        &mut self,
        label: &str,
        owner: &str,
        years: u64,
        payment_stroops: u64,
        now_unix: u64,
    ) -> (r: Result<RegistryRegistration, RegistrarError>)
        requires
            old(self).wf(),
        ensures
            final(self).wf(),
            match r {
                Err(e) => register_error(old(self)@, label@, years, payment_stroops, now_unix)
                    == Some(e) && final(self)@ == old(self)@,
                Ok(call) => {
                    let q = quote_of(label@, years, now_unix);
                    &&& register_error(old(self)@, label@, years, payment_stroops, now_unix)
                        is None
                    &&& final(self)@ == registered_state(
                        old(self)@,
                        label@,
                        owner@,
                        years,
                        payment_stroops,
                        now_unix,
                    )
                    &&& call.name@ == xlm_name(label@)
                    &&& call.owner@ == owner@
                    &&& call.registered_at == now_unix
                    &&& call.expires_at == q.expiry_unix
                    &&& call.grace_period_ends_at == q.grace_period_ends_at
                },
            },
    {
        if validate_label(label).is_err() {
            return Err(RegistrarError::Validation);
        }
        if validate_registration_years(years).is_err() {
            return Err(RegistrarError::Validation);
        }
        if self.reserved.contains_key(label) {
            return Err(RegistrarError::Reserved);
        }
        let quote = build_quote(label, years, now_unix);
        if payment_stroops < quote.fee_stroops {
            return Err(RegistrarError::InsufficientFee);
        }
        let name = match build_xlm_name(label) {
            Ok(n) => n,
            Err(e) => {
                return Err(e);
            },
        };
        match self.registrations.get(name.as_str()) {
            Some(existing) => {
                if now_unix <= existing.grace_period_ends_at {
                    return Err(RegistrarError::AlreadyRegistered);
                }
            },
            None => {},
        }
        if self.registry.is_none() {
            return Err(RegistrarError::NotInitialized);
        }
        let record = RegistrationRecord {
            name: name.clone(),
            owner: String::from_str(owner),
            registered_at: now_unix,
            expires_at: quote.expiry_unix,
            grace_period_ends_at: quote.grace_period_ends_at,
            fee_paid: payment_stroops,
            renewed_at: now_unix,
        };
        let call = RegistryRegistration {
            name: name.clone(),
            owner: String::from_str(owner),
            registered_at: now_unix,
            expires_at: quote.expiry_unix,
            grace_period_ends_at: quote.grace_period_ends_at,
        };
        proof {
            lemma_xlm_name_parses(label@);
        }
        self.registrations.insert(name, record);
        self.treasury = self.treasury.saturating_add(payment_stroops);
        self.registration_count = self.registration_count.saturating_add(1);
        assert(self@ == registered_state(
            old(self)@,
            label@,
            owner@,
            years,
            payment_stroops,
            now_unix,
        ));
        Ok(call)
    }

    /// Extends the registration of `name` by `years` for its owner, while it
    /// is active or in its grace window. On success the registry call to make
    /// is returned; on any error storage is left as it was.
    pub fn renew(
        &mut self,
        name: &str,
        caller: &str,
        years: u64,
        payment_stroops: u64,
        now_unix: u64,
    ) -> (r: Result<RegistryRenewal, RegistrarError>)
        requires
            old(self).wf(),
        ensures
            final(self).wf(),
            match r {
                Err(e) => renew_error(old(self)@, name@, caller@, years, payment_stroops, now_unix)
                    == Some(e) && final(self)@ == old(self)@,
                Ok(call) => {
                    let rec = final(self)@.registrations[name@];
                    &&& renew_error(old(self)@, name@, caller@, years, payment_stroops, now_unix)
                        is None
                    &&& final(self)@ == renewed_state(
                        old(self)@,
                        name@,
                        years,
                        payment_stroops,
                        now_unix,
                    )
                    &&& call.name@ == name@
                    &&& call.owner@ == caller@
                    &&& call.expires_at == rec.expires_at
                    &&& call.grace_period_ends_at == rec.grace_period_ends_at
                    &&& call.renewed_at == now_unix
                },
            },
            r is Ok ==> payment_stroops >= sat_mul(price_of(byte_len(label_of(name@))), years),
            r is Ok ==> old(self)@.registrations.contains_key(name@)
                && old(self)@.registrations[name@].owner == caller@,
    {
        let label = match parse_fqdn(name) {
            Ok((label, _tld)) => label,
            Err(_) => {
                return Err(RegistrarError::Validation);
            },
        };
        if validate_registration_years(years).is_err() {
            return Err(RegistrarError::Validation);
        }
        let existing = match self.registrations.get(name) {
            Some(rec) => rec.clone(),
            None => {
                return Err(RegistrarError::NotFound);
            },
        };
        if !str_eq(existing.owner.as_str(), caller) {
            return Err(RegistrarError::Unauthorized);
        }
        match can_renew(existing.expires_at, now_unix) {
            Ok(true) => {},
            Ok(false) => {
                return Err(RegistrarError::NotRenewable);
            },
            Err(e) => {
                return Err(e);
            },
        }
        let fee_due = saturating_mul(price_for_label_length(label.as_str().len()), years);
        if payment_stroops < fee_due {
            return Err(RegistrarError::InsufficientFee);
        }
        if self.registry.is_none() {
            return Err(RegistrarError::NotInitialized);
        }
        let base_time = if existing.expires_at > now_unix {
            existing.expires_at
        } else {
            now_unix
        };
        let expires_at = expiry_from_now(base_time, years);
        let grace_period_ends_at = expires_at.saturating_add(GRACE_PERIOD_SECONDS);
        let record = RegistrationRecord {
            name: existing.name,
            owner: existing.owner,
            registered_at: existing.registered_at,
            expires_at,
            grace_period_ends_at,
            fee_paid: existing.fee_paid.saturating_add(payment_stroops),
            renewed_at: now_unix,
        };
        self.registrations.insert(String::from_str(name), record);
        self.treasury = self.treasury.saturating_add(payment_stroops);
        self.renewal_count = self.renewal_count.saturating_add(1);
        assert(self@ == renewed_state(old(self)@, name@, years, payment_stroops, now_unix));
        Ok(
            RegistryRenewal {
                name: String::from_str(name),
                owner: String::from_str(caller),
                expires_at,
                grace_period_ends_at,
                renewed_at: now_unix,
            },
        )
    }

    /// The stored registration of `name`, if any.
    pub fn registration(&self, name: &str) -> (r: Option<RegistrationRecord>)
        requires
            self.wf(),
        ensures
            r is Some <==> self@.registrations.contains_key(name@),
            r matches Some(rec) ==> rec@ == self@.registrations[name@],
    {
        match self.registrations.get(name) {
            Some(rec) => Some(rec.clone()),
            None => None,
        }
    }

    /// Whether `label` can be registered at `now_unix`.
    pub fn is_available(&self, label: &str, now_unix: u64) -> (r: bool)
        requires
            self.wf(),
        ensures
            r == available(self@, label@, now_unix),
    {
        let name = match build_xlm_name(label) {
            Ok(name) => name,
            Err(_) => {
                return false;
            },
        };
        match self.registrations.get(name.as_str()) {
            Some(record) => now_unix > record.grace_period_ends_at,
            None => true,
        }
    }

    /// Stroops received in total, overpayments included.
    pub fn treasury_balance(&self) -> (r: u64)
        ensures
            r == self@.treasury,
    {
        self.treasury
    }

    pub fn fee_metrics(&self) -> (m: RegistrarMetrics)
        ensures
            m == (RegistrarMetrics {
                treasury_balance: self@.treasury,
                total_registrations: self@.total_registrations,
                total_renewals: self@.total_renewals,
            }),
    {
        RegistrarMetrics {
            treasury_balance: self.treasury,
            total_registrations: self.registration_count,
            total_renewals: self.renewal_count,
        }
    }

    pub fn supports_admin_recovery(&self) -> (r: bool)
        ensures
            r == false,
    {
        ADMIN_RECOVERY_SUPPORTED
    }

    /// The lifecycle status of `label` at `now_unix`.
    pub fn registration_status(&self, label: &str, now_unix: u64) -> (r: RegistrationStatus)
        requires
            self.wf(),
        ensures
            r == status_of(self@, label@, now_unix),
    {
        if self.reserved.contains_key(label) {
            return RegistrationStatus::Reserved;
        }
        let name = match build_xlm_name(label) {
            Ok(n) => n,
            Err(_) => {
                return RegistrationStatus::Unavailable;
            },
        };
        let record = match self.registrations.get(name.as_str()) {
            Some(r) => r,
            None => {
                return RegistrationStatus::Unavailable;
            },
        };
        if now_unix <= record.expires_at {
            RegistrationStatus::Active
        } else if now_unix <= record.grace_period_ends_at {
            RegistrationStatus::GracePeriod
        } else {
            RegistrationStatus::Claimable
        }
    }

    /// Aggregate accounts for reconciliation; reads storage only.
    pub fn accounting_report(&self) -> (m: RegistrarMetrics)
        ensures
            m == (RegistrarMetrics {
                treasury_balance: self@.treasury,
                total_registrations: self@.total_registrations,
                total_renewals: self@.total_renewals,
            }),
    {
        RegistrarMetrics {
            treasury_balance: self.treasury,
            total_registrations: self.registration_count,
            total_renewals: self.renewal_count,
        }
    }
}


/// A registration goes through exactly when the label and period are valid,
/// the label is not reserved, the payment covers the quote, the name is free
/// (never registered, or past its grace window) and a registry is configured.
pub proof fn law_register_succeeds_iff(
    s: RegistrarState,
    label: Seq<char>,
    years: u64,
    payment_stroops: u64,
    now_unix: u64,
)
    ensures
        register_error(s, label, years, payment_stroops, now_unix) is None <==> {
            &&& label_check(label) is Ok
            &&& years_check(years) is Ok
            &&& !s.reserved.contains(label)
            &&& payment_stroops >= quote_of(label, years, now_unix).fee_stroops
            &&& available(s, label, now_unix)
            &&& s.registry is Some
        },
{
}

/// A quote charges the label's yearly tier price once per year: 1 000 000 000
/// stroops a year for labels of at most three bytes, 250 000 000 for four to
/// six, 100 000 000 from seven on (saturating), and expires that many years
/// from now with the grace window one grace period later.
pub proof fn law_quote_prices(label: Seq<char>, years: u64, now_unix: u64)
    ensures
        ({
            let q = quote_of(label, years, now_unix);
            let n = byte_len(label);
            &&& n <= 3 ==> q.pricing.annual_fee_stroops == 1_000_000_000
            &&& 4 <= n <= 6 ==> q.pricing.annual_fee_stroops == 250_000_000
            &&& n >= 7 ==> q.pricing.annual_fee_stroops == 100_000_000
            &&& q.fee_stroops == sat_mul(q.pricing.annual_fee_stroops, years)
            &&& q.pricing.duration_years == years
            &&& q.pricing.premium_stroops == 0
            &&& q.expiry_unix == expiry_after(now_unix, years)
            &&& q.grace_period_ends_at == grace_end(q.expiry_unix)
        }),
{
    law_price_tiers(byte_len(label), byte_len(label));
}

/// On consistent storage a renewal goes through exactly when the name is
/// stored, the caller is its owner, its grace window has not closed, the
/// period is valid, the payment covers the label's yearly price for every
/// year renewed, and a registry is configured.
pub proof fn law_renew_succeeds_iff(
    s: RegistrarState,
    name: Seq<char>,
    caller: Seq<char>,
    years: u64,
    payment_stroops: u64,
    now_unix: u64,
)
    requires
        records_consistent(s.registrations),
    ensures
        renew_error(s, name, caller, years, payment_stroops, now_unix) is None <==> {
            &&& s.registrations.contains_key(name)
            &&& s.registrations[name].owner == caller
            &&& now_unix <= grace_end(s.registrations[name].expires_at)
            &&& years_check(years) is Ok
            &&& payment_stroops >= sat_mul(price_of(byte_len(label_of(name))), years)
            &&& s.registry is Some
        },
{
    if s.registrations.contains_key(name) {
        assert(fqdn_check(name) is Ok);
    }
}

/// A name just registered is active, held by its registrant, no longer open
/// to anyone else, and the stored records stay consistent.
pub proof fn law_registered_name_is_active(
    s: RegistrarState,
    label: Seq<char>,
    owner: Seq<char>,
    years: u64,
    payment_stroops: u64,
    now_unix: u64,
)
    requires
        register_error(s, label, years, payment_stroops, now_unix) is None,
    ensures
        ({
            let t = registered_state(s, label, owner, years, payment_stroops, now_unix);
            &&& status_of(t, label, now_unix) == RegistrationStatus::Active
            &&& !available(t, label, now_unix)
            &&& t.registrations[xlm_name(label)].owner == owner
            &&& t.registrations[xlm_name(label)].registered_at == now_unix
            &&& t.treasury >= s.treasury
            &&& records_consistent(s.registrations) ==> records_consistent(t.registrations)
        }),
{
    lemma_xlm_name_parses(label);
}

/// A stored registration moves through the lifecycle in order: active up to
/// its expiry, in its grace window until that closes, claimable after.
/// Renewal is refused exactly when it is claimable, and the name is open to
/// a new registrant exactly then.
pub proof fn law_lifecycle_partition(s: RegistrarState, label: Seq<char>, now_unix: u64)
    requires
        records_consistent(s.registrations),
        label_check(label) is Ok,
        !s.reserved.contains(label),
        s.registrations.contains_key(xlm_name(label)),
    ensures
        ({
            let r = s.registrations[xlm_name(label)];
            let st = status_of(s, label, now_unix);
            &&& (st == RegistrationStatus::Active) == (now_unix <= r.expires_at)
            &&& (st == RegistrationStatus::GracePeriod) == (r.expires_at < now_unix
                <= r.grace_period_ends_at)
            &&& (st == RegistrationStatus::Claimable) == (now_unix > r.grace_period_ends_at)
            &&& (renew_verdict(r.expires_at, now_unix) is Err) == (st
                == RegistrationStatus::Claimable)
            &&& available(s, label, now_unix) == (st == RegistrationStatus::Claimable)
        }),
{
    let r = s.registrations[xlm_name(label)];
    assert(r.grace_period_ends_at == grace_end(r.expires_at));
}

/// A renewal is made by the owner only; it keeps the name, owner and
/// registration time, extends from the later of the current expiry and now,
/// and never shortens the registration.
pub proof fn law_renewal_extends(
    s: RegistrarState,
    name: Seq<char>,
    caller: Seq<char>,
    years: u64,
    payment_stroops: u64,
    now_unix: u64,
)
    requires
        renew_error(s, name, caller, years, payment_stroops, now_unix) is None,
    ensures
        ({
            let before = s.registrations[name];
            let t = renewed_state(s, name, years, payment_stroops, now_unix);
            let after = t.registrations[name];
            let base = if before.expires_at > now_unix {
                before.expires_at
            } else {
                now_unix
            };
            &&& caller == before.owner
            &&& after.name == before.name
            &&& after.owner == before.owner
            &&& after.registered_at == before.registered_at
            &&& after.expires_at >= before.expires_at
            &&& after.expires_at >= now_unix
            &&& before.expires_at < u64::MAX ==> after.expires_at > before.expires_at
            &&& base + years * YEAR_SECONDS <= u64::MAX ==> after.expires_at == base + years
                * YEAR_SECONDS
            &&& after.grace_period_ends_at == grace_end(after.expires_at)
            &&& t.treasury >= s.treasury
            &&& records_consistent(s.registrations) ==> records_consistent(t.registrations)
        }),
{
    assert(years >= 1);
    assert(years * YEAR_SECONDS >= YEAR_SECONDS) by (nonlinear_arith)
        requires
            years >= 1,
    ;
}

/// The owner of any stored registration can renew it up to the end of its
/// grace window: with a valid period, a payment that covers the label's
/// price for that period and a registry configured, the renewal goes
/// through. It extends from the later of the current expiry and now, keeps
/// the owner and registration time, adds the payment to the record and the
/// treasury, and counts one more renewal.
pub proof fn law_owner_renewal_succeeds(
    s: RegistrarState,
    name: Seq<char>,
    years: u64,
    payment_stroops: u64,
    now_unix: u64,
)
    requires
        records_consistent(s.registrations),
        s.registrations.contains_key(name),
        now_unix <= grace_end(s.registrations[name].expires_at),
        years_check(years) is Ok,
        payment_stroops >= sat_mul(price_of(byte_len(label_of(name))), years),
        s.registry is Some,
    ensures
        ({
            let before = s.registrations[name];
            let t = renewed_state(s, name, years, payment_stroops, now_unix);
            let after = t.registrations[name];
            let base = if before.expires_at > now_unix {
                before.expires_at
            } else {
                now_unix
            };
            &&& renew_error(s, name, before.owner, years, payment_stroops, now_unix) is None
            &&& after.expires_at == expiry_after(base, years)
            &&& after.grace_period_ends_at == grace_end(after.expires_at)
            &&& after.renewed_at == now_unix
            &&& after.fee_paid == before.fee_paid.saturating_add(payment_stroops)
            &&& after.owner == before.owner
            &&& after.registered_at == before.registered_at
            &&& t.treasury == s.treasury.saturating_add(payment_stroops)
            &&& t.total_renewals == s.total_renewals.saturating_add(1)
            &&& records_consistent(t.registrations)
        }),
{
    assert(fqdn_check(name) is Ok);
}


impl RegistrarContract {
    /// Every reachable registrar keeps each record under its own name, a
    /// well-formed `.xlm` name, with its grace window one grace period past
    /// its expiry.
    pub proof fn law_records_consistent(&self)
        requires
            self.wf(),
        ensures
            records_consistent(self@.registrations),
    {
    }
}

} // verus!
