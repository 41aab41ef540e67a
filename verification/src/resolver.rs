//! The resolver: forward records (owner, per-chain addresses, text records),
//! reverse lookups from a Stellar address to a name, and primary names.
//!
//! Where a registry is configured, ownership is decided by the registry; the
//! host asks it and hands its answer to the write operations.

use vstd::prelude::*;

use crate::constants::{MAX_TEXT_RECORDS, MAX_TEXT_RECORD_VALUE_LENGTH};
use crate::str_map::StrMap;
use crate::text::{char_is_ascii_digit, char_is_ascii_lower, is_ascii_digit, is_ascii_lower, str_eq};
use crate::validation::{byte_len, fqdn_valid, is_valid_fqdn};

verus! {

/// Longest accepted text-record key, in bytes.
pub const MAX_TEXT_RECORD_KEY_LENGTH: usize = 64;

/// The chain under which the Stellar address of a name is stored.
pub const DEFAULT_CHAIN: &'static str = "stellar";

#[derive(Clone, Copy, Debug, PartialEq, Eq, PartialOrd, Ord, Structural)]
pub enum ResolverError {
    Validation,
    RecordNotFound,
    Unauthorized,
    TooManyTextRecords,
    NotInitialized,
    TextRecordValueTooLong,
    InvalidChain,
    InvalidKey,
}

impl ResolverError {
    /// The numeric code the contract reports for this error.
    pub fn code(&self) -> (c: u32)
        ensures
            c == match *self {
                ResolverError::Validation => 1u32,
                ResolverError::RecordNotFound => 2u32,
                ResolverError::Unauthorized => 3u32,
                ResolverError::TooManyTextRecords => 4u32,
                ResolverError::NotInitialized => 5u32,
                ResolverError::TextRecordValueTooLong => 6u32,
                ResolverError::InvalidChain => 7u32,
                ResolverError::InvalidKey => 8u32,
            },
    {
        match self {
            ResolverError::Validation => 1,
            ResolverError::RecordNotFound => 2,
            ResolverError::Unauthorized => 3,
            ResolverError::TooManyTextRecords => 4,
            ResolverError::NotInitialized => 5,
            ResolverError::TextRecordValueTooLong => 6,
            ResolverError::InvalidChain => 7,
            ResolverError::InvalidKey => 8,
        }
    }
}

/// A forward resolution record.
pub struct ResolutionRecord {
    pub owner: String,
    /// Chain identifier to address on that chain (`stellar` holds the
    /// Stellar address).
    pub addresses: StrMap<String>,
    pub text_records: StrMap<String>,
    pub updated_at: u64,
}

pub ghost struct ResolutionView {
    pub owner: Seq<char>,
    pub addresses: Map<Seq<char>, Seq<char>>,
    pub text_records: Map<Seq<char>, Seq<char>>,
    pub updated_at: u64,
}

impl View for ResolutionRecord {
    type V = ResolutionView;

    open spec fn view(&self) -> ResolutionView {
        ResolutionView {
            owner: self.owner@,
            addresses: self.addresses@,
            text_records: self.text_records@,
            updated_at: self.updated_at,
        }
    }
}

impl Clone for ResolutionRecord {
    fn clone(&self) -> (r: Self)
        ensures
            r@ == self@,
    {
        ResolutionRecord {
            owner: self.owner.clone(),
            addresses: self.addresses.duplicate(),
            text_records: self.text_records.duplicate(),
            updated_at: self.updated_at,
        }
    }
}

/// Abstract resolver storage.
pub ghost struct ResolverState {
    pub forward: Map<Seq<char>, ResolutionView>,
    /// Stellar address to the name that last pointed at it.
    pub reverse: Map<Seq<char>, Seq<char>>,
    /// Stellar address to the name its owner chose as primary.
    pub primary: Map<Seq<char>, Seq<char>>,
    pub registry: Option<Seq<char>>,
}

pub struct ResolverContract {
    forward: StrMap<ResolutionRecord>,
    reverse: StrMap<String>,
    primary: StrMap<String>,
    registry: Option<String>,
}

pub open spec fn stellar_chain() -> Seq<char> {
    DEFAULT_CHAIN@
}

pub open spec fn opt_string_view(o: Option<String>) -> Option<Seq<char>> {
    match o {
        Some(s) => Some(s@),
        None => None,
    }
}

pub open spec fn opt_record_view(o: Option<ResolutionRecord>) -> Option<ResolutionView> {
    match o {
        Some(r) => Some(r@),
        None => None,
    }
}

pub open spec fn opt_chars(o: Option<&str>) -> Option<Seq<char>> {
    match o {
        Some(s) => Some(s@),
        None => None,
    }
}

/// The owner the registry vouches for: its answer, where a registry is
/// configured.
pub open spec fn backed_owner(s: ResolverState, registry_owner: Option<Seq<char>>) -> Option<
    Seq<char>,
> {
    if s.registry is Some {
        registry_owner
    } else {
        None
    }
}

/// Whether `caller` may change the record of `name`: the registry's owner
/// decides where a registry is configured, the record's owner otherwise.
pub open spec fn authorized(
    s: ResolverState,
    name: Seq<char>,
    caller: Seq<char>,
    registry_owner: Option<Seq<char>>,
) -> bool {
    match backed_owner(s, registry_owner) {
        Some(o) => o == caller,
        None => s.forward[name].owner == caller,
    }
}

/// What a reverse lookup of `address` answers: its primary name, else the
/// name that last pointed at it.
pub open spec fn reverse_of(s: ResolverState, address: Seq<char>) -> Option<Seq<char>> {
    if s.primary.contains_key(address) {
        Some(s.primary[address])
    } else if s.reverse.contains_key(address) {
        Some(s.reverse[address])
    } else {
        None
    }
}

/// The record of `name`, if any.
pub open spec fn resolve_of(s: ResolverState, name: Seq<char>) -> Option<ResolutionView> {
    if s.forward.contains_key(name) {
        Some(s.forward[name])
    } else {
        None
    }
}

/// The address of `name` on `chain`, if any.
pub open spec fn address_of(s: ResolverState, name: Seq<char>, chain: Seq<char>) -> Option<
    Seq<char>,
> {
    if s.forward.contains_key(name) && s.forward[name].addresses.contains_key(chain) {
        Some(s.forward[name].addresses[chain])
    } else {
        None
    }
}

pub open spec fn is_text_key_char(c: char) -> bool {
    is_ascii_lower(c) || is_ascii_digit(c) || c == '.' || c == '-' || c == '_'
}

/// A text-record key: 1 to 64 bytes of lowercase ASCII letters, digits,
/// dots, dashes and underscores.
pub open spec fn text_key_valid(key: Seq<char>) -> bool {
    &&& 1 <= byte_len(key) <= MAX_TEXT_RECORD_KEY_LENGTH
    &&& forall|i: int| 0 <= i < key.len() ==> is_text_key_char(#[trigger] key[i])
}

/// The first rule `set_record` breaks, if any.
pub open spec fn set_record_error(
    s: ResolverState,
    name: Seq<char>,
    owner: Seq<char>,
    registry_owner: Option<Seq<char>>,
) -> Option<ResolverError> {
    if !fqdn_valid(name) {
        Some(ResolverError::Validation)
    } else if backed_owner(s, registry_owner) matches Some(o) && o != owner {
        Some(ResolverError::Unauthorized)
    } else if backed_owner(s, registry_owner) is None && s.forward.contains_key(name)
        && s.forward[name].owner != owner {
        Some(ResolverError::Unauthorized)
    } else {
        None
    }
}

/// Whether the Stellar address stored for `name` is some address other
/// than `address` (its reverse and primary links are then dropped).
pub open spec fn stale_stellar(s: ResolverState, name: Seq<char>, address: Seq<char>) -> bool {
    &&& s.forward.contains_key(name)
    &&& s.forward[name].addresses.contains_key(stellar_chain())
    &&& s.forward[name].addresses[stellar_chain()] != address
}

/// Storage after `set_record`: the Stellar address is set, addresses on
/// other chains and text records are kept, links of a replaced Stellar
/// address are dropped, and the new address points back at `name`.
pub open spec fn record_set_state(
    s: ResolverState,
    name: Seq<char>,
    owner: Seq<char>,
    address: Seq<char>,
    now_unix: u64,
) -> ResolverState {
    let exists = s.forward.contains_key(name);
    let stale = stale_stellar(s, name, address);
    let old_addr = s.forward[name].addresses[stellar_chain()];
    let addresses = if exists {
        s.forward[name].addresses
    } else {
        Map::empty()
    };
    let text_records = if exists {
        s.forward[name].text_records
    } else {
        Map::empty()
    };
    let reverse = if stale {
        s.reverse.remove(old_addr)
    } else {
        s.reverse
    };
    let primary = if stale {
        s.primary.remove(old_addr)
    } else {
        s.primary
    };
    ResolverState {
        forward: s.forward.insert(
            name,
            ResolutionView {
                owner,
                addresses: addresses.insert(stellar_chain(), address),
                text_records,
                updated_at: now_unix,
            },
        ),
        reverse: reverse.insert(address, name),
        primary,
        ..s
    }
}

/// The first rule `set_address` breaks, if any.
pub open spec fn owner_write_error(
    s: ResolverState,
    name: Seq<char>,
    caller: Seq<char>,
    registry_owner: Option<Seq<char>>,
) -> Option<ResolverError> {
    if !s.forward.contains_key(name) {
        Some(ResolverError::RecordNotFound)
    } else if !authorized(s, name, caller, registry_owner) {
        Some(ResolverError::Unauthorized)
    } else {
        None
    }
}

/// Storage after `set_address`. On the Stellar chain the reverse links
/// follow the address as in `set_record`.
pub open spec fn address_set_state(
    s: ResolverState,
    name: Seq<char>,
    chain: Seq<char>,
    address: Seq<char>,
    now_unix: u64,
) -> ResolverState {
    let rec = s.forward[name];
    let is_stellar = chain == stellar_chain();
    let stale = is_stellar && stale_stellar(s, name, address);
    let old_addr = rec.addresses[chain];
    let reverse = if stale {
        s.reverse.remove(old_addr)
    } else {
        s.reverse
    };
    let primary = if stale {
        s.primary.remove(old_addr)
    } else {
        s.primary
    };
    ResolverState {
        forward: s.forward.insert(
            name,
            ResolutionView {
                addresses: rec.addresses.insert(chain, address),
                updated_at: now_unix,
                ..rec
            },
        ),
        reverse: if is_stellar {
            reverse.insert(address, name)
        } else {
            reverse
        },
        primary,
        ..s
    }
}

/// The first rule `set_text_record` breaks, if any.
pub open spec fn text_record_error(
    s: ResolverState,
    name: Seq<char>,
    caller: Seq<char>,
    key: Seq<char>,
    value: Seq<char>,
    registry_owner: Option<Seq<char>>,
) -> Option<ResolverError> {
    if !text_key_valid(key) {
        Some(ResolverError::InvalidKey)
    } else if byte_len(value) > MAX_TEXT_RECORD_VALUE_LENGTH {
        Some(ResolverError::TextRecordValueTooLong)
    } else if owner_write_error(s, name, caller, registry_owner) is Some {
        owner_write_error(s, name, caller, registry_owner)
    } else if !s.forward[name].text_records.contains_key(key)
        && s.forward[name].text_records.dom().len() >= MAX_TEXT_RECORDS {
        Some(ResolverError::TooManyTextRecords)
    } else {
        None
    }
}

/// Storage after `set_text_record`.
pub open spec fn text_record_set_state(
    s: ResolverState,
    name: Seq<char>,
    key: Seq<char>,
    value: Seq<char>,
    now_unix: u64,
) -> ResolverState {
    let rec = s.forward[name];
    ResolverState {
        forward: s.forward.insert(
            name,
            ResolutionView {
                text_records: rec.text_records.insert(key, value),
                updated_at: now_unix,
                ..rec
            },
        ),
        ..s
    }
}

/// The first rule `set_primary_name` breaks, if any: the caller must be
/// allowed to write the record and `address` must be its Stellar address.
pub open spec fn primary_error(
    s: ResolverState,
    address: Seq<char>,
    caller: Seq<char>,
    name: Seq<char>,
    registry_owner: Option<Seq<char>>,
) -> Option<ResolverError> {
    if owner_write_error(s, name, caller, registry_owner) is Some {
        owner_write_error(s, name, caller, registry_owner)
    } else if address_of(s, name, stellar_chain()) != Some(address) {
        Some(ResolverError::Unauthorized)
    } else {
        None
    }
}

/// Storage after `remove_record`: the record is gone and so are the
/// reverse and primary links of its Stellar address.
pub open spec fn record_removed_state(s: ResolverState, name: Seq<char>) -> ResolverState {
    let rec = s.forward[name];
    let has = rec.addresses.contains_key(stellar_chain());
    let addr = rec.addresses[stellar_chain()];
    ResolverState {
        forward: s.forward.remove(name),
        reverse: if has {
            s.reverse.remove(addr)
        } else {
            s.reverse
        },
        primary: if has {
            s.primary.remove(addr)
        } else {
            s.primary
        },
        ..s
    }
}

/// Storage after the owner field of `name` is replaced.
pub open spec fn owner_set_state(s: ResolverState, name: Seq<char>, new_owner: Seq<char>) -> ResolverState {
    ResolverState {
        forward: s.forward.insert(name, ResolutionView { owner: new_owner, ..s.forward[name] }),
        ..s
    }
}

/// Every record holds a finite set of at most `MAX_TEXT_RECORDS` text records.
pub open spec fn text_records_bounded(fwd: Map<Seq<char>, ResolutionView>) -> bool {
    forall|k: Seq<char>|
        #[trigger] fwd.contains_key(k) ==> fwd[k].text_records.dom().finite()
            && fwd[k].text_records.dom().len() <= MAX_TEXT_RECORDS
}

/// Checks a text-record key.
pub fn validate_text_record_key(key: &str) -> (r: bool)
    ensures
        r == text_key_valid(key@),
{
    let len = key.len();
    if len == 0 || len > MAX_TEXT_RECORD_KEY_LENGTH {
        return false;
    }
    let n = key.unicode_len();
    let mut i: usize = 0;
    while i < n
        invariant
            n == key@.len(),
            i <= n,
            forall|k: int| 0 <= k < i ==> is_text_key_char(#[trigger] key@[k]),
        decreases n - i,
    {
        let c = key.get_char(i);
        if !(char_is_ascii_lower(c) || char_is_ascii_digit(c) || c == '.' || c == '-' || c
            == '_') {
            return false;
        }
        i = i + 1;
    }
    true
}

impl View for ResolverContract {
    type V = ResolverState;

    closed spec fn view(&self) -> ResolverState {
        ResolverState {
            forward: self.forward@,
            reverse: self.reverse@,
            primary: self.primary@,
            registry: match self.registry {
                Some(r) => Some(r@),
                None => None,
            },
        }
    }
}

impl ResolverContract {
    /// The contract's internal invariant.
    pub closed spec fn wf(&self) -> bool {
        text_records_bounded(self.forward@)
    }

    /// A resolver with empty storage and no registry configured.
    pub fn new() -> (c: Self)
        ensures
            c.wf(),
            c@.forward == Map::<Seq<char>, ResolutionView>::empty(),
            c@.reverse == Map::<Seq<char>, Seq<char>>::empty(),
            c@.primary == Map::<Seq<char>, Seq<char>>::empty(),
            c@.registry is None,
    {
        ResolverContract {
            forward: StrMap::new(),
            reverse: StrMap::new(),
            primary: StrMap::new(),
            registry: None,
        }
    }

    /// Records the registry that decides ownership; it can be set once.
    pub fn initialize(&mut self, registry: String) -> (r: Result<(), ResolverError>)
        requires
            old(self).wf(),
        ensures
            final(self).wf(),
            old(self)@.registry is Some ==> r == Err::<(), ResolverError>(
                ResolverError::Unauthorized,
            ) && final(self)@ == old(self)@,
            old(self)@.registry is None ==> r is Ok && final(self)@ == (ResolverState {
                registry: Some(registry@),
                ..old(self)@
            }),
    {
        if self.registry.is_some() {
            return Err(ResolverError::Unauthorized);
        }
        self.registry = Some(registry);
        Ok(())
    }

    /// Whether `caller` may write a record owned by `record_owner`.
    fn caller_authorized(&self, record_owner: &str, caller: &str, registry_owner: Option<&str>) -> (r:
        bool)
        ensures
            r == match backed_owner(self@, opt_chars(registry_owner)) {
                Some(o) => o == caller@,
                None => record_owner@ == caller@,
            },
    {
        match registry_owner {
            Some(o) => {
                if self.registry.is_some() {
                    return str_eq(o, caller);
                }
            },
            None => {},
        }
        str_eq(record_owner, caller)
    }

    /// Sets the Stellar address of `name` for `owner`, creating the record
    /// when there is none. `registry_owner` is the registry's owner of
    /// `name`, asked by the host where a registry is configured.
    pub fn set_record(
        &mut self,
        name: &str,
        owner: &str,
        address: &str,
        now_unix: u64,
        registry_owner: Option<&str>,
    ) -> (r: Result<(), ResolverError>)
        requires
            old(self).wf(),
            old(self)@.registry is Some ==> registry_owner is Some,
        ensures
            final(self).wf(),
            match r {
                Err(e) => set_record_error(old(self)@, name@, owner@, opt_chars(registry_owner))
                    == Some(e) && final(self)@ == old(self)@,
                Ok(()) => set_record_error(old(self)@, name@, owner@, opt_chars(registry_owner))
                    is None && final(self)@ == record_set_state(
                    old(self)@,
                    name@,
                    owner@,
                    address@,
                    now_unix,
                ),
            },            r is Ok ==> forall|c: Seq<char>|
                c != stellar_chain() ==> #[trigger] address_of(final(self)@, name@, c)
                    == address_of(old(self)@, name@, c),
            r is Ok ==> address_of(final(self)@, name@, stellar_chain()) == Some(address@),
    {
        if !is_valid_fqdn(name) {
            return Err(ResolverError::Validation);
        }
        let backed: Option<&str> = if self.registry.is_some() {
            registry_owner
        } else {
            None
        };
        match backed {
            Some(o) => {
                if !str_eq(o, owner) {
                    return Err(ResolverError::Unauthorized);
                }
            },
            None => {},
        }
        let existing: Option<ResolutionRecord> = match self.forward.get(name) {
            Some(rec) => Some(rec.clone()),
            None => None,
        };
        let ghost s0 = self@;
        let (mut addresses, text_records) = match existing {
            Some(rec) => {
                if backed.is_none() && !str_eq(rec.owner.as_str(), owner) {
                    return Err(ResolverError::Unauthorized);
                }
                match rec.addresses.get(DEFAULT_CHAIN) {
                    Some(old_addr) => {
                        if !str_eq(old_addr.as_str(), address) {
                            self.reverse.remove(old_addr.as_str());
                            self.primary.remove(old_addr.as_str());
                        }
                    },
                    None => {},
                }
                (rec.addresses, rec.text_records)
            },
            None => (StrMap::new(), StrMap::new()),
        };
        addresses.insert(String::from_str(DEFAULT_CHAIN), String::from_str(address));
        let record = ResolutionRecord {
            owner: String::from_str(owner),
            addresses,
            text_records,
            updated_at: now_unix,
        };
        self.forward.insert(String::from_str(name), record);
        self.reverse.insert(String::from_str(address), String::from_str(name));
        proof {
            let t = record_set_state(s0, name@, owner@, address@, now_unix);
            assert(self@.forward =~= t.forward);
            assert(self@.reverse =~= t.reverse);
            assert(self@.primary =~= t.primary);
        }
        Ok(())
    }

    /// Sets the address of `name` on `chain` for an authorized caller. On
    /// the Stellar chain the reverse links follow the new address.
    pub fn set_address(
        &mut self,
        name: &str,
        caller: &str,
        chain: &str,
        address: &str,
        now_unix: u64,
        registry_owner: Option<&str>,
    ) -> (r: Result<(), ResolverError>)
        requires
            old(self).wf(),
            old(self)@.registry is Some ==> registry_owner is Some,
        ensures
            final(self).wf(),
            match r {
                Err(e) => owner_write_error(old(self)@, name@, caller@, opt_chars(registry_owner))
                    == Some(e) && final(self)@ == old(self)@,
                Ok(()) => owner_write_error(old(self)@, name@, caller@, opt_chars(registry_owner))
                    is None && final(self)@ == address_set_state(
                    old(self)@,
                    name@,
                    chain@,
                    address@,
                    now_unix,
                ),
            },            r is Ok ==> address_of(final(self)@, name@, chain@) == Some(address@),
            r is Ok && chain@ == stellar_chain() && !old(self)@.primary.contains_key(address@)
                ==> reverse_of(final(self)@, address@) == Some(name@),
    {
        let mut record = match self.forward.get(name) {
            Some(rec) => rec.clone(),
            None => {
                return Err(ResolverError::RecordNotFound);
            },
        };
        if !self.caller_authorized(record.owner.as_str(), caller, registry_owner) {
            return Err(ResolverError::Unauthorized);
        }
        let ghost s0 = self@;
        if str_eq(chain, DEFAULT_CHAIN) {
            match record.addresses.get(chain) {
                Some(old_addr) => {
                    if !str_eq(old_addr.as_str(), address) {
                        self.reverse.remove(old_addr.as_str());
                        self.primary.remove(old_addr.as_str());
                    }
                },
                None => {},
            }
            self.reverse.insert(String::from_str(address), String::from_str(name));
        }
        record.addresses.insert(String::from_str(chain), String::from_str(address));
        record.updated_at = now_unix;
        self.forward.insert(String::from_str(name), record);
        proof {
            let t = address_set_state(s0, name@, chain@, address@, now_unix);
            assert(self@.forward =~= t.forward);
            assert(self@.reverse =~= t.reverse);
            assert(self@.primary =~= t.primary);
        }
        Ok(())
    }

    /// The address of `name` on `chain`, if both exist.
    pub fn get_address(&self, name: &str, chain: &str) -> (r: Option<String>)
        ensures
            opt_string_view(r) == address_of(self@, name@, chain@),
    {
        match self.forward.get(name) {
            Some(rec) => match rec.addresses.get(chain) {
                Some(a) => Some(a.clone()),
                None => None,
            },
            None => None,
        }
    }

    /// Sets the text record `key` of `name` to `value` for an authorized
    /// caller; a record holds at most `MAX_TEXT_RECORDS` keys, and a key
    /// already present may always be updated.
    pub fn set_text_record(
        &mut self,
        name: &str,
        caller: &str,
        key: &str,
        value: &str,
        now_unix: u64,
        registry_owner: Option<&str>,
    ) -> (r: Result<(), ResolverError>)
        requires
            old(self).wf(),
            old(self)@.registry is Some ==> registry_owner is Some,
        ensures
            final(self).wf(),
            match r {
                Err(e) => text_record_error(
                    old(self)@,
                    name@,
                    caller@,
                    key@,
                    value@,
                    opt_chars(registry_owner),
                ) == Some(e) && final(self)@ == old(self)@,
                Ok(()) => text_record_error(
                    old(self)@,
                    name@,
                    caller@,
                    key@,
                    value@,
                    opt_chars(registry_owner),
                ) is None && final(self)@ == text_record_set_state(
                    old(self)@,
                    name@,
                    key@,
                    value@,
                    now_unix,
                ),
            },
    {
        if !validate_text_record_key(key) {
            return Err(ResolverError::InvalidKey);
        }
        if value.len() > MAX_TEXT_RECORD_VALUE_LENGTH {
            return Err(ResolverError::TextRecordValueTooLong);
        }
        let mut record = match self.forward.get(name) {
            Some(rec) => rec.clone(),
            None => {
                return Err(ResolverError::RecordNotFound);
            },
        };
        if !self.caller_authorized(record.owner.as_str(), caller, registry_owner) {
            return Err(ResolverError::Unauthorized);
        }
        let count = record.text_records.len();
        if !record.text_records.contains_key(key) && count >= MAX_TEXT_RECORDS {
            return Err(ResolverError::TooManyTextRecords);
        }
        let ghost s0 = self@;
        record.text_records.insert(String::from_str(key), String::from_str(value));
        record.updated_at = now_unix;
        self.forward.insert(String::from_str(name), record);
        proof {
            let t = text_record_set_state(s0, name@, key@, value@, now_unix);
            assert(self@.forward =~= t.forward);
        }
        Ok(())
    }

    /// Makes `name` the primary name of `address`, which must be the
    /// record's Stellar address.
    pub fn set_primary_name(
        &mut self,
        address: &str,
        caller: &str,
        name: &str,
        registry_owner: Option<&str>,
    ) -> (r: Result<(), ResolverError>)
        requires
            old(self).wf(),
            old(self)@.registry is Some ==> registry_owner is Some,
        ensures
            final(self).wf(),
            match r {
                Err(e) => primary_error(
                    old(self)@,
                    address@,
                    caller@,
                    name@,
                    opt_chars(registry_owner),
                ) == Some(e) && final(self)@ == old(self)@,
                Ok(()) => primary_error(
                    old(self)@,
                    address@,
                    caller@,
                    name@,
                    opt_chars(registry_owner),
                ) is None && final(self)@ == (ResolverState {
                    primary: old(self)@.primary.insert(address@, name@),
                    ..old(self)@
                }),
            },
    {
        let matches_address = match self.forward.get(name) {
            Some(rec) => {
                if !self.caller_authorized(rec.owner.as_str(), caller, registry_owner) {
                    return Err(ResolverError::Unauthorized);
                }
                match rec.addresses.get(DEFAULT_CHAIN) {
                    Some(a) => str_eq(a.as_str(), address),
                    None => false,
                }
            },
            None => {
                return Err(ResolverError::RecordNotFound);
            },
        };
        if !matches_address {
            return Err(ResolverError::Unauthorized);
        }
        self.primary.insert(String::from_str(address), String::from_str(name));
        Ok(())
    }

    /// Deletes the record of `name` and the reverse and primary links of its
    /// Stellar address.
    pub fn remove_record(&mut self, name: &str, caller: &str, registry_owner: Option<&str>) -> (r:
        Result<(), ResolverError>)
        requires
            old(self).wf(),
            old(self)@.registry is Some ==> registry_owner is Some,
        ensures
            final(self).wf(),
            match r {
                Err(e) => owner_write_error(old(self)@, name@, caller@, opt_chars(registry_owner))
                    == Some(e) && final(self)@ == old(self)@,
                Ok(()) => owner_write_error(old(self)@, name@, caller@, opt_chars(registry_owner))
                    is None && final(self)@ == record_removed_state(old(self)@, name@),
            },
    {
        let ghost s0 = self@;
        let stellar: Option<String> = match self.forward.get(name) {
            Some(rec) => {
                if !self.caller_authorized(rec.owner.as_str(), caller, registry_owner) {
                    return Err(ResolverError::Unauthorized);
                }
                match rec.addresses.get(DEFAULT_CHAIN) {
                    Some(a) => Some(a.clone()),
                    None => None,
                }
            },
            None => {
                return Err(ResolverError::RecordNotFound);
            },
        };
        match stellar {
            Some(a) => {
                self.reverse.remove(a.as_str());
                self.primary.remove(a.as_str());
            },
            None => {},
        }
        self.forward.remove(name);
        proof {
            let t = record_removed_state(s0, name@);
            assert(self@.forward =~= t.forward);
            assert(self@.reverse =~= t.reverse);
            assert(self@.primary =~= t.primary);
        }
        Ok(())
    }

    /// Replaces the stored owner of `name`; used to follow a transfer made
    /// in the registry.
    pub fn update_owner(&mut self, name: &str, new_owner: &str) -> (r: Result<(), ResolverError>)
        requires
            old(self).wf(),
        ensures
            final(self).wf(),
            !old(self)@.forward.contains_key(name@) ==> r == Err::<(), ResolverError>(
                ResolverError::RecordNotFound,
            ) && final(self)@ == old(self)@,
            old(self)@.forward.contains_key(name@) ==> r is Ok && final(self)@ == owner_set_state(
                old(self)@,
                name@,
                new_owner@,
            ),
    {
        let mut record = match self.forward.get(name) {
            Some(rec) => rec.clone(),
            None => {
                return Err(ResolverError::RecordNotFound);
            },
        };
        record.owner = String::from_str(new_owner);
        self.forward.insert(String::from_str(name), record);
        Ok(())
    }

    /// Hands the record of `name` from its stored owner `caller` to
    /// `new_owner`.
    pub fn transfer_record_owner(&mut self, name: &str, caller: &str, new_owner: &str) -> (r:
        Result<(), ResolverError>)
        requires
            old(self).wf(),
        ensures
            final(self).wf(),
            !old(self)@.forward.contains_key(name@) ==> r == Err::<(), ResolverError>(
                ResolverError::RecordNotFound,
            ) && final(self)@ == old(self)@,
            old(self)@.forward.contains_key(name@) && old(self)@.forward[name@].owner != caller@
                ==> r == Err::<(), ResolverError>(ResolverError::Unauthorized) && final(self)@
                == old(self)@,
            old(self)@.forward.contains_key(name@) && old(self)@.forward[name@].owner == caller@
                ==> r is Ok && final(self)@ == owner_set_state(old(self)@, name@, new_owner@),
    {
        let mut record = match self.forward.get(name) {
            Some(rec) => rec.clone(),
            None => {
                return Err(ResolverError::RecordNotFound);
            },
        };
        if !str_eq(record.owner.as_str(), caller) {
            return Err(ResolverError::Unauthorized);
        }
        record.owner = String::from_str(new_owner);
        self.forward.insert(String::from_str(name), record);
        Ok(())
    }

    /// The record of `name`, if any.
    pub fn resolve(&self, name: &str) -> (r: Option<ResolutionRecord>)
        ensures
            opt_record_view(r) == resolve_of(self@, name@),
    {
        match self.forward.get(name) {
            Some(rec) => Some(rec.clone()),
            None => None,
        }
    }

    /// The Stellar address of `name`, if any.
    pub fn get_stellar_address(&self, name: &str) -> (r: Option<String>)
        ensures
            opt_string_view(r) == address_of(self@, name@, stellar_chain()),
    {
        self.get_address(name, DEFAULT_CHAIN)
    }

    pub fn has_record(&self, name: &str) -> (r: bool)
        ensures
            r == self@.forward.contains_key(name@),
    {
        self.forward.contains_key(name)
    }

    /// The name `address` resolves back to: its primary name, else the name
    /// that last pointed at it.
    pub fn reverse(&self, address: &str) -> (r: Option<String>)
        ensures
            opt_string_view(r) == reverse_of(self@, address@),
    {
        match self.primary.get(address) {
            Some(n) => Some(n.clone()),
            None => match self.reverse.get(address) {
                Some(n) => Some(n.clone()),
                None => None,
            },
        }
    }

    /// The records of `names`, in order.
    pub fn batch_resolve(&self, names: &Vec<String>) -> (r: Vec<Option<ResolutionRecord>>)
        ensures
            r@.len() == names@.len(),
            forall|i: int|
                0 <= i < names@.len() ==> opt_record_view(#[trigger] r@[i]) == resolve_of(
                    self@,
                    names@[i]@,
                ),
    {
        let mut out: Vec<Option<ResolutionRecord>> = Vec::new();
        let mut i: usize = 0;
        while i < names.len()
            invariant
                i <= names@.len(),
                out@.len() == i,
                forall|k: int|
                    0 <= k < i ==> opt_record_view(#[trigger] out@[k]) == resolve_of(
                        self@,
                        names@[k]@,
                    ),
            decreases names@.len() - i,
        {
            out.push(self.resolve(names[i].as_str()));
            i = i + 1;
        }
        out
    }

    /// The reverse lookups of `addresses`, in order.
    pub fn batch_reverse(&self, addresses: &Vec<String>) -> (r: Vec<Option<String>>)
        ensures
            r@.len() == addresses@.len(),
            forall|i: int|
                0 <= i < addresses@.len() ==> opt_string_view(#[trigger] r@[i]) == reverse_of(
                    self@,
                    addresses@[i]@,
                ),
    {
        let mut out: Vec<Option<String>> = Vec::new();
        let mut i: usize = 0;
        while i < addresses.len()
            invariant
                i <= addresses@.len(),
                out@.len() == i,
                forall|k: int|
                    0 <= k < i ==> opt_string_view(#[trigger] out@[k]) == reverse_of(
                        self@,
                        addresses@[k]@,
                    ),
            decreases addresses@.len() - i,
        {
            out.push(self.reverse(addresses[i].as_str()));
            i = i + 1;
        }
        out
    }
}


/// What `set_record` writes is what a lookup reads back: the record has the
/// new owner and Stellar address, keeps its text records, the address
/// resolves back to the name unless it has another primary name, and a
/// replaced Stellar address no longer resolves back at all.
pub proof fn law_set_record_read_back(
    s: ResolverState,
    name: Seq<char>,
    owner: Seq<char>,
    address: Seq<char>,
    now_unix: u64,
    registry_owner: Option<Seq<char>>,
)
    requires
        set_record_error(s, name, owner, registry_owner) is None,
    ensures
        ({
            let t = record_set_state(s, name, owner, address, now_unix);
            &&& resolve_of(t, name) matches Some(rec) && rec.owner == owner && rec.updated_at
                == now_unix
            &&& address_of(t, name, stellar_chain()) == Some(address)
            &&& s.forward.contains_key(name) ==> t.forward[name].text_records
                == s.forward[name].text_records
            &&& !t.primary.contains_key(address) ==> reverse_of(t, address) == Some(name)
            &&& stale_stellar(s, name, address) ==> reverse_of(
                t,
                s.forward[name].addresses[stellar_chain()],
            ) is None
            &&& text_records_bounded(s.forward) ==> text_records_bounded(t.forward)
            &&& forall|c: Seq<char>|
                c != stellar_chain() ==> #[trigger] address_of(t, name, c) == address_of(s, name, c)
        }),
{
}

/// What `set_address` writes is what a lookup reads back: the address on
/// `chain` is the new one, addresses on every other chain, the owner and
/// the text records are kept, and on the Stellar chain the new address
/// resolves back to the name unless it has another primary name, while a
/// replaced Stellar address no longer resolves back at all.
pub proof fn law_set_address_read_back(
    s: ResolverState,
    name: Seq<char>,
    caller: Seq<char>,
    chain: Seq<char>,
    address: Seq<char>,
    now_unix: u64,
    registry_owner: Option<Seq<char>>,
)
    requires
        owner_write_error(s, name, caller, registry_owner) is None,
    ensures
        ({
            let t = address_set_state(s, name, chain, address, now_unix);
            &&& address_of(t, name, chain) == Some(address)
            &&& forall|c: Seq<char>|
                c != chain ==> #[trigger] address_of(t, name, c) == address_of(s, name, c)
            &&& t.forward[name].owner == s.forward[name].owner
            &&& t.forward[name].text_records == s.forward[name].text_records
            &&& t.forward[name].updated_at == now_unix
            &&& chain == stellar_chain() && !s.primary.contains_key(address) ==> reverse_of(
                t,
                address,
            ) == Some(name)
            &&& chain == stellar_chain() && stale_stellar(s, name, address) ==> reverse_of(
                t,
                s.forward[name].addresses[stellar_chain()],
            ) is None
            &&& chain != stellar_chain() ==> t.reverse == s.reverse && t.primary == s.primary
        }),
{
}

/// A text record that was written reads back, and the record keeps at most
/// `MAX_TEXT_RECORDS` keys.
pub proof fn law_text_record_read_back(
    s: ResolverState,
    name: Seq<char>,
    caller: Seq<char>,
    key: Seq<char>,
    value: Seq<char>,
    now_unix: u64,
    registry_owner: Option<Seq<char>>,
)
    requires
        text_records_bounded(s.forward),
        text_record_error(s, name, caller, key, value, registry_owner) is None,
    ensures
        ({
            let t = text_record_set_state(s, name, key, value, now_unix);
            &&& t.forward[name].text_records[key] == value
            &&& t.forward[name].text_records.dom().len() <= MAX_TEXT_RECORDS
            &&& t.forward[name].addresses == s.forward[name].addresses
            &&& t.forward[name].owner == s.forward[name].owner
            &&& text_records_bounded(t.forward)
        }),
{
}

/// Text-record keys are checked on every write: for an authorized caller on
/// an existing record with a value of allowed length, the write is refused
/// with `InvalidKey` exactly when the key is not 1 to 64 bytes of `a-z`,
/// `0-9`, `.`, `-`, `_`. A valid key with room in the record is stored
/// exactly as given and reads back the value.
pub proof fn law_text_key_rule(
    s: ResolverState,
    name: Seq<char>,
    caller: Seq<char>,
    key: Seq<char>,
    value: Seq<char>,
    now_unix: u64,
    registry_owner: Option<Seq<char>>,
)
    requires
        owner_write_error(s, name, caller, registry_owner) is None,
        byte_len(value) <= MAX_TEXT_RECORD_VALUE_LENGTH,
    ensures
        (text_record_error(s, name, caller, key, value, registry_owner) == Some(
            ResolverError::InvalidKey,
        )) == !text_key_valid(key),
        text_key_valid(key) && (s.forward[name].text_records.contains_key(key)
            || s.forward[name].text_records.dom().len() < MAX_TEXT_RECORDS) ==> {
            let t = text_record_set_state(s, name, key, value, now_unix);
            &&& text_record_error(s, name, caller, key, value, registry_owner) is None
            &&& t.forward[name].text_records.contains_key(key)
            &&& t.forward[name].text_records[key] == value
        },
{
}

/// A primary name, once set, is what a reverse lookup of its address gives.
pub proof fn law_primary_name_preferred(
    s: ResolverState,
    address: Seq<char>,
    caller: Seq<char>,
    name: Seq<char>,
    registry_owner: Option<Seq<char>>,
)
    requires
        primary_error(s, address, caller, name, registry_owner) is None,
    ensures
        reverse_of(ResolverState { primary: s.primary.insert(address, name), ..s }, address)
            == Some(name),
        address_of(s, name, stellar_chain()) == Some(address),
{
}

/// After removal a name resolves to nothing, and its Stellar address no
/// longer resolves back to any name.
pub proof fn law_remove_clears(s: ResolverState, name: Seq<char>, caller: Seq<char>, registry_owner: Option<Seq<char>>)
    requires
        owner_write_error(s, name, caller, registry_owner) is None,
    ensures
        ({
            let t = record_removed_state(s, name);
            &&& resolve_of(t, name) is None
            &&& s.forward[name].addresses.contains_key(stellar_chain()) ==> reverse_of(
                t,
                s.forward[name].addresses[stellar_chain()],
            ) is None
            &&& text_records_bounded(s.forward) ==> text_records_bounded(t.forward)
        }),
{
}

/// Writes to an existing record are owner-controlled: each succeeds only
/// for the caller the registry names, or, with no registry, the record's
/// stored owner.
pub proof fn law_writes_need_owner(
    s: ResolverState,
    name: Seq<char>,
    caller: Seq<char>,
    key: Seq<char>,
    value: Seq<char>,
    address: Seq<char>,
    registry_owner: Option<Seq<char>>,
)
    ensures
        owner_write_error(s, name, caller, registry_owner) is None ==> authorized(
            s,
            name,
            caller,
            registry_owner,
        ),
        text_record_error(s, name, caller, key, value, registry_owner) is None ==> authorized(
            s,
            name,
            caller,
            registry_owner,
        ),
        primary_error(s, address, caller, name, registry_owner) is None ==> authorized(
            s,
            name,
            caller,
            registry_owner,
        ),
        set_record_error(s, name, caller, registry_owner) is None && s.forward.contains_key(name)
            ==> authorized(s, name, caller, registry_owner),
{
}

impl ResolverContract {
    /// Every reachable resolver keeps each record's text records finite and
    /// within `MAX_TEXT_RECORDS`.
    pub proof fn law_text_records_bounded(&self)
        requires
            self.wf(),
        ensures
            text_records_bounded(self@.forward),
    {
    }
}

} // verus!