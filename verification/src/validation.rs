//! Shared validation rules for labels, fully-qualified names, owners,
//! registration periods, chain names, contract ids and account addresses.

use vstd::prelude::*;
use vstd::string::*;
use vstd::utf8::encode_utf8;

use crate::constants::{
    MAX_NAME_LENGTH, MAX_REGISTRATION_YEARS, MIN_NAME_LENGTH, MIN_REGISTRATION_YEARS,
};
use crate::text::{
    char_is_ascii_alphanumeric, char_is_ascii_digit, char_is_ascii_lower, chars_equal, chars_of,
    is_ascii_alphanumeric, is_ascii_digit, is_ascii_lower, trim, trim_chars,
};

verus! {

/// Reasons a name, owner, period or identifier is rejected.
#[derive(Debug, Clone, Copy, PartialEq, Eq, Structural)]
pub enum CommonError {
    NameTooShort,
    NameTooLong,
    InvalidCharacters,
    InvalidLabelBoundary,
    EmptyOwner,
    InvalidRegistrationPeriod,
    InvalidName,
    MissingTld,
    UnsupportedTld,
    EmptyChainName,
    EmptyContractId,
    InvalidContractId,
    EmptyAccountAddress,
    InvalidAccountAddress,
}

/// The human-readable description of an error.
pub open spec fn common_error_text(e: CommonError) -> Seq<char> {
    match e {
        CommonError::NameTooShort => "name is too short"@,
        CommonError::NameTooLong => "name is too long"@,
        CommonError::InvalidCharacters => "name contains invalid characters"@,
        CommonError::InvalidLabelBoundary => "name must not start or end with a hyphen"@,
        CommonError::EmptyOwner => "owner must not be empty"@,
        CommonError::InvalidRegistrationPeriod => "registration period is out of range"@,
        CommonError::InvalidName => "name is not a valid fully-qualified name"@,
        CommonError::MissingTld => "name is missing a top-level domain"@,
        CommonError::UnsupportedTld => "top-level domain is not supported"@,
        CommonError::EmptyChainName => "chain name must not be empty"@,
        CommonError::EmptyContractId => "contract id must not be empty"@,
        CommonError::InvalidContractId => "contract id is not a valid contract strkey"@,
        CommonError::EmptyAccountAddress => "account address must not be empty"@,
        CommonError::InvalidAccountAddress => "account address is not a valid account strkey"@,
    }
}

impl CommonError {
    /// A short human-readable description of the error.
    pub fn as_str(&self) -> (s: &'static str)
        ensures
            s@ == common_error_text(*self),
    {
        match self {
            CommonError::NameTooShort => "name is too short",
            CommonError::NameTooLong => "name is too long",
            CommonError::InvalidCharacters => "name contains invalid characters",
            CommonError::InvalidLabelBoundary => "name must not start or end with a hyphen",
            CommonError::EmptyOwner => "owner must not be empty",
            CommonError::InvalidRegistrationPeriod => "registration period is out of range",
            CommonError::InvalidName => "name is not a valid fully-qualified name",
            CommonError::MissingTld => "name is missing a top-level domain",
            CommonError::UnsupportedTld => "top-level domain is not supported",
            CommonError::EmptyChainName => "chain name must not be empty",
            CommonError::EmptyContractId => "contract id must not be empty",
            CommonError::InvalidContractId => "contract id is not a valid contract strkey",
            CommonError::EmptyAccountAddress => "account address must not be empty",
            CommonError::InvalidAccountAddress => "account address is not a valid account strkey",
        }
    }
}

/// The top-level domains the name service issues names under.
#[derive(Debug, Clone, Copy, PartialEq, Eq, Structural)]
pub enum Tld {
    Xlm,
}

pub open spec fn tld_of(value: Seq<char>) -> Option<Tld> {
    if value == "xlm"@ {
        Some(Tld::Xlm)
    } else {
        None
    }
}

impl Tld {
    /// The top-level domain spelled `value`, if it is supported.
    pub fn parse(value: &str) -> (r: Option<Tld>)
        ensures
            r == tld_of(value@),
    {
        let v = chars_of(value);
        let xlm = chars_of("xlm");
        if chars_equal(&v, &xlm) {
            Some(Tld::Xlm)
        } else {
            None
        }
    }

    pub fn as_str(&self) -> (s: &'static str)
        ensures
            s@ == "xlm"@,
    {
        match self {
            Tld::Xlm => "xlm",
        }
    }
}

/// Byte length of the UTF-8 encoding of `s`, the length `str::len` reports.
pub open spec fn byte_len(s: Seq<char>) -> usize {
    encode_utf8(s).len() as usize
}

pub open spec fn is_label_char(c: char) -> bool {
    is_ascii_lower(c) || is_ascii_digit(c) || c == '-'
}

pub open spec fn all_label_chars_spec(l: Seq<char>) -> bool {
    forall|i: int| 0 <= i < l.len() ==> is_label_char(#[trigger] l[i])
}

/// The verdict on a label (a name without its top-level domain).
pub open spec fn label_check(l: Seq<char>) -> Result<(), CommonError> {
    if byte_len(l) < MIN_NAME_LENGTH {
        Err(CommonError::NameTooShort)
    } else if byte_len(l) > MAX_NAME_LENGTH {
        Err(CommonError::NameTooLong)
    } else if !all_label_chars_spec(l) {
        Err(CommonError::InvalidCharacters)
    } else if l.len() > 0 && (l[0] == '-' || l[l.len() - 1] == '-') {
        Err(CommonError::InvalidLabelBoundary)
    } else {
        Ok(())
    }
}

/// Whether every character of `s` satisfies `is_label_char`.
fn all_label_chars(s: &str) -> (r: bool)
    ensures
        r == all_label_chars_spec(s@),
{
    let n = s.unicode_len();
    let mut i: usize = 0;
    while i < n
        invariant
            n == s@.len(),
            i <= n,
            forall|k: int| 0 <= k < i ==> is_label_char(#[trigger] s@[k]),
        decreases n - i,
    {
        let c = s.get_char(i);
        if !(char_is_ascii_lower(c) || char_is_ascii_digit(c) || c == '-') {
            return false;
        }
        i = i + 1;
    }
    true
}

/// Checks a label: its byte length lies within the configured bounds, it
/// holds only lowercase ASCII letters, digits and hyphens, and it neither
/// starts nor ends with a hyphen.
pub fn validate_label(label: &str) -> (r: Result<(), CommonError>)
    ensures
        r == label_check(label@),
{
    let len = label.len();
    if len < MIN_NAME_LENGTH {
        return Err(CommonError::NameTooShort);
    }
    if len > MAX_NAME_LENGTH {
        return Err(CommonError::NameTooLong);
    }
    if !all_label_chars(label) {
        return Err(CommonError::InvalidCharacters);
    }
    let n = label.unicode_len();
    if n > 0 && (label.get_char(0) == '-' || label.get_char(n - 1) == '-') {
        return Err(CommonError::InvalidLabelBoundary);
    }
    Ok(())
}

/// The verdict on an owner: it must hold something besides white space.
pub open spec fn owner_check(owner: Seq<char>) -> Result<(), CommonError> {
    if trim_chars(owner).len() == 0 {
        Err(CommonError::EmptyOwner)
    } else {
        Ok(())
    }
}

pub fn validate_owner(owner: &str) -> (r: Result<(), CommonError>)
    ensures
        r == owner_check(owner@),
{
    let t = trim(owner);
    if t.unicode_len() == 0 {
        return Err(CommonError::EmptyOwner);
    }
    Ok(())
}

pub open spec fn years_check(years: u64) -> Result<(), CommonError> {
    if MIN_REGISTRATION_YEARS <= years && years <= MAX_REGISTRATION_YEARS {
        Ok(())
    } else {
        Err(CommonError::InvalidRegistrationPeriod)
    }
}

/// Checks that a registration period lies within the allowed number of years.
pub fn validate_registration_years(years: u64) -> (r: Result<(), CommonError>)
    ensures
        r == years_check(years),
{
    if !(MIN_REGISTRATION_YEARS <= years && years <= MAX_REGISTRATION_YEARS) {
        return Err(CommonError::InvalidRegistrationPeriod);
    }
    Ok(())
}

/// Index of the first `c` at or after `i` in `s` (the length when none).
pub open spec fn find_from(s: Seq<char>, c: char, i: int) -> int
    decreases s.len() - i,
{
    if i >= s.len() {
        s.len() as int
    } else if s[i] == c {
        i
    } else {
        find_from(s, c, i + 1)
    }
}

pub proof fn lemma_find_from(s: Seq<char>, c: char, i: int)
    requires
        0 <= i <= s.len(),
    ensures
        i <= find_from(s, c, i) <= s.len(),
        forall|k: int| i <= k < find_from(s, c, i) ==> s[k] != c,
        find_from(s, c, i) < s.len() ==> s[find_from(s, c, i)] == c,
    decreases s.len() - i,
{
    if i < s.len() && s[i] != c {
        lemma_find_from(s, c, i + 1);
    }
}

/// Index of the first `c` in `s`, or the length of `s` when there is none.
pub fn find_char(s: &str, c: char) -> (r: usize)
    ensures
        r == find_from(s@, c, 0),
        r <= s@.len(),
{
    proof {
        lemma_find_from(s@, c, 0);
    }
    let n = s.unicode_len();
    let mut i: usize = 0;
    while i < n
        invariant
            n == s@.len(),
            i <= n,
            find_from(s@, c, i as int) == find_from(s@, c, 0),
        decreases n - i,
    {
        if s.get_char(i) == c {
            return i;
        }
        i = i + 1;
    }
    i
}

/// The verdict on a fully-qualified name `label.tld`: the label and the
/// top-level domain, or the first rule it breaks.
pub open spec fn fqdn_check(s: Seq<char>) -> Result<(Seq<char>, Tld), CommonError> {
    let d = find_from(s, '.', 0);
    let rest = s.subrange(d + 1, s.len() as int);
    if d >= s.len() {
        Err(CommonError::MissingTld)
    } else if find_from(rest, '.', 0) < rest.len() {
        Err(CommonError::InvalidName)
    } else if label_check(s.subrange(0, d)) is Err {
        Err(label_check(s.subrange(0, d))->Err_0)
    } else if tld_of(rest) is None {
        Err(CommonError::UnsupportedTld)
    } else {
        Ok((s.subrange(0, d), tld_of(rest)->Some_0))
    }
}

/// Splits `label.tld` into its label and top-level domain, validating both.
pub fn parse_fqdn(name: &str) -> (r: Result<(String, Tld), CommonError>)
    ensures
        match r {
            Ok((label, tld)) => fqdn_check(name@) == Ok::<(Seq<char>, Tld), CommonError>(
                (label@, tld),
            ),
            Err(e) => fqdn_check(name@) == Err::<(Seq<char>, Tld), CommonError>(e),
        },
{
    let n = name.unicode_len();
    let d = find_char(name, '.');
    if d >= n {
        return Err(CommonError::MissingTld);
    }
    let rest = name.substring_char(d + 1, n);
    if find_char(rest, '.') < rest.unicode_len() {
        return Err(CommonError::InvalidName);
    }
    let label = name.substring_char(0, d);
    match validate_label(label) {
        Err(e) => {
            return Err(e);
        },
        Ok(()) => {},
    }
    match Tld::parse(rest) {
        None => Err(CommonError::UnsupportedTld),
        Some(tld) => Ok((String::from_str(label), tld)),
    }
}

/// Whether every dot-separated label of `s` is valid and the last part is
/// a supported top-level domain (`pay.timmy.xlm` qualifies).
pub open spec fn dotted_labels_valid(s: Seq<char>) -> bool
    decreases s.len(),
{
    let d = find_from(s, '.', 0);
    if d >= s.len() {
        tld_of(s) is Some
    } else {
        proof {
            lemma_find_from(s, '.', 0);
        }
        label_check(s.subrange(0, d)) is Ok && dotted_labels_valid(s.subrange(d + 1, s.len() as int))
    }
}

/// A fully-qualified name: at least one label before a supported top-level
/// domain, every label valid.
pub open spec fn fqdn_valid(s: Seq<char>) -> bool {
    find_from(s, '.', 0) < s.len() && dotted_labels_valid(s)
}

/// Whether `name` is a fully-qualified `.xlm` name, subdomains included.
pub fn is_valid_fqdn(name: &str) -> (r: bool)
    ensures
        r == fqdn_valid(name@),
{
    if find_char(name, '.') >= name.unicode_len() {
        return false;
    }
    let mut cur: &str = name;
    loop
        invariant
            dotted_labels_valid(cur@) == dotted_labels_valid(name@),
            find_from(name@, '.', 0) < name@.len(),
        decreases cur@.len(),
    {
        let n = cur.unicode_len();
        let d = find_char(cur, '.');
        if d >= n {
            return Tld::parse(cur).is_some();
        }
        let label = cur.substring_char(0, d);
        if validate_label(label).is_err() {
            return false;
        }
        cur = cur.substring_char(d + 1, n);
    }
}

pub open spec fn chain_name_check(chain: Seq<char>) -> Result<(), CommonError> {
    if trim_chars(chain).len() == 0 {
        Err(CommonError::EmptyChainName)
    } else {
        Ok(())
    }
}

pub fn validate_chain_name(chain: &str) -> (r: Result<(), CommonError>)
    ensures
        r == chain_name_check(chain@),
{
    let t = trim(chain);
    if t.unicode_len() == 0 {
        return Err(CommonError::EmptyChainName);
    }
    Ok(())
}

/// Whether `t` has the shape of a strkey with the given prefix: 56 bytes,
/// starting with `prefix`, ASCII letters and digits only.
pub open spec fn strkey_shaped(t: Seq<char>, prefix: char) -> bool {
    &&& byte_len(t) == 56
    &&& t.len() > 0
    &&& t[0] == prefix
    &&& forall|i: int| 0 <= i < t.len() ==> is_ascii_alphanumeric(#[trigger] t[i])
}

fn is_strkey_shaped(t: &str, prefix: char) -> (r: bool)
    ensures
        r == strkey_shaped(t@, prefix),
{
    if t.len() != 56 {
        return false;
    }
    let n = t.unicode_len();
    if n == 0 || t.get_char(0) != prefix {
        return false;
    }
    let mut i: usize = 0;
    while i < n
        invariant
            n == t@.len(),
            i <= n,
            forall|k: int| 0 <= k < i ==> is_ascii_alphanumeric(#[trigger] t@[k]),
        decreases n - i,
    {
        if !char_is_ascii_alphanumeric(t.get_char(i)) {
            return false;
        }
        i = i + 1;
    }
    true
}

pub open spec fn contract_id_check(id: Seq<char>) -> Result<(), CommonError> {
    if trim_chars(id).len() == 0 {
        Err(CommonError::EmptyContractId)
    } else if !strkey_shaped(trim_chars(id), 'C') {
        Err(CommonError::InvalidContractId)
    } else {
        Ok(())
    }
}

/// Checks that a contract id, once trimmed, is a 56-character `C...` strkey.
pub fn validate_contract_id(contract_id: &str) -> (r: Result<(), CommonError>)
    ensures
        r == contract_id_check(contract_id@),
{
    let t = trim(contract_id);
    if t.unicode_len() == 0 {
        return Err(CommonError::EmptyContractId);
    }
    if !is_strkey_shaped(t, 'C') {
        return Err(CommonError::InvalidContractId);
    }
    Ok(())
}

pub open spec fn account_address_check(address: Seq<char>) -> Result<(), CommonError> {
    if trim_chars(address).len() == 0 {
        Err(CommonError::EmptyAccountAddress)
    } else if !strkey_shaped(trim_chars(address), 'G') {
        Err(CommonError::InvalidAccountAddress)
    } else {
        Ok(())
    }
}

/// Checks that an account address, once trimmed, is a 56-character `G...` strkey.
pub fn validate_account_address(address: &str) -> (r: Result<(), CommonError>)
    ensures
        r == account_address_check(address@),
{
    let t = trim(address);
    if t.unicode_len() == 0 {
        return Err(CommonError::EmptyAccountAddress);
    }
    if !is_strkey_shaped(t, 'G') {
        return Err(CommonError::InvalidAccountAddress);
    }
    Ok(())
}

} // verus!
