use xlm_ns::constants::{
    MAX_NAME_LENGTH, MAX_REGISTRATION_YEARS, MIN_NAME_LENGTH, MIN_REGISTRATION_YEARS,
};
use xlm_ns::validation::{
    is_valid_fqdn, parse_fqdn, validate_account_address, validate_chain_name,
    validate_contract_id, validate_label, validate_owner, validate_registration_years,
    CommonError, Tld,
};

#[test]
fn rejects_short_labels() {
    let short_label = "a".repeat(MIN_NAME_LENGTH - 1);
    assert_eq!(validate_label(&short_label), Err(CommonError::NameTooShort));
}

#[test]
fn rejects_long_labels() {
    let long_label = "a".repeat(MAX_NAME_LENGTH + 1);
    assert_eq!(validate_label(&long_label), Err(CommonError::NameTooLong));
}

#[test]
fn rejects_unsupported_tlds() {
    assert_eq!(parse_fqdn("valid.eth"), Err(CommonError::UnsupportedTld));
}

#[test]
fn rejects_invalid_characters() {
    assert_eq!(validate_label("ab_"), Err(CommonError::InvalidCharacters));
    assert_eq!(parse_fqdn("ab_.xlm"), Err(CommonError::InvalidCharacters));
}

#[test]
fn rejects_labels_with_invalid_hyphen_boundaries() {
    assert_eq!(validate_label("-abc"), Err(CommonError::InvalidLabelBoundary));
    assert_eq!(validate_label("abc-"), Err(CommonError::InvalidLabelBoundary));
}

#[test]
fn accepts_valid_fqdn() {
    assert_eq!(parse_fqdn("abc-123.xlm"), Ok(("abc-123".to_string(), Tld::Xlm)));
}

#[test]
fn enforces_registration_year_bounds() {
    assert_eq!(validate_registration_years(MIN_REGISTRATION_YEARS), Ok(()));
    assert_eq!(validate_registration_years(MAX_REGISTRATION_YEARS), Ok(()));
    assert_eq!(
        validate_registration_years(MIN_REGISTRATION_YEARS - 1),
        Err(CommonError::InvalidRegistrationPeriod)
    );
    assert_eq!(
        validate_registration_years(MAX_REGISTRATION_YEARS + 1),
        Err(CommonError::InvalidRegistrationPeriod)
    );
}

#[test]
fn validates_chain_name_presence() {
    assert_eq!(validate_chain_name("stellar"), Ok(()));
    assert_eq!(validate_chain_name("   "), Err(CommonError::EmptyChainName));
}

#[test]
fn validates_contract_ids_and_account_addresses() {
    assert_eq!(validate_contract_id("C".repeat(56).as_str()), Ok(()));
    assert_eq!(validate_account_address("G".repeat(56).as_str()), Ok(()));
    assert_eq!(validate_contract_id("bad"), Err(CommonError::InvalidContractId));
    assert_eq!(validate_account_address("bad"), Err(CommonError::InvalidAccountAddress));
}

const SAMPLE_LABELS: [&str; 8] = ["abc", "a1b2", "x-y-z", "timmy", "0x0", "a-b", "zz9", "abc-123"];

#[test]
fn accepts_strictly_valid_labels() {
    for label in SAMPLE_LABELS {
        assert_eq!(validate_label(label), Ok(()), "{label}");
    }
    assert_eq!(validate_label("ab"), Err(CommonError::NameTooShort));
    assert_eq!(validate_label(&"a".repeat(MAX_NAME_LENGTH)), Ok(()));
}

#[test]
fn rejects_labels_with_uppercase() {
    for label in ["Abc", "abC", "TIMMY", "a-B-c"] {
        assert_eq!(validate_label(label), Err(CommonError::InvalidCharacters), "{label}");
    }
}

#[test]
fn rejects_fqdn_without_tld() {
    for label in SAMPLE_LABELS {
        assert_eq!(parse_fqdn(label), Err(CommonError::MissingTld), "{label}");
    }
}

#[test]
fn parses_valid_fqdn() {
    for label in SAMPLE_LABELS {
        let fqdn = format!("{label}.xlm");
        assert_eq!(parse_fqdn(&fqdn), Ok((label.to_string(), Tld::Xlm)), "{fqdn}");
    }
}

#[test]
fn doesnt_crash_on_random_input() {
    for input in ["", ".", "..", ".xlm", "a.b.c", "é.xlm", "日本.xlm", "\u{0}", " abc.xlm ", "abc.XLM"] {
        let _ = validate_label(input);
        let _ = parse_fqdn(input);
        let _ = is_valid_fqdn(input);
    }
}

#[test]
fn label_length_counts_bytes() {
    // "éé" is two characters but four bytes, which meets the minimum length;
    // it is then refused for its characters.
    assert_eq!(validate_label("éé"), Err(CommonError::InvalidCharacters));
    assert_eq!(validate_label("é"), Err(CommonError::NameTooShort));
}

#[test]
fn fqdn_rejects_subdomains_and_empty_labels() {
    assert_eq!(parse_fqdn("pay.timmy.xlm"), Err(CommonError::InvalidName));
    assert_eq!(parse_fqdn(".xlm"), Err(CommonError::NameTooShort));
}

#[test]
fn dotted_names_accept_subdomains() {
    assert!(is_valid_fqdn("timmy.xlm"));
    assert!(is_valid_fqdn("pay.timmy.xlm"));
    assert!(!is_valid_fqdn("timmy"));
    assert!(!is_valid_fqdn("timmy.eth"));
    assert!(!is_valid_fqdn("p.timmy.xlm"));
}

#[test]
fn owners_must_not_be_blank() {
    assert_eq!(validate_owner("GABC"), Ok(()));
    assert_eq!(validate_owner(" \t "), Err(CommonError::EmptyOwner));
}

#[test]
fn identifiers_are_trimmed_and_prefixed() {
    let padded = format!("  {}  ", "C".repeat(56));
    assert_eq!(validate_contract_id(&padded), Ok(()));
    assert_eq!(validate_contract_id("   "), Err(CommonError::EmptyContractId));
    assert_eq!(validate_account_address(""), Err(CommonError::EmptyAccountAddress));
    assert_eq!(validate_contract_id(&"G".repeat(56)), Err(CommonError::InvalidContractId));
    assert_eq!(validate_account_address(&format!("G{}", "!".repeat(55))), Err(CommonError::InvalidAccountAddress));
}

#[test]
fn error_texts_are_stable() {
    assert_eq!(CommonError::NameTooShort.as_str(), "name is too short");
    assert_eq!(Tld::Xlm.as_str(), "xlm");
    assert_eq!(Tld::parse("xlm"), Some(Tld::Xlm));
    assert_eq!(Tld::parse("eth"), None);
}
