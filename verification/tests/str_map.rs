use xlm_ns::str_map::StrMap;
use xlm_ns::text::{str_eq, trim};

#[test]
fn string_maps_keep_one_value_per_key() {
    let mut m: StrMap<String> = StrMap::new();
    m.insert("a".to_string(), "1".to_string());
    m.insert("b".to_string(), "2".to_string());
    m.insert("a".to_string(), "3".to_string());
    assert_eq!(m.len(), 2);
    assert_eq!(m.get("a"), Some(&"3".to_string()));
    m.remove("a");
    assert!(!m.contains_key("a"));
    assert_eq!(m.len(), 1);
    let copy = m.duplicate();
    assert_eq!(copy.get("b"), Some(&"2".to_string()));
}

#[test]
fn trimming_follows_unicode_white_space() {
    assert_eq!(trim("\u{3000} abc \t\n"), "abc");
    assert!(str_eq("é", "é"));
    assert!(!str_eq("e", "é"));
}
