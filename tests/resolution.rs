use esmeralde::command::{edt, reply_for_key, UNKNOWN_GROUP_REPLY};
use esmeralde::link::{decimal_string, get_link, iso_week_of_date, signed_decimal_string};
use esmeralde::resolve::{
    key_from_lowered_roles, key_from_lowered_tokens, key_from_roles, key_from_tokens,
    resolve_key, role_key_from_lowered, role_key_of, ResolveError,
};
use esmeralde::table::{ConfigError, GroupTable};
use esmeralde::text::{contains_tp, strip_quotes, strip_separators};

fn strings(items: &[&str]) -> Vec<String> {
    items.iter().map(|s| s.to_string()).collect()
}

fn table(text: &str) -> GroupTable {
    GroupTable::from_json(text).unwrap()
}

const LINK_2024_W7_42: &str = "https://edt.iut-orsay.fr/vue_invite_horizontale.php?current_year=2024&current_week=7&groupes_multi%5B%5D=42&lar=1920&hau=1200";

#[test]
fn bare_tp_resolves_to_placeholder() {
    assert_eq!(key_from_tokens("tp", None), "wtf");
    assert_eq!(key_from_tokens("TP", None), "wtf");
    assert_eq!(key_from_lowered_tokens("tp", None), "wtf");
}

#[test]
fn tp_then_token_is_prefixed() {
    assert_eq!(key_from_tokens("tp", Some("1a")), "TP1a");
    assert_eq!(key_from_tokens("Tp", Some("2B")), "TP2B");
}

#[test]
fn token_with_tp_is_kept_lower_cased() {
    assert_eq!(key_from_tokens("TP2B", None), "tp2b");
    assert_eq!(key_from_tokens("xtpz", Some("ignored")), "xtpz");
}

#[test]
fn token_without_tp_is_prefixed() {
    assert_eq!(key_from_tokens("1A", None), "TP1a");
    assert_eq!(key_from_tokens("t-p", None), "TPt-p");
}

#[test]
fn last_matching_role_wins() {
    let roles = strings(&["Other", "tp-1a", "2b"]);
    assert_eq!(key_from_roles(&roles), Some("tp2b".to_string()));
    assert_eq!(key_from_lowered_roles(&strings(&["other", "tp-1a", "2b"])), Some("tp2b".to_string()));
    assert_eq!(resolve_key(&Vec::new(), &roles), Ok("tp2b".to_string()));
}

#[test]
fn role_name_with_space_matches_upper_key() {
    assert_eq!(role_key_of("TP 1A"), Some("tp1a".to_string()));
    let t = table(r#"{"TP1A": "42"}"#);
    let reply = edt(&t, &Vec::new(), &strings(&["TP 1A"]), 2024, 7);
    assert_eq!(reply, Ok(LINK_2024_W7_42.to_string()));
}

#[test]
fn role_names_that_name_no_group() {
    assert_eq!(role_key_of("Other"), None);
    assert_eq!(role_key_from_lowered("admin"), None);
    assert_eq!(role_key_of("1B"), Some("tp1b".to_string()));
    assert_eq!(role_key_from_lowered("g 3c"), Some("tpg3c".to_string()));
}

#[test]
fn no_tokens_and_no_matching_role_is_an_error() {
    let t = table(r#"{"TP1A": "42"}"#);
    assert_eq!(resolve_key(&Vec::new(), &strings(&["Other"])), Err(ResolveError::RoleLookupFailed));
    assert_eq!(edt(&t, &Vec::new(), &Vec::new(), 2024, 7), Err(ResolveError::RoleLookupFailed));
}

#[test]
fn link_for_week_seven_of_2024() {
    let t = table(r#"{"TP1A": "42"}"#);
    assert_eq!(get_link("42", 2024, 7), LINK_2024_W7_42);
    assert_eq!(edt(&t, &strings(&["tp", "1a"]), &Vec::new(), 2024, 7), Ok(LINK_2024_W7_42.to_string()));
    assert_eq!(edt(&t, &strings(&["1A"]), &Vec::new(), 2024, 7), Ok(LINK_2024_W7_42.to_string()));
    assert_eq!(iso_week_of_date(2024, 2, 14), Some(7));
}

#[test]
fn quote_in_site_id_is_stripped() {
    assert_eq!(get_link("4\"2", 2024, 7), LINK_2024_W7_42);
    assert_eq!(strip_quotes("\"a\"b\""), "ab");
}

#[test]
fn unknown_group_reply() {
    let t = table(r#"{"TP1A": "42"}"#);
    assert_eq!(UNKNOWN_GROUP_REPLY, "Unknown group :(");
    assert_eq!(edt(&t, &strings(&["9z"]), &Vec::new(), 2024, 7), Ok("Unknown group :(".to_string()));
    assert_eq!(edt(&t, &strings(&["tp"]), &Vec::new(), 2024, 7), Ok("Unknown group :(".to_string()));
    assert_eq!(reply_for_key(&t, "tp1b", 2024, 7), "Unknown group :(");
}

#[test]
fn invalid_json_config_is_rejected() {
    assert!(matches!(GroupTable::from_json("{not json"), Err(ConfigError::Malformed)));
    assert!(matches!(GroupTable::from_json(""), Err(ConfigError::Malformed)));
    assert!(matches!(GroupTable::from_json("[1, 2]"), Err(ConfigError::Malformed)));
    assert!(GroupTable::from_json("{}").is_ok());
}

#[test]
fn lookup_upper_cases_and_gives_json_text() {
    let t = table(r#"{"TP1A": "42", "tp2b": "7"}"#);
    assert_eq!(t.lookup("tp1a"), Some("\"42\"".to_string()));
    assert_eq!(t.get_exact("tp1a"), None);
    assert_eq!(t.get_exact("tp2b"), Some("\"7\"".to_string()));
    assert_eq!(t.lookup("tp2b"), None);
    assert_eq!(reply_for_key(&t, "tp1a", 2024, 7), LINK_2024_W7_42);
}

#[test]
fn iso_weeks_of_dates() {
    assert_eq!(iso_week_of_date(2021, 1, 1), Some(53));
    assert_eq!(iso_week_of_date(2024, 12, 30), Some(1));
    assert_eq!(iso_week_of_date(2024, 2, 29), Some(9));
    assert_eq!(iso_week_of_date(2023, 2, 29), None);
    assert_eq!(iso_week_of_date(2024, 13, 1), None);
    assert_eq!(iso_week_of_date(262143, 1, 1), None);
}

#[test]
fn decimal_forms() {
    assert_eq!(decimal_string(0), "0");
    assert_eq!(decimal_string(1920), "1920");
    assert_eq!(decimal_string(u64::MAX), "18446744073709551615");
    assert_eq!(signed_decimal_string(-42), "-42");
    assert_eq!(signed_decimal_string(i64::MIN), "-9223372036854775808");
    assert_eq!(get_link("x", -5, 1), "https://edt.iut-orsay.fr/vue_invite_horizontale.php?current_year=-5&current_week=1&groupes_multi%5B%5D=x&lar=1920&hau=1200");
}

#[test]
fn separators_and_tp_search() {
    assert_eq!(strip_separators("tp_1-a b"), "tp1ab");
    assert_eq!(strip_separators(""), "");
    assert!(contains_tp("xtp"));
    assert!(!contains_tp("t p"));
    assert!(!contains_tp("t"));
}
