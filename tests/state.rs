use keys_indexer::error::DatabaseError;
use keys_indexer::state::{
    account_state, account_state_command, decode_entries, parse_height, state_key,
};

fn entries(pairs: &[(&str, &str)]) -> Vec<(String, String)> {
    pairs.iter().map(|(k, v)| (k.to_string(), v.to_string())).collect()
}

#[test]
fn fetch_account_state_decodes_leniently() {
    let reply = Ok(entries(&[("usdc.token", "12345"), ("note", "pending")]));
    let state = account_state(reply).unwrap();
    assert_eq!(
        state,
        vec![("usdc.token".to_string(), Some(12345)), ("note".to_string(), None)]
    );
}

#[test]
fn empty_hash_gives_no_entries() {
    assert!(account_state(Ok(Vec::new())).unwrap().is_empty());
}

#[test]
fn key_value_failure_is_tagged() {
    let err = redis::RedisError::from((redis::ErrorKind::IoError, "connection refused"));
    match account_state(Err(err)) {
        Err(e) => {
            assert!(e.is_key_value());
            assert!(!e.is_analytical());
            assert!(matches!(e, DatabaseError::RedisError(_)));
        }
        Ok(_) => panic!("a failed read must not give entries"),
    }
}

#[test]
fn state_key_joins_prefix_and_account() {
    assert_eq!(state_key("ft", "alice.near"), "ft:alice.near");
    assert_eq!(state_key("", ""), ":");
}

#[test]
fn heights_parse_like_unsigned_integers() {
    assert_eq!(parse_height("0"), Some(0));
    assert_eq!(parse_height("007"), Some(7));
    assert_eq!(parse_height("+42"), Some(42));
    assert_eq!(parse_height("18446744073709551615"), Some(u64::MAX));
}

#[test]
fn non_heights_parse_to_none() {
    assert_eq!(parse_height(""), None);
    assert_eq!(parse_height("+"), None);
    assert_eq!(parse_height("-1"), None);
    assert_eq!(parse_height(" 1"), None);
    assert_eq!(parse_height("12a"), None);
    assert_eq!(parse_height("1.5"), None);
    assert_eq!(parse_height("18446744073709551616"), None);
    assert_eq!(parse_height("99999999999999999999999"), None);
}

#[test]
fn heights_agree_with_std_parse() {
    for s in ["1", "+1", "-0", "", "+", "00", "18446744073709551615", "18446744073709551616", "\u{0661}\u{0662}", "x"] {
        assert_eq!(parse_height(s), s.parse::<u64>().ok(), "{s}");
    }
}

#[test]
fn decode_keeps_every_field_in_order() {
    let out = decode_entries(&entries(&[("b", "x"), ("a", "1"), ("c", "")]));
    assert_eq!(
        out,
        vec![("b".to_string(), None), ("a".to_string(), Some(1)), ("c".to_string(), None)]
    );
}

#[test]
fn account_state_command_reads_the_whole_hash() {
    let cmd = account_state_command("ft", "alice.near").into_cmd();
    assert_eq!(
        cmd.get_packed_command(),
        b"*2\r\n$7\r\nHGETALL\r\n$13\r\nft:alice.near\r\n".to_vec()
    );
}
