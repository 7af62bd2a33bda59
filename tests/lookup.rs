use keys_indexer::codes::{ActionKind, ReceiptStatus};
use keys_indexer::error::{analytical_result, DatabaseError};
use keys_indexer::log::{run_lookup, ActionRecord};
use keys_indexer::lookup::{
    accounts_by_public_key_query, build_lookup_sql, count_arg_placeholders, prepare,
    public_keys_by_account_query, Lookup,
};

fn add_key(account: &str, key: &str, contract: Option<&str>, ts: u64) -> ActionRecord {
    ActionRecord {
        account_id: account.to_string(),
        public_key: key.to_string(),
        action: ActionKind::AddKey,
        status: ReceiptStatus::Success,
        access_key_contract_id: contract.map(|c| c.to_string()),
        block_timestamp: ts,
    }
}

#[test]
fn accounts_by_public_key_example() {
    let log = vec![add_key("alice.near", "ed25519:abc", None, 1)];
    let narrow = run_lookup(&log, &accounts_by_public_key_query("ed25519:abc", false));
    assert_eq!(narrow, vec!["alice.near".to_string()]);
    let wide = run_lookup(&log, &accounts_by_public_key_query("ed25519:abc", true));
    for a in &narrow {
        assert!(wide.contains(a));
    }
}

#[test]
fn symmetric_relation() {
    let log = vec![
        add_key("bob.near", "ed25519:k2", None, 1),
        add_key("alice.near", "ed25519:k1", None, 2),
    ];
    let accounts = run_lookup(&log, &accounts_by_public_key_query("ed25519:k1", false));
    let keys = run_lookup(&log, &public_keys_by_account_query("alice.near", false));
    assert_eq!(accounts, vec!["alice.near".to_string()]);
    assert_eq!(keys, vec!["ed25519:k1".to_string()]);
}

#[test]
fn contract_scoped_keys_only_when_asked() {
    let log = vec![
        add_key("alice.near", "ed25519:a", None, 1),
        add_key("alice.near", "ed25519:b", Some("app.near"), 2),
    ];
    let without = run_lookup(&log, &public_keys_by_account_query("alice.near", false));
    let with = run_lookup(&log, &public_keys_by_account_query("alice.near", true));
    assert_eq!(without, vec!["ed25519:a".to_string()]);
    assert_eq!(with, vec!["ed25519:b".to_string(), "ed25519:a".to_string()]);
}

#[test]
fn failed_and_other_actions_are_ignored() {
    let mut failed = add_key("alice.near", "ed25519:a", None, 1);
    failed.status = ReceiptStatus::Failure;
    let mut deleted = add_key("bob.near", "ed25519:a", None, 2);
    deleted.action = ActionKind::DeleteKey;
    let log = vec![failed, deleted];
    assert!(run_lookup(&log, &accounts_by_public_key_query("ed25519:a", true)).is_empty());
}

#[test]
fn newest_first_and_distinct() {
    let log = vec![
        add_key("a.near", "k", None, 1),
        add_key("b.near", "k", None, 2),
        add_key("a.near", "k", None, 3),
        add_key("c.near", "k", None, 4),
    ];
    let out = run_lookup(&log, &accounts_by_public_key_query("k", false));
    assert_eq!(out, vec!["c.near".to_string(), "a.near".to_string(), "b.near".to_string()]);
}

#[test]
fn results_are_capped_at_the_limit() {
    let log: Vec<ActionRecord> =
        (0..300u64).map(|i| add_key("alice.near", &format!("key{i}"), None, i)).collect();
    let q = public_keys_by_account_query("alice.near", false);
    assert_eq!(q.limit, 250);
    let out = run_lookup(&log, &q);
    assert_eq!(out.len(), 250);
    assert_eq!(out[0], "key299");
    assert_eq!(out[249], "key50");
}

#[test]
fn lookup_policies() {
    let by_key = accounts_by_public_key_query("k", false);
    assert_eq!(by_key.lookup, Lookup::AccountsByPublicKey);
    assert_eq!((by_key.limit, by_key.time_limit_secs), (1000, 2));
    assert_eq!((by_key.status, by_key.action), (2, 3));
    let by_account = public_keys_by_account_query("a", true);
    assert_eq!(by_account.lookup, Lookup::PublicKeysByAccount);
    assert_eq!((by_account.limit, by_account.time_limit_secs), (250, 1));
    assert_eq!(by_account.argument, "a");
    assert!(by_account.include_contract_scoped);
}

#[test]
fn lookup_sql_text() {
    assert_eq!(
        build_lookup_sql(Lookup::AccountsByPublicKey, false),
        "SELECT distinct account_id FROM actions WHERE public_key = ? and status = ? and action = ? and access_key_contract_id IS NULL order by block_timestamp desc limit ? SETTINGS max_execution_time = ?"
    );
    assert_eq!(
        build_lookup_sql(Lookup::PublicKeysByAccount, true),
        "SELECT distinct public_key FROM actions WHERE account_id = ? and status = ? and action = ? order by block_timestamp desc limit ? SETTINGS max_execution_time = ?"
    );
    assert_eq!(
        accounts_by_public_key_query("k", true).sql,
        build_lookup_sql(Lookup::AccountsByPublicKey, true)
    );
}

#[test]
fn analytical_failure_is_tagged() {
    let r: Result<Vec<String>, DatabaseError> =
        analytical_result(Err(clickhouse::error::Error::TimedOut));
    match r {
        Err(e) => {
            assert!(e.is_analytical());
            assert!(!e.is_key_value());
            assert!(matches!(e, DatabaseError::ClickhouseError(clickhouse::error::Error::TimedOut)));
        }
        Ok(_) => panic!("a failed query must not give rows"),
    }
    let ok = analytical_result::<Vec<String>>(Ok(vec!["x".to_string()])).unwrap();
    assert_eq!(ok, vec!["x".to_string()]);
}

#[test]
fn error_from_backend_errors() {
    let e: DatabaseError = clickhouse::error::Error::RowNotFound.into();
    assert!(e.is_analytical());
    let e: DatabaseError = redis::RedisError::from((redis::ErrorKind::IoError, "down")).into();
    assert!(e.is_key_value());
}

#[test]
fn built_lookups_have_five_placeholders() {
    let client = keys_indexer::connection::analytical_client("http://127.0.0.1:8123", "u", "p", "d")
        .into_client();
    for all in [false, true] {
        for q in [accounts_by_public_key_query("k", all), public_keys_by_account_query("a", all)] {
            assert_eq!(count_arg_placeholders(&q.sql), 5);
            assert!(prepare(&client, &q).is_some());
        }
    }
}

#[test]
fn prepare_refuses_text_without_room_for_the_values() {
    let client = keys_indexer::connection::analytical_client("http://127.0.0.1:8123", "u", "p", "d")
        .into_client();
    let mut q = accounts_by_public_key_query("k", false);
    q.sql = "SELECT 1".to_string();
    assert!(prepare(&client, &q).is_none());
    q.sql = "SELECT ?fields FROM t WHERE a = ? and b = ? and c = ? limit ? SETTINGS x = ?".to_string();
    assert_eq!(count_arg_placeholders(&q.sql), 5);
    assert!(prepare(&client, &q).is_some());
    assert_eq!(count_arg_placeholders("? ? ?fields ?field"), 3);
}
