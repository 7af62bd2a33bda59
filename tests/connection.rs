use keys_indexer::connection::{analytical_client, key_value_client};
use keys_indexer::error::DatabaseError;

#[test]
fn key_value_client_accepts_a_redis_url() {
    assert!(key_value_client("redis://127.0.0.1:6379/0").is_ok());
}

#[test]
fn key_value_client_rejects_a_bad_url() {
    match key_value_client("not a url") {
        Err(e) => assert!(matches!(e, DatabaseError::RedisError(_))),
        Ok(_) => panic!("a bad url must not give a client"),
    }
}

#[test]
fn analytical_client_builds_without_connecting() {
    let client = analytical_client("http://127.0.0.1:8123", "reader", "password", "default");
    let _query = client.into_client().query("SELECT 1");
}
