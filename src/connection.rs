use vstd::prelude::*;

use crate::error::{key_value_result, DatabaseError};

verus! {

/// Client of the key-value store; it holds where to connect, not a connection.
#[verifier::external_type_specification]
#[verifier::external_body]
pub struct ExRedisClient(redis::Client);

/// The handle of the analytical store, with the settings it was given.
pub struct AnalyticalClient {
    pub client: clickhouse::Client,
    pub url: Ghost<Seq<char>>,
    pub user: Ghost<Option<Seq<char>>>,
    pub password: Ghost<Option<Seq<char>>>,
    pub database: Ghost<Option<Seq<char>>>,
}

impl AnalyticalClient {
    /// The handle of the store's client, to query with.
    pub fn into_client(self) -> clickhouse::Client {
        self.client
    }
}

/// Relies on clickhouse::Client's Default impl: no url, user, password or
/// database set.
#[verifier::external_body]
fn default_client() -> (r: AnalyticalClient)
    ensures
        r.url@ == Seq::<char>::empty(),
        r.user@ is None,
        r.password@ is None,
        r.database@ is None,
{
    AnalyticalClient {
        client: clickhouse::Client::default(),
        url: Ghost(Seq::empty()),
        user: Ghost(None),
        password: Ghost(None),
        database: Ghost(None),
    }
}

/// Relies on clickhouse::Client::with_url: sets the HTTP endpoint, and
/// nothing else.
#[verifier::external_body]
fn with_url(c: AnalyticalClient, url: &str) -> (r: AnalyticalClient)
    ensures
        r.url@ == url@,
        r.user@ == c.user@,
        r.password@ == c.password@,
        r.database@ == c.database@,
{
    AnalyticalClient { client: c.client.with_url(url), url: Ghost(url@), ..c }
}

/// Relies on clickhouse::Client::with_user: sets the user name, and nothing
/// else.
#[verifier::external_body]
fn with_user(c: AnalyticalClient, user: &str) -> (r: AnalyticalClient)
    ensures
        r.url@ == c.url@,
        r.user@ == Some(user@),
        r.password@ == c.password@,
        r.database@ == c.database@,
{
    AnalyticalClient { client: c.client.with_user(user), user: Ghost(Some(user@)), ..c }
}

/// Relies on clickhouse::Client::with_password: sets the password, and
/// nothing else.
#[verifier::external_body]
fn with_password(c: AnalyticalClient, password: &str) -> (r: AnalyticalClient)
    ensures
        r.url@ == c.url@,
        r.user@ == c.user@,
        r.password@ == Some(password@),
        r.database@ == c.database@,
{
    AnalyticalClient {
        client: c.client.with_password(password),
        password: Ghost(Some(password@)),
        ..c
    }
}

/// Relies on clickhouse::Client::with_database: sets the database name, and
/// nothing else.
#[verifier::external_body]
fn with_database(c: AnalyticalClient, database: &str) -> (r: AnalyticalClient)
    ensures
        r.url@ == c.url@,
        r.user@ == c.user@,
        r.password@ == c.password@,
        r.database@ == Some(database@),
{
    AnalyticalClient {
        client: c.client.with_database(database),
        database: Ghost(Some(database@)),
        ..c
    }
}

/// Relies on redis::Client::open: reads `url` as connection settings,
/// without connecting.
#[verifier::external_body]
fn open_redis(url: &str) -> redis::RedisResult<redis::Client> {
    redis::Client::open(url)
}

/// The handle of the analytical store at `url`, logged in as `user` with
/// `password`, on `database`. Nothing is sent until a query is.
pub fn analytical_client(url: &str, user: &str, password: &str, database: &str) -> (r:
    AnalyticalClient)
    ensures
        r.url@ == url@,
        r.user@ == Some(user@),
        r.password@ == Some(password@),
        r.database@ == Some(database@),
{
    let client = default_client();
    let client = with_url(client, url);
    let client = with_user(client, user);
    let client = with_password(client, password);
    with_database(client, database)
}

/// The handle of the key-value store at `url`; a `url` that does not read as
/// connection settings gives the store's error, tagged as a key-value error.
pub fn key_value_client(url: &str) -> (r: Result<redis::Client, DatabaseError>)
    ensures
        r matches Err(e) ==> e is RedisError,
{
    key_value_result(open_redis(url))
}

} // verus!
