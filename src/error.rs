use vstd::prelude::*;

verus! {

/// Failure reported by the analytical store's client.
#[verifier::external_type_specification]
#[verifier::external_body]
pub struct ExClickhouseError(clickhouse::error::Error);

/// Failure reported by the key-value store's client.
#[verifier::external_type_specification]
#[verifier::external_body]
pub struct ExRedisError(redis::RedisError);

/// One error type for both backends, tagged by the store it came from.
#[derive(Debug)]
pub enum DatabaseError {
    ClickhouseError(clickhouse::error::Error),
    RedisError(redis::RedisError),
}

impl DatabaseError {
    /// Whether the failure came from the analytical store.
    pub fn is_analytical(&self) -> (r: bool)
        ensures
            r <==> self is ClickhouseError,
    {
        match self {
            DatabaseError::ClickhouseError(_) => true,
            DatabaseError::RedisError(_) => false,
        }
    }

    /// Whether the failure came from the key-value store.
    pub fn is_key_value(&self) -> (r: bool)
        ensures
            r <==> self is RedisError,
    {
        match self {
            DatabaseError::ClickhouseError(_) => false,
            DatabaseError::RedisError(_) => true,
        }
    }
}

impl From<clickhouse::error::Error> for DatabaseError {
    fn from(error: clickhouse::error::Error) -> (r: DatabaseError)
        ensures
            r == DatabaseError::ClickhouseError(error),
    {
        DatabaseError::ClickhouseError(error)
    }
}

impl vstd::std_specs::convert::FromSpecImpl<clickhouse::error::Error> for DatabaseError {
    open spec fn obeys_from_spec() -> bool {
        true
    }

    open spec fn from_spec(v: clickhouse::error::Error) -> DatabaseError {
        DatabaseError::ClickhouseError(v)
    }
}

impl From<redis::RedisError> for DatabaseError {
    fn from(error: redis::RedisError) -> (r: DatabaseError)
        ensures
            r == DatabaseError::RedisError(error),
    {
        DatabaseError::RedisError(error)
    }
}

impl vstd::std_specs::convert::FromSpecImpl<redis::RedisError> for DatabaseError {
    open spec fn obeys_from_spec() -> bool {
        true
    }

    open spec fn from_spec(v: redis::RedisError) -> DatabaseError {
        DatabaseError::RedisError(v)
    }
}

/// A reply of the analytical store, with its failure tagged by origin.
/// Rows pass through untouched; a failure yields no rows at all.
pub fn analytical_result<T>(reply: Result<T, clickhouse::error::Error>) -> (r: Result<
    T,
    DatabaseError,
>)
    ensures
        reply matches Ok(v) ==> r == Ok::<T, DatabaseError>(v),
        reply matches Err(e) ==> r == Err::<T, DatabaseError>(DatabaseError::ClickhouseError(e)),
{
    match reply {
        Ok(v) => Ok(v),
        Err(e) => Err(DatabaseError::from(e)),
    }
}

/// A reply of the key-value store, with its failure tagged by origin.
/// The value passes through untouched; a failure yields no value at all.
pub fn key_value_result<T>(reply: Result<T, redis::RedisError>) -> (r: Result<T, DatabaseError>)
    ensures
        reply matches Ok(v) ==> r == Ok::<T, DatabaseError>(v),
        reply matches Err(e) ==> r == Err::<T, DatabaseError>(DatabaseError::RedisError(e)),
{
    match reply {
        Ok(v) => Ok(v),
        Err(e) => Err(DatabaseError::from(e)),
    }
}

} // verus!
