use vstd::prelude::*;

use crate::codes::{action_code, status_code, ActionKind, ReceiptStatus};

verus! {

/// Client of the analytical store.
#[verifier::external_type_specification]
#[verifier::external_body]
pub struct ExClient(clickhouse::Client);

/// A query of the analytical store, with its arguments bound, not yet sent.
#[verifier::external_type_specification]
#[verifier::external_body]
pub struct ExQuery(clickhouse::query::Query);

/// Most accounts returned for one public key.
pub const ACCOUNTS_LIMIT: u64 = 1000;

/// Most public keys returned for one account.
pub const KEYS_LIMIT: u64 = 250;

/// Server-side time budget, in seconds, of a lookup of accounts by key.
pub const ACCOUNTS_TIME_LIMIT_SECS: u64 = 2;

/// Server-side time budget, in seconds, of a lookup of keys by account.
pub const KEYS_TIME_LIMIT_SECS: u64 = 1;

/// Which side of the account/key relation a lookup starts from.
#[derive(Clone, Copy, Debug, PartialEq, Eq, Structural)]
pub enum Lookup {
    /// Given a public key, find the accounts it was added to.
    AccountsByPublicKey,
    /// Given an account, find the public keys added to it.
    PublicKeysByAccount,
}

/// The column a lookup returns.
pub open spec fn selected_column(l: Lookup) -> Seq<char> {
    match l {
        Lookup::AccountsByPublicKey => "account_id"@,
        Lookup::PublicKeysByAccount => "public_key"@,
    }
}

/// The column a lookup matches its argument against.
pub open spec fn matched_column(l: Lookup) -> Seq<char> {
    match l {
        Lookup::AccountsByPublicKey => "public_key"@,
        Lookup::PublicKeysByAccount => "account_id"@,
    }
}

/// The query text of a lookup, with a placeholder for each bound value: the
/// argument, the status, the action, the limit and the time budget.
pub open spec fn lookup_sql(l: Lookup, include_contract_scoped: bool) -> Seq<char> {
    "SELECT distinct "@ + selected_column(l) + " FROM actions WHERE "@ + matched_column(l)
        + " = ? and status = ? and action = ? "@ + (if include_contract_scoped {
        ""@
    } else {
        "and access_key_contract_id IS NULL "@
    }) + "order by block_timestamp desc limit ? SETTINGS max_execution_time = ?"@
}

/// A lookup of the action log, ready to be bound and sent.
pub struct LookupQuery {
    pub lookup: Lookup,
    /// The public key or account the lookup starts from.
    pub argument: String,
    /// Whether keys granted through a contract-scoped delegation count too.
    pub include_contract_scoped: bool,
    pub sql: String,
    pub status: u8,
    pub action: u8,
    pub limit: u64,
    pub time_limit_secs: u64,
}

impl LookupQuery {
    /// The query text and bound values agree with the lookup it stands for.
    pub open spec fn wf(&self) -> bool {
        &&& self.sql@ == lookup_sql(self.lookup, self.include_contract_scoped)
        &&& self.status == status_code(ReceiptStatus::Success)
        &&& self.action == action_code(ActionKind::AddKey)
        &&& self.limit == match self.lookup {
            Lookup::AccountsByPublicKey => ACCOUNTS_LIMIT,
            Lookup::PublicKeysByAccount => KEYS_LIMIT,
        }
        &&& self.time_limit_secs == match self.lookup {
            Lookup::AccountsByPublicKey => ACCOUNTS_TIME_LIMIT_SECS,
            Lookup::PublicKeysByAccount => KEYS_TIME_LIMIT_SECS,
        }
    }
}

fn column_name(l: Lookup, selected: bool) -> (r: &'static str)
    ensures
        r@ == if selected {
            selected_column(l)
        } else {
            matched_column(l)
        },
{
    match (l, selected) {
        (Lookup::AccountsByPublicKey, true) | (Lookup::PublicKeysByAccount, false) => "account_id",
        (Lookup::AccountsByPublicKey, false) | (Lookup::PublicKeysByAccount, true) => "public_key",
    }
}

/// The query text of lookup `l`.
pub fn build_lookup_sql(l: Lookup, include_contract_scoped: bool) -> (r: String)
    ensures
        r@ == lookup_sql(l, include_contract_scoped),
{
    let mut sql = String::from_str("SELECT distinct ");
    sql.append(column_name(l, true));
    sql.append(" FROM actions WHERE ");
    sql.append(column_name(l, false));
    sql.append(" = ? and status = ? and action = ? ");
    if !include_contract_scoped {
        sql.append("and access_key_contract_id IS NULL ");
    }
    sql.append("order by block_timestamp desc limit ? SETTINGS max_execution_time = ?");
    proof {
        reveal_strlit("");
    }
    assert(sql@ =~= lookup_sql(l, include_contract_scoped));
    sql
}

/// The lookup of `argument` in direction `l`, with that direction's limit and
/// time budget.
pub fn lookup_query(l: Lookup, argument: &str, include_contract_scoped: bool) -> (r: LookupQuery)
    ensures
        r.wf(),
        r.lookup == l,
        r.argument@ == argument@,
        r.include_contract_scoped == include_contract_scoped,
{
    let (limit, time_limit_secs) = match l {
        Lookup::AccountsByPublicKey => (ACCOUNTS_LIMIT, ACCOUNTS_TIME_LIMIT_SECS),
        Lookup::PublicKeysByAccount => (KEYS_LIMIT, KEYS_TIME_LIMIT_SECS),
    };
    LookupQuery {
        lookup: l,
        argument: String::from_str(argument),
        include_contract_scoped,
        sql: build_lookup_sql(l, include_contract_scoped),
        status: ReceiptStatus::Success.code(),
        action: ActionKind::AddKey.code(),
        limit,
        time_limit_secs,
    }
}

/// The lookup of the accounts that `public_key` was added to; keys granted
/// through a contract-scoped delegation count only if `all_public_keys`.
pub fn accounts_by_public_key_query(public_key: &str, all_public_keys: bool) -> (r: LookupQuery)
    ensures
        r.wf(),
        r.lookup == Lookup::AccountsByPublicKey,
        r.argument@ == public_key@,
        r.include_contract_scoped == all_public_keys,
{
    lookup_query(Lookup::AccountsByPublicKey, public_key, all_public_keys)
}

/// The lookup of the public keys added to `account_id`; keys granted through
/// a contract-scoped delegation count only if `all_public_keys`.
pub fn public_keys_by_account_query(account_id: &str, all_public_keys: bool) -> (r: LookupQuery)
    ensures
        r.wf(),
        r.lookup == Lookup::PublicKeysByAccount,
        r.argument@ == account_id@,
        r.include_contract_scoped == all_public_keys,
{
    lookup_query(Lookup::PublicKeysByAccount, account_id, all_public_keys)
}

/// Whether the `?` at `i` in `s` is followed by `fields`: the store's client
/// fills such a marker with column names, not with a bound value.
pub open spec fn is_fields_marker(s: Seq<char>, i: int) -> bool {
    &&& i + 7 <= s.len()
    &&& s[i + 1] == 'f'
    &&& s[i + 2] == 'i'
    &&& s[i + 3] == 'e'
    &&& s[i + 4] == 'l'
    &&& s[i + 5] == 'd'
    &&& s[i + 6] == 's'
}

/// Whether position `i` of `s` is a placeholder for a bound value.
pub open spec fn is_arg_placeholder(s: Seq<char>, i: int) -> bool {
    s[i] == '?' && !is_fields_marker(s, i)
}

/// The number of placeholders for bound values among the first `n` chars of `s`.
pub open spec fn arg_placeholders_before(s: Seq<char>, n: int) -> nat
    decreases n,
{
    if n <= 0 {
        0
    } else {
        arg_placeholders_before(s, n - 1) + if is_arg_placeholder(s, n - 1) {
            1nat
        } else {
            0nat
        }
    }
}

/// The number of placeholders for bound values in the query text `s`.
pub open spec fn arg_placeholders(s: Seq<char>) -> nat {
    arg_placeholders_before(s, s.len() as int)
}

/// A value bound into a query.
pub enum BoundArg {
    Text(Seq<char>),
    Number(u64),
}

/// A query of the analytical store, with the text it was started from, the
/// values bound so far in order, and how many placeholders are still free.
pub struct AnalyticalQuery {
    pub query: clickhouse::query::Query,
    pub sql: Ghost<Seq<char>>,
    pub bound: Ghost<Seq<BoundArg>>,
    pub free: Ghost<nat>,
}

impl AnalyticalQuery {
    /// The query of the store's client, to be sent.
    pub fn into_query(self) -> clickhouse::query::Query {
        self.query
    }
}

/// Relies on clickhouse::Client::query: a query with text `sql`, nothing
/// bound, one free placeholder for each `?` not followed by `fields`.
#[verifier::external_body]
fn start_query(client: &clickhouse::Client, sql: &str) -> (r: AnalyticalQuery)
    ensures
        r.sql@ == sql@,
        r.bound@ == Seq::<BoundArg>::empty(),
        r.free@ == arg_placeholders(sql@),
{
    AnalyticalQuery {
        query: client.query(sql),
        sql: Ghost(sql@),
        bound: Ghost(Seq::empty()),
        free: Ghost(arg_placeholders(sql@)),
    }
}

/// Relies on clickhouse::query::Query::bind: escapes the text `value` into
/// the next free placeholder; it panics when none is free.
#[verifier::external_body]
fn bind_text(q: AnalyticalQuery, value: &str) -> (r: AnalyticalQuery)
    requires
        q.free@ > 0,
    ensures
        r.sql@ == q.sql@,
        r.bound@ == q.bound@.push(BoundArg::Text(value@)),
        r.free@ == q.free@ - 1,
{
    AnalyticalQuery {
        query: q.query.bind(value),
        sql: q.sql,
        bound: Ghost(q.bound@.push(BoundArg::Text(value@))),
        free: Ghost((q.free@ - 1) as nat),
    }
}

/// Relies on clickhouse::query::Query::bind: writes the number `value` into
/// the next free placeholder; it panics when none is free.
#[verifier::external_body]
fn bind_number(q: AnalyticalQuery, value: u64) -> (r: AnalyticalQuery)
    requires
        q.free@ > 0,
    ensures
        r.sql@ == q.sql@,
        r.bound@ == q.bound@.push(BoundArg::Number(value)),
        r.free@ == q.free@ - 1,
{
    AnalyticalQuery {
        query: q.query.bind(value),
        sql: q.sql,
        bound: Ghost(q.bound@.push(BoundArg::Number(value))),
        free: Ghost((q.free@ - 1) as nat),
    }
}

/// The number of placeholders for bound values in `sql`.
pub fn count_arg_placeholders(sql: &str) -> (r: usize)
    ensures
        r == arg_placeholders(sql@),
{
    let n = sql.unicode_len();
    let mut i: usize = 0;
    let mut count: usize = 0;
    while i < n
        invariant
            i <= n,
            n == sql@.len(),
            count == arg_placeholders_before(sql@, i as int),
            count <= i,
        decreases n - i,
    {
        if sql.get_char(i) == '?' {
            let marker = 7 <= n - i && sql.get_char(i + 1) == 'f' && sql.get_char(i + 2) == 'i'
                && sql.get_char(i + 3) == 'e' && sql.get_char(i + 4) == 'l' && sql.get_char(i + 5)
                == 'd' && sql.get_char(i + 6) == 's';
            if !marker {
                count = count + 1;
            }
        }
        i = i + 1;
    }
    count
}

/// The query of the analytical store for `q`, with its argument as text, then
/// its status, action, limit and time budget as numbers, bound in that order;
/// none when the text of `q` does not have exactly five placeholders for them.
pub fn prepare(client: &clickhouse::Client, q: &LookupQuery) -> (r: Option<AnalyticalQuery>)
    ensures
        r is Some <==> arg_placeholders(q.sql@) == 5,
        r matches Some(query) ==> {
            &&& query.sql@ == q.sql@
            &&& query.free@ == 0
            &&& query.bound@ == seq![
                BoundArg::Text(q.argument@),
                BoundArg::Number(q.status as u64),
                BoundArg::Number(q.action as u64),
                BoundArg::Number(q.limit),
                BoundArg::Number(q.time_limit_secs),
            ]
        },
{
    if count_arg_placeholders(q.sql.as_str()) != 5 {
        return None;
    }
    let query = start_query(client, q.sql.as_str());
    let query = bind_text(query, q.argument.as_str());
    let query = bind_number(query, q.status as u64);
    let query = bind_number(query, q.action as u64);
    let query = bind_number(query, q.limit);
    let query = bind_number(query, q.time_limit_secs);
    assert(query.bound@ =~= seq![
        BoundArg::Text(q.argument@),
        BoundArg::Number(q.status as u64),
        BoundArg::Number(q.action as u64),
        BoundArg::Number(q.limit),
        BoundArg::Number(q.time_limit_secs),
    ]);
    Some(query)
}

} // verus!
