use vstd::prelude::*;

use crate::codes::{ActionKind, ReceiptStatus};
use crate::lookup::{Lookup, LookupQuery};

verus! {

/// One action of the ledger's event log.
pub struct ActionRecord {
    pub account_id: String,
    pub public_key: String,
    pub action: ActionKind,
    pub status: ReceiptStatus,
    /// Set when the key was granted for calls to one contract only.
    pub access_key_contract_id: Option<String>,
    pub block_timestamp: u64,
}

/// The value of `r` that lookup `l` matches its argument against.
pub open spec fn matched_value(r: ActionRecord, l: Lookup) -> Seq<char> {
    match l {
        Lookup::AccountsByPublicKey => r.public_key@,
        Lookup::PublicKeysByAccount => r.account_id@,
    }
}

/// The value of `r` that lookup `l` returns.
pub open spec fn selected_value(r: ActionRecord, l: Lookup) -> Seq<char> {
    match l {
        Lookup::AccountsByPublicKey => r.account_id@,
        Lookup::PublicKeysByAccount => r.public_key@,
    }
}

/// Whether `r` is a successful key addition that answers lookup `l` of
/// `argument`; a contract-scoped one answers only if `include_contract_scoped`.
pub open spec fn answers(
    r: ActionRecord,
    l: Lookup,
    argument: Seq<char>,
    include_contract_scoped: bool,
) -> bool {
    &&& r.status == ReceiptStatus::Success
    &&& r.action == ActionKind::AddKey
    &&& (include_contract_scoped || r.access_key_contract_id is None)
    &&& matched_value(r, l) == argument
}

/// The values returned by the records of `log` (oldest first) that answer the
/// lookup, each once, the one returned by the newest record first.
pub open spec fn distinct_newest_first(
    log: Seq<ActionRecord>,
    l: Lookup,
    argument: Seq<char>,
    include_contract_scoped: bool,
) -> Seq<Seq<char>>
    decreases log.len(),
{
    if log.len() == 0 {
        seq![]
    } else {
        let newer = distinct_newest_first(log.drop_first(), l, argument, include_contract_scoped);
        let v = selected_value(log[0], l);
        if answers(log[0], l, argument, include_contract_scoped) && !newer.contains(v) {
            newer.push(v)
        } else {
            newer
        }
    }
}

/// Every value that lookup `q` could return from `log`, newest first.
pub open spec fn candidates(log: Seq<ActionRecord>, q: LookupQuery) -> Seq<Seq<char>> {
    distinct_newest_first(log, q.lookup, q.argument@, q.include_contract_scoped)
}

/// What lookup `q` returns from `log`: its candidates, cut at its limit.
pub open spec fn lookup_result(log: Seq<ActionRecord>, q: LookupQuery) -> Seq<Seq<char>> {
    let all = candidates(log, q);
    if all.len() <= q.limit {
        all
    } else {
        all.take(q.limit as int)
    }
}

/// Whether record `rec` answers lookup `q`.
pub fn record_answers(rec: &ActionRecord, q: &LookupQuery) -> (r: bool)
    ensures
        r == answers(*rec, q.lookup, q.argument@, q.include_contract_scoped),
{
    if rec.status != ReceiptStatus::Success || rec.action != ActionKind::AddKey {
        return false;
    }
    if !q.include_contract_scoped && rec.access_key_contract_id.is_some() {
        return false;
    }
    match q.lookup {
        Lookup::AccountsByPublicKey => rec.public_key == q.argument,
        Lookup::PublicKeysByAccount => rec.account_id == q.argument,
    }
}

fn contains_text(values: &Vec<String>, v: &String) -> (r: bool)
    ensures
        r == exists|i: int| 0 <= i < values.len() && (#[trigger] values[i])@ == v@,
{
    let mut i: usize = 0;
    while i < values.len()
        invariant
            i <= values.len(),
            forall|j: int| 0 <= j < i ==> (#[trigger] values[j])@ != v@,
        decreases values.len() - i,
    {
        if values[i] == *v {
            return true;
        }
        i = i + 1;
    }
    false
}

/// Runs lookup `q` over the records `log`, held in memory oldest first.
pub fn run_lookup(log: &Vec<ActionRecord>, q: &LookupQuery) -> (r: Vec<String>)
    ensures
        r.len() == lookup_result(log@, *q).len(),
        forall|i: int| 0 <= i < r.len() ==> (#[trigger] r[i])@ == lookup_result(log@, *q)[i],
{
    let ghost l = q.lookup;
    let ghost a = q.argument@;
    let ghost inc = q.include_contract_scoped;
    let mut out: Vec<String> = Vec::new();
    let mut k: usize = log.len();
    while k > 0
        invariant
            k <= log.len(),
            l == q.lookup,
            a == q.argument@,
            inc == q.include_contract_scoped,
            out.len() == distinct_newest_first(log@.subrange(k as int, log.len() as int), l, a, inc).len(),
            forall|i: int|
                0 <= i < out.len() ==> (#[trigger] out[i])@ == distinct_newest_first(
                    log@.subrange(k as int, log.len() as int),
                    l,
                    a,
                    inc,
                )[i],
        decreases k,
    {
        let ghost newer = distinct_newest_first(log@.subrange(k as int, log.len() as int), l, a, inc);
        k = k - 1;
        let ghost cur = log@.subrange(k as int, log.len() as int);
        assert(cur.drop_first() =~= log@.subrange(k + 1, log.len() as int));
        assert(cur[0] == log@[k as int]);
        let rec = &log[k];
        if record_answers(rec, q) {
            let v: &String = match q.lookup {
                Lookup::AccountsByPublicKey => &rec.account_id,
                Lookup::PublicKeysByAccount => &rec.public_key,
            };
            let seen = contains_text(&out, v);
            proof {
                if newer.contains(v@) {
                    let j = choose|j: int| 0 <= j < newer.len() && newer[j] == v@;
                    assert(out[j]@ == v@);
                }
                if seen {
                    let j = choose|j: int| 0 <= j < out.len() && (#[trigger] out[j])@ == v@;
                    assert(newer[j] == v@);
                }
            }
            if !seen {
                out.push(v.clone());
            }
        }
    }
    assert(log@.subrange(0, log.len() as int) =~= log@);
    if out.len() as u64 > q.limit {
        out.truncate(q.limit as usize);
    }
    out
}

/// Whether record `k` of `log` answers the lookup and returns `v`.
pub open spec fn returns_at(
    log: Seq<ActionRecord>,
    l: Lookup,
    argument: Seq<char>,
    include_contract_scoped: bool,
    k: int,
    v: Seq<char>,
) -> bool {
    &&& 0 <= k < log.len()
    &&& answers(log[k], l, argument, include_contract_scoped)
    &&& selected_value(log[k], l) == v
}

/// Whether the records of `log` never go back in time.
pub open spec fn is_chronological(log: Seq<ActionRecord>) -> bool {
    forall|i: int, j: int|
        0 <= i <= j < log.len() ==> log[i].block_timestamp <= log[j].block_timestamp
}

proof fn lemma_candidate_iff_record(
    log: Seq<ActionRecord>,
    l: Lookup,
    a: Seq<char>,
    inc: bool,
    v: Seq<char>,
)
    ensures
        distinct_newest_first(log, l, a, inc).contains(v) <==> exists|k: int|
            returns_at(log, l, a, inc, k, v),
    decreases log.len(),
{
    if log.len() > 0 {
        let rest = log.drop_first();
        lemma_candidate_iff_record(rest, l, a, inc, v);
        let newer = distinct_newest_first(rest, l, a, inc);
        let d = distinct_newest_first(log, l, a, inc);
        if d.contains(v) {
            if newer.contains(v) {
                let k = choose|k: int| returns_at(rest, l, a, inc, k, v);
                assert(returns_at(log, l, a, inc, k + 1, v));
            } else {
                assert(d == newer.push(selected_value(log[0], l)));
                let i = choose|i: int| 0 <= i < d.len() && d[i] == v;
                if i < newer.len() {
                    assert(newer[i] == v);
                }
                assert(returns_at(log, l, a, inc, 0, v));
            }
        }
        if exists|k: int| returns_at(log, l, a, inc, k, v) {
            let k = choose|k: int| returns_at(log, l, a, inc, k, v);
            if k > 0 {
                assert(returns_at(rest, l, a, inc, k - 1, v));
                let i = choose|i: int| 0 <= i < newer.len() && newer[i] == v;
                if !(d =~= newer) {
                    assert(d[i] == v);
                }
            } else if !newer.contains(v) {
                assert(d[newer.len() as int] == v);
            }
        }
    }
}

proof fn lemma_candidates_distinct(log: Seq<ActionRecord>, l: Lookup, a: Seq<char>, inc: bool)
    ensures
        distinct_newest_first(log, l, a, inc).no_duplicates(),
    decreases log.len(),
{
    if log.len() > 0 {
        lemma_candidates_distinct(log.drop_first(), l, a, inc);
        let newer = distinct_newest_first(log.drop_first(), l, a, inc);
        let d = distinct_newest_first(log, l, a, inc);
        assert forall|i: int, j: int| 0 <= i < d.len() && 0 <= j < d.len() && i != j implies d[i]
            != d[j] by {
            if i == newer.len() && d != newer {
                assert(newer[j] == d[j]);
            } else if j == newer.len() && d != newer {
                assert(newer[i] == d[i]);
            }
        }
    }
}

proof fn lemma_candidates_newest_first(
    log: Seq<ActionRecord>,
    l: Lookup,
    a: Seq<char>,
    inc: bool,
    i: int,
    j: int,
)
    requires
        0 <= i < j < distinct_newest_first(log, l, a, inc).len(),
    ensures
        exists|k: int|
            returns_at(log, l, a, inc, k, distinct_newest_first(log, l, a, inc)[i]) && (forall|
                k2: int,
            |
                returns_at(log, l, a, inc, k2, distinct_newest_first(log, l, a, inc)[j])
                    ==> k2 < k),
    decreases log.len(),
{
    let rest = log.drop_first();
    let newer = distinct_newest_first(rest, l, a, inc);
    let d = distinct_newest_first(log, l, a, inc);
    if j < newer.len() {
        assert(d[i] == newer[i] && d[j] == newer[j]);
        lemma_candidates_newest_first(rest, l, a, inc, i, j);
        let k = choose|k: int|
            returns_at(rest, l, a, inc, k, newer[i]) && (forall|k2: int|
                returns_at(rest, l, a, inc, k2, newer[j]) ==> k2 < k);
        assert(returns_at(log, l, a, inc, k + 1, d[i]));
        assert forall|k2: int| returns_at(log, l, a, inc, k2, d[j]) implies k2 < k + 1 by {
            if k2 > 0 {
                assert(returns_at(rest, l, a, inc, k2 - 1, newer[j]));
            }
        }
    } else {
        assert(d == newer.push(selected_value(log[0], l)));
        assert(d[i] == newer[i]);
        assert(newer.contains(d[i]));
        lemma_candidate_iff_record(rest, l, a, inc, d[i]);
        lemma_candidate_iff_record(rest, l, a, inc, d[j]);
        let k = choose|k: int| returns_at(rest, l, a, inc, k, d[i]);
        assert(returns_at(log, l, a, inc, k + 1, d[i]));
        assert forall|k2: int| returns_at(log, l, a, inc, k2, d[j]) implies k2 < k + 1 by {
            if k2 > 0 {
                assert(returns_at(rest, l, a, inc, k2 - 1, d[j]));
            }
        }
    }
}

proof fn lemma_result_in_candidates(log: Seq<ActionRecord>, q: LookupQuery, v: Seq<char>)
    requires
        lookup_result(log, q).contains(v),
    ensures
        candidates(log, q).contains(v),
{
    let r = lookup_result(log, q);
    let i = choose|i: int| 0 <= i < r.len() && r[i] == v;
    assert(candidates(log, q)[i] == v);
}

/// A lookup returns at most its limit of values, each once, and exactly its
/// limit when more values qualify; what it returns are the newest candidates.
pub proof fn lemma_lookup_result_bounded(log: Seq<ActionRecord>, q: LookupQuery)
    ensures
        lookup_result(log, q).len() <= q.limit,
        candidates(log, q).len() >= q.limit ==> lookup_result(log, q).len() == q.limit,
        lookup_result(log, q) == candidates(log, q).take(lookup_result(log, q).len() as int),
        lookup_result(log, q).no_duplicates(),
{
    let all = candidates(log, q);
    let r = lookup_result(log, q);
    lemma_candidates_distinct(log, q.lookup, q.argument@, q.include_contract_scoped);
    assert(r =~= all.take(r.len() as int));
}

/// A lookup returns its values by descending recency: for two values that it
/// returns in order, some record of the first is newer than every record of
/// the second, and in a chronological log it is at least as late.
pub proof fn lemma_lookup_result_newest_first(log: Seq<ActionRecord>, q: LookupQuery, i: int, j: int)
    requires
        0 <= i < j < lookup_result(log, q).len(),
    ensures
        exists|k: int|
            returns_at(log, q.lookup, q.argument@, q.include_contract_scoped, k, lookup_result(log, q)[i])
                && (forall|k2: int|
                returns_at(log, q.lookup, q.argument@, q.include_contract_scoped, k2, lookup_result(log, q)[j])
                    ==> k2 < k && (is_chronological(log) ==> log[k2].block_timestamp
                    <= log[k].block_timestamp)),
{
    let r = lookup_result(log, q);
    let all = candidates(log, q);
    assert(r[i] == all[i] && r[j] == all[j]);
    lemma_candidates_newest_first(log, q.lookup, q.argument@, q.include_contract_scoped, i, j);
}

/// A successful key addition without contract scope relates its account and
/// its key both ways: the account is returned for the key and the key for the
/// account, whenever those lookups are not cut at their limit.
pub proof fn lemma_lookup_symmetry(
    log: Seq<ActionRecord>,
    k: int,
    by_key: LookupQuery,
    by_account: LookupQuery,
)
    requires
        0 <= k < log.len(),
        log[k].status == ReceiptStatus::Success,
        log[k].action == ActionKind::AddKey,
        log[k].access_key_contract_id is None,
        by_key.lookup == Lookup::AccountsByPublicKey,
        by_key.argument@ == log[k].public_key@,
        by_account.lookup == Lookup::PublicKeysByAccount,
        by_account.argument@ == log[k].account_id@,
        candidates(log, by_key).len() <= by_key.limit,
        candidates(log, by_account).len() <= by_account.limit,
    ensures
        lookup_result(log, by_key).contains(log[k].account_id@),
        lookup_result(log, by_account).contains(log[k].public_key@),
{
    assert(returns_at(
        log,
        by_key.lookup,
        by_key.argument@,
        by_key.include_contract_scoped,
        k,
        log[k].account_id@,
    ));
    lemma_candidate_iff_record(
        log,
        by_key.lookup,
        by_key.argument@,
        by_key.include_contract_scoped,
        log[k].account_id@,
    );
    assert(returns_at(
        log,
        by_account.lookup,
        by_account.argument@,
        by_account.include_contract_scoped,
        k,
        log[k].public_key@,
    ));
    lemma_candidate_iff_record(
        log,
        by_account.lookup,
        by_account.argument@,
        by_account.include_contract_scoped,
        log[k].public_key@,
    );
}

/// Contract-scoped key additions count only when asked for: whatever a lookup
/// without them returns comes from a record without contract scope, and
/// asking for them as well only adds values, whenever that lookup is not cut
/// at its limit.
pub proof fn lemma_contract_scoped_only_add(
    log: Seq<ActionRecord>,
    without: LookupQuery,
    with: LookupQuery,
    v: Seq<char>,
)
    requires
        !without.include_contract_scoped,
        with.include_contract_scoped,
        without.lookup == with.lookup,
        without.argument@ == with.argument@,
        lookup_result(log, without).contains(v),
    ensures
        exists|k: int|
            returns_at(log, without.lookup, without.argument@, false, k, v)
                && log[k].access_key_contract_id is None,
        candidates(log, with).len() <= with.limit ==> lookup_result(log, with).contains(v),
{
    lemma_result_in_candidates(log, without, v);
    lemma_candidate_iff_record(log, without.lookup, without.argument@, false, v);
    let k = choose|k: int| returns_at(log, without.lookup, without.argument@, false, k, v);
    assert(returns_at(log, with.lookup, with.argument@, true, k, v));
    lemma_candidate_iff_record(log, with.lookup, with.argument@, true, v);
}

/// What a lookup returns only when contract-scoped key additions count comes
/// from a contract-scoped key addition, whenever the lookup without them is
/// not cut at its limit.
pub proof fn lemma_contract_scoped_additions(
    log: Seq<ActionRecord>,
    without: LookupQuery,
    with: LookupQuery,
    v: Seq<char>,
)
    requires
        !without.include_contract_scoped,
        with.include_contract_scoped,
        without.lookup == with.lookup,
        without.argument@ == with.argument@,
        lookup_result(log, with).contains(v),
        !lookup_result(log, without).contains(v),
        candidates(log, without).len() <= without.limit,
    ensures
        exists|k: int|
            returns_at(log, with.lookup, with.argument@, true, k, v)
                && log[k].access_key_contract_id is Some,
{
    lemma_result_in_candidates(log, with, v);
    lemma_candidate_iff_record(log, with.lookup, with.argument@, true, v);
    lemma_candidate_iff_record(log, without.lookup, without.argument@, false, v);
    let k = choose|k: int| returns_at(log, with.lookup, with.argument@, true, k, v);
    if log[k].access_key_contract_id is None {
        assert(returns_at(log, without.lookup, without.argument@, false, k, v));
        assert(false);
    }
}

} // verus!
