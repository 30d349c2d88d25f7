//! The batch over the cross product of queries and blocklist sources:
//! query-major, source-minor order, evaluated eagerly and fail-fast — the
//! first non-NXDOMAIN error aborts the whole batch and no partial results
//! are returned.

use vstd::prelude::*;

use vstd::arithmetic::div_mod::{
    lemma_fundamental_div_mod, lemma_fundamental_div_mod_converse_div,
    lemma_fundamental_div_mod_converse_mod, lemma_mod_division_less_than_divisor,
};

use crate::error::{DnsCheckError, DnsCheckErrorValue};
use crate::query::{query_text, Query};
use crate::resolve::{
    interpret_outcome, interpreted_outcome, lookup, DnsListMembership, DnsListMembershipValue,
    Output, ResolveOutcome,
};

verus! {

/// Pair `k` of the cross product is query `k / sources.len()` against
/// source `k % sources.len()`: sources iterate as the inner loop.
pub open spec fn pair_query(queries: Seq<Query>, sources_len: int, k: int) -> Query {
    queries[k / sources_len]
}

/// The source of pair `k`.
pub open spec fn pair_source(sources: Seq<Seq<char>>, k: int) -> Seq<char> {
    sources[k % sources.len() as int]
}

/// The batch result from pair `k` on, with `acc` the memberships of the
/// pairs already interpreted: pairs are taken in order, each interpreted
/// outcome is appended on success, and the first error is returned alone —
/// the accumulated results are discarded.
pub open spec fn batch_from(
    queries: Seq<Query>,
    sources: Seq<Seq<char>>,
    outcomes: Seq<ResolveOutcome>,
    k: int,
    acc: Seq<DnsListMembershipValue>,
) -> Result<Seq<DnsListMembershipValue>, DnsCheckErrorValue>
    decreases queries.len() * sources.len() - k,
{
    if k < 0 || k >= queries.len() * sources.len() {
        Ok(acc)
    } else {
        let q = pair_query(queries, sources.len() as int, k);
        let s = pair_source(sources, k);
        match interpreted_outcome(q, s, outcomes[k]) {
            Ok(m) => batch_from(queries, sources, outcomes, k + 1, acc.push(m)),
            Err(e) => Err(e),
        }
    }
}

/// The batch result over all pairs of queries and sources, given the
/// resolver outcome of each pair.
pub open spec fn batch_value(
    queries: Seq<Query>,
    sources: Seq<Seq<char>>,
    outcomes: Seq<ResolveOutcome>,
) -> Result<Seq<DnsListMembershipValue>, DnsCheckErrorValue> {
    batch_from(queries, sources, outcomes, 0, Seq::empty())
}

/// The character sequences of a slice of source names.
pub open spec fn source_values(sources: Seq<&str>) -> Seq<Seq<char>> {
    sources.map_values(|s: &str| s@)
}

/// The membership values of a vector of membership records.
pub open spec fn membership_values(v: Seq<DnsListMembership>) -> Seq<DnsListMembershipValue> {
    v.map_values(|m: DnsListMembership| m@)
}

/// The value of a batch result.
pub open spec fn batch_result_value(r: Result<Vec<DnsListMembership>, DnsCheckError>)
    -> Result<Seq<DnsListMembershipValue>, DnsCheckErrorValue> {
    match r {
        Ok(v) => Ok(membership_values(v@)),
        Err(e) => Err(e@),
    }
}

/// Pair `k` of a cross product of `qn` queries and `m` sources names a
/// valid query and source index.
proof fn lemma_pair_bounds(k: int, qn: int, m: int)
    requires
        0 < m,
        0 <= k < qn * m,
    ensures
        0 <= k / m < qn,
        0 <= k % m < m,
{
    lemma_fundamental_div_mod(k, m);
    lemma_mod_division_less_than_divisor(k, m);
    assert(k / m < qn) by (nonlinear_arith)
        requires
            0 < m,
            k < qn * m,
            k == m * (k / m) + (k % m),
            0 <= k % m < m,
    ;
    assert(0 <= k / m) by (nonlinear_arith)
        requires
            0 < m,
            0 <= k,
            k == m * (k / m) + (k % m),
            0 <= k % m < m,
    ;
}

/// The pair at `i * m + j` is query `i` against source `j`.
proof fn lemma_pair_index(i: int, j: int, m: int)
    requires
        0 < m,
        0 <= i,
        0 <= j < m,
    ensures
        (i * m + j) / m == i,
        (i * m + j) % m == j,
{
    lemma_fundamental_div_mod_converse_div(i * m + j, m, i, j);
    lemma_fundamental_div_mod_converse_mod(i * m + j, m, i, j);
}

/// The interpretation of pair `k`.
pub open spec fn pair_outcome(
    queries: Seq<Query>,
    sources: Seq<Seq<char>>,
    outcomes: Seq<ResolveOutcome>,
    k: int,
) -> Result<DnsListMembershipValue, DnsCheckErrorValue> {
    interpreted_outcome(pair_query(queries, sources.len() as int, k), pair_source(sources, k), outcomes[k])
}

proof fn lemma_batch_from_all_ok(
    queries: Seq<Query>,
    sources: Seq<Seq<char>>,
    outcomes: Seq<ResolveOutcome>,
    k: int,
    acc: Seq<DnsListMembershipValue>,
)
    requires
        outcomes.len() == queries.len() * sources.len(),
        0 <= k <= outcomes.len(),
        forall|p: int|
            k <= p < outcomes.len() ==> (#[trigger] pair_outcome(queries, sources, outcomes, p))
                matches Ok(_),
    ensures
        batch_from(queries, sources, outcomes, k, acc) matches Ok(v) && v.len() == acc.len() + (
        outcomes.len() - k) && (forall|i: int| 0 <= i < acc.len() ==> v[i] == acc[i]) && (forall|
            p: int,
        |
            k <= p < outcomes.len() ==> pair_outcome(queries, sources, outcomes, p) == Ok::<
                DnsListMembershipValue,
                DnsCheckErrorValue,
            >(v[acc.len() + p - k])),
    decreases outcomes.len() - k,
{
    if k < outcomes.len() {
        assert(pair_outcome(queries, sources, outcomes, k) matches Ok(_));
        let m = pair_outcome(queries, sources, outcomes, k)->Ok_0;
        lemma_batch_from_all_ok(queries, sources, outcomes, k + 1, acc.push(m));
    }
}

/// Law: with no errors, the batch result is exactly one membership per
/// pair of the cross product, in query-major, source-minor order — the
/// pair `k` result stands at position `k`.
pub proof fn lemma_batch_ordered(
    queries: Seq<Query>,
    sources: Seq<Seq<char>>,
    outcomes: Seq<ResolveOutcome>,
)
    requires
        outcomes.len() == queries.len() * sources.len(),
        forall|p: int|
            0 <= p < outcomes.len() ==> (#[trigger] pair_outcome(queries, sources, outcomes, p))
                matches Ok(_),
    ensures
        batch_value(queries, sources, outcomes) matches Ok(v) && v.len() == outcomes.len() && (
        forall|p: int|
            0 <= p < outcomes.len() ==> pair_outcome(queries, sources, outcomes, p) == Ok::<
                DnsListMembershipValue,
                DnsCheckErrorValue,
            >(v[p])),
{
    lemma_batch_from_all_ok(queries, sources, outcomes, 0, Seq::empty());
}

proof fn lemma_batch_from_fail(
    queries: Seq<Query>,
    sources: Seq<Seq<char>>,
    outcomes: Seq<ResolveOutcome>,
    k: int,
    f: int,
    e: DnsCheckErrorValue,
    acc: Seq<DnsListMembershipValue>,
)
    requires
        outcomes.len() == queries.len() * sources.len(),
        0 <= k <= f < outcomes.len(),
        pair_outcome(queries, sources, outcomes, f) == Err::<
            DnsListMembershipValue,
            DnsCheckErrorValue,
        >(e),
        forall|p: int|
            k <= p < f ==> (#[trigger] pair_outcome(queries, sources, outcomes, p)) matches Ok(_),
    ensures
        batch_from(queries, sources, outcomes, k, acc) == Err::<
            Seq<DnsListMembershipValue>,
            DnsCheckErrorValue,
        >(e),
    decreases f - k,
{
    if k < f {
        assert(pair_outcome(queries, sources, outcomes, k) matches Ok(_));
        let m = pair_outcome(queries, sources, outcomes, k)->Ok_0;
        lemma_batch_from_fail(queries, sources, outcomes, k + 1, f, e, acc.push(m));
    }
}

/// Law: the batch is fail-fast — if every pair before `f` succeeds and
/// pair `f` fails with a transport error, the whole batch result is that
/// error alone, with no partial results.
pub proof fn lemma_batch_fail_fast(
    queries: Seq<Query>,
    sources: Seq<Seq<char>>,
    outcomes: Seq<ResolveOutcome>,
    f: int,
    e: DnsCheckErrorValue,
)
    requires
        outcomes.len() == queries.len() * sources.len(),
        0 <= f < outcomes.len(),
        pair_outcome(queries, sources, outcomes, f) == Err::<
            DnsListMembershipValue,
            DnsCheckErrorValue,
        >(e),
        forall|p: int|
            0 <= p < f ==> (#[trigger] pair_outcome(queries, sources, outcomes, p)) matches Ok(_),
    ensures
        batch_value(queries, sources, outcomes) == Err::<
            Seq<DnsListMembershipValue>,
            DnsCheckErrorValue,
        >(e),
{
    lemma_batch_from_fail(queries, sources, outcomes, 0, f, e, Seq::empty());
}

/// Interprets a whole batch of resolver outcomes, one per pair of the cross
/// product of queries and sources in query-major order, fail-fast: the
/// memberships of every pair if all succeed, else the first error alone.
pub fn interpret_batch(
    queries: &[Query],
    sources: &[&str],
    outcomes: &Vec<ResolveOutcome>,
) -> (r: Result<Vec<DnsListMembership>, DnsCheckError>)
    requires
        outcomes@.len() == queries@.len() * sources@.len(),
    ensures
        batch_result_value(r) == batch_value(queries@, source_values(sources@), outcomes@),
{
    let ghost qv = queries@;
    let ghost sv = source_values(sources@);
    let ghost ov = outcomes@;
    let total = outcomes.len();
    let m = sources.len();
    let mut results: Vec<DnsListMembership> = Vec::new();
    proof {
        assert(membership_values(results@) =~= Seq::<DnsListMembershipValue>::empty());
    }
    let mut k: usize = 0;
    while k < total
        invariant
            k <= total,
            total == ov.len() == qv.len() * sv.len(),
            m == sv.len(),
            qv == queries@,
            sv == source_values(sources@),
            ov == outcomes@,
            results@.len() == k,
            batch_value(qv, sv, ov) == batch_from(qv, sv, ov, k as int, membership_values(results@)),
        decreases total - k,
    {
        proof {
            lemma_pair_bounds(k as int, qv.len() as int, m as int);
        }
        let qi = k / m;
        let sj = k % m;
        match interpret_outcome(&queries[qi], sources[sj], &outcomes[k]) {
            Ok(mem) => {
                proof {
                    assert(membership_values(results@.push(mem)) =~= membership_values(
                        results@,
                    ).push(mem@));
                }
                results.push(mem);
            },
            Err(e) => {
                assert(batch_value(qv, sv, ov) == Err::<Seq<DnsListMembershipValue>,
                    DnsCheckErrorValue>(e@));
                return Err(e);
            },
        }
        k = k + 1;
    }
    Ok(results)
}

/// Runs every query against every blocklist source, sources as the inner
/// loop, eagerly and fail-fast through the system resolver. On success
/// there is exactly one record per pair, in query-major order; an empty
/// cross product succeeds with no records (and asks the resolver nothing);
/// the first failing lookup aborts the batch with that error alone, and no
/// partial results are returned.
pub fn count_lists(queries: &[Query], sources: &[&str], output: Output)
    -> (r: Result<Vec<DnsListMembership>, DnsCheckError>)
    ensures
        (queries@.len() == 0 || sources@.len() == 0 ==> (r matches Ok(v) && v@.len() == 0)),
        (r matches Ok(v) ==> {
            &&& v@.len() == queries@.len() * sources@.len()
            &&& forall|k: int|
                0 <= k < v@.len() ==> (#[trigger] v@[k])@.name == query_text(
                    pair_query(queries@, sources@.len() as int, k),
                ) && v@[k]@.list == pair_source(source_values(sources@), k)
        }),
        (r matches Err(e) ==> (e@ matches DnsCheckErrorValue::DBus(name, desc)
            && !crate::error::is_nxdomain_name(name))),
{
    let ghost qv = queries@;
    let ghost sv = source_values(sources@);
    let m = sources.len();
    let mut results: Vec<DnsListMembership> = Vec::new();
    let mut i: usize = 0;
    while i < queries.len()
        invariant
            i <= qv.len(),
            m == sv.len() == sources@.len(),
            qv == queries@,
            sv == source_values(sources@),
            results@.len() == i * m,
            forall|k: int|
                0 <= k < results@.len() ==> (#[trigger] results@[k])@.name == query_text(
                    pair_query(qv, m as int, k),
                ) && results@[k]@.list == pair_source(sv, k),
        decreases qv.len() - i,
    {
        let mut j: usize = 0;
        while j < m
            invariant
                i < qv.len(),
                j <= m,
                m == sv.len() == sources@.len(),
                qv == queries@,
                sv == source_values(sources@),
                results@.len() == i * m + j,
                forall|k: int|
                    0 <= k < results@.len() ==> (#[trigger] results@[k])@.name == query_text(
                        pair_query(qv, m as int, k),
                    ) && results@[k]@.list == pair_source(sv, k),
            decreases m - j,
        {
            match lookup(sources[j], &queries[i], &output) {
                Ok(mem) => {
                    proof {
                        lemma_pair_index(i as int, j as int, m as int);
                        assert(pair_query(qv, m as int, (i * m + j) as int) == qv[i as int]);
                        assert(pair_source(sv, (i * m + j) as int) == sv[j as int]);
                    }
                    results.push(mem);
                },
                Err(e) => {
                    return Err(e);
                },
            }
            j = j + 1;
        }
        proof {
            assert(i * m + m == (i + 1) * m) by (nonlinear_arith);
        }
        i = i + 1;
    }
    Ok(results)
}

} // verus!
