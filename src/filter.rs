use vstd::prelude::*;

use crate::record::{views, Record, RecordView};
use crate::text::{contains, is_substring, lemma_empty_is_substring, lower_of, lowercase};

verus! {

/// A record matches a lowercased query when the query occurs in the record's
/// lowercased name, or in at least one of its lowercased keywords.
pub open spec fn record_matches(r: RecordView, lower_query: Seq<char>) -> bool {
    is_substring(lower_query, lower_of(r.name)) || exists|j: int|
        0 <= j < r.keywords.len() && is_substring(lower_query, #[trigger] lower_of(r.keywords[j]))
}

/// The records that match a lowercased query, in their original order.
pub open spec fn visible(rs: Seq<RecordView>, lower_query: Seq<char>) -> Seq<RecordView> {
    rs.filter(|r: RecordView| record_matches(r, lower_query))
}

/// The matching rule on text that has already been lowercased.
pub fn matches_lowered(lower_query: &str, lower_name: &str, lower_keywords: &Vec<String>) -> (r:
    bool)
    ensures
        r == (is_substring(lower_query@, lower_name@) || exists|j: int|
            0 <= j < lower_keywords@.len() && is_substring(
                lower_query@,
                #[trigger] lower_keywords@[j]@,
            )),
{
    if contains(lower_name, lower_query) {
        return true;
    }
    let mut i: usize = 0;
    while i < lower_keywords.len()
        invariant
            i <= lower_keywords.len(),
            !is_substring(lower_query@, lower_name@),
            forall|j: int| 0 <= j < i ==> !is_substring(lower_query@, #[trigger] lower_keywords@[j]@),
        decreases lower_keywords.len() - i,
    {
        if contains(lower_keywords[i].as_str(), lower_query) {
            assert(is_substring(lower_query@, lower_keywords@[i as int]@));
            return true;
        }
        i = i + 1;
    }
    false
}

/// Whether `record` matches `query`, ignoring case.
pub fn matches_query(record: &Record, query: &str) -> (r: bool)
    ensures
        r == record_matches(record@, lower_of(query@)),
{
    let lower_query = lowercase(query);
    matches_lower_query(record, lower_query.as_str())
}

/// Whether `record` matches a query that is already lowercase.
fn matches_lower_query(record: &Record, lower_query: &str) -> (r: bool)
    ensures
        r == record_matches(record@, lower_query@),
{
    let lower_name = lowercase(record.name.as_str());
    let mut lower_keywords: Vec<String> = Vec::new();
    let mut i: usize = 0;
    while i < record.keywords.len()
        invariant
            i <= record.keywords.len(),
            lower_keywords@.len() == i,
            forall|j: int|
                0 <= j < i ==> #[trigger] lower_keywords@[j]@ == lower_of(record.keywords@[j]@),
        decreases record.keywords.len() - i,
    {
        lower_keywords.push(lowercase(record.keywords[i].as_str()));
        i = i + 1;
    }
    let r = matches_lowered(lower_query, lower_name.as_str(), &lower_keywords);
    let ghost lq = lower_query@;
    assert forall|j: int| 0 <= j < record@.keywords.len() implies #[trigger] lower_of(
        record@.keywords[j],
    ) == lower_keywords@[j]@ by {
        assert(record@.keywords[j] == record.keywords@[j]@);
    }
    proof {
        if r && !is_substring(lq, lower_name@) {
            let j = choose|j: int|
                0 <= j < lower_keywords@.len() && is_substring(lq, #[trigger] lower_keywords@[j]@);
            assert(is_substring(lq, lower_of(record@.keywords[j])));
        }
        if !r {
            assert forall|j: int| 0 <= j < record@.keywords.len() implies !is_substring(
                lq,
                #[trigger] lower_of(record@.keywords[j]),
            ) by {
                assert(!is_substring(lq, lower_keywords@[j]@));
            }
        }
    }
    r
}

/// The records that match `query`, ignoring case, in their original order.
/// The empty query keeps every record.
pub fn filter(records: &Vec<Record>, query: &str) -> (r: Vec<Record>)
    ensures
        views(r@) == visible(views(records@), lower_of(query@)),
        query@.len() == 0 ==> views(r@) == views(records@),
{
    let lower_query = lowercase(query);
    let ghost lq = lower_query@;
    let mut out: Vec<Record> = Vec::new();
    let mut i: usize = 0;
    assert(views(records@.subrange(0, 0)) =~= Seq::<RecordView>::empty());
    proof {
        reveal(Seq::filter);
    }
    assert(views(out@) =~= visible(views(records@.subrange(0, 0)), lq));
    while i < records.len()
        invariant
            i <= records.len(),
            lq == lower_of(query@),
            lq == lower_query@,
            views(out@) == visible(views(records@.subrange(0, i as int)), lq),
        decreases records.len() - i,
    {
        let ghost before = out@;
        let m = matches_lower_query(&records[i], lower_query.as_str());
        if m {
            out.push(records[i].duplicate());
            assert(views(out@) =~= views(before).push(records@[i as int]@));
        }
        proof {
            reveal(Seq::filter);
            let s = views(records@.subrange(0, i + 1));
            assert(s.drop_last() =~= views(records@.subrange(0, i as int)));
            assert(s.last() == records@[i as int]@);
        }
        i = i + 1;
    }
    assert(records@.subrange(0, records.len() as int) =~= records@);
    proof {
        if query@.len() == 0 {
            assert(lq.len() == 0);
            assert(lq =~= Seq::<char>::empty());
            lemma_empty_query_keeps_all(views(records@));
        }
    }
    out
}

/// The empty query matches every record, so filtering by it keeps the whole
/// collection in its order.
pub proof fn lemma_empty_query_keeps_all(c: Seq<RecordView>)
    ensures
        visible(c, Seq::empty()) == c,
    decreases c.len(),
{
    reveal(Seq::filter);
    if c.len() > 0 {
        lemma_empty_query_keeps_all(c.drop_last());
        lemma_empty_is_substring(lower_of(c.last().name));
        assert(c.drop_last().push(c.last()) =~= c);
    }
}

/// `idx` places each element of `sub` at a position of `c`, with the positions
/// strictly increasing: `sub` is a subsequence of `c` in its order.
pub open spec fn is_embedding(sub: Seq<RecordView>, c: Seq<RecordView>, idx: Seq<int>) -> bool {
    &&& idx.len() == sub.len()
    &&& forall|i: int| 0 <= i < idx.len() ==> 0 <= #[trigger] idx[i] < c.len() && sub[i] == c[idx[i]]
    &&& forall|i: int, j: int| 0 <= i < j < idx.len() ==> idx[i] < idx[j]
}

proof fn visible_positions(c: Seq<RecordView>, lower_query: Seq<char>) -> (idx: Seq<int>)
    ensures
        is_embedding(visible(c, lower_query), c, idx),
    decreases c.len(),
{
    reveal(Seq::filter);
    if c.len() == 0 {
        Seq::empty()
    } else {
        let p = visible_positions(c.drop_last(), lower_query);
        if record_matches(c.last(), lower_query) {
            p.push(c.len() - 1)
        } else {
            p
        }
    }
}

/// Filtering never invents, repeats or reorders records: the result is a
/// subsequence of the collection, in the collection's order.
pub proof fn lemma_filter_is_subsequence(c: Seq<RecordView>, lower_query: Seq<char>)
    ensures
        exists|idx: Seq<int>| is_embedding(visible(c, lower_query), c, idx),
{
    let idx = visible_positions(c, lower_query);
}

/// Filtering ignores case: two queries with the same lowercase form select the
/// same records, in the same order.
pub proof fn lemma_filter_ignores_case(c: Seq<RecordView>, q1: Seq<char>, q2: Seq<char>)
    requires
        lower_of(q1) == lower_of(q2),
    ensures
        visible(c, lower_of(q1)) == visible(c, lower_of(q2)),
{
}

/// A match on any single keyword suffices for a record to be kept, whatever
/// its name and its other keywords.
pub proof fn lemma_one_keyword_suffices(r: RecordView, lower_query: Seq<char>, j: int)
    requires
        0 <= j < r.keywords.len(),
        is_substring(lower_query, lower_of(r.keywords[j])),
    ensures
        record_matches(r, lower_query),
        visible(seq![r], lower_query) == seq![r],
{
    reveal_with_fuel(Seq::filter, 2);
    assert(seq![r].drop_last() =~= Seq::<RecordView>::empty());
}

} // verus!
