use vstd::prelude::*;
use vstd::multiset::Multiset;

verus! {

/// One log line, as reconstructed from the response: when it was written and
/// what it says.
#[derive(Debug, Clone, PartialEq, Eq)]
pub struct LogRecord {
    /// Nanoseconds since the epoch.
    pub timestamp: u64,
    /// The log line itself.
    pub text: String,
}

/// True when the records are in ascending timestamp order.
pub open spec fn sorted_by_ts(s: Seq<LogRecord>) -> bool {
    forall|i: int, j: int| 0 <= i <= j < s.len() ==> s[i].timestamp <= s[j].timestamp
}

/// Inserts `x` after every record whose timestamp is at most `x.timestamp`
/// and before the rest. On a sorted sequence this is the stable insertion
/// position: records with the timestamp of `x` stay in front of it.
pub open spec fn insert_ordered(s: Seq<LogRecord>, x: LogRecord) -> Seq<LogRecord>
    decreases s.len(),
{
    if s.len() == 0 {
        seq![x]
    } else if s.last().timestamp <= x.timestamp {
        s.push(x)
    } else {
        insert_ordered(s.drop_last(), x).push(s.last())
    }
}

/// Stable insertion sort by timestamp: records are taken in input order and
/// each is placed after the records that do not exceed it, so records with
/// equal timestamps keep their relative input order.
pub open spec fn stable_sort_spec(s: Seq<LogRecord>) -> Seq<LogRecord>
    decreases s.len(),
{
    if s.len() == 0 {
        Seq::empty()
    } else {
        insert_ordered(stable_sort_spec(s.drop_last()), s.last())
    }
}

/// The predicate that picks the records written at time `t`.
pub open spec fn ts_pred(t: u64) -> spec_fn(LogRecord) -> bool {
    |r: LogRecord| r.timestamp == t
}

proof fn lemma_insert_ordered_props(s: Seq<LogRecord>, x: LogRecord)
    ensures
        insert_ordered(s, x).len() == s.len() + 1,
        insert_ordered(s, x).to_multiset() == s.to_multiset().insert(x),
        sorted_by_ts(s) ==> sorted_by_ts(insert_ordered(s, x)),
    decreases s.len(),
{
    broadcast use vstd::multiset::group_multiset_axioms;

    s.to_multiset_ensures();
    if s.len() == 0 {
        assert(seq![x] =~= Seq::<LogRecord>::empty().push(x));
        Seq::<LogRecord>::empty().to_multiset_ensures();
        assert(Seq::<LogRecord>::empty().to_multiset() =~= Multiset::<LogRecord>::empty());
        assert(insert_ordered(s, x).to_multiset() =~= s.to_multiset().insert(x));
    } else if s.last().timestamp <= x.timestamp {
        assert(insert_ordered(s, x).to_multiset() =~= s.to_multiset().insert(x));
        if sorted_by_ts(s) {
            assert forall|i: int, j: int|
                0 <= i <= j < s.push(x).len() implies s.push(x)[i].timestamp <= s.push(
                x,
            )[j].timestamp by {
                if j < s.len() {
                } else if i < s.len() {
                    assert(s[i].timestamp <= s.last().timestamp);
                }
            }
        }
    } else {
        let tail = s.drop_last();
        let l = s.last();
        let inner = insert_ordered(tail, x);
        lemma_insert_ordered_props(tail, x);
        tail.to_multiset_ensures();
        inner.to_multiset_ensures();
        assert(s =~= tail.push(l));
        assert(insert_ordered(s, x).to_multiset() =~= inner.to_multiset().insert(l));
        assert(inner.to_multiset().insert(l) =~= tail.to_multiset().insert(x).insert(l));
        assert(tail.to_multiset().insert(x).insert(l) =~= tail.to_multiset().insert(l).insert(x));
        assert(tail.push(l).to_multiset() =~= tail.to_multiset().insert(l));
        if sorted_by_ts(s) {
            assert(sorted_by_ts(tail));
            assert forall|i: int| 0 <= i < inner.len() implies inner[i].timestamp
                <= l.timestamp by {
                let e = inner[i];
                assert(inner.contains(e));
                assert(inner.to_multiset().count(e) > 0);
                if e != x {
                    assert(tail.to_multiset().count(e) > 0);
                    assert(tail.contains(e));
                    let k = choose|k: int| 0 <= k < tail.len() && tail[k] == e;
                    assert(s[k] == e);
                    assert(s[k].timestamp <= s.last().timestamp);
                }
            }
            assert forall|i: int, j: int|
                0 <= i <= j < insert_ordered(s, x).len() implies insert_ordered(s, x)[i].timestamp
                <= insert_ordered(s, x)[j].timestamp by {
                if j < inner.len() {
                    assert(inner[i].timestamp <= inner[j].timestamp);
                }
            }
        }
    }
}

proof fn lemma_insert_ordered_filter(s: Seq<LogRecord>, x: LogRecord, t: u64)
    ensures
        x.timestamp == t ==> insert_ordered(s, x).filter(ts_pred(t)) == s.filter(ts_pred(t)).push(
            x,
        ),
        x.timestamp != t ==> insert_ordered(s, x).filter(ts_pred(t)) == s.filter(ts_pred(t)),
    decreases s.len(),
{
    reveal(Seq::filter);
    if s.len() == 0 {
        assert(seq![x] =~= Seq::<LogRecord>::empty().push(x));
        Seq::<LogRecord>::empty().lemma_filter_push(x, ts_pred(t));
    } else if s.last().timestamp <= x.timestamp {
        s.lemma_filter_push(x, ts_pred(t));
    } else {
        let tail = s.drop_last();
        let l = s.last();
        let inner = insert_ordered(tail, x);
        lemma_insert_ordered_filter(tail, x, t);
        inner.lemma_filter_push(l, ts_pred(t));
        tail.lemma_filter_push(l, ts_pred(t));
        assert(s =~= tail.push(l));
    }
}

/// Law: sorting is a reordering and nothing else. The ordered log of any
/// record sequence has the same length, holds exactly the same records
/// (as a multiset), and is sorted ascending by timestamp.
pub proof fn lemma_ordered_log_sorted(s: Seq<LogRecord>)
    ensures
        stable_sort_spec(s).len() == s.len(),
        stable_sort_spec(s).to_multiset() == s.to_multiset(),
        sorted_by_ts(stable_sort_spec(s)),
    decreases s.len(),
{
    broadcast use vstd::multiset::group_multiset_axioms;

    if s.len() == 0 {
        assert(stable_sort_spec(s) =~= s);
    } else {
        let tail = s.drop_last();
        let l = s.last();
        lemma_ordered_log_sorted(tail);
        lemma_insert_ordered_props(stable_sort_spec(tail), l);
        tail.to_multiset_ensures();
        assert(s =~= tail.push(l));
        assert(stable_sort_spec(s).to_multiset() =~= s.to_multiset());
    }
}

/// Law: sorting is stable. For every timestamp `t`, the records written at
/// `t` stand in the ordered log exactly in their arrival order: filtering
/// the ordered log for `t` gives the same sequence as filtering the input.
pub proof fn lemma_ordered_log_stable(s: Seq<LogRecord>, t: u64)
    ensures
        stable_sort_spec(s).filter(ts_pred(t)) == s.filter(ts_pred(t)),
    decreases s.len(),
{
    reveal(Seq::filter);
    if s.len() == 0 {
    } else {
        let tail = s.drop_last();
        let l = s.last();
        lemma_ordered_log_stable(tail, t);
        lemma_insert_ordered_filter(stable_sort_spec(tail), l, t);
        tail.lemma_filter_push(l, ts_pred(t));
        assert(s =~= tail.push(l));
    }
}

fn insert_record(v: &mut Vec<LogRecord>, x: LogRecord)
    ensures
        final(v)@ == insert_ordered(old(v)@, x),
    decreases old(v)@.len(),
{
    if v.len() == 0 {
        v.push(x);
    } else {
        let last_ts = v[v.len() - 1].timestamp;
        if last_ts <= x.timestamp {
            v.push(x);
        } else {
            let last = v.pop().unwrap();
            insert_record(v, x);
            v.push(last);
        }
    }
}

/// Sorts the records ascending by timestamp with a stable insertion sort;
/// the result is exactly `stable_sort_spec` of the input.
pub fn stable_sort(recs: Vec<LogRecord>) -> (r: Vec<LogRecord>)
    ensures
        r@ == stable_sort_spec(recs@),
    decreases recs@.len(),
{
    let mut v = recs;
    if v.len() == 0 {
        v
    } else {
        let x = v.pop().unwrap();
        let mut sorted = stable_sort(v);
        insert_record(&mut sorted, x);
        sorted
    }
}

} // verus!
