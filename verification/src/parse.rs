use vstd::prelude::*;
use crate::errors::LogError;
use crate::order::{LogRecord, stable_sort, stable_sort_spec};

verus! {

/// Whether the text parses as a generic JSON document. Named, not spelled
/// out: the grammar is serde_json's own; the outcome is a deterministic
/// function of the text alone.
pub uninterp spec fn json_parses(text: Seq<char>) -> bool;

/// The timestamp and text columns that the response text holds under the
/// path `results → "A" → frames[0] → data → values`, at indices 1 and 2:
/// each timestamp cell as its unsigned 64-bit value when it has one, each
/// text cell as its string when it is one. Absent when the text does not
/// parse, when a node on the path is missing, or when either column is not
/// an array. A deterministic function of the text alone.
pub uninterp spec fn response_columns(text: Seq<char>) -> Option<
    (Seq<Option<u64>>, Seq<Option<String>>),
>;

/// Relies on serde_json::from_str: whether the text is a parseable JSON
/// document, with deep nesting rejected as an error, never a panic.
#[verifier::external_body]
fn check_json_parses(text: &str) -> (r: bool)
    ensures
        r == json_parses(text@),
{
    serde_json::from_str::<serde_json::Value>(text).is_ok()
}

/// Relies on serde_json::from_str and serde_json::Value::{get, as_array,
/// as_u64, as_str}: parses the response text and reads the two columns at
/// the fixed path, each cell converted to its plain value. All lookups are
/// the non-panicking `Option` accessors; a deterministic function of the
/// text alone, so its result carries the name `response_columns`.
#[verifier::external_body]
fn extract_response_columns(text: &str) -> (r: Option<(Vec<Option<u64>>, Vec<Option<String>>)>)
    ensures
        r is Some <==> response_columns(text@) is Some,
        r matches Some(c) ==> response_columns(text@) == Some((c.0@, c.1@)),
        r is Some ==> json_parses(text@),
{
    let root: serde_json::Value = serde_json::from_str(text).ok()?;
    let values = root.get("results")?.get("A")?.get("frames")?.get(0)?.get("data")?.get("values")?;
    let ts: Vec<Option<u64>> = values.get(1)?.as_array()?.iter().map(|v| v.as_u64()).collect();
    let texts: Vec<Option<String>> = values.get(2)?.as_array()?.iter().map(
        |v| v.as_str().map(|s| s.to_owned()),
    ).collect();
    Some((ts, texts))
}

/// True when the first `n` timestamp cells all hold a representable value.
pub open spec fn timestamps_ok(ts: Seq<Option<u64>>, n: int) -> bool {
    forall|i: int| 0 <= i < n ==> ts[i] is Some
}

/// The length up to which the two columns are paired: the shorter of the two.
pub open spec fn paired_len(ts: Seq<Option<u64>>, texts: Seq<Option<String>>) -> int {
    if ts.len() <= texts.len() {
        ts.len() as int
    } else {
        texts.len() as int
    }
}

/// The records of the first `n` column positions, in arrival order. A
/// position whose text cell is not a string yields no record; its neighbours
/// keep their order.
pub open spec fn paired_prefix(
    ts: Seq<Option<u64>>,
    texts: Seq<Option<String>>,
    n: int,
) -> Seq<LogRecord>
    decreases n,
{
    if n <= 0 {
        Seq::empty()
    } else {
        let rest = paired_prefix(ts, texts, n - 1);
        match texts[n - 1] {
            Some(t) => rest.push(LogRecord { timestamp: ts[n - 1]->Some_0, text: t }),
            None => rest,
        }
    }
}

/// The records of the two columns paired element by element up to the
/// shorter length.
pub open spec fn paired_spec(ts: Seq<Option<u64>>, texts: Seq<Option<String>>) -> Seq<LogRecord> {
    paired_prefix(ts, texts, paired_len(ts, texts))
}

/// Law: pairing loses nothing when the columns are clean. When the first
/// `n` text cells all hold a string, the pairing yields exactly one record
/// per position, and the record at each position carries that position's
/// timestamp and text.
pub proof fn lemma_paired_complete(ts: Seq<Option<u64>>, texts: Seq<Option<String>>, n: int)
    requires
        forall|i: int| 0 <= i < n ==> texts[i] is Some,
    ensures
        paired_prefix(ts, texts, n).len() == if n >= 0 {
            n
        } else {
            0
        },
        forall|i: int| 0 <= i < n ==> paired_prefix(ts, texts, n)[i] == (LogRecord {
            timestamp: ts[i]->Some_0,
            text: texts[i]->Some_0,
        }),
    decreases n,
{
    if n > 0 {
        lemma_paired_complete(ts, texts, n - 1);
    }
}

/// Pairs the timestamp and text columns element by element, stopping at the
/// shorter length, and sorts the pairs into an ordered log. A timestamp cell
/// without a representable value within the paired range is a `ParseError`;
/// a text cell that is not a string is skipped.
#[verifier::loop_isolation(false)]
pub fn ordered_log_from_columns(ts: Vec<Option<u64>>, texts: Vec<Option<String>>) -> (r: Result<
    Vec<LogRecord>,
    LogError,
>)
    ensures
        timestamps_ok(ts@, paired_len(ts@, texts@)) ==> r is Ok && r->Ok_0@ == stable_sort_spec(
            paired_spec(ts@, texts@),
        ),
        !timestamps_ok(ts@, paired_len(ts@, texts@)) ==> r == Result::<
            Vec<LogRecord>,
            LogError,
        >::Err(LogError::ParseError),
{
    let ghost ts0 = ts@;
    let ghost texts0 = texts@;
    let min: usize = if ts.len() <= texts.len() {
        ts.len()
    } else {
        texts.len()
    };
    let mut texts = texts;
    let mut out: Vec<LogRecord> = Vec::new();
    let mut i: usize = 0;
    while i < min
        invariant
            i <= min,
            min as int == paired_len(ts0, texts0),
            min <= texts0.len(),
            ts@ == ts0,
            texts@ == texts0.skip(i as int),
            timestamps_ok(ts0, i as int),
            out@ == paired_prefix(ts0, texts0, i as int),
        decreases min - i,
    {
        match ts[i] {
            None => {
                proof {
                    assert(ts0[i as int] is None);
                    assert(!timestamps_ok(ts0, min as int));
                }
                return Err(LogError::ParseError);
            },
            Some(stamp) => {
                let cell = texts.remove(0);
                proof {
                    assert(texts0.skip(i as int)[0] == texts0[i as int]);
                    assert(texts0.skip(i as int).subrange(
                        1,
                        texts0.skip(i as int).len() as int,
                    ) =~= texts0.skip(i as int + 1));
                }
                match cell {
                    Some(text) => {
                        out.push(LogRecord { timestamp: stamp, text });
                    },
                    None => {},
                }
            },
        }
        i += 1;
    }
    Ok(stable_sort(out))
}

/// When parsing a response text succeeds: the text is a parseable document
/// and, if it holds the two columns, every timestamp cell within the paired
/// range is representable.
pub open spec fn parse_ok_spec(text: Seq<char>) -> bool {
    &&& json_parses(text)
    &&& response_columns(text) matches Some(c) ==> timestamps_ok(c.0, paired_len(c.0, c.1))
}

/// The ordered log that a successfully parsed response text yields: the
/// columns paired and sorted, or the empty log where the response holds no
/// log data.
pub open spec fn parsed_log_spec(text: Seq<char>) -> Seq<LogRecord> {
    match response_columns(text) {
        Some(c) => stable_sort_spec(paired_spec(c.0, c.1)),
        None => Seq::empty(),
    }
}

/// Reconstructs the ordered log from a response body: the columns at the
/// fixed path, paired and sorted — exactly `parsed_log_spec`. It succeeds
/// exactly when the body parses as a document and every paired timestamp is
/// representable; every failure is a `ParseError`, never any other error
/// and never a panic. A response in which the path or one of the two
/// columns under it is absent holds no log data: the result is the empty
/// log, not an error.
pub fn parse_response(text: &str) -> (r: Result<Vec<LogRecord>, LogError>)
    ensures
        r is Ok <==> parse_ok_spec(text@),
        r is Ok ==> r->Ok_0@ == parsed_log_spec(text@),
        r is Err ==> r->Err_0 == LogError::ParseError,
{
    match extract_response_columns(text) {
        Some((ts, texts)) => ordered_log_from_columns(ts, texts),
        None => {
            if check_json_parses(text) {
                let empty: Vec<LogRecord> = Vec::new();
                Ok(empty)
            } else {
                Err(LogError::ParseError)
            }
        },
    }
}

} // verus!
