use vstd::prelude::*;
use vstd::string::*;

verus! {

/// A log query as the caller describes it: which pod's logs, over which time
/// range, how many lines at most, and whether the raw response body is wanted
/// instead of parsed lines.
pub struct LogQuery {
    /// Namespace of the pod.
    pub namespace: String,
    /// Pod name.
    pub pod: String,
    /// Start of the time range (relative or absolute time expression).
    pub from: String,
    /// End of the time range.
    pub to: String,
    /// Line cap for one request. The upstream service additionally enforces
    /// its own cap and silently truncates above it.
    pub max_lines: u64,
    /// Emit the raw response body instead of parsed lines.
    pub raw: bool,
}

/// The wire-level request body, derived deterministically from a `LogQuery`
/// and the fixed data-source identifier. The surrounding process serializes
/// it and sends it; every field is a plain value.
pub struct QueryPayload {
    /// Identifier of the single query within the request ("A").
    pub ref_id: String,
    /// The label-selector expression identifying the log stream.
    pub expr: String,
    /// Query type ("range").
    pub query_type: String,
    /// Kind of the data source ("loki").
    pub datasource_type: String,
    /// Identifier of the fixed log data source.
    pub datasource_uid: String,
    /// Direction of the scan ("forward").
    pub direction: String,
    /// Line cap, taken from the query.
    pub max_lines: u64,
    /// Result format ("log").
    pub format: String,
    /// Sampling step (empty: let the service choose).
    pub step: String,
    /// Numeric identifier of the data source.
    pub datasource_id: u64,
    /// Fixed sampling interval in milliseconds.
    pub interval_ms: u64,
    /// Fixed cap on returned data points.
    pub max_data_points: u64,
    /// Start of the time range, taken from the query.
    pub from: String,
    /// End of the time range, taken from the query.
    pub to: String,
}

/// The label-selector template with `namespace` and `pod` substituted
/// verbatim: `{namespace="<ns>", pod="<pod>"}`. No escaping is performed;
/// quote or brace characters in either value pass through unchanged.
pub open spec fn selector_spec(ns: Seq<char>, pod: Seq<char>) -> Seq<char> {
    "{namespace=\""@ + ns + "\", pod=\""@ + pod + "\"}"@
}

/// Builds the label-selector expression for a namespace and a pod name.
pub fn build_selector(ns: &str, pod: &str) -> (r: String)
    ensures
        r@ == selector_spec(ns@, pod@),
{
    let mut s = String::from_str("{namespace=\"");
    s.append(ns);
    s.append("\", pod=\"");
    s.append(pod);
    s.append("\"}");
    s
}

impl QueryPayload {
    /// True when the payload is exactly what `build_payload` derives from the
    /// query `q` and the data-source identifier `uid`.
    pub open spec fn derived_from(self, q: LogQuery, uid: Seq<char>) -> bool {
        &&& self.ref_id@ == "A"@
        &&& self.expr@ == selector_spec(q.namespace@, q.pod@)
        &&& self.query_type@ == "range"@
        &&& self.datasource_type@ == "loki"@
        &&& self.datasource_uid@ == uid
        &&& self.direction@ == "forward"@
        &&& self.max_lines == q.max_lines
        &&& self.format@ == "log"@
        &&& self.step@ == ""@
        &&& self.datasource_id == 24
        &&& self.interval_ms == 500
        &&& self.max_data_points == 1272
        &&& self.from@ == q.from@
        &&& self.to@ == q.to@
    }
}

/// Builds the request payload for a query. Deterministic: the contract pins
/// every field, so identical queries always yield identical payloads.
pub fn build_payload(q: &LogQuery, datasource_uid: &str) -> (p: QueryPayload)
    ensures
        p.derived_from(*q, datasource_uid@),
{
    QueryPayload {
        ref_id: String::from_str("A"),
        expr: build_selector(q.namespace.as_str(), q.pod.as_str()),
        query_type: String::from_str("range"),
        datasource_type: String::from_str("loki"),
        datasource_uid: String::from_str(datasource_uid),
        direction: String::from_str("forward"),
        max_lines: q.max_lines,
        format: String::from_str("log"),
        step: String::from_str(""),
        datasource_id: 24,
        interval_ms: 500,
        max_data_points: 1272,
        from: q.from.clone(),
        to: q.to.clone(),
    }
}

/// The identifier of the fixed log data source that every query references.
pub fn default_datasource_uid() -> (r: String)
    ensures
        r@ == "PCF9DACBDF30E12B3"@,
{
    String::from_str("PCF9DACBDF30E12B3")
}

} // verus!
