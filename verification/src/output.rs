use vstd::prelude::*;
use vstd::string::*;
use crate::errors::LogError;
use crate::order::LogRecord;
use crate::parse::{parse_ok_spec, parse_response, parsed_log_spec};

verus! {

/// The single line emitted when the response held no log lines.
pub open spec fn empty_notice_spec() -> Seq<char> {
    "No log lines found in the response."@
}

/// What rendering an ordered log must emit: for an empty log exactly the
/// one fixed informational line and nothing else; for a non-empty log one
/// line per record, each the record's text, in the records' order.
pub open spec fn rendered_lines_ok(records: Seq<LogRecord>, lines: Seq<String>) -> bool {
    if records.len() == 0 {
        lines.len() == 1 && lines[0]@ == empty_notice_spec()
    } else {
        lines.len() == records.len() && forall|i: int|
            0 <= i < records.len() ==> lines[i]@ == records[i].text@
    }
}

/// Renders an ordered log as the lines to print, in order. An empty log
/// yields exactly one fixed informational line and nothing else; a non-empty
/// log yields the text of each record, in the records' order.
pub fn render_log(records: &Vec<LogRecord>) -> (lines: Vec<String>)
    ensures
        rendered_lines_ok(records@, lines@),
{
    if records.len() == 0 {
        let mut lines: Vec<String> = Vec::new();
        lines.push(String::from_str("No log lines found in the response."));
        lines
    } else {
        let mut lines: Vec<String> = Vec::new();
        let mut i: usize = 0;
        while i < records.len()
            invariant
                i <= records@.len(),
                lines@.len() == i,
                forall|j: int| 0 <= j < i ==> lines@[j]@ == records@[j].text@,
            decreases records@.len() - i,
        {
            lines.push(records[i].text.clone());
            i += 1;
        }
        lines
    }
}

/// Renders the output of one request: with `raw` set, exactly the untouched
/// response body as a single emitted text, whatever it holds; otherwise the
/// ordered log as `render_log` gives it.
pub fn render_output(raw: bool, body: &str, records: &Vec<LogRecord>) -> (lines: Vec<String>)
    ensures
        raw ==> lines@.len() == 1 && lines@[0]@ == body@,
        !raw ==> rendered_lines_ok(records@, lines@),
{
    if raw {
        let mut lines: Vec<String> = Vec::new();
        lines.push(String::from_str(body));
        lines
    } else {
        render_log(records)
    }
}

/// Turns one response body into the lines to print. With `raw` set the body
/// is passed through untouched as a single emitted text, whatever it holds,
/// and parsing is bypassed entirely; otherwise the body succeeds exactly
/// when parsing does, and the emitted lines render the parsed ordered log.
/// Something is always emitted on success: the result is never empty.
pub fn process_response(raw: bool, body: &str) -> (r: Result<Vec<String>, LogError>)
    ensures
        raw ==> r is Ok && r->Ok_0@.len() == 1 && r->Ok_0@[0]@ == body@,
        !raw ==> (r is Ok <==> parse_ok_spec(body@)),
        !raw && r is Ok ==> rendered_lines_ok(parsed_log_spec(body@), r->Ok_0@),
        r is Err ==> r->Err_0 == LogError::ParseError && !raw,
        r is Ok ==> r->Ok_0@.len() >= 1,
{
    if raw {
        let mut lines: Vec<String> = Vec::new();
        lines.push(String::from_str(body));
        Ok(lines)
    } else {
        match parse_response(body) {
            Err(e) => Err(e),
            Ok(records) => Ok(render_log(&records)),
        }
    }
}

} // verus!
