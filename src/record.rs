//! Leveled records and the plain line each one becomes.
use vstd::prelude::*;

use crate::level::{label_spec, level_label, Level};
use crate::text::{decimal, occurs_in, push_decimal};

verus! {

/// A record as a call site produces it.
#[derive(Clone, Debug)]
pub struct LogRecord {
    pub level: Level,
    /// Where the record comes from; `log:record` marks a record-only entry.
    pub target: String,
    pub message: String,
    pub file: Option<String>,
    pub line: Option<u32>,
}

/// The target that marks a record-only entry: no level, no source location.
pub open spec fn record_target() -> Seq<char> {
    seq!['l', 'o', 'g', ':', 'r', 'e', 'c', 'o', 'r', 'd']
}

/// `    ===> (<file>:<line>)`.
pub open spec fn location_suffix(file: Seq<char>, line: u32) -> Seq<char> {
    seq![' ', ' ', ' ', ' ', '=', '=', '=', '>', ' ', '('] + file + seq![':'] + decimal(line as nat)
        + seq![')']
}

/// The line for `rec`: the bare message for a record-only entry, otherwise
/// `<LEVEL>: <message>` followed by the source location when both file and
/// line are known.
pub open spec fn record_line(rec: LogRecord) -> Seq<char> {
    if rec.target@ == record_target() {
        rec.message@
    } else {
        let head = label_spec(rec.level) + seq![':', ' '] + rec.message@;
        match (rec.file, rec.line) {
            (Some(f), Some(l)) => head + location_suffix(f@, l),
            _ => head,
        }
    }
}

/// Formats `rec` into the plain line that is printed and persisted.
pub fn format_record(rec: &LogRecord) -> (r: String)
    ensures
        r@ == record_line(*rec),
{
    proof {
        reveal_strlit("log:record");
        reveal_strlit(": ");
        reveal_strlit("    ===> (");
        reveal_strlit(":");
        reveal_strlit(")");
    }
    let record_only = "log:record".to_owned();
    assert(record_only@ =~= record_target());
    if rec.target == record_only {
        return rec.message.clone();
    }
    let mut s = String::new();
    s.append(level_label(rec.level));
    s.append(": ");
    s.append(rec.message.as_str());
    let ghost head = s@;
    assert(head =~= label_spec(rec.level) + seq![':', ' '] + rec.message@);
    match (&rec.file, rec.line) {
        (Some(f), Some(l)) => {
            s.append("    ===> (");
            s.append(f.as_str());
            s.append(":");
            push_decimal(&mut s, l as u64);
            s.append(")");
            assert(s@ =~= head + location_suffix(f@, l));
        },
        _ => {},
    }
    s
}

/// A record's message appears verbatim in its line.
pub proof fn lemma_message_in_line(rec: LogRecord)
    ensures
        occurs_in(rec.message@, record_line(rec)),
{
    let line = record_line(rec);
    let m = rec.message@;
    if rec.target@ == record_target() {
        let i: int = 0;
        assert(line.subrange(i, i + m.len()) =~= m);
    } else {
        let head = label_spec(rec.level) + seq![':', ' '] + m;
        assert(head.subrange(7, 7 + m.len() as int) =~= m);
        let i: int = 7;
        assert(line.subrange(i, i + m.len()) =~= m);
    }
}

} // verus!
