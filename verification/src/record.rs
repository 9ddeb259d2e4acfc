//! One log record, as the calling framework hands it over: the message,
//! the severity, and optional source and thread metadata, each absent
//! field standing in for a fixed placeholder when rendered.

use vstd::prelude::*;

use crate::severity::Severity;
use crate::timestamp::decimal_of;
use crate::timestamp::u32_decimal;

verus! {

/// A snapshot of one log event. Absent metadata never makes formatting
/// fail: a missing module renders as `<unnamed>`, a missing line as `0`,
/// and a missing thread name as `unnamed`.
pub struct LogRecord {
    pub severity: Severity,
    pub message: String,
    pub module: Option<String>,
    pub line: Option<u32>,
    pub thread: Option<String>,
}

/// The placeholder for a missing module path.
pub open spec fn unnamed_module() -> Seq<char> {
    seq!['<', 'u', 'n', 'n', 'a', 'm', 'e', 'd', '>']
}

/// The placeholder for a missing thread name.
pub open spec fn unnamed_thread() -> Seq<char> {
    seq!['u', 'n', 'n', 'a', 'm', 'e', 'd']
}

/// The module path to display: the record's own, or the placeholder.
pub open spec fn module_text(rec: LogRecord) -> Seq<char> {
    match rec.module {
        Some(m) => m@,
        None => unnamed_module(),
    }
}

/// The line number to display: the record's own, or zero.
pub open spec fn line_number(rec: LogRecord) -> int {
    match rec.line {
        Some(l) => l as int,
        None => 0,
    }
}

/// The source location field, `<module-path>:<line-number>`.
pub open spec fn module_line_of(rec: LogRecord) -> Seq<char> {
    module_text(rec) + seq![':'] + decimal_of(line_number(rec))
}

/// The thread name to display: the record's own, or the placeholder.
pub open spec fn thread_text(rec: LogRecord) -> Seq<char> {
    match rec.thread {
        Some(t) => t@,
        None => unnamed_thread(),
    }
}

/// The thread field, `T{<name>}`.
pub open spec fn thread_field_of(rec: LogRecord) -> Seq<char> {
    seq!['T', '{'] + thread_text(rec) + seq!['}']
}

/// The source location field of a record.
pub fn module_line(rec: &LogRecord) -> (r: String)
    ensures
        r@ == module_line_of(*rec),
{
    let mut s: String = match &rec.module {
        Some(m) => m.as_str().to_owned(),
        None => {
            proof {
                reveal_strlit("<unnamed>");
                assert("<unnamed>"@ =~= unnamed_module());
            }
            "<unnamed>".to_owned()
        }
    };
    s.append(":");
    let line: u32 = match rec.line {
        Some(l) => l,
        None => 0,
    };
    let digits = u32_decimal(line);
    s.append(digits.as_str());
    proof {
        reveal_strlit(":");
        assert(s@ =~= module_line_of(*rec));
    }
    s
}

/// The thread field of a record.
pub fn thread_field(rec: &LogRecord) -> (r: String)
    ensures
        r@ == thread_field_of(*rec),
{
    proof {
        reveal_strlit("T{");
        reveal_strlit("}");
    }
    let mut s: String = "T{".to_owned();
    match &rec.thread {
        Some(t) => s.append(t.as_str()),
        None => {
            proof {
                reveal_strlit("unnamed");
                assert("unnamed"@ =~= unnamed_thread());
            }
            s.append("unnamed");
        }
    }
    s.append("}");
    proof {
        assert(s@ =~= thread_field_of(*rec));
    }
    s
}

} // verus!
