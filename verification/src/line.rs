//! The three line layouts: a console line with five space-separated
//! fields and optional color, and the two bracketed file lines, with and
//! without the severity name.

use vstd::prelude::*;

use crate::ansi::ansi_wrap;
use crate::ansi::code_cyan;
use crate::ansi::code_dark_gray;
use crate::ansi::code_purple;
use crate::ansi::paint_cyan;
use crate::ansi::paint_dark_gray;
use crate::ansi::paint_purple;
use crate::record::LogRecord;
use crate::record::module_line;
use crate::record::module_line_of;
use crate::record::thread_field;
use crate::record::thread_field_of;
use crate::severity::Severity;
use crate::severity::color_code_of;
use crate::severity::label_of;
use crate::severity::level_label;
use crate::severity::level_label_colored;
use crate::severity::name_of;
use crate::severity::severity_name;
use crate::timestamp::Timestamp;
use crate::timestamp::date_of;
use crate::timestamp::render_date;
use crate::timestamp::render_time;
use crate::timestamp::time_of;

verus! {

/// The single space that separates console fields.
pub open spec fn space() -> Seq<char> {
    seq![' ']
}

/// The console timestamp field: `HH:MM:SS.mmm`, dark gray in color mode.
pub open spec fn console_time_field(ts: Timestamp, color: bool) -> Seq<char> {
    if color {
        ansi_wrap(code_dark_gray(), time_of(ts))
    } else {
        time_of(ts)
    }
}

/// The console level field: the fixed-width label, in the severity's own
/// color in color mode.
pub open spec fn console_label_field(sev: Severity, color: bool) -> Seq<char> {
    if color {
        ansi_wrap(color_code_of(sev), label_of(sev))
    } else {
        label_of(sev)
    }
}

/// The console source location field, purple in color mode.
pub open spec fn console_module_field(rec: LogRecord, color: bool) -> Seq<char> {
    if color {
        ansi_wrap(code_purple(), module_line_of(rec))
    } else {
        module_line_of(rec)
    }
}

/// The console thread field, cyan in color mode.
pub open spec fn console_thread_field(rec: LogRecord, color: bool) -> Seq<char> {
    if color {
        ansi_wrap(code_cyan(), thread_field_of(rec))
    } else {
        thread_field_of(rec)
    }
}

/// The whole console line: timestamp, level label, `<module>:<line>`,
/// `T{<thread>}` and the verbatim message, in that order, one space
/// between neighbouring fields, the message last, no trailing terminator.
pub open spec fn console_line_of(ts: Timestamp, rec: LogRecord, color: bool) -> Seq<char> {
    console_time_field(ts, color) + space() + console_label_field(rec.severity, color) + space()
        + console_module_field(rec, color) + space() + console_thread_field(rec, color) + space()
        + rec.message@
}

/// The bracketed file timestamp, `[YYYY-MM-DD HH:MM:SS.mmm]`.
pub open spec fn file_stamp_of(ts: Timestamp) -> Seq<char> {
    seq!['['] + date_of(ts) + space() + time_of(ts) + seq![']']
}

/// A file line with the severity: `[<stamp>] <LEVEL> <message>`.
pub open spec fn file_line_with_level_of(ts: Timestamp, sev: Severity, msg: Seq<char>) -> Seq<
    char,
> {
    file_stamp_of(ts) + space() + name_of(sev) + space() + msg
}

/// A file line without the severity: `[<stamp>] <message>`.
pub open spec fn file_line_without_level_of(ts: Timestamp, msg: Seq<char>) -> Seq<char> {
    file_stamp_of(ts) + space() + msg
}

/// One console line for a record, plain or colored. Color never changes
/// the text itself: it only wraps the first four fields in ANSI markup.
pub fn console_line(ts: &Timestamp, rec: &LogRecord, color: bool) -> (r: String)
    requires
        ts.wf(),
    ensures
        r@ == console_line_of(*ts, *rec, color),
{
    let time_s = render_time(ts);
    let mut s: String = if color {
        paint_dark_gray(time_s.as_str())
    } else {
        time_s
    };
    s.append(" ");
    let label_s = if color {
        level_label_colored(rec.severity)
    } else {
        level_label(rec.severity)
    };
    s.append(label_s.as_str());
    s.append(" ");
    let module_s = module_line(rec);
    let module_s = if color {
        paint_purple(module_s.as_str())
    } else {
        module_s
    };
    s.append(module_s.as_str());
    s.append(" ");
    let thread_s = thread_field(rec);
    let thread_s = if color {
        paint_cyan(thread_s.as_str())
    } else {
        thread_s
    };
    s.append(thread_s.as_str());
    s.append(" ");
    s.append(rec.message.as_str());
    proof {
        reveal_strlit(" ");
        assert(s@ =~= console_line_of(*ts, *rec, color));
    }
    s
}

/// The bracketed file timestamp for a record.
pub fn file_stamp(ts: &Timestamp) -> (r: String)
    requires
        ts.wf(),
    ensures
        r@ == file_stamp_of(*ts),
{
    let mut s: String = "[".to_owned();
    let date_s = render_date(ts);
    s.append(date_s.as_str());
    s.append(" ");
    let time_s = render_time(ts);
    s.append(time_s.as_str());
    s.append("]");
    proof {
        reveal_strlit("[");
        reveal_strlit(" ");
        reveal_strlit("]");
        assert(s@ =~= file_stamp_of(*ts));
    }
    s
}

/// One file line that carries the severity's unpadded name.
pub fn file_line_with_level(ts: &Timestamp, sev: Severity, message: &str) -> (r: String)
    requires
        ts.wf(),
    ensures
        r@ == file_line_with_level_of(*ts, sev, message@),
{
    let mut s = file_stamp(ts);
    s.append(" ");
    let name = severity_name(sev);
    s.append(name.as_str());
    s.append(" ");
    s.append(message);
    proof {
        reveal_strlit(" ");
        assert(s@ =~= file_line_with_level_of(*ts, sev, message@));
    }
    s
}

/// One file line without a severity field.
pub fn file_line_without_level(ts: &Timestamp, message: &str) -> (r: String)
    requires
        ts.wf(),
    ensures
        r@ == file_line_without_level_of(*ts, message@),
{
    let mut s = file_stamp(ts);
    s.append(" ");
    s.append(message);
    proof {
        reveal_strlit(" ");
        assert(s@ =~= file_line_without_level_of(*ts, message@));
    }
    s
}

} // verus!
