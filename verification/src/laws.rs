//! The crate-wide laws: color is purely additive annotation, the two file
//! layouts differ only by the level token, and formatting is a function of
//! its inputs alone.

use vstd::prelude::*;

use crate::ansi::ansi_wrap;
use crate::ansi::code_cyan;
use crate::ansi::code_dark_gray;
use crate::ansi::code_purple;
use crate::ansi::esc;
use crate::ansi::esc_free;
use crate::ansi::lemma_esc_free_concat;
use crate::ansi::lemma_strip_esc_free;
use crate::ansi::lemma_strip_esc_free_prefix;
use crate::ansi::lemma_strip_wrap;
use crate::ansi::m_free;
use crate::ansi::strip_ansi;
use crate::ansi::strip_rec;
use crate::line::console_line_of;
use crate::line::file_line_with_level_of;
use crate::line::file_line_without_level_of;
use crate::line::file_stamp_of;
use crate::line::space;
use crate::record::LogRecord;
use crate::record::line_number;
use crate::record::module_line_of;
use crate::record::module_text;
use crate::record::thread_field_of;
use crate::record::thread_text;
use crate::severity::Severity;
use crate::severity::color_code_of;
use crate::severity::label_of;
use crate::severity::name_of;
use crate::timestamp::Timestamp;
use crate::timestamp::decimal_of;
use crate::timestamp::digit_char;
use crate::timestamp::pad2;
use crate::timestamp::pad3;
use crate::timestamp::time_of;

verus! {

/// A decimal digit is never the escape character.
proof fn lemma_digit_char_esc_free(d: int)
    ensures
        digit_char(d) != esc(),
{
}

/// A two-digit rendering holds no escape character.
proof fn lemma_pad2_esc_free(n: int)
    ensures
        esc_free(pad2(n)),
{
    assert forall|i: int| 0 <= i < pad2(n).len() implies pad2(n)[i] != esc() by {
        lemma_digit_char_esc_free(n / 10);
        lemma_digit_char_esc_free(n % 10);
    }
}

/// A three-digit rendering holds no escape character.
proof fn lemma_pad3_esc_free(n: int)
    ensures
        esc_free(pad3(n)),
{
    assert forall|i: int| 0 <= i < pad3(n).len() implies pad3(n)[i] != esc() by {
        lemma_digit_char_esc_free(n / 100);
        lemma_digit_char_esc_free((n / 10) % 10);
        lemma_digit_char_esc_free(n % 10);
    }
}

/// An unpadded decimal rendering holds no escape character.
proof fn lemma_decimal_esc_free(n: int)
    ensures
        esc_free(decimal_of(n)),
    decreases n,
{
    if n < 10 {
        lemma_digit_char_esc_free(n);
    } else {
        lemma_decimal_esc_free(n / 10);
        lemma_digit_char_esc_free(n % 10);
        lemma_esc_free_concat(decimal_of(n / 10), seq![digit_char(n % 10)]);
    }
}

/// The rendered clock holds no escape character.
proof fn lemma_time_esc_free(ts: Timestamp)
    ensures
        esc_free(time_of(ts)),
{
    let h = pad2(ts.hour as int);
    let mi = pad2(ts.minute as int);
    let se = pad2(ts.second as int);
    let ms = pad3(ts.millisecond as int);
    lemma_pad2_esc_free(ts.hour as int);
    lemma_pad2_esc_free(ts.minute as int);
    lemma_pad2_esc_free(ts.second as int);
    lemma_pad3_esc_free(ts.millisecond as int);
    lemma_esc_free_concat(h, seq![':']);
    lemma_esc_free_concat(h + seq![':'], mi);
    lemma_esc_free_concat(h + seq![':'] + mi, seq![':']);
    lemma_esc_free_concat(h + seq![':'] + mi + seq![':'], se);
    lemma_esc_free_concat(h + seq![':'] + mi + seq![':'] + se, seq!['.']);
    lemma_esc_free_concat(h + seq![':'] + mi + seq![':'] + se + seq!['.'], ms);
}

/// Every console label holds no escape character.
proof fn lemma_label_esc_free(sev: Severity)
    ensures
        esc_free(label_of(sev)),
{
}

/// The source location field holds no escape character when the module
/// path holds none.
proof fn lemma_module_line_esc_free(rec: LogRecord)
    requires
        rec.module matches Some(m) ==> esc_free(m@),
    ensures
        esc_free(module_line_of(rec)),
{
    lemma_decimal_esc_free(line_number(rec));
    lemma_esc_free_concat(module_text(rec), seq![':']);
    lemma_esc_free_concat(module_text(rec) + seq![':'], decimal_of(line_number(rec)));
}

/// The thread field holds no escape character when the thread name holds
/// none.
proof fn lemma_thread_field_esc_free(rec: LogRecord)
    requires
        rec.thread matches Some(t) ==> esc_free(t@),
    ensures
        esc_free(thread_field_of(rec)),
{
    lemma_esc_free_concat(seq!['T', '{'], thread_text(rec));
    lemma_esc_free_concat(seq!['T', '{'] + thread_text(rec), seq!['}']);
}

/// No severity's color code holds the closing letter `m`.
proof fn lemma_color_code_m_free(sev: Severity)
    ensures
        m_free(color_code_of(sev)),
{
}

/// Color is purely additive annotation: a colored console line, stripped
/// of its ANSI escape sequences, is byte-identical to the plain console
/// line for the same inputs. It holds whenever the caller's own texts
/// (message, module path, thread name) carry no escape character of their
/// own.
pub proof fn lemma_color_additive(ts: Timestamp, rec: LogRecord)
    requires
        esc_free(rec.message@),
        rec.module matches Some(m) ==> esc_free(m@),
        rec.thread matches Some(t) ==> esc_free(t@),
    ensures
        strip_ansi(console_line_of(ts, rec, true)) == console_line_of(ts, rec, false),
{
    let f1 = time_of(ts);
    let f2 = label_of(rec.severity);
    let f3 = module_line_of(rec);
    let f4 = thread_field_of(rec);
    let msg = rec.message@;
    let c1 = code_dark_gray();
    let c2 = color_code_of(rec.severity);
    let c3 = code_purple();
    let c4 = code_cyan();

    lemma_time_esc_free(ts);
    lemma_label_esc_free(rec.severity);
    lemma_module_line_esc_free(rec);
    lemma_thread_field_esc_free(rec);
    lemma_color_code_m_free(rec.severity);
    assert(m_free(c1));
    assert(m_free(c3));
    assert(m_free(c4));
    assert(esc_free(space()));

    let t4 = space() + msg;
    let t3 = space() + (ansi_wrap(c4, f4) + t4);
    let t2 = space() + (ansi_wrap(c3, f3) + t3);
    let t1 = space() + (ansi_wrap(c2, f2) + t2);
    let whole = ansi_wrap(c1, f1) + t1;
    assert(console_line_of(ts, rec, true) =~= whole);

    lemma_strip_wrap(c1, f1, t1);
    assert(strip_rec(whole, false) == f1 + strip_rec(t1, false));
    lemma_strip_esc_free_prefix(space(), ansi_wrap(c2, f2) + t2);
    assert(strip_rec(t1, false) == space() + strip_rec(ansi_wrap(c2, f2) + t2, false));
    lemma_strip_wrap(c2, f2, t2);
    lemma_strip_esc_free_prefix(space(), ansi_wrap(c3, f3) + t3);
    assert(strip_rec(t2, false) == space() + strip_rec(ansi_wrap(c3, f3) + t3, false));
    lemma_strip_wrap(c3, f3, t3);
    lemma_strip_esc_free_prefix(space(), ansi_wrap(c4, f4) + t4);
    assert(strip_rec(t3, false) == space() + strip_rec(ansi_wrap(c4, f4) + t4, false));
    lemma_strip_wrap(c4, f4, t4);
    lemma_strip_esc_free_prefix(space(), msg);
    assert(strip_rec(t4, false) == space() + strip_rec(msg, false));
    lemma_strip_esc_free(msg);

    assert(strip_ansi(whole) =~= f1 + (space() + (f2 + (space() + (f3 + (space() + (f4 + (space()
        + msg))))))));
    assert(console_line_of(ts, rec, false) =~= f1 + (space() + (f2 + (space() + (f3 + (space() + (
    f4 + (space() + msg))))))));
}

/// Color is purely additive for the label alone as well: the colored
/// label of any severity, stripped of its ANSI wrapping, is the plain
/// label of that severity.
pub proof fn lemma_label_color_additive(sev: Severity)
    ensures
        strip_ansi(ansi_wrap(color_code_of(sev), label_of(sev))) == label_of(sev),
{
    let wrapped = ansi_wrap(color_code_of(sev), label_of(sev));
    lemma_label_esc_free(sev);
    lemma_color_code_m_free(sev);
    lemma_strip_wrap(color_code_of(sev), label_of(sev), Seq::empty());
    assert(wrapped + Seq::<char>::empty() =~= wrapped);
    assert(label_of(sev) + strip_rec(Seq::empty(), false) =~= label_of(sev));
}

/// The two file layouts are identical but for the single `<LEVEL> ` token
/// that stands right after the bracketed timestamp: both are the same
/// prefix and the same message, and the layout with the level inserts
/// exactly the severity's name and one space between them.
pub proof fn lemma_file_level_token(ts: Timestamp, sev: Severity, msg: Seq<char>)
    ensures
        file_line_with_level_of(ts, sev, msg) == file_stamp_of(ts) + space() + (name_of(sev)
            + space()) + msg,
        file_line_without_level_of(ts, msg) == file_stamp_of(ts) + space() + msg,
{
    assert(file_line_with_level_of(ts, sev, msg) =~= file_stamp_of(ts) + space() + (name_of(sev)
        + space()) + msg);
}

/// Console formatting is deterministic: any two results that satisfy the
/// console formatter's contract for the same inputs are byte-identical.
pub proof fn lemma_console_deterministic(
    ts: Timestamp,
    rec: LogRecord,
    color: bool,
    r1: Seq<char>,
    r2: Seq<char>,
)
    requires
        r1 == console_line_of(ts, rec, color),
        r2 == console_line_of(ts, rec, color),
    ensures
        r1 == r2,
{
}

/// File formatting is deterministic in the same way, for both layouts.
pub proof fn lemma_file_deterministic(
    ts: Timestamp,
    sev: Severity,
    msg: Seq<char>,
    with_level: bool,
    r1: Seq<char>,
    r2: Seq<char>,
)
    requires
        r1 == if with_level {
            file_line_with_level_of(ts, sev, msg)
        } else {
            file_line_without_level_of(ts, msg)
        },
        r2 == if with_level {
            file_line_with_level_of(ts, sev, msg)
        } else {
            file_line_without_level_of(ts, msg)
        },
    ensures
        r1 == r2,
{
}

} // verus!
