//! ANSI color annotation: the escape sequences this crate paints with, a
//! spec-level description of what painting adds to a text, and a spec-level
//! stripper that removes it again.

use vstd::prelude::*;

verus! {

/// The ASCII escape character that opens every ANSI control sequence.
pub open spec fn esc() -> char {
    '\u{1b}'
}

/// SGR code of red, the color of the `Error` label.
pub open spec fn code_red() -> Seq<char> {
    seq!['3', '1']
}

/// SGR code of green, the color of the `Info` label.
pub open spec fn code_green() -> Seq<char> {
    seq!['3', '2']
}

/// SGR code of yellow, the color of the `Warn` label.
pub open spec fn code_yellow() -> Seq<char> {
    seq!['3', '3']
}

/// SGR code of blue, the color of the `Debug` label.
pub open spec fn code_blue() -> Seq<char> {
    seq!['3', '4']
}

/// SGR code of purple, the color of the `Trace` label and of the source
/// location field.
pub open spec fn code_purple() -> Seq<char> {
    seq!['3', '5']
}

/// SGR code of cyan, the color of the thread field.
pub open spec fn code_cyan() -> Seq<char> {
    seq!['3', '6']
}

/// SGR code of the 256-color palette's dim gray, the color of the `Off`
/// label.
pub open spec fn code_dim_gray() -> Seq<char> {
    seq!['3', '8', ';', '5', ';', '8']
}

/// SGR code of dark gray, the color of the timestamp field.
pub open spec fn code_dark_gray() -> Seq<char> {
    seq!['9', '0']
}

/// `ESC [ <code> m`: the sequence that turns a color on.
pub open spec fn ansi_prefix(code: Seq<char>) -> Seq<char> {
    seq![esc(), '['] + code + seq!['m']
}

/// `ESC [ 0 m`: the sequence that turns every attribute off again.
pub open spec fn ansi_reset() -> Seq<char> {
    seq![esc(), '[', '0', 'm']
}

/// A text wrapped in one color: the color's prefix, the text unchanged,
/// then the reset sequence.
pub open spec fn ansi_wrap(code: Seq<char>, text: Seq<char>) -> Seq<char> {
    ansi_prefix(code) + text + ansi_reset()
}

/// Relies on nu_ansi_term::Color::Red.paint and on Display for the painted
/// string: it writes `ESC [31m`, the text unchanged, then `ESC [0m`.
#[verifier::external_body]
pub(crate) fn paint_red(s: &str) -> (r: String)
    ensures
        r@ == ansi_wrap(code_red(), s@),
{
    nu_ansi_term::Color::Red.paint(s).to_string()
}

/// Relies on nu_ansi_term::Color::Green.paint and on Display for the
/// painted string: it writes `ESC [32m`, the text unchanged, then `ESC [0m`.
#[verifier::external_body]
pub(crate) fn paint_green(s: &str) -> (r: String)
    ensures
        r@ == ansi_wrap(code_green(), s@),
{
    nu_ansi_term::Color::Green.paint(s).to_string()
}

/// Relies on nu_ansi_term::Color::Yellow.paint and on Display for the
/// painted string: it writes `ESC [33m`, the text unchanged, then `ESC [0m`.
#[verifier::external_body]
pub(crate) fn paint_yellow(s: &str) -> (r: String)
    ensures
        r@ == ansi_wrap(code_yellow(), s@),
{
    nu_ansi_term::Color::Yellow.paint(s).to_string()
}

/// Relies on nu_ansi_term::Color::Blue.paint and on Display for the painted
/// string: it writes `ESC [34m`, the text unchanged, then `ESC [0m`.
#[verifier::external_body]
pub(crate) fn paint_blue(s: &str) -> (r: String)
    ensures
        r@ == ansi_wrap(code_blue(), s@),
{
    nu_ansi_term::Color::Blue.paint(s).to_string()
}

/// Relies on nu_ansi_term::Color::Purple.paint and on Display for the
/// painted string: it writes `ESC [35m`, the text unchanged, then `ESC [0m`.
#[verifier::external_body]
pub(crate) fn paint_purple(s: &str) -> (r: String)
    ensures
        r@ == ansi_wrap(code_purple(), s@),
{
    nu_ansi_term::Color::Purple.paint(s).to_string()
}

/// Relies on nu_ansi_term::Color::Cyan.paint and on Display for the painted
/// string: it writes `ESC [36m`, the text unchanged, then `ESC [0m`.
#[verifier::external_body]
pub(crate) fn paint_cyan(s: &str) -> (r: String)
    ensures
        r@ == ansi_wrap(code_cyan(), s@),
{
    nu_ansi_term::Color::Cyan.paint(s).to_string()
}

/// Relies on nu_ansi_term::Color::Fixed(8).paint and on Display for the
/// painted string: it writes `ESC [38;5;8m`, the text unchanged, then
/// `ESC [0m`.
#[verifier::external_body]
pub(crate) fn paint_dim_gray(s: &str) -> (r: String)
    ensures
        r@ == ansi_wrap(code_dim_gray(), s@),
{
    nu_ansi_term::Color::Fixed(8).paint(s).to_string()
}

/// Relies on nu_ansi_term::Color::DarkGray.paint and on Display for the
/// painted string: it writes `ESC [90m`, the text unchanged, then `ESC [0m`.
#[verifier::external_body]
pub(crate) fn paint_dark_gray(s: &str) -> (r: String)
    ensures
        r@ == ansi_wrap(code_dark_gray(), s@),
{
    nu_ansi_term::Color::DarkGray.paint(s).to_string()
}

/// Holds when no character of `s` is the ANSI escape character.
pub open spec fn esc_free(s: Seq<char>) -> bool {
    forall|i: int| 0 <= i < s.len() ==> s[i] != esc()
}

/// Holds when no character of `s` is `m`, the letter that closes an SGR
/// sequence.
pub open spec fn m_free(s: Seq<char>) -> bool {
    forall|i: int| 0 <= i < s.len() ==> s[i] != 'm'
}

/// One pass over `s` that drops every `ESC ... m` run; `in_escape` says
/// whether the pass currently stands inside such a run.
pub open spec fn strip_rec(s: Seq<char>, in_escape: bool) -> Seq<char>
    decreases s.len(),
{
    if s.len() == 0 {
        Seq::empty()
    } else if in_escape {
        strip_rec(s.skip(1), s[0] != 'm')
    } else if s[0] == esc() {
        strip_rec(s.skip(1), true)
    } else {
        seq![s[0]] + strip_rec(s.skip(1), false)
    }
}

/// `s` with every ANSI escape sequence removed.
pub open spec fn strip_ansi(s: Seq<char>) -> Seq<char> {
    strip_rec(s, false)
}

/// Stripping passes a prefix through unchanged as long as it holds no
/// escape character.
pub proof fn lemma_strip_esc_free_prefix(s: Seq<char>, t: Seq<char>)
    requires
        esc_free(s),
    ensures
        strip_rec(s + t, false) == s + strip_rec(t, false),
    decreases s.len(),
{
    if s.len() == 0 {
        assert(s + t =~= t);
        assert(s + strip_rec(t, false) =~= strip_rec(t, false));
    } else {
        assert((s + t)[0] == s[0]);
        assert((s + t).skip(1) =~= s.skip(1) + t);
        assert forall|i: int| 0 <= i < s.skip(1).len() implies s.skip(1)[i] != esc() by {
            assert(s.skip(1)[i] == s[i + 1]);
        }
        lemma_strip_esc_free_prefix(s.skip(1), t);
        assert(seq![s[0]] + (s.skip(1) + strip_rec(t, false)) =~= s + strip_rec(t, false));
    }
}

/// Inside an escape sequence, stripping drops everything up to and
/// including the closing `m`.
pub proof fn lemma_strip_code(code: Seq<char>, t: Seq<char>)
    requires
        m_free(code),
    ensures
        strip_rec(code + seq!['m'] + t, true) == strip_rec(t, false),
    decreases code.len(),
{
    if code.len() == 0 {
        assert(code + seq!['m'] + t =~= seq!['m'] + t);
        assert((seq!['m'] + t)[0] == 'm');
        assert((seq!['m'] + t).skip(1) =~= t);
    } else {
        let w = code + seq!['m'] + t;
        assert(w[0] == code[0]);
        assert(w[0] != 'm');
        assert(w.skip(1) =~= code.skip(1) + seq!['m'] + t);
        assert forall|i: int| 0 <= i < code.skip(1).len() implies code.skip(1)[i] != 'm' by {
            assert(code.skip(1)[i] == code[i + 1]);
        }
        lemma_strip_code(code.skip(1), t);
    }
}

/// Stripping a wrapped text yields the text itself, and goes on with what
/// follows the reset sequence.
pub proof fn lemma_strip_wrap(code: Seq<char>, text: Seq<char>, t: Seq<char>)
    requires
        m_free(code),
        esc_free(text),
    ensures
        strip_rec(ansi_wrap(code, text) + t, false) == text + strip_rec(t, false),
{
    let w = ansi_wrap(code, text) + t;
    let opener = seq!['['] + code;
    let after = text + (ansi_reset() + t);
    assert(w[0] == esc());
    assert(w.skip(1) =~= opener + seq!['m'] + after);
    assert forall|i: int| 0 <= i < opener.len() implies opener[i] != 'm' by {
        if i > 0 {
            assert(opener[i] == code[i - 1]);
        }
    }
    lemma_strip_code(opener, after);
    lemma_strip_esc_free_prefix(text, ansi_reset() + t);
    let r = ansi_reset() + t;
    assert(r[0] == esc());
    assert(r.skip(1) =~= seq!['[', '0'] + seq!['m'] + t);
    assert(m_free(seq!['[', '0']));
    lemma_strip_code(seq!['[', '0'], t);
}

/// A text without escape characters strips to itself.
pub proof fn lemma_strip_esc_free(s: Seq<char>)
    requires
        esc_free(s),
    ensures
        strip_ansi(s) == s,
{
    lemma_strip_esc_free_prefix(s, Seq::empty());
    assert(s + Seq::<char>::empty() =~= s);
    assert(s + strip_rec(Seq::empty(), false) =~= s);
}

/// Two escape-free texts concatenate to an escape-free text.
pub proof fn lemma_esc_free_concat(a: Seq<char>, b: Seq<char>)
    requires
        esc_free(a),
        esc_free(b),
    ensures
        esc_free(a + b),
{
    assert forall|i: int| 0 <= i < (a + b).len() implies (a + b)[i] != esc() by {
        if i < a.len() {
            assert((a + b)[i] == a[i]);
        } else {
            assert((a + b)[i] == b[i - a.len()]);
        }
    }
}

} // verus!
