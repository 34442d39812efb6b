//! Port discovery from the server's startup output.
//!
//! The server announces its address in a line holding
//! `running at http://127.0.0.1:<port>`. Lines are judged one at a time, so
//! that the reader can stop at the first line that decides the outcome.

use vstd::prelude::*;
use crate::text::{after_last, chars_of, contains, contains_seq, start_after_last};
use vstd::string::StrSliceExecFns;

verus! {

/// The text that announces the server's address.
pub const MARKER: &'static str = "running at http://127.0.0.1:";

/// What `str::trim` leaves of a string.
pub uninterp spec fn trimmed(s: Seq<char>) -> Seq<char>;

/// Relies on str::trim: leading and trailing white space removed.
#[verifier::external_body]
fn trim_str(s: &str) -> (r: &str)
    ensures
        r@ == trimmed(s@),
{
    s.trim()
}

/// An ASCII decimal digit.
pub open spec fn is_digit(c: char) -> bool {
    '0' <= c <= '9'
}

/// The value of a decimal digit.
pub open spec fn digit_value(c: char) -> nat {
    (c as u32 - 48) as nat
}

/// Value of a string of decimal digits (0 for the empty string).
pub open spec fn digits_value(s: Seq<char>) -> nat
    decreases s.len(),
{
    if s.len() == 0 {
        0
    } else {
        digits_value(s.drop_last()) * 10 + digit_value(s.last())
    }
}

/// The digits of a number token: the token without one leading `+`.
pub open spec fn unsigned_digits(s: Seq<char>) -> Seq<char> {
    if s.len() > 0 && s[0] == '+' {
        s.drop_first()
    } else {
        s
    }
}

/// A 16-bit unsigned number written in decimal, with an optional leading `+`.
pub open spec fn parse_u16(s: Seq<char>) -> Option<u16> {
    let d = unsigned_digits(s);
    if d.len() > 0 && (forall|i: int| 0 <= i < d.len() ==> is_digit(#[trigger] d[i]))
        && digits_value(d) <= 65535 {
        Some(digits_value(d) as u16)
    } else {
        None
    }
}

proof fn lemma_prefix_value_le(s: Seq<char>, i: int)
    requires
        0 <= i <= s.len(),
    ensures
        digits_value(s.subrange(0, i)) <= digits_value(s),
    decreases s.len(),
{
    if i < s.len() {
        assert(s.drop_last().subrange(0, i) == s.subrange(0, i));
        lemma_prefix_value_le(s.drop_last(), i);
    } else {
        assert(s.subrange(0, i) == s);
    }
}

/// Parses a decimal 16-bit unsigned number, as `str::parse::<u16>` reads one.
pub fn parse_port_token(token: &str) -> (r: Option<u16>)
    ensures
        r == parse_u16(token@),
{
    let cs = chars_of(token);
    let n = cs.len();
    let mut i: usize = 0;
    if n > 0 && cs[0] == '+' {
        i = 1;
    }
    let start = i;
    let ghost d = unsigned_digits(token@);
    assert(d == cs@.subrange(start as int, n as int));
    if start == n {
        return None;
    }
    let mut acc: u32 = 0;
    while i < n
        invariant
            n == cs@.len(),
            d == unsigned_digits(token@),
            d == cs@.subrange(start as int, n as int),
            start <= i <= n,
            acc <= 65535,
            acc == digits_value(d.subrange(0, i - start)),
            forall|k: int| 0 <= k < i - start ==> is_digit(#[trigger] d[k]),
        decreases n - i,
    {
        let c = cs[i];
        let ghost j = i - start;
        if !('0' <= c && c <= '9') {
            assert(d[j] == c);
            assert(!is_digit(d[j]));
            return None;
        }
        assert(d.subrange(0, j + 1).drop_last() == d.subrange(0, j));
        let next = acc * 10 + (c as u32 - 48);
        assert(d.subrange(0, j + 1).last() == c);
        assert(digits_value(d.subrange(0, j + 1)) == next);
        if next > 65535 {
            proof {
                lemma_prefix_value_le(d, j + 1);
            }
            return None;
        }
        acc = next;
        i = i + 1;
    }
    assert(d.subrange(0, d.len() as int) == d);
    Some(acc as u16)
}

/// The port a line announces: the number after the line's last `:`, white
/// space trimmed, when the line holds the marker; `None` otherwise.
pub open spec fn port_in_line(line: Seq<char>) -> Option<u16> {
    if contains(line, MARKER@) {
        parse_u16(trimmed(after_last(line, ':')))
    } else {
        None
    }
}

/// Reads the port that one output line announces, if any.
pub fn port_from_line(line: &str) -> (r: Option<u16>)
    ensures
        r == port_in_line(line@),
{
    let cs = chars_of(line);
    let marker = chars_of(MARKER);
    if !contains_seq(&cs, &marker) {
        return None;
    }
    let start = start_after_last(&cs, ':');
    let tail = line.substring_char(start, cs.len());
    let token = trim_str(tail);
    parse_port_token(token)
}

/// What the reader of the server's output does next.
#[derive(Debug, Clone, Copy, PartialEq, Eq)]
pub enum SniffAction {
    /// No decision yet: read another line.
    ReadNext,
    /// The server announced this nonzero port: stop reading.
    Accept(u16),
    /// No usable port can come: terminate the server and fail the launch.
    KillAndFail,
}

/// The decision on one step of the output: `None` stands for the end of the
/// stream. A port of zero is announced but never valid.
pub open spec fn sniff_decision(line: Option<Seq<char>>) -> SniffAction {
    match line {
        None => SniffAction::KillAndFail,
        Some(l) => match port_in_line(l) {
            None => SniffAction::ReadNext,
            Some(p) => if p == 0 {
                SniffAction::KillAndFail
            } else {
                SniffAction::Accept(p)
            },
        },
    }
}

/// The characters of an optional line.
pub open spec fn opt_view(line: Option<&str>) -> Option<Seq<char>> {
    match line {
        Some(l) => Some(l@),
        None => None,
    }
}

/// Decides what follows one line of output, or the end of the output (`None`).
pub fn sniff_step(line: Option<&str>) -> (r: SniffAction)
    ensures
        r == sniff_decision(opt_view(line)),
{
    match line {
        None => SniffAction::KillAndFail,
        Some(l) => match port_from_line(l) {
            None => SniffAction::ReadNext,
            Some(p) => if p == 0 {
                SniffAction::KillAndFail
            } else {
                SniffAction::Accept(p)
            },
        },
    }
}

/// How reading a whole output ends.
#[derive(Debug, Clone, Copy, PartialEq, Eq)]
pub struct SniffOutcome {
    /// The discovered port, `None` when the launch fails.
    pub port: Option<u16>,
    /// How many lines were read before the reader stopped.
    pub lines_read: usize,
}

/// The outcome of reading `lines` from index `i` on, after the lines before
/// `i` asked for more: the first decisive line ends the reading; running out
/// of lines fails it.
pub open spec fn sniff_from(lines: Seq<String>, i: int) -> (Option<u16>, int)
    decreases lines.len() - i,
{
    if i < 0 || i >= lines.len() {
        (None, lines.len() as int)
    } else {
        match sniff_decision(Some(lines[i]@)) {
            SniffAction::ReadNext => sniff_from(lines, i + 1),
            SniffAction::Accept(p) => (Some(p), i + 1),
            SniffAction::KillAndFail => (None, i + 1),
        }
    }
}

/// Runs the reader over a finished list of output lines.
pub fn sniff_lines(lines: &Vec<String>) -> (r: SniffOutcome)
    ensures
        r.port == sniff_from(lines@, 0).0,
        r.lines_read as int == sniff_from(lines@, 0).1,
{
    let mut i: usize = 0;
    while i < lines.len()
        invariant
            i <= lines@.len(),
            sniff_from(lines@, 0) == sniff_from(lines@, i as int),
        decreases lines@.len() - i,
    {
        match sniff_step(Some(lines[i].as_str())) {
            SniffAction::ReadNext => {},
            SniffAction::Accept(p) => {
                return SniffOutcome { port: Some(p), lines_read: i + 1 };
            },
            SniffAction::KillAndFail => {
                return SniffOutcome { port: None, lines_read: i + 1 };
            },
        }
        i = i + 1;
    }
    SniffOutcome { port: None, lines_read: i }
}

/// Reading stops at the first line that announces a valid port: that port is
/// taken and no later line is read.
pub proof fn lemma_stops_at_first_port(lines: Seq<String>, k: int)
    requires
        0 <= k < lines.len(),
        forall|j: int| 0 <= j < k ==> port_in_line(#[trigger] lines[j]@) is None,
        port_in_line(lines[k]@) matches Some(p) && p != 0,
    ensures
        sniff_from(lines, 0) == (port_in_line(lines[k]@), k + 1),
{
    lemma_skip_silent_lines(lines, 0, k);
}

/// Output that ends without any line announcing a port fails the launch, and
/// its end orders the server terminated.
pub proof fn lemma_silent_output_fails(lines: Seq<String>)
    requires
        forall|j: int| 0 <= j < lines.len() ==> port_in_line(#[trigger] lines[j]@) is None,
    ensures
        sniff_from(lines, 0).0 is None,
        sniff_from(lines, 0).1 == lines.len(),
        sniff_decision(None) == SniffAction::KillAndFail,
{
    lemma_skip_silent_lines(lines, 0, lines.len() as int);
}

proof fn lemma_skip_silent_lines(lines: Seq<String>, i: int, k: int)
    requires
        0 <= i <= k <= lines.len(),
        forall|j: int| 0 <= j < k ==> port_in_line(#[trigger] lines[j]@) is None,
    ensures
        sniff_from(lines, i) == sniff_from(lines, k),
    decreases k - i,
{
    if i < k {
        lemma_skip_silent_lines(lines, i + 1, k);
    }
}

} // verus!
