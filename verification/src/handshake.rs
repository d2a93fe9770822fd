//! The startup handshake: the backend announces the port it has bound as the
//! first line of its standard output, and nothing counts as "up" before that
//! line has been read and understood.

use crate::endpoint::{base_prefix, base_url, decimal, digit_char};
use vstd::prelude::*;
use vstd::std_specs::iter::IteratorSpec;
use vstd::string::*;

verus! {

/// Why a handshake did not yield a port.
#[derive(Clone, Copy, Debug, PartialEq, Eq, Structural)]
pub enum HandshakeError {
    /// The stream ended before a line terminator arrived.
    Unterminated,
    /// The first line, trimmed, is empty or holds something other than
    /// decimal digits.
    Malformed,
    /// The first line is a decimal numeral above the largest port.
    OutOfRange,
    /// Reading the stream failed.
    ReadFailed,
    /// No full line arrived within the time allowed.
    TimedOut,
}

/// What reading the start of the backend's standard output produced.
#[derive(Debug, PartialEq, Eq)]
pub enum PipeRead {
    /// The text read so far: up to and including the first line terminator,
    /// or up to the end of the stream where no terminator came.
    Text(String),
    /// The read reported an error.
    Failed,
    /// The wait for a line ran out.
    TimedOut,
}

/// The largest value a port can take.
pub const MAX_PORT: u32 = 65535;

/// Whether `c` is white space, as trimming understands it.
pub open spec fn is_space(c: char) -> bool {
    let u = c as u32;
    (0x09 <= u <= 0x0D) || u == 0x20 || u == 0x85 || u == 0xA0 || u == 0x1680 || (0x2000 <= u
        <= 0x200A) || u == 0x2028 || u == 0x2029 || u == 0x202F || u == 0x205F || u == 0x3000
}

/// Whether `c` is one of the ten decimal digits.
pub open spec fn is_digit(c: char) -> bool {
    0x30 <= c as u32 <= 0x39
}

/// The number that the digit `c` stands for.
pub open spec fn digit_value(c: char) -> nat
    recommends
        is_digit(c),
{
    (c as u32 - 0x30) as nat
}

/// The length of the first line of `s` without its terminator: the index of
/// the first line feed, or the length of `s` where it holds none.
pub open spec fn line_end(s: Seq<char>) -> nat
    decreases s.len(),
{
    if s.len() == 0 || s[0] == '\n' {
        0
    } else {
        1 + line_end(s.skip(1))
    }
}

/// `s` without its leading white space.
pub open spec fn trim_start(s: Seq<char>) -> Seq<char>
    decreases s.len(),
{
    if s.len() > 0 && is_space(s[0]) {
        trim_start(s.skip(1))
    } else {
        s
    }
}

/// `s` without its trailing white space.
pub open spec fn trim_end(s: Seq<char>) -> Seq<char>
    decreases s.len(),
{
    if s.len() > 0 && is_space(s.last()) {
        trim_end(s.drop_last())
    } else {
        s
    }
}

/// `s` without white space at either end.
pub open spec fn trimmed(s: Seq<char>) -> Seq<char> {
    trim_end(trim_start(s))
}

/// Whether every character of `s` is a decimal digit.
pub open spec fn all_digits(s: Seq<char>) -> bool {
    forall|i: int| 0 <= i < s.len() ==> is_digit(#[trigger] s[i])
}

/// The number that the digit string `s` writes in base 10.
pub open spec fn numeral_value(s: Seq<char>) -> nat
    decreases s.len(),
{
    if s.len() == 0 {
        0
    } else {
        numeral_value(s.drop_last()) * 10 + digit_value(s.last())
    }
}

/// The port that a trimmed line announces.
pub open spec fn port_of(s: Seq<char>) -> Result<u16, HandshakeError> {
    if s.len() == 0 || !all_digits(s) {
        Err(HandshakeError::Malformed)
    } else if numeral_value(s) > MAX_PORT {
        Err(HandshakeError::OutOfRange)
    } else {
        Ok(numeral_value(s) as u16)
    }
}

/// The outcome of the handshake on the text read from the backend's output.
pub open spec fn handshake_outcome(text: Seq<char>) -> Result<u16, HandshakeError> {
    if line_end(text) >= text.len() {
        Err(HandshakeError::Unterminated)
    } else {
        port_of(trimmed(text.take(line_end(text) as int)))
    }
}

/// The outcome of the handshake on whatever the read produced.
pub open spec fn read_outcome(read: PipeRead) -> Result<u16, HandshakeError> {
    match read {
        PipeRead::Text(text) => handshake_outcome(text@),
        PipeRead::Failed => Err(HandshakeError::ReadFailed),
        PipeRead::TimedOut => Err(HandshakeError::TimedOut),
    }
}

/// A line feed at `k` with none before it is where the first line ends.
pub proof fn lemma_line_end_at(s: Seq<char>, k: int)
    requires
        0 <= k <= s.len(),
        forall|j: int| 0 <= j < k ==> s[j] != '\n',
        k < s.len() ==> s[k] == '\n',
    ensures
        line_end(s) == k,
    decreases k,
{
    if k > 0 {
        let rest = s.skip(1);
        assert forall|j: int| 0 <= j < k - 1 implies rest[j] != '\n' by {
            assert(rest[j] == s[j + 1]);
        }
        lemma_line_end_at(rest, k - 1);
    }
}

/// Appending a digit never lowers the value of a numeral.
proof fn lemma_value_grows(s: Seq<char>)
    requires
        s.len() > 0,
        is_digit(s.last()),
    ensures
        numeral_value(s) >= numeral_value(s.drop_last()),
        numeral_value(s) == numeral_value(s.drop_last()) * 10 + digit_value(s.last()),
{
}

fn space(c: char) -> (b: bool)
    ensures
        b == is_space(c),
{
    let u: u32 = c as u32;
    (0x09 <= u && u <= 0x0D) || u == 0x20 || u == 0x85 || u == 0xA0 || u == 0x1680 || (0x2000 <= u
        && u <= 0x200A) || u == 0x2028 || u == 0x2029 || u == 0x202F || u == 0x205F || u == 0x3000
}

/// Collects the first line of `text`, without its terminator. Where the
/// text holds no line feed there is no full line, and the result is `None`.
fn first_line(text: &str) -> (found: Option<Vec<char>>)
    ensures
        found is Some <==> line_end(text@) < text@.len(),
        found matches Some(line) ==> line@ == text@.take(line_end(text@) as int),
{
    let mut rest = text.chars();
    let mut line: Vec<char> = Vec::new();
    let mut terminated: bool = false;
    loop
        invariant_except_break
            !terminated,
            text@ == line@ + rest.remaining(),
        invariant
            line@.len() <= text@.len(),
            forall|j: int| 0 <= j < line@.len() ==> line@[j] != '\n',
        ensures
            terminated ==> text@.len() > line@.len() && text@[line@.len() as int] == '\n'
                && text@.take(line@.len() as int) == line@,
            !terminated ==> text@ == line@,
        decreases text@.len() - line@.len(),
    {
        let ghost before = rest.remaining();
        match rest.next() {
            Some(c) => {
                assert(before =~= seq![c] + rest.remaining());
                if c == '\n' {
                    terminated = true;
                    assert(text@.take(line@.len() as int) =~= line@);
                    break ;
                }
                line.push(c);
                assert(line@ + rest.remaining() =~= line@.drop_last() + before);
            },
            None => {
                assert(text@ =~= line@);
                break ;
            },
        }
    }
    proof {
        assert forall|j: int| 0 <= j < line@.len() implies text@[j] != '\n' by {
            if terminated {
                assert(text@.take(line@.len() as int)[j] == text@[j]);
            }
        }
        lemma_line_end_at(text@, line@.len() as int);
    }
    if terminated {
        Some(line)
    } else {
        None
    }
}

/// Finds where `line`, trimmed, begins and ends.
fn trim_bounds(line: &Vec<char>) -> (bounds: (usize, usize))
    ensures
        bounds.0 <= bounds.1 <= line@.len(),
        trimmed(line@) == line@.subrange(bounds.0 as int, bounds.1 as int),
{
    let end: usize = line.len();
    proof {
        assert(line@.subrange(0, end as int) =~= line@);
    }
    let mut lo: usize = 0;
    while lo < end && space(line[lo])
        invariant
            lo <= end == line@.len(),
            trim_start(line@) == trim_start(line@.subrange(lo as int, end as int)),
        decreases end - lo,
    {
        proof {
            let cur = line@.subrange(lo as int, end as int);
            assert(cur[0] == line@[lo as int]);
            assert(cur.skip(1) =~= line@.subrange(lo + 1, end as int));
        }
        lo += 1;
    }
    proof {
        let cur = line@.subrange(lo as int, end as int);
        if lo < end {
            assert(cur[0] == line@[lo as int]);
        }
        assert(trim_start(line@) == cur);
    }
    let mut hi: usize = end;
    while lo < hi && space(line[hi - 1])
        invariant
            lo <= hi <= end == line@.len(),
            trimmed(line@) == trim_end(line@.subrange(lo as int, hi as int)),
        decreases hi - lo,
    {
        proof {
            let cur = line@.subrange(lo as int, hi as int);
            assert(cur.last() == line@[hi - 1]);
            assert(cur.drop_last() =~= line@.subrange(lo as int, hi - 1));
        }
        hi -= 1;
    }
    proof {
        let cur = line@.subrange(lo as int, hi as int);
        if lo < hi {
            assert(cur.last() == line@[hi - 1]);
        }
        assert(trimmed(line@) == cur);
    }
    (lo, hi)
}

/// Reads the characters of `line` from `lo` up to `hi` as a port. Once the
/// value has passed the largest port it is no longer tracked: only the
/// characters that follow are still checked.
fn read_port(line: &Vec<char>, lo: usize, hi: usize) -> (outcome: Result<u16, HandshakeError>)
    requires
        lo <= hi <= line@.len(),
    ensures
        outcome == port_of(line@.subrange(lo as int, hi as int)),
{
    let ghost digits = line@.subrange(lo as int, hi as int);
    if lo == hi {
        return Err(HandshakeError::Malformed);
    }
    let mut value: u32 = 0;
    let mut over: bool = false;
    let mut i: usize = lo;
    while i < hi
        invariant
            lo <= i <= hi <= line@.len(),
            digits == line@.subrange(lo as int, hi as int),
            all_digits(digits.take(i - lo)),
            !over ==> value == numeral_value(digits.take(i - lo)) && value <= MAX_PORT,
            over ==> numeral_value(digits.take(i - lo)) > MAX_PORT,
        decreases hi - i,
    {
        let c: char = line[i];
        let u: u32 = c as u32;
        proof {
            assert(digits[i - lo] == c);
        }
        if u < 0x30 || u > 0x39 {
            assert(!is_digit(digits[i - lo]));
            return Err(HandshakeError::Malformed);
        }
        proof {
            let seen = digits.take(i - lo + 1);
            assert(seen.drop_last() =~= digits.take(i - lo));
            assert(seen.last() == c);
            lemma_value_grows(seen);
            assert forall|j: int| 0 <= j < seen.len() implies is_digit(#[trigger] seen[j]) by {
                if j < i - lo {
                    assert(seen[j] == digits.take(i - lo)[j]);
                }
            }
        }
        if !over {
            let next: u32 = value * 10 + (u - 0x30);
            if next > MAX_PORT {
                over = true;
            } else {
                value = next;
            }
        }
        i += 1;
    }
    proof {
        assert(digits.take(hi - lo) =~= digits);
    }
    if over {
        Err(HandshakeError::OutOfRange)
    } else {
        Ok(value as u16)
    }
}

/// Reads the port from the text that came off the backend's standard output.
///
/// The first line is what stands before the first line feed; white space
/// around it is ignored, and what follows the line feed is not looked at.
pub fn parse_handshake(text: &str) -> (outcome: Result<u16, HandshakeError>)
    ensures
        outcome == handshake_outcome(text@),
{
    match first_line(text) {
        None => Err(HandshakeError::Unterminated),
        Some(line) => {
            let (lo, hi) = trim_bounds(&line);
            read_port(&line, lo, hi)
        },
    }
}

/// Decides the handshake from what the read of the backend's output produced:
/// a failed read and a timeout are errors of their own, text is parsed.
pub fn read_handshake(read: &PipeRead) -> (outcome: Result<u16, HandshakeError>)
    ensures
        outcome == read_outcome(*read),
{
    match read {
        PipeRead::Text(text) => parse_handshake(text.as_str()),
        PipeRead::Failed => Err(HandshakeError::ReadFailed),
        PipeRead::TimedOut => Err(HandshakeError::TimedOut),
    }
}

/// Every character of a decimal numeral is a digit, and the numeral writes
/// the number it was made from.
pub proof fn lemma_decimal_is_numeral(n: nat)
    ensures
        decimal(n).len() > 0,
        all_digits(decimal(n)),
        numeral_value(decimal(n)) == n,
    decreases n,
{
    let d = decimal(n);
    if n < 10 {
        assert(d.drop_last() =~= Seq::<char>::empty());
        assert(d.last() == digit_char(n));
        assert(numeral_value(d.drop_last()) == 0);
    } else {
        lemma_decimal_is_numeral(n / 10);
        assert(d.drop_last() =~= decimal(n / 10));
        assert(d.last() == digit_char(n % 10));
        assert forall|i: int| 0 <= i < d.len() implies is_digit(#[trigger] d[i]) by {
            if i < d.len() - 1 {
                assert(d[i] == decimal(n / 10)[i]);
            }
        }
    }
}

/// A base address names one port only: two ports with the same address are
/// the same port.
pub proof fn lemma_address_names_port(p: u16, q: u16)
    requires
        base_url(p) == base_url(q),
    ensures
        p == q,
{
    let skipped = base_prefix().len() as int;
    assert(base_url(p).skip(skipped) =~= decimal(p as nat));
    assert(base_url(q).skip(skipped) =~= decimal(q as nat));
    lemma_decimal_is_numeral(p as nat);
    lemma_decimal_is_numeral(q as nat);
}

/// The handshake reads back the number that a line announces: a decimal
/// numeral followed by a line feed yields that number where it is a port, and
/// is out of range where it is larger.
pub proof fn lemma_handshake_reads_decimal(n: nat)
    ensures
        n <= MAX_PORT ==> handshake_outcome(decimal(n).push('\n')) == Ok::<
            u16,
            HandshakeError,
        >(n as u16),
        n > MAX_PORT ==> handshake_outcome(decimal(n).push('\n')) == Err::<u16, HandshakeError>(
            HandshakeError::OutOfRange,
        ),
{
    let d = decimal(n);
    let text = d.push('\n');
    lemma_decimal_is_numeral(n);
    assert forall|j: int| 0 <= j < d.len() implies text[j] != '\n' by {
        assert(text[j] == d[j]);
        assert(is_digit(d[j]));
    }
    lemma_line_end_at(text, d.len() as int);
    assert(text.take(d.len() as int) =~= d);
    assert(is_digit(d[0]));
    assert(is_digit(d.last()));
    assert(trim_start(d) == d);
    assert(trim_end(d) == d);
}

/// Text without a line feed never completes the handshake.
pub proof fn lemma_unterminated_fails(text: Seq<char>)
    requires
        !text.contains('\n'),
    ensures
        handshake_outcome(text) == Err::<u16, HandshakeError>(HandshakeError::Unterminated),
{
    assert forall|j: int| 0 <= j < text.len() implies text[j] != '\n' by {
        if text[j] == '\n' {
            assert(text.contains('\n'));
        }
    }
    lemma_line_end_at(text, text.len() as int);
}

/// A first line that holds anything but digits between its white space is
/// rejected as malformed.
pub proof fn lemma_non_digit_fails(text: Seq<char>, i: int)
    requires
        line_end(text) < text.len(),
        0 <= i < trimmed(text.take(line_end(text) as int)).len(),
        !is_digit(trimmed(text.take(line_end(text) as int))[i]),
    ensures
        handshake_outcome(text) == Err::<u16, HandshakeError>(HandshakeError::Malformed),
{
}

} // verus!
