//! Verified text helpers: decimal rendering of counters and the observer's
//! output-line accumulation.

use vstd::prelude::*;

verus! {

/// The character for one decimal digit.
pub open spec fn digit_char(d: nat) -> char {
    if d == 0 {
        '0'
    } else if d == 1 {
        '1'
    } else if d == 2 {
        '2'
    } else if d == 3 {
        '3'
    } else if d == 4 {
        '4'
    } else if d == 5 {
        '5'
    } else if d == 6 {
        '6'
    } else if d == 7 {
        '7'
    } else if d == 8 {
        '8'
    } else {
        '9'
    }
}

/// The decimal rendering of a number, most significant digit first.
pub open spec fn dec_spec(n: nat) -> Seq<char>
    decreases n,
{
    if n < 10 {
        seq![digit_char(n)]
    } else {
        dec_spec(n / 10).push(digit_char(n % 10))
    }
}

/// Appends the character of one decimal digit.
fn append_digit(s: &mut String, d: u64)
    requires
        d < 10,
    ensures
        final(s)@ == old(s)@.push(digit_char(d as nat)),
{
    proof {
        reveal_strlit("0");
        reveal_strlit("1");
        reveal_strlit("2");
        reveal_strlit("3");
        reveal_strlit("4");
        reveal_strlit("5");
        reveal_strlit("6");
        reveal_strlit("7");
        reveal_strlit("8");
        reveal_strlit("9");
    }
    if d == 0 {
        s.append("0");
    } else if d == 1 {
        s.append("1");
    } else if d == 2 {
        s.append("2");
    } else if d == 3 {
        s.append("3");
    } else if d == 4 {
        s.append("4");
    } else if d == 5 {
        s.append("5");
    } else if d == 6 {
        s.append("6");
    } else if d == 7 {
        s.append("7");
    } else if d == 8 {
        s.append("8");
    } else {
        s.append("9");
    }
    assert(s@ =~= old(s)@.push(digit_char(d as nat)));
}

/// Appends the decimal rendering of `n`.
pub fn append_dec(s: &mut String, n: u64)
    ensures
        final(s)@ == old(s)@ + dec_spec(n as nat),
    decreases n,
{
    if n < 10 {
        append_digit(s, n);
    } else {
        append_dec(s, n / 10);
        append_digit(s, n % 10);
    }
    assert(s@ =~= old(s)@ + dec_spec(n as nat));
}

/// The observer's output text after one more line has arrived: lines are
/// separated by a newline, and the first line starts the text.
pub open spec fn spec_appended_line(cur: Seq<char>, line: Seq<char>) -> Seq<char> {
    if cur.len() == 0 {
        line
    } else {
        cur + seq!['\n'] + line
    }
}

/// Appends one output line to the accumulated observer text.
pub fn append_line(text: &mut String, line: &str)
    ensures
        final(text)@ == spec_appended_line(old(text)@, line@),
{
    if !text.as_str().is_empty() {
        proof {
            reveal_strlit("\n");
        }
        text.append("\n");
    }
    text.append(line);
    assert(text@ =~= spec_appended_line(old(text)@, line@));
}

/// The marker put in front of a line read from the child's standard error.
pub open spec fn spec_stderr_line(line: Seq<char>) -> Seq<char> {
    "[stderr] "@ + line
}

/// Prefixes a standard-error line so the observer can tell its origin.
pub fn stderr_line(line: &str) -> (r: String)
    ensures
        r@ == spec_stderr_line(line@),
{
    let mut s: String = "[stderr] ".to_owned();
    s.append(line);
    s
}

} // verus!
