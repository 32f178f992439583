//! Text handling: the characters of a string, and its lines.

use vstd::prelude::*;

verus! {

/// `String::push` appends the one character to the string.
pub assume_specification[ String::push ](s: &mut String, c: char)
    ensures
        final(s)@ == old(s)@.push(c),
;

/// `String::pop` removes the last character and returns it, or returns
/// `None` and leaves the string as it is when it is empty.
pub assume_specification[ String::pop ](s: &mut String) -> (last: Option<char>)
    ensures
        old(s)@.len() == 0 ==> last.is_none() && final(s)@ == old(s)@,
        old(s)@.len() > 0 ==> last == Some(old(s)@.last()) && final(s)@ == old(s)@.drop_last(),
;

/// The views of the strings of `v`, one for one.
pub open spec fn texts(v: Seq<String>) -> Seq<Seq<char>> {
    Seq::new(v.len(), |i: int| v[i]@)
}

/// The number of characters before the first line feed of `s`, or the
/// length of `s` where it holds none.
pub open spec fn first_break(s: Seq<char>) -> nat
    decreases s.len(),
{
    if s.len() == 0 || s[0] == '\n' {
        0
    } else {
        1 + first_break(s.skip(1))
    }
}

/// `line` without the carriage return at its end, if it has one.
pub open spec fn without_return(line: Seq<char>) -> Seq<char> {
    if line.len() > 0 && line.last() == '\r' {
        line.drop_last()
    } else {
        line
    }
}

/// The lines of `s`. A line ends at a line feed; the line feed, and a
/// carriage return directly before it, belong to no line. What follows
/// the last line feed is a line of its own unless it is empty.
pub open spec fn lines_of(s: Seq<char>) -> Seq<Seq<char>>
    decreases s.len(),
{
    if s.len() == 0 {
        Seq::empty()
    } else {
        let n: int = first_break(s) as int;
        if n >= s.len() {
            seq![s]
        } else {
            seq![without_return(s.take(n))] + lines_of(s.skip(n + 1))
        }
    }
}

/// Where the first `n` characters hold no line feed and a line feed or
/// the end follows them, the first break is at `n`.
pub proof fn lemma_first_break(s: Seq<char>, n: int)
    requires
        0 <= n <= s.len(),
        forall|k: int| 0 <= k < n ==> s[k] != '\n',
        n == s.len() || s[n] == '\n',
    ensures
        first_break(s) == n,
    decreases n,
{
    if n > 0 {
        let rest = s.skip(1);
        lemma_first_break(rest, n - 1);
    }
}

/// Splits `message` into its lines.
pub fn split_lines(message: &str) -> (lines: Vec<String>)
    ensures
        texts(lines@) == lines_of(message@),
{
    let n = message.unicode_len();
    let ghost s = message@;
    let mut lines: Vec<String> = Vec::new();
    let mut start: usize = 0;
    let mut i: usize = 0;
    proof {
        assert(s.skip(0) =~= s);
    }
    while i < n
        invariant
            s == message@,
            n == s.len(),
            0 <= start <= i <= n,
            forall|k: int| start <= k < i ==> s[k] != '\n',
            texts(lines@) + lines_of(s.skip(start as int)) == lines_of(s),
        decreases n - i,
    {
        if message.get_char(i) == '\n' {
            let end = if i > start && message.get_char(i - 1) == '\r' {
                i - 1
            } else {
                i
            };
            let line = String::from_str(message.substring_char(start, end));
            proof {
                let tail = s.skip(start as int);
                lemma_first_break(tail, i - start);
                assert(without_return(tail.take(i - start)) =~= line@);
                assert(tail.skip(i - start + 1) =~= s.skip(i + 1));
            }
            lines.push(line);
            start = i + 1;
        }
        i += 1;
    }
    if start < n {
        let line = String::from_str(message.substring_char(start, n));
        proof {
            let tail = s.skip(start as int);
            lemma_first_break(tail, n - start);
        }
        lines.push(line);
    }
    lines
}

} // verus!
