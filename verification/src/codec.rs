//! The line protocol codec: one text line (already stripped of its trailing
//! newline) decodes to a numeric record, the shutdown command, or a protocol
//! violation.

use vstd::prelude::*;
use vstd::string::StrSliceExecFns;

verus! {

/// Longest raw line accepted as a numeric record. The cap is measured on the
/// raw line, before leading zeros are stripped for numeric interpretation.
pub const MAX_NUMERIC_LEN: usize = 9;

/// Outcome of decoding one protocol line.
#[derive(Clone, Copy, Debug, PartialEq, Eq, Structural)]
pub enum LineOutcome {
    /// A well-formed numeric record, carrying its value.
    Numeric(u32),
    /// The exact shutdown literal `terminate`.
    Terminate,
    /// Anything else: a protocol violation closing the connection.
    Invalid,
}

pub open spec fn is_digit(c: char) -> bool {
    48 <= c as u32 <= 57
}

pub open spec fn digit_value(c: char) -> nat {
    (c as u32 - 48) as nat
}

pub open spec fn all_digits(s: Seq<char>) -> bool {
    forall|i: int| 0 <= i < s.len() ==> is_digit(#[trigger] s[i])
}

/// The value denoted by a sequence of digit characters. Leading zeros carry
/// no weight, and the empty sequence denotes zero, so an all-zero line
/// denotes the value zero.
pub open spec fn line_value(s: Seq<char>) -> nat
    decreases s.len(),
{
    if s.len() == 0 {
        0
    } else {
        line_value(s.drop_last()) * 10 + digit_value(s.last())
    }
}

/// A raw line is a valid numeric record: nonempty, at most
/// `MAX_NUMERIC_LEN` characters, and made of decimal digits only.
pub open spec fn is_valid_numeric(s: Seq<char>) -> bool {
    1 <= s.len() <= MAX_NUMERIC_LEN && all_digits(s)
}

pub open spec fn is_terminate(s: Seq<char>) -> bool {
    s == "terminate"@
}

/// What one line decodes to: the shutdown literal, else a numeric record if
/// well formed, else a protocol violation.
pub open spec fn spec_outcome(s: Seq<char>) -> LineOutcome {
    if is_terminate(s) {
        LineOutcome::Terminate
    } else if is_valid_numeric(s) {
        LineOutcome::Numeric(line_value(s) as u32)
    } else {
        LineOutcome::Invalid
    }
}

pub open spec fn pow10(n: nat) -> nat
    decreases n,
{
    if n == 0 {
        1
    } else {
        10 * pow10((n - 1) as nat)
    }
}

pub proof fn lemma_pow10_mono(a: nat, b: nat)
    requires
        a <= b,
    ensures
        pow10(a) <= pow10(b),
    decreases b,
{
    if a < b {
        lemma_pow10_mono(a, (b - 1) as nat);
        assert(pow10(b) == 10 * pow10((b - 1) as nat));
        lemma_pow10_pos((b - 1) as nat);
    }
}

pub proof fn lemma_pow10_pos(n: nat)
    ensures
        pow10(n) >= 1,
    decreases n,
{
    if n > 0 {
        lemma_pow10_pos((n - 1) as nat);
    }
}

/// A leading zero carries no weight: stripping it leaves the denoted value
/// unchanged, so lines that agree after leading-zero stripping denote one
/// value.
pub proof fn lemma_leading_zero_ignored(s: Seq<char>)
    requires
        s.len() > 0,
        s[0] == '0',
    ensures
        line_value(s) == line_value(s.drop_first()),
    decreases s.len(),
{
    if s.len() == 1 {
        assert(s.drop_first() =~= Seq::<char>::empty());
        assert(line_value(s) == line_value(s.drop_last()) * 10 + digit_value(s.last()));
        assert(s.drop_last() =~= Seq::<char>::empty());
        assert(digit_value('0') == 0);
    } else {
        let pre = s.drop_last();
        lemma_leading_zero_ignored(pre);
        assert(s.drop_first().drop_last() =~= pre.drop_first());
        assert(s.drop_first().last() == s.last());
    }
}

/// A valid numeric line is never the shutdown literal: the literal starts
/// with a letter, not a digit.
pub proof fn lemma_numeric_not_terminate(s: Seq<char>)
    requires
        is_valid_numeric(s),
    ensures
        !is_terminate(s),
{
    reveal_strlit("terminate");
    if is_terminate(s) {
        assert(s[0] == 't');
        assert(is_digit(s[0]));
        assert('t' as u32 == 116);
    }
}

fn is_terminate_line(line: &str) -> (r: bool)
    ensures
        r == is_terminate(line@),
{
    proof {
        reveal_strlit("terminate");
    }
    let literal: &str = "terminate";
    let n = line.unicode_len();
    if n != 9 {
        return false;
    }
    let mut i: usize = 0;
    while i < 9
        invariant
            line@.len() == 9,
            literal@ == "terminate"@,
            literal@.len() == 9,
            0 <= i <= 9,
            forall|j: int| 0 <= j < i ==> line@[j] == literal@[j],
        decreases 9 - i,
    {
        let c = line.get_char(i);
        let e = literal.get_char(i);
        if c != e {
            return false;
        }
        i += 1;
    }
    proof {
        assert(line@ =~= "terminate"@);
    }
    true
}

/// Decode one protocol line: the literal `terminate` is the shutdown
/// command; a nonempty all-digit line of at most `MAX_NUMERIC_LEN`
/// characters is a numeric record whose value ignores leading zeros;
/// everything else is a protocol violation.
pub fn process_line(line: &str) -> (r: LineOutcome)
    ensures
        r == spec_outcome(line@),
{
    if is_terminate_line(line) {
        return LineOutcome::Terminate;
    }
    let n = line.unicode_len();
    if n == 0 || n > MAX_NUMERIC_LEN {
        return LineOutcome::Invalid;
    }
    let mut value: u32 = 0;
    let mut i: usize = 0;
    while i < n
        invariant
            !is_terminate(line@),
            n == line@.len(),
            1 <= n <= MAX_NUMERIC_LEN,
            0 <= i <= n,
            forall|j: int| 0 <= j < i ==> is_digit(#[trigger] line@[j]),
            value == line_value(line@.subrange(0, i as int)),
            value < pow10(i as nat),
        decreases n - i,
    {
        let c = line.get_char(i);
        let code = c as u32;
        if code < 48 || code > 57 {
            return LineOutcome::Invalid;
        }
        proof {
            lemma_pow10_mono(i as nat, 8);
            reveal_with_fuel(pow10, 10);
            assert(pow10(8) == 100000000);
            let pre = line@.subrange(0, i as int);
            let post = line@.subrange(0, i as int + 1);
            assert(post.drop_last() =~= pre);
            assert(post.last() == line@[i as int]);
            assert(pow10((i + 1) as nat) == 10 * pow10(i as nat));
        }
        value = value * 10 + (code - 48);
        i += 1;
    }
    proof {
        assert(line@.subrange(0, n as int) =~= line@);
    }
    LineOutcome::Numeric(value)
}

} // verus!
