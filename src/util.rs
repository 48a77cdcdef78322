//! Text formatting of numbers and durations.

use vstd::prelude::*;
use vstd::string::*;

verus! {

/// The decimal digit character for `d < 10`.
pub open spec fn digit_char(d: int) -> char {
    if d == 0 {
        '0'
    } else if d == 1 {
        '1'
    } else if d == 2 {
        '2'
    } else if d == 3 {
        '3'
    } else if d == 4 {
        '4'
    } else if d == 5 {
        '5'
    } else if d == 6 {
        '6'
    } else if d == 7 {
        '7'
    } else if d == 8 {
        '8'
    } else {
        '9'
    }
}

/// The decimal representation of `n`, without sign or leading zeros.
pub open spec fn decimal(n: nat) -> Seq<char>
    decreases n,
{
    if n < 10 {
        seq![digit_char(n as int)]
    } else {
        decimal(n / 10).push(digit_char((n % 10) as int))
    }
}

/// `decimal(n)` padded on the left with zeros to at least two characters.
pub open spec fn two_digits(n: nat) -> Seq<char> {
    if n < 10 {
        seq!['0'] + decimal(n)
    } else {
        decimal(n)
    }
}

/// `s` with a comma inserted before every group of three characters counted from the right.
pub open spec fn group_thousands(s: Seq<char>) -> Seq<char>
    decreases s.len(),
{
    if s.len() <= 3 {
        s
    } else {
        group_thousands(s.subrange(0, s.len() - 3)) + seq![','] + s.subrange(
            s.len() - 3,
            s.len() as int,
        )
    }
}

/// Grouping of a rendered number: a leading minus sign stays in front of the grouped digits.
pub open spec fn thousands(s: Seq<char>) -> Seq<char> {
    if s.len() > 0 && s[0] == '-' {
        seq!['-'] + group_thousands(s.subrange(1, s.len() as int))
    } else {
        group_thousands(s)
    }
}

/// Whole seconds of a duration given in milliseconds, shown as `HHh MMm SSs`.
pub open spec fn duration_text(millis: nat) -> Seq<char> {
    let total = millis / 1000;
    two_digits(total / 3600) + seq!['h', ' '] + two_digits((total % 3600) / 60) + seq!['m', ' ']
        + two_digits(total % 60) + seq!['s']
}

fn digit_str(d: u64) -> (r: &'static str)
    requires
        d < 10,
    ensures
        r@ == seq![digit_char(d as int)],
{
    proof {
        reveal_strlit("0");
        reveal_strlit("1");
        reveal_strlit("2");
        reveal_strlit("3");
        reveal_strlit("4");
        reveal_strlit("5");
        reveal_strlit("6");
        reveal_strlit("7");
        reveal_strlit("8");
        reveal_strlit("9");
    }
    if d == 0 {
        "0"
    } else if d == 1 {
        "1"
    } else if d == 2 {
        "2"
    } else if d == 3 {
        "3"
    } else if d == 4 {
        "4"
    } else if d == 5 {
        "5"
    } else if d == 6 {
        "6"
    } else if d == 7 {
        "7"
    } else if d == 8 {
        "8"
    } else {
        "9"
    }
}

/// Renders `n` in decimal.
pub fn decimal_text(n: u64) -> (r: String)
    ensures
        r@ == decimal(n as nat),
    decreases n,
{
    if n < 10 {
        String::from_str(digit_str(n))
    } else {
        let mut r = decimal_text(n / 10);
        r.append(digit_str(n % 10));
        r
    }
}

fn two_digit_text(n: u64) -> (r: String)
    ensures
        r@ == two_digits(n as nat),
{
    if n < 10 {
        proof {
            reveal_strlit("0");
        }
        let mut r = String::from_str("0");
        let d = decimal_text(n);
        r.append(d.as_str());
        r
    } else {
        decimal_text(n)
    }
}

/// Formats an elapsed time given in milliseconds as hours, minutes and seconds
/// (`"01h 02m 03s"`); the hour count grows past two digits when it needs to.
pub fn format_duration(millis: u64) -> (r: String)
    ensures
        r@ == duration_text(millis as nat),
{
    let total_secs: u64 = millis / 1000;
    let hours: u64 = total_secs / 3600;
    let minutes: u64 = (total_secs % 3600) / 60;
    let seconds: u64 = total_secs % 60;
    proof {
        reveal_strlit("h ");
        reveal_strlit("m ");
        reveal_strlit("s");
    }
    let mut r = two_digit_text(hours);
    r.append("h ");
    let m = two_digit_text(minutes);
    r.append(m.as_str());
    r.append("m ");
    let sec = two_digit_text(seconds);
    r.append(sec.as_str());
    r.append("s");
    r
}

fn group_digits(s: &str) -> (r: String)
    ensures
        r@ == group_thousands(s@),
    decreases s@.len(),
{
    let n = s.unicode_len();
    if n <= 3 {
        String::from_str(s)
    } else {
        let head = s.substring_char(0, n - 3);
        let mut r = group_digits(head);
        proof {
            reveal_strlit(",");
        }
        r.append(",");
        r.append(s.substring_char(n - 3, n));
        r
    }
}

/// Inserts a thousands separator (`,`) before every group of three characters counted
/// from the right of the rendered number `text`; a leading `-` stays in front.
/// `"1234567"` becomes `"1,234,567"` and `"-1234"` becomes `"-1,234"`.
pub fn format_thousands(text: &str) -> (r: String)
    ensures
        r@ == thousands(text@),
{
    let n = text.unicode_len();
    if n > 0 && text.get_char(0) == '-' {
        proof {
            reveal_strlit("-");
        }
        let mut r = String::from_str("-");
        let grouped = group_digits(text.substring_char(1, n));
        r.append(grouped.as_str());
        r
    } else {
        group_digits(text)
    }
}

/// `s` with every comma removed.
pub open spec fn without_commas(s: Seq<char>) -> Seq<char>
    decreases s.len(),
{
    if s.len() == 0 {
        s
    } else if s.last() == ',' {
        without_commas(s.drop_last())
    } else {
        without_commas(s.drop_last()).push(s.last())
    }
}

pub open spec fn is_digit(c: char) -> bool {
    '0' <= c && c <= '9'
}

/// The value of the decimal digits `s` (every character a digit).
pub open spec fn digits_value(s: Seq<char>) -> nat
    decreases s.len(),
{
    if s.len() == 0 {
        0
    } else {
        digits_value(s.drop_last()) * 10 + ((s.last() as u32) - 48) as nat
    }
}

/// What parsing `s` as a `u32` gives: the value when `s` is a non-empty run of decimal digits
/// whose value fits, and nothing otherwise.
pub open spec fn parse_u32(s: Seq<char>) -> Option<u32> {
    if s.len() > 0 && (forall|i: int| 0 <= i < s.len() ==> is_digit(#[trigger] s[i])) && digits_value(
        s,
    ) <= u32::MAX {
        Some(digits_value(s) as u32)
    } else {
        None
    }
}

/// `text` with its commas removed.
pub fn strip_commas(text: &str) -> (r: Vec<char>)
    ensures
        r@ == without_commas(text@),
{
    let n = text.unicode_len();
    let mut r: Vec<char> = Vec::new();
    let mut i: usize = 0;
    while i < n
        invariant
            n == text@.len(),
            i <= n,
            r@ == without_commas(text@.subrange(0, i as int)),
        decreases n - i,
    {
        let c = text.get_char(i);
        proof {
            assert(text@.subrange(0, i + 1).drop_last() =~= text@.subrange(0, i as int));
        }
        if c != ',' {
            r.push(c);
        }
        i = i + 1;
    }
    proof {
        assert(text@.subrange(0, n as int) =~= text@);
    }
    r
}

proof fn lemma_digits_value_monotone(s: Seq<char>, i: int)
    requires
        0 <= i <= s.len(),
        forall|k: int| 0 <= k < s.len() ==> is_digit(#[trigger] s[k]),
    ensures
        digits_value(s.subrange(0, i)) <= digits_value(s),
    decreases s.len() - i,
{
    if i < s.len() {
        lemma_digits_value_monotone(s, i + 1);
        assert(s.subrange(0, i + 1).drop_last() =~= s.subrange(0, i));
    } else {
        assert(s.subrange(0, i) =~= s);
    }
}

/// Parses the decimal digits `s` as a `u32`; anything but a non-empty run of digits whose
/// value fits gives nothing.
pub fn parse_digits_u32(s: &Vec<char>) -> (r: Option<u32>)
    ensures
        r == parse_u32(s@),
{
    let n = s.len();
    if n == 0 {
        return None;
    }
    let mut value: u64 = 0;
    let mut i: usize = 0;
    while i < n
        invariant
            n == s@.len(),
            i <= n,
            forall|k: int| 0 <= k < i ==> is_digit(#[trigger] s@[k]),
            value == digits_value(s@.subrange(0, i as int)),
            value <= u32::MAX,
        decreases n - i,
    {
        let c = s[i];
        if !('0' <= c && c <= '9') {
            return None;
        }
        proof {
            assert(s@.subrange(0, i + 1).drop_last() =~= s@.subrange(0, i as int));
        }
        let d: u64 = ((c as u32) - 48) as u64;
        let next: u64 = value * 10 + d;
        if next > 0xffff_ffff {
            proof {
                if forall|k: int| 0 <= k < s@.len() ==> is_digit(#[trigger] s@[k]) {
                    lemma_digits_value_monotone(s@, i + 1);
                }
            }
            return None;
        }
        value = next;
        i = i + 1;
    }
    proof {
        assert(s@.subrange(0, n as int) =~= s@);
    }
    Some(value as u32)
}

proof fn lemma_without_commas_concat(a: Seq<char>, b: Seq<char>)
    ensures
        without_commas(a + b) == without_commas(a) + without_commas(b),
    decreases b.len(),
{
    if b.len() == 0 {
        assert(a + b =~= a);
        assert(without_commas(a) + without_commas(b) =~= without_commas(a));
    } else {
        lemma_without_commas_concat(a, b.drop_last());
        assert((a + b).drop_last() =~= a + b.drop_last());
        assert((a + b).last() == b.last());
    }
}

proof fn lemma_without_commas_keeps(s: Seq<char>)
    requires
        forall|i: int| 0 <= i < s.len() ==> s[i] != ',',
    ensures
        without_commas(s) == s,
    decreases s.len(),
{
    if s.len() > 0 {
        lemma_without_commas_keeps(s.drop_last());
        assert(s.drop_last().push(s.last()) =~= s);
    }
}

/// Grouping digits is undone by removing the commas again, and it inserts one comma per
/// full group of three to the left of the first group: a text of `n > 0` characters
/// without commas becomes `n + (n - 1) / 3` characters long.
pub proof fn lemma_grouping_round_trip(s: Seq<char>)
    requires
        forall|i: int| 0 <= i < s.len() ==> s[i] != ',',
    ensures
        without_commas(group_thousands(s)) == s,
        s.len() > 0 ==> group_thousands(s).len() == s.len() + (s.len() - 1) / 3,
    decreases s.len(),
{
    if s.len() <= 3 {
        lemma_without_commas_keeps(s);
    } else {
        let head = s.subrange(0, s.len() - 3);
        let tail = s.subrange(s.len() - 3, s.len() as int);
        lemma_grouping_round_trip(head);
        lemma_without_commas_keeps(tail);
        lemma_without_commas_concat(group_thousands(head) + seq![','], tail);
        lemma_without_commas_concat(group_thousands(head), seq![',']);
        let comma: Seq<char> = seq![','];
        assert(comma.drop_last() =~= Seq::<char>::empty());
        assert(comma.last() == ',');
        assert(without_commas(Seq::<char>::empty()) == Seq::<char>::empty());
        assert(without_commas(comma) == without_commas(comma.drop_last()));
        assert(head + tail =~= s);
        assert(head + Seq::<char>::empty() =~= head);
    }
}

}
