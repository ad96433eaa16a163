//! Text helpers: trimming, splitting, ASCII case folding and decimal
//! numbers, each with its meaning stated over character sequences.
use vstd::prelude::*;

verus! {

/// The Unicode `White_Space` property, which `char::is_whitespace` tests.
pub open spec fn spec_is_whitespace(c: char) -> bool {
    let u = c as u32;
    (0x09 <= u && u <= 0x0d) || u == 0x20 || u == 0x85 || u == 0xa0 || u == 0x1680 || (0x2000 <= u
        && u <= 0x200a) || u == 0x2028 || u == 0x2029 || u == 0x202f || u == 0x205f || u == 0x3000
}

pub fn is_whitespace(c: char) -> (r: bool)
    ensures
        r == spec_is_whitespace(c),
{
    let u = c as u32;
    (0x09 <= u && u <= 0x0d) || u == 0x20 || u == 0x85 || u == 0xa0 || u == 0x1680 || (0x2000 <= u
        && u <= 0x200a) || u == 0x2028 || u == 0x2029 || u == 0x202f || u == 0x205f || u == 0x3000
}

/// `s` without every trailing `c`.
pub open spec fn spec_trim_end_char(s: Seq<char>, c: char) -> Seq<char>
    decreases s.len(),
{
    if s.len() > 0 && s.last() == c {
        spec_trim_end_char(s.drop_last(), c)
    } else {
        s
    }
}

/// Trimming a trailing character keeps a prefix of the text, removes
/// only copies of that character, and leaves none at the end.
pub proof fn lemma_trim_end_char(s: Seq<char>, c: char)
    ensures
        spec_trim_end_char(s, c).len() <= s.len(),
        spec_trim_end_char(s, c) == s.take(spec_trim_end_char(s, c).len() as int),
        forall|j: int| spec_trim_end_char(s, c).len() <= j < s.len() ==> #[trigger] s[j] == c,
        !(spec_trim_end_char(s, c).len() > 0 && spec_trim_end_char(s, c).last() == c),
    decreases s.len(),
{
    if s.len() > 0 && s.last() == c {
        let t = s.drop_last();
        lemma_trim_end_char(t, c);
        let r = spec_trim_end_char(t, c);
        assert(r =~= s.take(r.len() as int));
        assert forall|j: int| r.len() <= j < s.len() implies #[trigger] s[j] == c by {
            if j < s.len() - 1 {
                assert(t[j] == c);
            }
        }
    } else {
        assert(s.take(s.len() as int) =~= s);
    }
}

/// `s` without trailing whitespace.
pub open spec fn spec_trim_end_ws(s: Seq<char>) -> Seq<char>
    decreases s.len(),
{
    if s.len() > 0 && spec_is_whitespace(s.last()) {
        spec_trim_end_ws(s.drop_last())
    } else {
        s
    }
}

/// `s` without leading whitespace.
pub open spec fn spec_trim_start_ws(s: Seq<char>) -> Seq<char>
    decreases s.len(),
{
    if s.len() > 0 && spec_is_whitespace(s[0]) {
        spec_trim_start_ws(s.drop_first())
    } else {
        s
    }
}

/// `s` without leading or trailing whitespace (`str::trim`).
pub open spec fn spec_trim(s: Seq<char>) -> Seq<char> {
    spec_trim_start_ws(spec_trim_end_ws(s))
}

/// The part of `s` before the first `c` (all of `s` when there is none):
/// the first item that `str::split(c)` yields.
pub open spec fn spec_before(s: Seq<char>, c: char) -> Seq<char>
    decreases s.len(),
{
    if s.len() == 0 {
        s
    } else if s[0] == c {
        Seq::<char>::empty()
    } else {
        seq![s[0]] + spec_before(s.drop_first(), c)
    }
}

/// `s.trim_end_matches(c)`.
pub fn trim_end_char(s: &str, c: char) -> (r: String)
    ensures
        r@ == spec_trim_end_char(s@, c),
{
    let n = s.unicode_len();
    let mut end: usize = n;
    assert(s@.take(n as int) =~= s@);
    while end > 0 && s.get_char(end - 1) == c
        invariant
            n == s@.len(),
            end <= n,
            spec_trim_end_char(s@, c) == spec_trim_end_char(s@.take(end as int), c),
        decreases end,
    {
        proof {
            assert(s@.take(end as int).last() == c);
            assert(s@.take(end as int).drop_last() =~= s@.take(end - 1));
        }
        end = end - 1;
    }
    proof {
        if end == n {
            assert(s@.take(end as int) =~= s@);
        }
    }
    String::from_str(s.substring_char(0, end))
}

/// A line as `read_line` returned it, without its line ending: every
/// trailing `'\n'`, then every trailing `'\r'`.
pub open spec fn spec_strip_line_ending(s: Seq<char>) -> Seq<char> {
    spec_trim_end_char(spec_trim_end_char(s, '\n'), '\r')
}

/// A stripped line is a prefix of what was read, what was cut off is line
/// ending characters only, and it never ends with a carriage return.
pub proof fn lemma_strip_line_ending(s: Seq<char>)
    ensures
        spec_strip_line_ending(s) == s.take(spec_strip_line_ending(s).len() as int),
        forall|j: int| spec_strip_line_ending(s).len() <= j < s.len() ==> #[trigger] s[j] == '\n' || s[j] == '\r',
        !(spec_strip_line_ending(s).len() > 0 && spec_strip_line_ending(s).last() == '\r'),
{
    let a = spec_trim_end_char(s, '\n');
    lemma_trim_end_char(s, '\n');
    lemma_trim_end_char(a, '\r');
    let b = spec_trim_end_char(a, '\r');
    assert(b =~= s.take(b.len() as int));
    assert forall|j: int| b.len() <= j < s.len() implies #[trigger] s[j] == '\n' || s[j] == '\r' by {
        if j < a.len() {
            assert(a[j] == '\r');
        }
    }
}

pub fn strip_line_ending(line: &str) -> (r: String)
    ensures
        r@ == spec_strip_line_ending(line@),
{
    let without_newlines = trim_end_char(line, '\n');
    trim_end_char(without_newlines.as_str(), '\r')
}

/// `s.trim()`: without leading or trailing Unicode whitespace.
pub fn trim(s: &str) -> (r: String)
    ensures
        r@ == spec_trim(s@),
{
    let n = s.unicode_len();
    let mut end: usize = n;
    assert(s@.take(n as int) =~= s@);
    while end > 0 && is_whitespace(s.get_char(end - 1))
        invariant
            n == s@.len(),
            end <= n,
            spec_trim_end_ws(s@) == spec_trim_end_ws(s@.take(end as int)),
        decreases end,
    {
        proof {
            assert(s@.take(end as int).drop_last() =~= s@.take(end - 1));
        }
        end = end - 1;
    }
    proof {
        if end == n {
            assert(s@.take(end as int) =~= s@);
        }
        assert(spec_trim_end_ws(s@) == s@.take(end as int));
    }
    let mut start: usize = 0;
    while start < end && is_whitespace(s.get_char(start))
        invariant
            n == s@.len(),
            start <= end <= n,
            spec_trim_start_ws(s@.take(end as int)) == spec_trim_start_ws(s@.subrange(start as int, end as int)),
        decreases end - start,
    {
        proof {
            assert(s@.subrange(start as int, end as int).drop_first() =~= s@.subrange(start + 1, end as int));
        }
        start = start + 1;
    }
    proof {
        assert(s@.take(end as int) =~= s@.subrange(0, end as int));
        assert(spec_trim_start_ws(s@.subrange(start as int, end as int)) == s@.subrange(start as int, end as int));
    }
    String::from_str(s.substring_char(start, end))
}

/// The part of `s` before the first `c`.
pub fn before_char(s: &str, c: char) -> (r: String)
    ensures
        r@ == spec_before(s@, c),
{
    let n = s.unicode_len();
    let mut i: usize = 0;
    assert(s@.skip(0) =~= s@);
    assert(s@.take(0) =~= Seq::<char>::empty());
    while i < n && s.get_char(i) != c
        invariant
            n == s@.len(),
            i <= n,
            forall|j: int| 0 <= j < i ==> s@[j] != c,
            spec_before(s@, c) == s@.take(i as int) + spec_before(s@.skip(i as int), c),
        decreases n - i,
    {
        proof {
            let rest = s@.skip(i as int);
            assert(rest[0] == s@[i as int]);
            assert(rest.drop_first() =~= s@.skip(i + 1));
            assert(s@.take(i + 1) =~= s@.take(i as int) + seq![s@[i as int]]);
        }
        i = i + 1;
    }
    proof {
        if i < n {
            assert(s@.skip(i as int)[0] == c);
        } else {
            assert(s@.skip(i as int) =~= Seq::<char>::empty());
        }
        assert(s@.take(i as int) =~= s@.subrange(0, i as int));
    }
    String::from_str(s.substring_char(0, i))
}

/// The code point of a character's ASCII lower case; other characters
/// are left alone.
pub open spec fn spec_ascii_lower(c: char) -> u32 {
    if 'A' <= c && c <= 'Z' {
        ((c as u32) + 32) as u32
    } else {
        c as u32
    }
}

/// Two texts that differ at most in the case of ASCII letters
/// (`str::eq_ignore_ascii_case`, compared character by character).
pub open spec fn spec_eq_ignore_ascii_case(a: Seq<char>, b: Seq<char>) -> bool {
    &&& a.len() == b.len()
    &&& forall|i: int| 0 <= i < a.len() ==> spec_ascii_lower(#[trigger] a[i]) == spec_ascii_lower(b[i])
}

fn ascii_lower(c: char) -> (r: u32)
    ensures
        r == spec_ascii_lower(c),
{
    if 'A' <= c && c <= 'Z' {
        (c as u32) + 32
    } else {
        c as u32
    }
}

pub fn eq_ignore_ascii_case(a: &str, b: &str) -> (r: bool)
    ensures
        r == spec_eq_ignore_ascii_case(a@, b@),
{
    let n = a.unicode_len();
    if n != b.unicode_len() {
        return false;
    }
    let mut i: usize = 0;
    while i < n
        invariant
            n == a@.len(),
            n == b@.len(),
            i <= n,
            forall|j: int| 0 <= j < i ==> spec_ascii_lower(#[trigger] a@[j]) == spec_ascii_lower(b@[j]),
        decreases n - i,
    {
        if ascii_lower(a.get_char(i)) != ascii_lower(b.get_char(i)) {
            return false;
        }
        i = i + 1;
    }
    true
}

/// The decimal digits of a number, as `Display` prints it.
pub open spec fn spec_decimal(n: nat) -> Seq<char>
    decreases n,
{
    if n < 10 {
        seq![spec_digit(n)]
    } else {
        spec_decimal(n / 10) + seq![spec_digit(n % 10)]
    }
}

pub open spec fn spec_digit(d: nat) -> char {
    if d == 0 {
        '0'
    } else if d == 1 {
        '1'
    } else if d == 2 {
        '2'
    } else if d == 3 {
        '3'
    } else if d == 4 {
        '4'
    } else if d == 5 {
        '5'
    } else if d == 6 {
        '6'
    } else if d == 7 {
        '7'
    } else if d == 8 {
        '8'
    } else {
        '9'
    }
}

/// The one-character text of a decimal digit.
fn digit_str(d: u64) -> (r: &'static str)
    requires
        d < 10,
    ensures
        r@ == seq![spec_digit(d as nat)],
{
    proof {
        reveal_strlit("0");
        reveal_strlit("1");
        reveal_strlit("2");
        reveal_strlit("3");
        reveal_strlit("4");
        reveal_strlit("5");
        reveal_strlit("6");
        reveal_strlit("7");
        reveal_strlit("8");
        reveal_strlit("9");
    }
    if d == 0 {
        "0"
    } else if d == 1 {
        "1"
    } else if d == 2 {
        "2"
    } else if d == 3 {
        "3"
    } else if d == 4 {
        "4"
    } else if d == 5 {
        "5"
    } else if d == 6 {
        "6"
    } else if d == 7 {
        "7"
    } else if d == 8 {
        "8"
    } else {
        "9"
    }
}

/// Appends the decimal digits of `n`.
fn push_decimal(n: u64, out: &mut String)
    ensures
        final(out)@ == old(out)@ + spec_decimal(n as nat),
    decreases n,
{
    if n >= 10 {
        push_decimal(n / 10, out);
    }
    out.append(digit_str(n % 10));
    proof {
        if n >= 10 {
            assert(spec_decimal(n as nat) == spec_decimal((n / 10) as nat) + seq![spec_digit((n % 10) as nat)]);
        }
    }
}

/// The decimal text of a number, as `Display` prints it: its digits, most
/// significant first, with no sign, padding or separators.
pub fn u64_to_decimal(n: u64) -> (r: String)
    ensures
        r@ == spec_decimal(n as nat),
{
    let mut out = String::new();
    push_decimal(n, &mut out);
    out
}

} // verus!
