//! Verified text building: decimal and hexadecimal renderings of machine
//! words, as spec-level character sequences with exec builders proved
//! against them.

use vstd::prelude::*;

verus! {

/// The character for one decimal or hexadecimal digit value.
pub open spec fn spec_digit_char(d: int) -> char {
    if d == 0 {
        '0'
    } else if d == 1 {
        '1'
    } else if d == 2 {
        '2'
    } else if d == 3 {
        '3'
    } else if d == 4 {
        '4'
    } else if d == 5 {
        '5'
    } else if d == 6 {
        '6'
    } else if d == 7 {
        '7'
    } else if d == 8 {
        '8'
    } else if d == 9 {
        '9'
    } else if d == 10 {
        'A'
    } else if d == 11 {
        'B'
    } else if d == 12 {
        'C'
    } else if d == 13 {
        'D'
    } else if d == 14 {
        'E'
    } else {
        'F'
    }
}

/// Decimal rendering of a nonnegative integer, most significant digit
/// first, no leading zeros (zero itself renders as "0").
pub open spec fn spec_dec(n: nat) -> Seq<char>
    decreases n,
{
    if n < 10 {
        seq![spec_digit_char(n as int)]
    } else {
        spec_dec(n / 10) + seq![spec_digit_char((n % 10) as int)]
    }
}

/// Decimal rendering of a signed integer: a minus sign before the
/// magnitude when negative.
pub open spec fn spec_dec_signed(v: int) -> Seq<char> {
    if v < 0 {
        seq!['-'] + spec_dec((-v) as nat)
    } else {
        spec_dec(v as nat)
    }
}

/// Uppercase hexadecimal rendering of a nonnegative integer, no leading
/// zeros.
pub open spec fn spec_hex(n: nat) -> Seq<char>
    decreases n,
{
    if n < 16 {
        seq![spec_digit_char(n as int)]
    } else {
        spec_hex(n / 16) + seq![spec_digit_char((n % 16) as int)]
    }
}

/// One digit value as a single-character string.
fn digit_str(d: u32) -> (r: String)
    requires
        d < 16,
    ensures
        r@ == seq![spec_digit_char(d as int)],
{
    let s: &str = if d == 0 {
        proof {
            reveal_strlit("0");
        }
        "0"
    } else if d == 1 {
        proof {
            reveal_strlit("1");
        }
        "1"
    } else if d == 2 {
        proof {
            reveal_strlit("2");
        }
        "2"
    } else if d == 3 {
        proof {
            reveal_strlit("3");
        }
        "3"
    } else if d == 4 {
        proof {
            reveal_strlit("4");
        }
        "4"
    } else if d == 5 {
        proof {
            reveal_strlit("5");
        }
        "5"
    } else if d == 6 {
        proof {
            reveal_strlit("6");
        }
        "6"
    } else if d == 7 {
        proof {
            reveal_strlit("7");
        }
        "7"
    } else if d == 8 {
        proof {
            reveal_strlit("8");
        }
        "8"
    } else if d == 9 {
        proof {
            reveal_strlit("9");
        }
        "9"
    } else if d == 10 {
        proof {
            reveal_strlit("A");
        }
        "A"
    } else if d == 11 {
        proof {
            reveal_strlit("B");
        }
        "B"
    } else if d == 12 {
        proof {
            reveal_strlit("C");
        }
        "C"
    } else if d == 13 {
        proof {
            reveal_strlit("D");
        }
        "D"
    } else if d == 14 {
        proof {
            reveal_strlit("E");
        }
        "E"
    } else {
        proof {
            reveal_strlit("F");
        }
        "F"
    };
    proof {
        assert(s@ =~= seq![spec_digit_char(d as int)]);
    }
    s.to_owned()
}

/// Decimal rendering of an unsigned word.
pub fn u32_to_dec(n: u32) -> (r: String)
    ensures
        r@ == spec_dec(n as nat),
    decreases n,
{
    if n < 10 {
        digit_str(n)
    } else {
        let mut s = u32_to_dec(n / 10);
        let d = digit_str(n % 10);
        s.append(d.as_str());
        proof {
            assert(s@ =~= spec_dec(n as nat));
        }
        s
    }
}

/// Decimal rendering of a signed word.
pub fn i32_to_dec(v: i32) -> (r: String)
    ensures
        r@ == spec_dec_signed(v as int),
{
    if v >= 0 {
        u32_to_dec(v as u32)
    } else {
        let magnitude: u32 = (-(v as i64)) as u32;
        proof {
            reveal_strlit("-");
        }
        let mut s = "-".to_owned();
        proof {
            assert(s@ =~= seq!['-']);
        }
        let d = u32_to_dec(magnitude);
        s.append(d.as_str());
        proof {
            assert(s@ =~= spec_dec_signed(v as int));
        }
        s
    }
}

/// Uppercase hexadecimal rendering of an unsigned word.
pub fn u32_to_hex(n: u32) -> (r: String)
    ensures
        r@ == spec_hex(n as nat),
    decreases n,
{
    if n < 16 {
        digit_str(n)
    } else {
        let mut s = u32_to_hex(n / 16);
        let d = digit_str(n % 16);
        s.append(d.as_str());
        proof {
            assert(s@ =~= spec_hex(n as nat));
        }
        s
    }
}


/// The characters `str::trim` and `str::split_whitespace` treat as
/// whitespace: the Unicode White_Space set.
pub open spec fn spec_is_ws(c: char) -> bool {
    c == ' ' || c == '\t' || c == '\n' || c == '\r' || c == '\u{000B}' || c == '\u{000C}'
        || c == '\u{0085}' || c == '\u{00A0}' || c == '\u{1680}' || c == '\u{2000}' || c
        == '\u{2001}' || c == '\u{2002}' || c == '\u{2003}' || c == '\u{2004}' || c
        == '\u{2005}' || c == '\u{2006}' || c == '\u{2007}' || c == '\u{2008}' || c
        == '\u{2009}' || c == '\u{200A}' || c == '\u{2028}' || c == '\u{2029}' || c
        == '\u{202F}' || c == '\u{205F}' || c == '\u{3000}'
}

/// Exec counterpart of [`spec_is_ws`].
pub fn is_ws(c: char) -> (r: bool)
    ensures
        r == spec_is_ws(c),
{
    c == ' ' || c == '\t' || c == '\n' || c == '\r' || c == '\u{000B}' || c == '\u{000C}'
        || c == '\u{0085}' || c == '\u{00A0}' || c == '\u{1680}' || c == '\u{2000}' || c
        == '\u{2001}' || c == '\u{2002}' || c == '\u{2003}' || c == '\u{2004}' || c
        == '\u{2005}' || c == '\u{2006}' || c == '\u{2007}' || c == '\u{2008}' || c
        == '\u{2009}' || c == '\u{200A}' || c == '\u{2028}' || c == '\u{2029}' || c
        == '\u{202F}' || c == '\u{205F}' || c == '\u{3000}'
}

/// The sequence with its leading whitespace removed.
pub open spec fn spec_trim_start(s: Seq<char>) -> Seq<char>
    decreases s.len(),
{
    if s.len() == 0 || !spec_is_ws(s[0]) {
        s
    } else {
        spec_trim_start(s.drop_first())
    }
}

/// The sequence with its trailing whitespace removed.
pub open spec fn spec_trim_end(s: Seq<char>) -> Seq<char>
    decreases s.len(),
{
    if s.len() == 0 || !spec_is_ws(s[s.len() - 1]) {
        s
    } else {
        spec_trim_end(s.drop_last())
    }
}

/// The sequence with whitespace removed from both ends.
pub open spec fn spec_trim(s: Seq<char>) -> Seq<char> {
    spec_trim_end(spec_trim_start(s))
}

/// The first whitespace-separated token of a sequence: everything from the
/// first non-whitespace character up to the next whitespace.
pub open spec fn spec_take_until_ws(s: Seq<char>) -> Seq<char>
    decreases s.len(),
{
    if s.len() == 0 || spec_is_ws(s[0]) {
        Seq::empty()
    } else {
        seq![s[0]] + spec_take_until_ws(s.drop_first())
    }
}

/// The first whitespace-separated token of a sequence; empty when the
/// sequence is all whitespace.
pub open spec fn spec_first_token(s: Seq<char>) -> Seq<char> {
    spec_take_until_ws(spec_trim_start(s))
}

/// Trim whitespace from both ends of a string slice.
pub fn trim_str<'a>(s: &'a str) -> (r: &'a str)
    ensures
        r@ == spec_trim(s@),
{
    let n = s.unicode_len();
    let mut a: usize = 0;
    proof {
        assert(s@.skip(0) =~= s@);
    }
    while a < n && is_ws(s.get_char(a))
        invariant
            a <= n,
            n == s@.len(),
            spec_trim_start(s@) == spec_trim_start(s@.skip(a as int)),
        decreases n - a,
    {
        proof {
            assert(s@.skip(a as int).drop_first() =~= s@.skip(a + 1));
        }
        a = a + 1;
    }
    proof {
        assert(spec_trim_start(s@.skip(a as int)) == s@.skip(a as int));
    }
    let mut b: usize = n;
    proof {
        assert(s@.skip(a as int).take(n - a) =~= s@.skip(a as int));
    }
    while b > a && is_ws(s.get_char(b - 1))
        invariant
            a <= b <= n,
            n == s@.len(),
            spec_trim_start(s@) == s@.skip(a as int),
            spec_trim_end(s@.skip(a as int)) == spec_trim_end(s@.skip(a as int).take(b - a)),
        decreases b,
    {
        proof {
            assert(s@.skip(a as int).take(b - a).drop_last() =~= s@.skip(a as int).take(
                b - a - 1,
            ));
        }
        b = b - 1;
    }
    proof {
        assert(spec_trim_end(s@.skip(a as int).take(b - a)) == s@.skip(a as int).take(b - a));
        assert(s@.skip(a as int).take(b - a) =~= s@.subrange(a as int, b as int));
    }
    s.substring_char(a, b)
}

/// The first whitespace-separated token of a string slice, or nothing when
/// the string is all whitespace.
pub fn first_token<'a>(s: &'a str) -> (r: Option<&'a str>)
    ensures
        match r {
            Some(t) => t@.len() > 0 && t@ == spec_first_token(s@),
            None => spec_first_token(s@).len() == 0,
        },
{
    let n = s.unicode_len();
    let mut a: usize = 0;
    proof {
        assert(s@.skip(0) =~= s@);
    }
    while a < n && is_ws(s.get_char(a))
        invariant
            a <= n,
            n == s@.len(),
            spec_trim_start(s@) == spec_trim_start(s@.skip(a as int)),
        decreases n - a,
    {
        proof {
            assert(s@.skip(a as int).drop_first() =~= s@.skip(a + 1));
        }
        a = a + 1;
    }
    proof {
        assert(spec_trim_start(s@.skip(a as int)) == s@.skip(a as int));
    }
    if a == n {
        return None;
    }
    let mut e: usize = a;
    while e < n && !is_ws(s.get_char(e))
        invariant
            a <= e <= n,
            n == s@.len(),
            spec_trim_start(s@) == s@.skip(a as int),
            spec_take_until_ws(s@.skip(a as int)) == s@.subrange(a as int, e as int)
                + spec_take_until_ws(s@.skip(e as int)),
        decreases n - e,
    {
        proof {
            assert(s@.skip(e as int).drop_first() =~= s@.skip(e + 1));
            assert(s@.subrange(a as int, e as int) + seq![s@[e as int]] =~= s@.subrange(
                a as int,
                e + 1,
            ));
            assert(seq![s@[e as int]] + spec_take_until_ws(s@.skip(e + 1)) =~= seq![
                s@.skip(e as int)[0],
            ] + spec_take_until_ws(s@.skip(e as int).drop_first()));
        }
        e = e + 1;
    }
    proof {
        assert(spec_take_until_ws(s@.skip(e as int)) =~= Seq::<char>::empty());
        assert(spec_first_token(s@) =~= s@.subrange(a as int, e as int));
    }
    Some(s.substring_char(a, e))
}

/// The sequence with every trailing colon removed.
pub open spec fn spec_trim_end_colons(s: Seq<char>) -> Seq<char>
    decreases s.len(),
{
    if s.len() == 0 || s[s.len() - 1] != ':' {
        s
    } else {
        spec_trim_end_colons(s.drop_last())
    }
}

/// Remove every trailing colon from a string slice.
pub fn trim_end_colons<'a>(s: &'a str) -> (r: &'a str)
    ensures
        r@ == spec_trim_end_colons(s@),
{
    let n = s.unicode_len();
    let mut b: usize = n;
    proof {
        assert(s@.take(n as int) =~= s@);
    }
    while b > 0 && s.get_char(b - 1) == ':'
        invariant
            b <= n,
            n == s@.len(),
            spec_trim_end_colons(s@) == spec_trim_end_colons(s@.take(b as int)),
        decreases b,
    {
        proof {
            assert(s@.take(b as int).drop_last() =~= s@.take(b - 1));
        }
        b = b - 1;
    }
    proof {
        assert(spec_trim_end_colons(s@.take(b as int)) == s@.take(b as int));
        assert(s@.take(b as int) =~= s@.subrange(0, b as int));
    }
    s.substring_char(0, b)
}

/// Character-wise string equality: true exactly when the two views agree.
pub fn str_eq(a: &str, b: &str) -> (r: bool)
    ensures
        r == (a@ == b@),
{
    let n = a.unicode_len();
    let m = b.unicode_len();
    if n != m {
        proof {
            assert(a@ != b@);
        }
        return false;
    }
    let mut i: usize = 0;
    while i < n
        invariant
            i <= n,
            n == a@.len(),
            n == b@.len(),
            forall|j: int| 0 <= j < i ==> a@[j] == b@[j],
        decreases n - i,
    {
        if a.get_char(i) != b.get_char(i) {
            proof {
                assert(a@[i as int] != b@[i as int]);
            }
            return false;
        }
        i = i + 1;
    }
    proof {
        assert(a@ =~= b@);
    }
    true
}

} // verus!
