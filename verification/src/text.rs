//! Text-level building blocks: ASCII case folding and case-insensitive
//! matching for the option tokens, white-space trimming for item lines and
//! captured output, and decimal rendering for numeric option values.

use vstd::prelude::*;

verus! {

/// `a` reads as the keyword character `b` under ASCII case folding: either
/// the characters agree, or `a` is the ASCII upper-case form of a lower-case
/// letter `b`.
pub open spec fn lowers_to(a: char, b: char) -> bool {
    if 'A' as u32 <= a as u32 && a as u32 <= 'Z' as u32 {
        b as u32 == a as u32 + 32
    } else {
        b == a
    }
}

/// `s` matches the keyword `kw` when each character of `s` folds to the
/// corresponding character of `kw`.  This is what comparing the ASCII
/// lower-casing of `s` against an all-lower-case keyword means.
pub open spec fn ci_matches(s: Seq<char>, kw: Seq<char>) -> bool {
    s.len() == kw.len() && forall|i: int| 0 <= i < s.len() ==> lowers_to(s[i], kw[i])
}

/// Case-insensitive comparison of `s` against a fixed lower-case keyword.
pub fn ci_eq(s: &str, kw: &str) -> (r: bool)
    ensures
        r == ci_matches(s@, kw@),
{
    let n = s.unicode_len();
    let m = kw.unicode_len();
    if n != m {
        return false;
    }
    let mut i: usize = 0;
    while i < n
        invariant
            n == s@.len(),
            n == kw@.len(),
            0 <= i <= n,
            forall|k: int| 0 <= k < i ==> lowers_to(s@[k], kw@[k]),
        decreases n - i,
    {
        let a = s.get_char(i) as u32;
        let b = kw.get_char(i) as u32;
        let folded: u32 = if 65 <= a && a <= 90 {
            a + 32
        } else {
            a
        };
        if folded != b {
            proof {
                vstd::utf8::char_u32_cast(s@[i as int], a);
                vstd::utf8::char_u32_cast(kw@[i as int], b);
                assert(!lowers_to(s@[i as int], kw@[i as int]));
            }
            return false;
        }
        proof {
            vstd::utf8::char_u32_cast(s@[i as int], a);
            vstd::utf8::char_u32_cast(kw@[i as int], b);
            assert(lowers_to(s@[i as int], kw@[i as int]));
        }
        i = i + 1;
    }
    true
}

/// The Unicode white-space characters: the set that `char::is_whitespace`
/// tests, written out by code point.
pub open spec fn is_wspace(c: char) -> bool {
    let u = c as u32;
    (9 <= u && u <= 13) || u == 32 || u == 0x85 || u == 0xA0 || u == 0x1680 || (0x2000 <= u && u
        <= 0x200A) || u == 0x2028 || u == 0x2029 || u == 0x202F || u == 0x205F || u == 0x3000
}

/// `s` with its leading white space removed.
pub open spec fn trimmed_start(s: Seq<char>) -> Seq<char>
    decreases s.len(),
{
    if s.len() > 0 && is_wspace(s[0]) {
        trimmed_start(s.drop_first())
    } else {
        s
    }
}

/// `s` with its trailing white space removed.
pub open spec fn trimmed_end(s: Seq<char>) -> Seq<char>
    decreases s.len(),
{
    if s.len() > 0 && is_wspace(s[s.len() - 1]) {
        trimmed_end(s.drop_last())
    } else {
        s
    }
}

/// `s` with both leading and trailing white space removed.
pub open spec fn trimmed(s: Seq<char>) -> Seq<char> {
    trimmed_end(trimmed_start(s))
}

/// Whether `c` is a white-space character.
pub fn ws_char(c: char) -> (r: bool)
    ensures
        r == is_wspace(c),
{
    let u = c as u32;
    (9 <= u && u <= 13) || u == 32 || u == 0x85 || u == 0xA0 || u == 0x1680 || (0x2000 <= u && u
        <= 0x200A) || u == 0x2028 || u == 0x2029 || u == 0x202F || u == 0x205F || u == 0x3000
}

proof fn lemma_trimmed_start_skip(s: Seq<char>, i: int)
    requires
        0 <= i <= s.len(),
        forall|k: int| 0 <= k < i ==> is_wspace(s[k]),
        i < s.len() ==> !is_wspace(s[i]),
    ensures
        trimmed_start(s) == s.subrange(i, s.len() as int),
    decreases i,
{
    if i == 0 {
        assert(s.subrange(0, s.len() as int) =~= s);
    } else {
        assert(is_wspace(s[0]));
        lemma_trimmed_start_skip(s.drop_first(), i - 1);
        assert(s.drop_first().subrange(i - 1, s.len() - 1) =~= s.subrange(i, s.len() as int));
    }
}

proof fn lemma_trimmed_end_keep(s: Seq<char>, j: int)
    requires
        0 <= j <= s.len(),
        forall|k: int| j <= k < s.len() ==> is_wspace(s[k]),
        j > 0 ==> !is_wspace(s[j - 1]),
    ensures
        trimmed_end(s) == s.subrange(0, j),
    decreases s.len() - j,
{
    if j == s.len() {
        assert(s.subrange(0, j) =~= s);
    } else {
        assert(is_wspace(s[s.len() - 1]));
        lemma_trimmed_end_keep(s.drop_last(), j);
        assert(s.drop_last().subrange(0, j) =~= s.subrange(0, j));
    }
}

/// Removes leading and trailing white space, as the standard trimming of a
/// string slice does.
pub fn trim_text(s: &str) -> (r: String)
    ensures
        r@ == trimmed(s@),
{
    let n = s.unicode_len();
    let mut i: usize = 0;
    while i < n && ws_char(s.get_char(i))
        invariant
            n == s@.len(),
            0 <= i <= n,
            forall|k: int| 0 <= k < i ==> is_wspace(s@[k]),
        decreases n - i,
    {
        i = i + 1;
    }
    let mut j: usize = n;
    while j > i && ws_char(s.get_char(j - 1))
        invariant
            n == s@.len(),
            i <= j <= n,
            forall|k: int| j <= k < n ==> is_wspace(s@[k]),
        decreases j,
    {
        j = j - 1;
    }
    let t = s.substring_char(i, j);
    proof {
        lemma_trimmed_start_skip(s@, i as int);
        let m = s@.subrange(i as int, n as int);
        lemma_trimmed_end_keep(m, j - i);
        assert(m.subrange(0, j - i) =~= s@.subrange(i as int, j as int));
    }
    t.to_owned()
}

/// The decimal digit character for `d`.
pub open spec fn digit_char(d: int) -> char {
    if d == 0 {
        '0'
    } else if d == 1 {
        '1'
    } else if d == 2 {
        '2'
    } else if d == 3 {
        '3'
    } else if d == 4 {
        '4'
    } else if d == 5 {
        '5'
    } else if d == 6 {
        '6'
    } else if d == 7 {
        '7'
    } else if d == 8 {
        '8'
    } else {
        '9'
    }
}

/// The decimal rendering of `n`, most significant digit first, without
/// leading zeros.
pub open spec fn dec_digits(n: int) -> Seq<char>
    recommends
        n >= 0,
    decreases n,
{
    if n < 10 {
        seq![digit_char(n)]
    } else {
        dec_digits(n / 10) + seq![digit_char(n % 10)]
    }
}

fn digit_token(d: u8) -> (r: &'static str)
    requires
        d < 10,
    ensures
        r@ == seq![digit_char(d as int)],
{
    proof {
        reveal_strlit("0");
        reveal_strlit("1");
        reveal_strlit("2");
        reveal_strlit("3");
        reveal_strlit("4");
        reveal_strlit("5");
        reveal_strlit("6");
        reveal_strlit("7");
        reveal_strlit("8");
        reveal_strlit("9");
    }
    let r = match d {
        0 => "0",
        1 => "1",
        2 => "2",
        3 => "3",
        4 => "4",
        5 => "5",
        6 => "6",
        7 => "7",
        8 => "8",
        _ => "9",
    };
    proof {
        assert(r@ =~= seq![digit_char(d as int)]);
    }
    r
}

/// Renders `n` in decimal.
pub fn dec_string(n: u8) -> (r: String)
    ensures
        r@ == dec_digits(n as int),
{
    let mut r = String::new();
    if n >= 100 {
        r.append(digit_token(n / 100));
    }
    if n >= 10 {
        r.append(digit_token((n / 10) % 10));
    }
    r.append(digit_token(n % 10));
    proof {
        reveal_with_fuel(dec_digits, 3);
        if n < 10 {
            assert(r@ =~= dec_digits(n as int));
        } else if n < 100 {
            assert(n / 10 < 10);
            assert((n / 10) % 10 == n / 10);
            assert(dec_digits(n as int) == seq![digit_char(n as int / 10)] + seq![
                digit_char(n as int % 10),
            ]);
            assert(r@ =~= dec_digits(n as int));
        } else {
            vstd::arithmetic::div_mod::lemma_div_denominator(n as int, 10, 10);
            assert((n as int / 10) / 10 == n as int / 100);
            assert(n / 100 < 10);
            assert(n / 10 >= 10);
            assert(dec_digits(n as int / 10) == seq![digit_char(n as int / 100)] + seq![
                digit_char((n as int / 10) % 10),
            ]);
            assert(dec_digits(n as int) == dec_digits(n as int / 10) + seq![
                digit_char(n as int % 10),
            ]);
            assert(r@ =~= dec_digits(n as int));
        }
    }
    r
}

} // verus!
