//! Decimal number handling. Prices are carried as a whole number of
//! hundredths (two implied decimal places), so a JSON number token such as
//! `261.74` becomes the integer `26174`. Tokens are parsed and rendered by
//! verified code; the grammar is the JSON number grammar without exponents,
//! with at most sixteen integer digits for prices and eighteen for plain
//! integers, and with fractional digits beyond the second truncated.

use vstd::prelude::*;
use vstd::string::StrSliceExecFns;
use vstd::string::StringExecFns;
use crate::text::find_from;
use crate::text::find_first;

verus! {

broadcast use vstd::string::group_string_axioms;

pub open spec fn is_digit(c: char) -> bool {
    48 <= c as u32 <= 57
}

pub open spec fn digit_val(c: char) -> int {
    c as u32 - 48
}

/// Every character of `s` in `[from, to)` is a decimal digit.
pub open spec fn all_digits(s: Seq<char>) -> bool {
    forall|i: int| 0 <= i < s.len() ==> is_digit(s[i])
}

/// The value of a string of decimal digits, most significant first.
pub open spec fn digits_val(s: Seq<char>) -> int
    decreases s.len(),
{
    if s.len() == 0 {
        0
    } else {
        digits_val(s.drop_last()) * 10 + digit_val(s.last())
    }
}

pub open spec fn pow10(n: nat) -> int
    decreases n,
{
    if n == 0 {
        1
    } else {
        10 * pow10((n - 1) as nat)
    }
}

pub proof fn lemma_pow10_pos(n: nat)
    ensures
        pow10(n) >= 1,
    decreases n,
{
    if n > 0 {
        lemma_pow10_pos((n - 1) as nat);
    }
}

pub proof fn lemma_pow10_monotone(a: nat, b: nat)
    requires
        a <= b,
    ensures
        pow10(a) <= pow10(b),
    decreases b,
{
    if a < b {
        lemma_pow10_monotone(a, (b - 1) as nat);
        lemma_pow10_pos((b - 1) as nat);
    }
}

/// A digit string is bounded by ten to its length.
pub proof fn lemma_digits_val_bound(s: Seq<char>)
    requires
        all_digits(s),
    ensures
        0 <= digits_val(s) < pow10(s.len()),
    decreases s.len(),
{
    if s.len() > 0 {
        assert(all_digits(s.drop_last())) by {
            assert(forall|i: int| 0 <= i < s.len() - 1 ==> s.drop_last()[i] == s[i]);
        }
        lemma_digits_val_bound(s.drop_last());
        assert(is_digit(s.last()));
    }
}

/// The magnitude, in hundredths, of an unsigned price token that starts at
/// `ofs`: digits, then optionally a point and at least one digit. At most
/// sixteen integer digits are accepted; fractional digits beyond the second
/// are truncated.
pub open spec fn price_magnitude(t: Seq<char>, ofs: int) -> Option<int> {
    match find_from(t, seq!['.'], ofs) {
        None => {
            if 1 <= t.len() - ofs <= 16 && all_digits(t.subrange(ofs, t.len() as int)) {
                Some(digits_val(t.subrange(ofs, t.len() as int)) * 100)
            } else {
                None
            }
        },
        Some(k) => {
            let ip = t.subrange(ofs, k);
            let fp = t.subrange(k + 1, t.len() as int);
            if 1 <= ip.len() <= 16 && all_digits(ip) && 1 <= fp.len() && all_digits(fp) {
                Some(digits_val(ip) * 100 + digit_val(fp[0]) * 10 + if fp.len() >= 2 {
                    digit_val(fp[1])
                } else {
                    0
                })
            } else {
                None
            }
        },
    }
}

/// A signed price token as a whole number of hundredths.
pub open spec fn parse_price(t: Seq<char>) -> Option<i64> {
    if t.len() > 0 && t[0] == '-' {
        match price_magnitude(t, 1) {
            Some(m) => Some((-m) as i64),
            None => None,
        }
    } else {
        match price_magnitude(t, 0) {
            Some(m) => Some(m as i64),
            None => None,
        }
    }
}

/// An unsigned integer token: one to eighteen decimal digits.
pub open spec fn parse_u64_tok(t: Seq<char>) -> Option<u64> {
    if 1 <= t.len() <= 18 && all_digits(t) {
        Some(digits_val(t) as u64)
    } else {
        None
    }
}

/// A signed integer token: an optional minus sign, then one to eighteen
/// decimal digits.
pub open spec fn parse_i64_tok(t: Seq<char>) -> Option<i64> {
    if t.len() > 0 && t[0] == '-' {
        if 2 <= t.len() <= 19 && all_digits(t.subrange(1, t.len() as int)) {
            Some((-digits_val(t.subrange(1, t.len() as int))) as i64)
        } else {
            None
        }
    } else {
        if 1 <= t.len() <= 18 && all_digits(t) {
            Some(digits_val(t) as i64)
        } else {
            None
        }
    }
}

/// The value of the digits of `t` in `[from, to)`, when they are all digits
/// and the range is not empty.
fn digits_range_val(t: &str, from: usize, to: usize) -> (r: Option<u64>)
    requires
        from <= to <= t@.len(),
        to - from <= 18,
    ensures
        match r {
            Some(v) => to > from && all_digits(t@.subrange(from as int, to as int)) && v
                == digits_val(t@.subrange(from as int, to as int)) && v < pow10((to - from) as nat),
            None => to == from || !all_digits(t@.subrange(from as int, to as int)),
        },
{
    if to == from {
        return None;
    }
    let mut acc: u64 = 0;
    let mut i: usize = from;
    proof {
        assert(t@.subrange(from as int, from as int) =~= Seq::<char>::empty());
    }
    while i < to
        invariant
            from <= i <= to <= t@.len(),
            to - from <= 18,
            all_digits(t@.subrange(from as int, i as int)),
            acc == digits_val(t@.subrange(from as int, i as int)),
            acc < pow10((i - from) as nat),
        decreases to - i,
    {
        let u = t.get_char(i) as u32;
        if u < 48 || u > 57 {
            proof {
                assert(t@.subrange(from as int, to as int)[i - from] == t@[i as int]);
                assert(!is_digit(t@[i as int]));
            }
            return None;
        }
        proof {
            lemma_pow10_monotone((i - from) as nat, 17);
            assert(pow10(17) == 100000000000000000) by {
                reveal_with_fuel(pow10, 18);
            }
            let sub1 = t@.subrange(from as int, i + 1);
            assert(sub1.drop_last() =~= t@.subrange(from as int, i as int));
            assert(sub1.last() == t@[i as int]);
            assert(all_digits(sub1)) by {
                assert(forall|k: int| 0 <= k < sub1.len() - 1
                    ==> sub1[k] == t@.subrange(from as int, i as int)[k]);
            }
        }
        acc = acc * 10 + (u - 48) as u64;
        i += 1;
    }
    proof {
        lemma_digits_val_bound(t@.subrange(from as int, to as int));
    }
    Some(acc)
}

/// Whether every character of `t` in `[from, to)` is a decimal digit.
fn check_all_digits(t: &str, from: usize, to: usize) -> (r: bool)
    requires
        from <= to <= t@.len(),
    ensures
        r == all_digits(t@.subrange(from as int, to as int)),
{
    let mut i: usize = from;
    while i < to
        invariant
            from <= i <= to <= t@.len(),
            forall|k: int| from <= k < i ==> is_digit(t@[k]),
        decreases to - i,
    {
        let u = t.get_char(i) as u32;
        if u < 48 || u > 57 {
            proof {
                assert(t@.subrange(from as int, to as int)[i - from] == t@[i as int]);
            }
            return false;
        }
        i += 1;
    }
    proof {
        assert(forall|k: int| 0 <= k < to - from
            ==> t@.subrange(from as int, to as int)[k] == t@[from + k]);
    }
    true
}

/// Parses a signed price token into a whole number of hundredths.
pub fn parse_price_str(t: &str) -> (r: Option<i64>)
    ensures
        r == parse_price(t@),
        r is Some ==> -1000000000000000000 < r->Some_0 < 1000000000000000000,
{
    let len = t.unicode_len();
    let neg = len > 0 && t.get_char(0) == '-';
    let ofs: usize = if neg { 1 } else { 0 };
    proof {
        reveal_strlit(".");
        assert("."@ =~= seq!['.']);
    }
    let mag: u64 = match find_first(t, ".", ofs) {
        None => {
            if len - ofs < 1 || len - ofs > 16 {
                return None;
            }
            match digits_range_val(t, ofs, len) {
                None => {
                    return None;
                },
                Some(v) => {
                    proof {
                        lemma_pow10_monotone((len - ofs) as nat, 16);
                        assert(pow10(16) == 10000000000000000) by {
                            reveal_with_fuel(pow10, 17);
                        }
                    }
                    v * 100
                },
            }
        },
        Some(k) => {
            proof {
                crate::text::lemma_find_from_is_first(t@, "."@, ofs as int);
            }
            if k - ofs < 1 || k - ofs > 16 {
                return None;
            }
            if len - (k + 1) < 1 {
                return None;
            }
            if !check_all_digits(t, k + 1, len) {
                return None;
            }
            match digits_range_val(t, ofs, k) {
                None => {
                    return None;
                },
                Some(v) => {
                    proof {
                        lemma_pow10_monotone((k - ofs) as nat, 16);
                        assert(pow10(16) == 10000000000000000) by {
                            reveal_with_fuel(pow10, 17);
                        }
                        assert(t@.subrange(k + 1, t@.len() as int)[0] == t@[k + 1]);
                        if k + 2 < len {
                            assert(t@.subrange(k + 1, t@.len() as int)[1] == t@[k + 2]);
                        }
                    }
                    let d1 = (t.get_char(k + 1) as u32 - 48) as u64;
                    let d2: u64 = if k + 2 < len {
                        (t.get_char(k + 2) as u32 - 48) as u64
                    } else {
                        0
                    };
                    v * 100 + d1 * 10 + d2
                },
            }
        },
    };
    if neg {
        Some(-(mag as i64))
    } else {
        Some(mag as i64)
    }
}

/// Parses an unsigned integer token.
pub fn parse_u64_str(t: &str) -> (r: Option<u64>)
    ensures
        r == parse_u64_tok(t@),
{
    let len = t.unicode_len();
    if len < 1 || len > 18 {
        return None;
    }
    let r = digits_range_val(t, 0, len);
    proof {
        assert(t@.subrange(0, len as int) =~= t@);
    }
    r
}

/// Parses a signed integer token.
pub fn parse_i64_str(t: &str) -> (r: Option<i64>)
    ensures
        r == parse_i64_tok(t@),
{
    let len = t.unicode_len();
    if len > 0 && t.get_char(0) == '-' {
        if len < 2 || len > 19 {
            return None;
        }
        match digits_range_val(t, 1, len) {
            None => None,
            Some(v) => {
                proof {
                    lemma_pow10_monotone((len - 1) as nat, 18);
                    assert(pow10(18) == 1000000000000000000) by {
                        reveal_with_fuel(pow10, 19);
                    }
                }
                Some(-(v as i64))
            },
        }
    } else {
        if len < 1 || len > 18 {
            return None;
        }
        let r = digits_range_val(t, 0, len);
        proof {
            assert(t@.subrange(0, len as int) =~= t@);
            if r is Some {
                lemma_pow10_monotone(len as nat, 18);
                assert(pow10(18) == 1000000000000000000) by {
                    reveal_with_fuel(pow10, 19);
                }
            }
        }
        match r {
            None => None,
            Some(v) => Some(v as i64),
        }
    }
}

pub open spec fn digit_char(d: int) -> char {
    if d == 0 {
        '0'
    } else if d == 1 {
        '1'
    } else if d == 2 {
        '2'
    } else if d == 3 {
        '3'
    } else if d == 4 {
        '4'
    } else if d == 5 {
        '5'
    } else if d == 6 {
        '6'
    } else if d == 7 {
        '7'
    } else if d == 8 {
        '8'
    } else {
        '9'
    }
}

/// The decimal rendering of a non-negative integer.
pub open spec fn dec_seq(n: int) -> Seq<char>
    decreases n when n >= 0
{
    if n < 10 {
        seq![digit_char(n)]
    } else {
        dec_seq(n / 10) + seq![digit_char(n % 10)]
    }
}

/// The rendering of a number of hundredths with exactly two decimal
/// places, as a `{:.2}` format prints the value it stands for.
pub open spec fn money_seq(v: int) -> Seq<char> {
    let m = if v < 0 { -v } else { v };
    let sign: Seq<char> = if v < 0 { seq!['-'] } else { Seq::<char>::empty() };
    sign + dec_seq(m / 100) + seq!['.', digit_char((m / 10) % 10), digit_char(m % 10)]
}

/// The shortest rendering of a number of hundredths: no point when the
/// fraction is zero, one decimal place when the second digit is zero.
pub open spec fn plain_seq(v: int) -> Seq<char> {
    let m = if v < 0 { -v } else { v };
    let sign: Seq<char> = if v < 0 { seq!['-'] } else { Seq::<char>::empty() };
    sign + dec_seq(m / 100) + if m % 100 == 0 {
        Seq::<char>::empty()
    } else if m % 10 == 0 {
        seq!['.', digit_char((m / 10) % 10)]
    } else {
        seq!['.', digit_char((m / 10) % 10), digit_char(m % 10)]
    }
}

/// One decimal digit as a string slice.
fn digit_str(d: u64) -> (r: &'static str)
    requires
        d < 10,
    ensures
        r@ =~= seq![digit_char(d as int)],
{
    proof {
        reveal_strlit("0");
        reveal_strlit("1");
        reveal_strlit("2");
        reveal_strlit("3");
        reveal_strlit("4");
        reveal_strlit("5");
        reveal_strlit("6");
        reveal_strlit("7");
        reveal_strlit("8");
        reveal_strlit("9");
    }
    match d {
        0 => "0",
        1 => "1",
        2 => "2",
        3 => "3",
        4 => "4",
        5 => "5",
        6 => "6",
        7 => "7",
        8 => "8",
        _ => "9",
    }
}

/// The decimal rendering of an unsigned integer.
pub fn u64_string(n: u64) -> (r: String)
    ensures
        r@ == dec_seq(n as int),
    decreases n,
{
    if n < 10 {
        let mut s = String::new();
        s.append(digit_str(n));
        proof {
            assert(s@ =~= dec_seq(n as int));
        }
        s
    } else {
        let mut s = u64_string(n / 10);
        s.append(digit_str(n % 10));
        proof {
            assert(s@ =~= dec_seq(n as int));
        }
        s
    }
}

/// Renders a number of hundredths with exactly two decimal places.
pub fn format_money(v: i64) -> (r: String)
    requires
        v > i64::MIN,
    ensures
        r@ == money_seq(v as int),
{
    let m: u64 = if v < 0 {
        (-v) as u64
    } else {
        v as u64
    };
    let mut s = String::new();
    if v < 0 {
        proof {
            reveal_strlit("-");
            assert("-"@ =~= seq!['-']);
        }
        s.append("-");
    }
    let whole = u64_string(m / 100);
    s.append(whole.as_str());
    proof {
        reveal_strlit(".");
        assert("."@ =~= seq!['.']);
    }
    s.append(".");
    s.append(digit_str((m / 10) % 10));
    s.append(digit_str(m % 10));
    proof {
        assert(s@ =~= money_seq(v as int));
    }
    s
}

/// Renders a number of hundredths in its shortest decimal form.
pub fn format_plain(v: i64) -> (r: String)
    requires
        v > i64::MIN,
    ensures
        r@ == plain_seq(v as int),
{
    let m: u64 = if v < 0 {
        (-v) as u64
    } else {
        v as u64
    };
    let mut s = String::new();
    if v < 0 {
        proof {
            reveal_strlit("-");
            assert("-"@ =~= seq!['-']);
        }
        s.append("-");
    }
    let whole = u64_string(m / 100);
    s.append(whole.as_str());
    if m % 100 != 0 {
        proof {
            reveal_strlit(".");
            assert("."@ =~= seq!['.']);
        }
        s.append(".");
        s.append(digit_str((m / 10) % 10));
        if m % 10 != 0 {
            s.append(digit_str(m % 10));
        }
    }
    proof {
        assert(s@ =~= plain_seq(v as int));
    }
    s
}

} // verus!
