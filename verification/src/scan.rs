//! Field extraction from the JSON bodies the market-data host returns.
//! A field is located by the first occurrence of `"key":`; its value is the
//! text up to the closing delimiter. The scanner expects the compact bodies
//! the host sends: no whitespace between tokens.

use vstd::prelude::*;
use vstd::string::StrSliceExecFns;
use vstd::string::StringExecFns;
use crate::text::find_from;
use crate::text::find_first;
use crate::text::lemma_find_from_is_first;
use crate::num::parse_price;
use crate::num::parse_price_str;
use crate::num::parse_u64_tok;
use crate::num::parse_u64_str;

verus! {

broadcast use vstd::string::group_string_axioms;

/// The text that introduces field `key`: a quoted key and a colon.
pub open spec fn key_pat(key: Seq<char>) -> Seq<char> {
    seq!['"'] + key + seq!['"', ':']
}

/// Where the value of field `key` starts: just after the first `"key":`.
pub open spec fn value_start(s: Seq<char>, key: Seq<char>) -> Option<int> {
    match find_from(s, key_pat(key), 0) {
        Some(i) => Some(i + key_pat(key).len()),
        None => None,
    }
}

/// The first position at or after `i` that holds `,` or `}`, or the end.
pub open spec fn delim_end(s: Seq<char>, i: int) -> int
    decreases s.len() - i when 0 <= i <= s.len()
{
    if i >= s.len() {
        s.len() as int
    } else if s[i] == ',' || s[i] == '}' {
        i
    } else {
        delim_end(s, i + 1)
    }
}

/// The first position at or after `i` that holds `,`, or the end.
pub open spec fn comma_end(s: Seq<char>, i: int) -> int
    decreases s.len() - i when 0 <= i <= s.len()
{
    if i >= s.len() {
        s.len() as int
    } else if s[i] == ',' {
        i
    } else {
        comma_end(s, i + 1)
    }
}

/// The scalar value of field `key`: the text from after `"key":` up to the
/// next `,` or `}`.
pub open spec fn field_token(s: Seq<char>, key: Seq<char>) -> Option<Seq<char>> {
    match value_start(s, key) {
        Some(p) => Some(s.subrange(p, delim_end(s, p))),
        None => None,
    }
}

/// The contents of the string value of field `key`, without its quotes.
pub open spec fn string_field(s: Seq<char>, key: Seq<char>) -> Option<Seq<char>> {
    match value_start(s, key) {
        Some(p) => {
            if p < s.len() && s[p] == '"' {
                match find_from(s, seq!['"'], p + 1) {
                    Some(q) => Some(s.subrange(p + 1, q)),
                    None => None,
                }
            } else {
                None
            }
        },
        None => None,
    }
}

/// The inside of the array value of field `key`, without its brackets.
pub open spec fn array_field(s: Seq<char>, key: Seq<char>) -> Option<Seq<char>> {
    match value_start(s, key) {
        Some(p) => {
            if p < s.len() && s[p] == '[' {
                match find_from(s, seq![']'], p + 1) {
                    Some(q) => Some(s.subrange(p + 1, q)),
                    None => None,
                }
            } else {
                None
            }
        },
        None => None,
    }
}

/// Builds the text that introduces field `key`.
fn build_key_pat(key: &str) -> (r: String)
    ensures
        r@ == key_pat(key@),
{
    proof {
        reveal_strlit("\"");
        reveal_strlit("\":");
    }
    let mut p = String::new();
    p.append("\"");
    p.append(key);
    p.append("\":");
    proof {
        assert(p@ =~= key_pat(key@));
    }
    p
}

/// Finds where the value of field `key` starts in `s`.
pub fn find_value_start(s: &str, key: &str) -> (r: Option<usize>)
    ensures
        match r {
            Some(p) => value_start(s@, key@) == Some(p as int) && p <= s@.len(),
            None => value_start(s@, key@) is None,
        },
{
    let slen = s.unicode_len();
    let pat = build_key_pat(key);
    let plen = pat.as_str().unicode_len();
    match find_first(s, pat.as_str(), 0) {
        Some(i) => {
            proof {
                lemma_find_from_is_first(s@, key_pat(key@), 0);
                assert(i + plen <= slen);
            }
            Some(i + plen)
        },
        None => None,
    }
}

/// The first position at or after `from` that holds `,` or `}`.
fn find_delim_end(s: &str, from: usize) -> (r: usize)
    requires
        from <= s@.len(),
    ensures
        r == delim_end(s@, from as int),
        from <= r <= s@.len(),
{
    let len = s.unicode_len();
    let mut i: usize = from;
    while i < len
        invariant
            from <= i <= len,
            len == s@.len(),
            delim_end(s@, from as int) == delim_end(s@, i as int),
        decreases len - i,
    {
        let c = s.get_char(i);
        if c == ',' || c == '}' {
            return i;
        }
        i += 1;
    }
    len
}

/// The first position at or after `from` that holds `,`.
fn find_comma_end(s: &str, from: usize) -> (r: usize)
    requires
        from <= s@.len(),
    ensures
        r == comma_end(s@, from as int),
        from <= r <= s@.len(),
{
    let len = s.unicode_len();
    let mut i: usize = from;
    while i < len
        invariant
            from <= i <= len,
            len == s@.len(),
            comma_end(s@, from as int) == comma_end(s@, i as int),
        decreases len - i,
    {
        if s.get_char(i) == ',' {
            return i;
        }
        i += 1;
    }
    len
}

/// The scalar value of field `key` in `s`.
pub fn field_token_str<'a>(s: &'a str, key: &str) -> (r: Option<&'a str>)
    ensures
        match r {
            Some(t) => field_token(s@, key@) == Some(t@),
            None => field_token(s@, key@) is None,
        },
{
    match find_value_start(s, key) {
        None => None,
        Some(p) => {
            let e = find_delim_end(s, p);
            Some(s.substring_char(p, e))
        },
    }
}

/// The contents of the string value of field `key` in `s`.
pub fn string_field_str<'a>(s: &'a str, key: &str) -> (r: Option<&'a str>)
    ensures
        match r {
            Some(t) => string_field(s@, key@) == Some(t@),
            None => string_field(s@, key@) is None,
        },
{
    proof {
        reveal_strlit("\"");
        assert("\""@ =~= seq!['"']);
    }
    match find_value_start(s, key) {
        None => None,
        Some(p) => {
            let len = s.unicode_len();
            if p < len && s.get_char(p) == '"' {
                match find_first(s, "\"", p + 1) {
                    Some(q) => {
                        proof {
                            lemma_find_from_is_first(s@, "\""@, p + 1);
                        }
                        Some(s.substring_char(p + 1, q))
                    },
                    None => None,
                }
            } else {
                None
            }
        },
    }
}

/// The inside of the array value of field `key` in `s`.
pub fn array_field_str<'a>(s: &'a str, key: &str) -> (r: Option<&'a str>)
    ensures
        match r {
            Some(t) => array_field(s@, key@) == Some(t@),
            None => array_field(s@, key@) is None,
        },
{
    proof {
        reveal_strlit("]");
        assert("]"@ =~= seq![']']);
    }
    match find_value_start(s, key) {
        None => None,
        Some(p) => {
            let len = s.unicode_len();
            if p < len && s.get_char(p) == '[' {
                match find_first(s, "]", p + 1) {
                    Some(q) => {
                        proof {
                            lemma_find_from_is_first(s@, "]"@, p + 1);
                        }
                        Some(s.substring_char(p + 1, q))
                    },
                    None => None,
                }
            } else {
                None
            }
        },
    }
}

/// The price tokens of a comma-separated list, starting at `i`.
pub open spec fn price_list_at(t: Seq<char>, i: int) -> Option<Seq<i64>>
    decreases t.len() - i when 0 <= i <= t.len()
{
    let e = if i <= comma_end(t, i) <= t.len() {
        comma_end(t, i)
    } else {
        t.len() as int
    };
    match parse_price(t.subrange(i, e)) {
        None => None,
        Some(v) => {
            if e == t.len() {
                Some(seq![v])
            } else {
                match price_list_at(t, e + 1) {
                    Some(rest) => Some(seq![v] + rest),
                    None => None,
                }
            }
        },
    }
}

/// A comma-separated list of price tokens, each a whole number of hundredths.
pub open spec fn parse_price_list(t: Seq<char>) -> Option<Seq<i64>> {
    if t.len() == 0 {
        Some(Seq::<i64>::empty())
    } else {
        price_list_at(t, 0)
    }
}

/// The unsigned integer tokens of a comma-separated list, starting at `i`.
pub open spec fn u64_list_at(t: Seq<char>, i: int) -> Option<Seq<u64>>
    decreases t.len() - i when 0 <= i <= t.len()
{
    let e = if i <= comma_end(t, i) <= t.len() {
        comma_end(t, i)
    } else {
        t.len() as int
    };
    match parse_u64_tok(t.subrange(i, e)) {
        None => None,
        Some(v) => {
            if e == t.len() {
                Some(seq![v])
            } else {
                match u64_list_at(t, e + 1) {
                    Some(rest) => Some(seq![v] + rest),
                    None => None,
                }
            }
        },
    }
}

/// A comma-separated list of unsigned integer tokens.
pub open spec fn parse_u64_list(t: Seq<char>) -> Option<Seq<u64>> {
    if t.len() == 0 {
        Some(Seq::<u64>::empty())
    } else {
        u64_list_at(t, 0)
    }
}

/// Parses a comma-separated list of price tokens.
pub fn parse_price_list_str(t: &str) -> (r: Option<Vec<i64>>)
    ensures
        match r {
            Some(v) => parse_price_list(t@) == Some(v@) && forall|i: int|
                0 <= i < v@.len() ==> -1000000000000000000 < #[trigger] v@[i]
                    < 1000000000000000000,
            None => parse_price_list(t@) is None,
        },
{
    let len = t.unicode_len();
    let mut acc: Vec<i64> = Vec::new();
    if len == 0 {
        proof {
            assert(acc@ =~= Seq::<i64>::empty());
        }
        return Some(acc);
    }
    let mut pos: usize = 0;
    loop
        invariant
            0 <= pos <= len,
            len == t@.len(),
            len > 0,
            match price_list_at(t@, pos as int) {
                Some(rest) => price_list_at(t@, 0) == Some(acc@ + rest),
                None => price_list_at(t@, 0) is None,
            },
            forall|i: int|
                0 <= i < acc@.len() ==> -1000000000000000000 < #[trigger] acc@[i]
                    < 1000000000000000000,
        decreases len - pos,
    {
        let e = find_comma_end(t, pos);
        let seg = t.substring_char(pos, e);
        match parse_price_str(seg) {
            None => {
                return None;
            },
            Some(v) => {
                acc.push(v);
                if e == len {
                    proof {
                        assert(price_list_at(t@, 0) == Some(acc@)) by {
                            assert(acc@ =~= acc@.subrange(0, acc@.len() - 1) + seq![v]);
                        }
                    }
                    return Some(acc);
                }
                proof {
                    let rest0 = price_list_at(t@, pos as int);
                    let rest1 = price_list_at(t@, e + 1);
                    match rest1 {
                        Some(r1) => {
                            assert(acc@ + r1 =~= acc@.subrange(0, acc@.len() - 1) + (seq![v]
                                + r1));
                        },
                        None => {},
                    }
                }
                pos = e + 1;
            },
        }
    }
}

/// Parses a comma-separated list of unsigned integer tokens.
pub fn parse_u64_list_str(t: &str) -> (r: Option<Vec<u64>>)
    ensures
        match r {
            Some(v) => parse_u64_list(t@) == Some(v@),
            None => parse_u64_list(t@) is None,
        },
{
    let len = t.unicode_len();
    let mut acc: Vec<u64> = Vec::new();
    if len == 0 {
        proof {
            assert(acc@ =~= Seq::<u64>::empty());
        }
        return Some(acc);
    }
    let mut pos: usize = 0;
    loop
        invariant
            0 <= pos <= len,
            len == t@.len(),
            len > 0,
            match u64_list_at(t@, pos as int) {
                Some(rest) => u64_list_at(t@, 0) == Some(acc@ + rest),
                None => u64_list_at(t@, 0) is None,
            },
        decreases len - pos,
    {
        let e = find_comma_end(t, pos);
        let seg = t.substring_char(pos, e);
        match parse_u64_str(seg) {
            None => {
                return None;
            },
            Some(v) => {
                acc.push(v);
                if e == len {
                    proof {
                        assert(u64_list_at(t@, 0) == Some(acc@)) by {
                            assert(acc@ =~= acc@.subrange(0, acc@.len() - 1) + seq![v]);
                        }
                    }
                    return Some(acc);
                }
                proof {
                    let rest1 = u64_list_at(t@, e + 1);
                    match rest1 {
                        Some(r1) => {
                            assert(acc@ + r1 =~= acc@.subrange(0, acc@.len() - 1) + (seq![v]
                                + r1));
                        },
                        None => {},
                    }
                }
                pos = e + 1;
            },
        }
    }
}

} // verus!
