//! Hexadecimal numbers as written in configuration values.
use vstd::prelude::*;
use vstd::string::StrSliceExecFns;

verus! {

/// What `str::trim` returns: the text without leading and trailing Unicode
/// white space.
pub uninterp spec fn trimmed(s: Seq<char>) -> Seq<char>;

/// Relies on `str::trim` for the text with surrounding white space removed.
#[verifier::external_body]
fn trim<'a>(s: &'a str) -> (r: &'a str)
    ensures
        r@ == trimmed(s@),
{
    s.trim()
}

pub open spec fn is_hex_digit(c: char) -> bool {
    ('0' <= c && c <= '9') || ('a' <= c && c <= 'f') || ('A' <= c && c <= 'F')
}

pub open spec fn hex_digit_value(c: char) -> nat {
    if '0' <= c && c <= '9' {
        (c as int - '0' as int) as nat
    } else if 'a' <= c && c <= 'f' {
        (c as int - 'a' as int + 10) as nat
    } else {
        (c as int - 'A' as int + 10) as nat
    }
}

/// The number that a sequence of hex digits spells, most significant first.
pub open spec fn hex_nat(d: Seq<char>) -> nat
    decreases d.len(),
{
    if d.len() == 0 {
        0
    } else {
        hex_nat(d.drop_last()) * 16 + hex_digit_value(d.last())
    }
}

/// The digits of `t` after an optional leading `+`.
pub open spec fn unsigned_digits(t: Seq<char>) -> Seq<char> {
    if t.len() > 0 && t[0] == '+' {
        t.subrange(1, t.len() as int)
    } else {
        t
    }
}

/// `t` read as an unsigned hexadecimal `u32`: an optional `+`, then one or more
/// hex digits of either case, with a value below 2^32; otherwise nothing.
pub open spec fn hex_value(t: Seq<char>) -> Option<u32> {
    let d = unsigned_digits(t);
    if d.len() > 0 && (forall|i: int| 0 <= i < d.len() ==> is_hex_digit(#[trigger] d[i]))
        && hex_nat(d) <= u32::MAX {
        Some(hex_nat(d) as u32)
    } else {
        None
    }
}

/// `s` without a leading `0x` or `0X`.
pub open spec fn strip_hex_prefix(s: Seq<char>) -> Seq<char> {
    if s.len() >= 2 && s[0] == '0' && (s[1] == 'x' || s[1] == 'X') {
        s.subrange(2, s.len() as int)
    } else {
        s
    }
}

proof fn lemma_hex_nat_prefix(d: Seq<char>, k: int)
    requires
        0 <= k <= d.len(),
    ensures
        hex_nat(d.subrange(0, k)) <= hex_nat(d),
    decreases d.len() - k,
{
    if k < d.len() {
        lemma_hex_nat_prefix(d, k + 1);
        let p = d.subrange(0, k + 1);
        assert(p.drop_last() =~= d.subrange(0, k));
    } else {
        assert(d.subrange(0, k) =~= d);
    }
}

fn digit_value(c: char) -> (r: Option<u32>)
    ensures
        r == if is_hex_digit(c) {
            Some(hex_digit_value(c) as u32)
        } else {
            None::<u32>
        },
{
    if '0' <= c && c <= '9' {
        Some(c as u32 - '0' as u32)
    } else if 'a' <= c && c <= 'f' {
        Some(c as u32 - 'a' as u32 + 10)
    } else if 'A' <= c && c <= 'F' {
        Some(c as u32 - 'A' as u32 + 10)
    } else {
        None
    }
}

/// Reads `t` as an unsigned hexadecimal number: an optional `+` and then hex
/// digits only, with no surrounding white space. `None` when `t` is not such
/// a number or its value does not fit in a `u32`.
pub fn hex_to_u32(t: &str) -> (r: Option<u32>)
    ensures
        r == hex_value(t@),
{
    let n = t.unicode_len();
    let start: usize = if n > 0 && t.get_char(0) == '+' {
        1
    } else {
        0
    };
    let ghost d = unsigned_digits(t@);
    assert(d =~= t@.subrange(start as int, n as int));
    if start == n {
        return None;
    }
    let mut acc: u64 = 0;
    let mut i: usize = start;
    while i < n
        invariant
            start <= i <= n,
            n == t@.len(),
            d == t@.subrange(start as int, n as int),
            d == unsigned_digits(t@),
            acc == hex_nat(d.subrange(0, i - start)),
            acc <= u32::MAX,
            forall|j: int| 0 <= j < i - start ==> is_hex_digit(#[trigger] d[j]),
        decreases n - i,
    {
        let c = t.get_char(i);
        assert(c == d[i - start]);
        match digit_value(c) {
            Some(v) => {
                assert(d.subrange(0, i - start + 1).drop_last() =~= d.subrange(0, i - start));
                acc = acc * 16 + v as u64;
                i = i + 1;
                assert(acc == hex_nat(d.subrange(0, i - start)));
                if acc > u32::MAX as u64 {
                    proof {
                        lemma_hex_nat_prefix(d, i - start);
                    }
                    assert(hex_nat(d) > u32::MAX);
                    return None;
                }
            },
            None => {
                assert(!is_hex_digit(d[i - start]));
                return None;
            },
        }
    }
    assert(d.subrange(0, n - start) =~= d);
    Some(acc as u32)
}

/// Reads a hexadecimal `u32` written with or without a `0x` / `0X` prefix, with
/// white space allowed around the digits (after the prefix). `None` when the
/// text is not such a number.
pub fn hexstring_to_u32(string: &String) -> (r: Option<u32>)
    ensures
        r == hex_value(trimmed(strip_hex_prefix(string@))),
{
    let s = string.as_str();
    let n = s.unicode_len();
    let body = if n >= 2 && s.get_char(0) == '0' && (s.get_char(1) == 'x' || s.get_char(1) == 'X') {
        s.substring_char(2, n)
    } else {
        s
    };
    assert(body@ == strip_hex_prefix(string@));
    hex_to_u32(trim(body))
}

} // verus!
