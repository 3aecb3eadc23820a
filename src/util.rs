use vstd::prelude::*;
use crate::error::DebugError;

verus! {

/// ASCII lower-casing of one character; every other character is kept.
pub open spec fn ascii_lower(c: char) -> char {
    if 'A' <= c && c <= 'Z' {
        ((c as u32) + 32) as char
    } else {
        c
    }
}

/// ASCII lower-casing of a whole string.
pub open spec fn ascii_lower_seq(s: Seq<char>) -> Seq<char> {
    s.map_values(|c: char| ascii_lower(c))
}

fn lower_matches(c: char, d: char) -> (r: bool)
    ensures
        r == (ascii_lower(c) == d),
{
    if 'A' <= c && c <= 'Z' {
        (c as u32) + 32 == d as u32
    } else {
        c == d
    }
}

/// Whether `s`, lower-cased in ASCII, is exactly `name`.
pub fn eq_ignore_ascii_case(s: &str, name: &str) -> (r: bool)
    ensures
        r == (ascii_lower_seq(s@) == name@),
{
    let n = s.unicode_len();
    let m = name.unicode_len();
    if n != m {
        assert(ascii_lower_seq(s@).len() != name@.len());
        return false;
    }
    let mut i: usize = 0;
    while i < n
        invariant
            n == s@.len(),
            m == name@.len(),
            n == m,
            i <= n,
            forall|j: int| 0 <= j < i ==> ascii_lower(#[trigger] s@[j]) == name@[j],
        decreases n - i,
    {
        let c = s.get_char(i);
        let d = name.get_char(i);
        if !lower_matches(c, d) {
            assert(ascii_lower_seq(s@)[i as int] != name@[i as int]);
            return false;
        }
        i = i + 1;
    }
    assert(ascii_lower_seq(s@) =~= name@);
    true
}

/// The value of one hexadecimal digit, of either case.
pub open spec fn hex_digit(c: char) -> Option<nat> {
    if '0' <= c && c <= '9' {
        Some((c as u32 - '0' as u32) as nat)
    } else if 'a' <= c && c <= 'f' {
        Some((c as u32 - 'a' as u32 + 10) as nat)
    } else if 'A' <= c && c <= 'F' {
        Some((c as u32 - 'A' as u32 + 10) as nat)
    } else {
        None
    }
}

pub open spec fn all_hex_digits(d: Seq<char>) -> bool {
    forall|i: int| 0 <= i < d.len() ==> (#[trigger] hex_digit(d[i])) is Some
}

/// The number that a string of hexadecimal digits denotes, most significant first.
pub open spec fn digits_value(d: Seq<char>) -> nat
    decreases d.len(),
{
    if d.len() == 0 {
        0
    } else {
        digits_value(d.drop_last()) * 16 + hex_digit(d.last()).unwrap_or(0)
    }
}

/// The digits of a base-16 numeral once an optional leading `+` is taken off.
pub open spec fn unsigned_digits(d: Seq<char>) -> Seq<char> {
    if d.len() > 0 && d[0] == '+' {
        d.skip(1)
    } else {
        d
    }
}

/// What a base-16 numeral for a `u64` denotes: an optional `+`, then one or
/// more hexadecimal digits whose value fits in 64 bits.
pub open spec fn radix16_value(d: Seq<char>) -> Option<u64> {
    let ds = unsigned_digits(d);
    if ds.len() > 0 && all_hex_digits(ds) && digits_value(ds) <= u64::MAX {
        Some(digits_value(ds) as u64)
    } else {
        None
    }
}

/// The text of a hexadecimal argument: `0x`, then a base-16 numeral.
pub open spec fn hex_argument_value(s: Seq<char>) -> Option<u64> {
    if s.len() >= 2 && s[0] == '0' && s[1] == 'x' {
        radix16_value(s.skip(2))
    } else {
        None
    }
}

proof fn lemma_digits_value_grows(d: Seq<char>, k: int)
    requires
        0 <= k <= d.len(),
        all_hex_digits(d),
    ensures
        digits_value(d.take(k)) <= digits_value(d),
    decreases d.len() - k,
{
    if k < d.len() {
        lemma_digits_value_grows(d, k + 1);
        let t = d.take(k + 1);
        assert(t.drop_last() =~= d.take(k));
        assert(hex_digit(d[k]) is Some);
        assert(digits_value(t) >= digits_value(d.take(k)) * 16) by (nonlinear_arith)
            requires
                digits_value(t) == digits_value(t.drop_last()) * 16 + hex_digit(t.last()).unwrap_or(
                    0,
                ),
                t.drop_last() == d.take(k),
        ;
    } else {
        assert(d.take(k) =~= d);
    }
}

fn hex_digit_of(c: char) -> (r: Option<u64>)
    ensures
        r is Some <==> hex_digit(c) is Some,
        r is Some ==> r.unwrap() as nat == hex_digit(c).unwrap() && r.unwrap() < 16,
{
    if '0' <= c && c <= '9' {
        Some((c as u32 - '0' as u32) as u64)
    } else if 'a' <= c && c <= 'f' {
        Some((c as u32 - 'a' as u32 + 10) as u64)
    } else if 'A' <= c && c <= 'F' {
        Some((c as u32 - 'A' as u32 + 10) as u64)
    } else {
        None
    }
}

/// Reads the characters `from..to` of `s` as a base-16 numeral.
pub fn parse_radix16(s: &str, from: usize, to: usize) -> (r: Option<u64>)
    requires
        from <= to <= s@.len(),
    ensures
        r == radix16_value(s@.subrange(from as int, to as int)),
{
    let ghost d = s@.subrange(from as int, to as int);
    let mut start = from;
    if from < to && s.get_char(from) == '+' {
        start = from + 1;
    }
    let ghost ds = unsigned_digits(d);
    assert(ds =~= s@.subrange(start as int, to as int));
    if start == to {
        return None;
    }
    let mut acc: u64 = 0;
    let mut i = start;
    while i < to
        invariant
            from <= start <= i <= to <= s@.len(),
            ds == s@.subrange(start as int, to as int),
            d == s@.subrange(from as int, to as int),
            ds == unsigned_digits(d),
            all_hex_digits(ds.take(i - start)),
            acc as nat == digits_value(ds.take(i - start)),
        decreases to - i,
    {
        let c = s.get_char(i);
        let ghost k = i - start;
        assert(ds[k] == c);
        let dg = hex_digit_of(c);
        if dg.is_none() {
            assert(!all_hex_digits(ds)) by {
                assert(hex_digit(ds[k]) is None);
            }
            return None;
        }
        let v = dg.unwrap();
        let ghost next = ds.take(k + 1);
        assert(next.drop_last() =~= ds.take(k));
        assert(next.last() == c);
        assert(all_hex_digits(next)) by {
            assert forall|j: int| 0 <= j < next.len() implies (#[trigger] hex_digit(next[j])) is Some by {
                if j < k {
                    assert(next[j] == ds.take(k)[j]);
                }
            }
        }
        match acc.checked_mul(16) {
            Some(m) => match m.checked_add(v) {
                Some(a) => {
                    acc = a;
                },
                None => {
                    proof {
                        if all_hex_digits(ds) {
                            lemma_digits_value_grows(ds, k + 1);
                        }
                    }
                    return None;
                },
            },
            None => {
                proof {
                    if all_hex_digits(ds) {
                        lemma_digits_value_grows(ds, k + 1);
                        assert(digits_value(next) >= acc * 16) by (nonlinear_arith)
                            requires
                                digits_value(next) == acc * 16 + hex_digit(c).unwrap_or(0),
                        ;
                    }
                }
                return None;
            },
        }
        i = i + 1;
    }
    assert(ds.take(to - start) =~= ds);
    Some(acc)
}

/// Parses a hexadecimal argument, which must be written with a `0x` prefix.
pub fn parse_hex(val: &str) -> (r: Result<u64, DebugError>)
    ensures
        match hex_argument_value(val@) {
            Some(v) => r == Ok::<u64, DebugError>(v),
            None => r == Err::<u64, DebugError>(DebugError::BadHex),
        },
{
    let n = val.unicode_len();
    if n < 2 || val.get_char(0) != '0' || val.get_char(1) != 'x' {
        return Err(DebugError::BadHex);
    }
    let r = parse_radix16(val, 2, n);
    assert(val@.subrange(2, n as int) =~= val@.skip(2));
    match r {
        Some(v) => Ok(v),
        None => Err(DebugError::BadHex),
    }
}

/// The lines, counted from 0, that a listing of `context` lines around line
/// `line` shows: from `line - context` (at least 1) to `line + context + 1`,
/// widened at the top of the file to keep the listing the same length.
pub open spec fn window(line: u64, context: u64) -> (int, int) {
    let start = if line <= context { 1 } else { line - context };
    let end = line + context + (if line < context { context - line } else { 0 }) + 1;
    (start, end)
}

/// The first and last line of the listing around `line`.
pub fn source_window(line: u64, context: u64) -> (r: (u64, u64))
    requires
        line + 2 * context + 1 <= u64::MAX,
    ensures
        r.0 as int == window(line, context).0,
        r.1 as int == window(line, context).1,
{
    let start = if line <= context { 1 } else { line - context };
    let widen = if line < context { context - line } else { 0 };
    (start, line + context + widen + 1)
}

} // verus!
