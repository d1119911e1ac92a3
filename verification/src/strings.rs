//! Small text utilities: radix parsing of numeric literals and
//! equality tests over byte strings and character strings.
//!
//! The parsers follow the reading of `from_str_radix` on an unsigned target
//! type: an optional `+` or `-` sign, then one or more digits; a signed
//! negative string is accepted only when every digit is zero; a value past
//! the target's maximum is refused.

use vstd::prelude::*;
use vstd::string::StrSliceExecFns;

verus! {

/// Value of one ASCII digit under the given radix: `0`-`9`, then `a`-`z`
/// and `A`-`Z` for ten and up, refused at the radix.
pub open spec fn spec_digit_val(b: u8, radix: u8) -> Option<u8> {
    let v: u8 = if 0x30 <= b && b <= 0x39 {
        (b - 0x30) as u8
    } else if 0x61 <= b && b <= 0x7a {
        ((b - 0x61) + 10) as u8
    } else if 0x41 <= b && b <= 0x5a {
        ((b - 0x41) + 10) as u8
    } else {
        255u8
    };
    if v < radix {
        Some(v)
    } else {
        None
    }
}

/// Digit value again, defaulting to zero so that whole-string values are
/// total; the default is only reachable where `spec_all_digits` fails.
pub open spec fn spec_digit_or_zero(b: u8, radix: u8) -> u8 {
    match spec_digit_val(b, radix) {
        Some(v) => v,
        None => 0u8,
    }
}

/// Every byte of `s` is a digit under `radix`.
pub open spec fn spec_all_digits(s: Seq<u8>, radix: u8) -> bool {
    forall|i: int| 0 <= i < s.len() ==> spec_digit_val(s[i], radix) is Some
}

/// The unbounded numeric value of a digit string, most significant first.
pub open spec fn spec_digits_value(s: Seq<u8>, radix: u8) -> int
    decreases s.len(),
{
    if s.len() == 0 {
        0
    } else {
        spec_digits_value(s.drop_last(), radix) * radix + spec_digit_or_zero(s.last(), radix)
    }
}

/// Meaning of an optionally signed digit string bounded by `max`.
pub open spec fn spec_parse_uint(s: Seq<u8>, radix: u8, max: int) -> Option<int> {
    if s.len() == 0 {
        None
    } else {
        let digits = if s[0] == 0x2b || s[0] == 0x2d {
            s.drop_first()
        } else {
            s
        };
        if digits.len() == 0 {
            None
        } else if !spec_all_digits(digits, radix) {
            None
        } else {
            let v = spec_digits_value(digits, radix);
            if s[0] == 0x2d {
                if v == 0 {
                    Some(0)
                } else {
                    None
                }
            } else if v > max {
                None
            } else {
                Some(v)
            }
        }
    }
}

/// A 16-bit hexadecimal literal, as `.org` and `.equ` values use it.
pub open spec fn spec_str_to_u16(s: Seq<u8>) -> Option<u16> {
    match spec_parse_uint(s, 16, 0xffff) {
        Some(v) => Some(v as u16),
        None => None,
    }
}

/// An 8-bit hexadecimal literal, as `.byte` values use it.
pub open spec fn spec_str_to_u8(s: Seq<u8>) -> Option<u8> {
    match spec_parse_uint(s, 16, 0xff) {
        Some(v) => Some(v as u8),
        None => None,
    }
}

proof fn lemma_digits_value_nonneg(s: Seq<u8>, radix: u8)
    requires
        radix >= 2,
    ensures
        spec_digits_value(s, radix) >= 0,
    decreases s.len(),
{
    if s.len() > 0 {
        lemma_digits_value_nonneg(s.drop_last(), radix);
    }
}

/// Any parsed value lies between zero and the bound.
proof fn lemma_parse_uint_range(s: Seq<u8>, radix: u8, max: int)
    requires
        radix >= 2,
        max >= 0,
    ensures
        (match spec_parse_uint(s, radix, max) {
            Some(v) => 0 <= v <= max,
            None => true,
        }),
{
    if s.len() > 0 {
        let digits = if s[0] == 0x2b || s[0] == 0x2d {
            s.drop_first()
        } else {
            s
        };
        lemma_digits_value_nonneg(digits, radix);
    }
}

fn digit_val(b: u8, radix: u8) -> (r: Option<u8>)
    ensures
        r == spec_digit_val(b, radix),
{
    let v: u8 = if 0x30 <= b && b <= 0x39 {
        b - 0x30
    } else if 0x61 <= b && b <= 0x7a {
        (b - 0x61) + 10
    } else if 0x41 <= b && b <= 0x5a {
        (b - 0x41) + 10
    } else {
        255u8
    };
    if v < radix {
        Some(v)
    } else {
        None
    }
}

/// Parses an optionally signed digit string no greater than `max`.
fn parse_uint(s: &[u8], radix: u8, max: u16) -> (r: Option<u16>)
    requires
        radix == 10 || radix == 16,
    ensures
        (match spec_parse_uint(s@, radix, max as int) {
            Some(v) => r == Some(v as u16),
            None => r is None,
        }),
{
    let n = s.len();
    if n == 0 {
        return None;
    }
    let signed = s[0] == 0x2b || s[0] == 0x2d;
    let neg = s[0] == 0x2d;
    let start: usize = if signed {
        1
    } else {
        0
    };
    if n == start {
        return None;
    }
    let ghost digits: Seq<u8> = if signed {
        s@.drop_first()
    } else {
        s@
    };
    proof {
        assert(digits =~= s@.subrange(start as int, n as int));
    }
    let cap: u32 = max as u32 + 1;
    let mut acc: u32 = 0;
    let mut i: usize = start;
    while i < n
        invariant
            radix == 10 || radix == 16,
            start <= i <= n,
            n == s@.len(),
            start == 0 || start == 1,
            start < n,
            cap == max as u32 + 1,
            digits =~= s@.subrange(start as int, n as int),
            digits == (if s@[0] == 0x2b || s@[0] == 0x2d {
                s@.drop_first()
            } else {
                s@
            }),
            spec_all_digits(digits.take(i - start), radix),
            acc <= cap,
            (acc <= max as u32 && acc == spec_digits_value(digits.take(i - start), radix)) || (acc
                == cap && spec_digits_value(digits.take(i - start), radix) > max),
        decreases n - i,
    {
        let ghost pref = digits.take(i - start);
        let d = digit_val(s[i], radix);
        match d {
            None => {
                proof {
                    assert(spec_digit_val(digits[i - start], radix) is None);
                    assert(!spec_all_digits(digits, radix));
                }
                return None;
            },
            Some(dv) => {
                proof {
                    assert(digits.take(i + 1 - start).drop_last() =~= pref);
                    assert(digits.take(i + 1 - start).last() == digits[i - start]);
                    lemma_digits_value_nonneg(pref, radix);
                }
                let ghost newval = spec_digits_value(digits.take(i + 1 - start), radix);
                proof {
                    assert(newval == spec_digits_value(pref, radix) * radix + dv);
                }
                if acc <= max as u32 {
                    let tmp: u32 = acc * (radix as u32) + dv as u32;
                    proof {
                        assert(tmp == spec_digits_value(pref, radix) * radix + dv);
                    }
                    acc = if tmp > max as u32 {
                        cap
                    } else {
                        tmp
                    };
                } else {
                    proof {
                        let v = spec_digits_value(pref, radix);
                        assert(v > max);
                        assert(v * radix >= v * 2) by (nonlinear_arith)
                            requires
                                v > 0,
                                radix >= 2,
                        ;
                        assert(newval > max);
                    }
                }
            },
        }
        i += 1;
    }
    proof {
        assert(digits.take(n - start) =~= digits);
    }
    if neg {
        if acc == 0 {
            Some(0)
        } else {
            None
        }
    } else {
        if acc > max as u32 {
            None
        } else {
            Some(acc as u16)
        }
    }
}

/// Reads a 16-bit hexadecimal literal.
pub fn str_to_u16(s: &[u8]) -> (r: Option<u16>)
    ensures
        r == spec_str_to_u16(s@),
{
    parse_uint(s, 16, 0xffff)
}

/// Reads an 8-bit hexadecimal literal.
pub fn str_to_u8(s: &[u8]) -> (r: Option<u8>)
    ensures
        r == spec_str_to_u8(s@),
{
    proof {
        lemma_parse_uint_range(s@, 16, 0xff);
    }
    match parse_uint(s, 16, 0xff) {
        Some(v) => Some(v as u8),
        None => None,
    }
}

/// Value of one decimal digit character.
pub open spec fn spec_dec_digit(c: char) -> Option<u8> {
    if 0x30 <= c as u32 && c as u32 <= 0x39 {
        Some(((c as u32) - 0x30) as u8)
    } else {
        None
    }
}

/// Every character of `s` is a decimal digit.
pub open spec fn spec_dec_all(s: Seq<char>) -> bool {
    forall|i: int| 0 <= i < s.len() ==> spec_dec_digit(s[i]) is Some
}

/// The unbounded value of a decimal digit string, most significant first.
pub open spec fn spec_dec_value(s: Seq<char>) -> int
    decreases s.len(),
{
    if s.len() == 0 {
        0
    } else {
        spec_dec_value(s.drop_last()) * 10 + (match spec_dec_digit(s.last()) {
            Some(v) => v,
            None => 0u8,
        })
    }
}

/// Meaning of an optionally signed decimal string as a 16-bit value, read
/// as `from_str_radix` on an unsigned target reads it.
pub open spec fn spec_dec_u16(s: Seq<char>) -> Option<u16> {
    if s.len() == 0 {
        None
    } else {
        let digits = if s[0] == '+' || s[0] == '-' {
            s.drop_first()
        } else {
            s
        };
        if digits.len() == 0 {
            None
        } else if !spec_dec_all(digits) {
            None
        } else {
            let v = spec_dec_value(digits);
            if s[0] == '-' {
                if v == 0 {
                    Some(0)
                } else {
                    None
                }
            } else if v > 0xffff {
                None
            } else {
                Some(v as u16)
            }
        }
    }
}

proof fn lemma_dec_value_nonneg(s: Seq<char>)
    ensures
        spec_dec_value(s) >= 0,
    decreases s.len(),
{
    if s.len() > 0 {
        lemma_dec_value_nonneg(s.drop_last());
    }
}

/// Reads a 16-bit decimal literal, as the command line options use it.
pub fn dec_u16(s: &str) -> (r: Option<u16>)
    ensures
        r == spec_dec_u16(s@),
{
    let n = s.unicode_len();
    if n == 0 {
        return None;
    }
    let c0 = s.get_char(0);
    let signed = c0 == '+' || c0 == '-';
    let neg = c0 == '-';
    let start: usize = if signed {
        1
    } else {
        0
    };
    if n == start {
        return None;
    }
    let ghost digits: Seq<char> = if signed {
        s@.drop_first()
    } else {
        s@
    };
    proof {
        assert(digits =~= s@.subrange(start as int, n as int));
    }
    let mut acc: u32 = 0;
    let mut i: usize = start;
    while i < n
        invariant
            start <= i <= n,
            n == s@.len(),
            start == 0 || start == 1,
            start < n,
            digits =~= s@.subrange(start as int, n as int),
            digits == (if s@[0] == '+' || s@[0] == '-' {
                s@.drop_first()
            } else {
                s@
            }),
            spec_dec_all(digits.take(i - start)),
            acc <= 0x10000,
            (acc <= 0xffff && acc == spec_dec_value(digits.take(i - start))) || (acc == 0x10000
                && spec_dec_value(digits.take(i - start)) > 0xffff),
        decreases n - i,
    {
        let ghost pref = digits.take(i - start);
        let c = s.get_char(i);
        let u = c as u32;
        if !(0x30 <= u && u <= 0x39) {
            proof {
                assert(spec_dec_digit(digits[i - start]) is None);
            }
            return None;
        }
        let dv: u32 = u - 0x30;
        proof {
            assert(digits.take(i + 1 - start).drop_last() =~= pref);
            assert(digits.take(i + 1 - start).last() == digits[i - start]);
            lemma_dec_value_nonneg(pref);
        }
        let ghost newval = spec_dec_value(digits.take(i + 1 - start));
        proof {
            assert(newval == spec_dec_value(pref) * 10 + dv);
        }
        if acc <= 0xffff {
            let tmp: u32 = acc * 10 + dv;
            acc = if tmp > 0xffff {
                0x10000
            } else {
                tmp
            };
        } else {
            proof {
                let v = spec_dec_value(pref);
                assert(v * 10 >= v * 2) by (nonlinear_arith)
                    requires
                        v > 0,
                ;
                assert(newval > 0xffff);
            }
        }
        i += 1;
    }
    proof {
        assert(digits.take(n - start) =~= digits);
    }
    if neg {
        if acc == 0 {
            Some(0)
        } else {
            None
        }
    } else {
        if acc > 0xffff {
            None
        } else {
            Some(acc as u16)
        }
    }
}

/// Character-string equality, pinned to the views.
pub fn str_eq(a: &str, b: &str) -> (r: bool)
    ensures
        r == (a@ == b@),
{
    let na = a.unicode_len();
    let nb = b.unicode_len();
    if na != nb {
        return false;
    }
    let mut i: usize = 0;
    while i < na
        invariant
            na == a@.len(),
            na == b@.len(),
            0 <= i <= na,
            forall|k: int| 0 <= k < i ==> a@[k] == b@[k],
        decreases na - i,
    {
        if a.get_char(i) != b.get_char(i) {
            return false;
        }
        i += 1;
    }
    proof {
        assert(a@ =~= b@);
    }
    true
}

/// The prefix of `s` before the first `stop` byte, all of `s` if it has none.
pub open spec fn spec_before(s: Seq<u8>, stop: u8) -> Seq<u8>
    decreases s.len(),
{
    if s.len() == 0 {
        s
    } else if s[0] == stop {
        Seq::empty()
    } else {
        seq![s[0]] + spec_before(s.drop_first(), stop)
    }
}

/// Identifies `spec_before` with a take at the first occurrence.
pub proof fn lemma_before_idx(s: Seq<u8>, stop: u8, p: int)
    requires
        0 <= p <= s.len(),
        forall|k: int| 0 <= k < p ==> s[k] != stop,
        p < s.len() ==> s[p] == stop,
    ensures
        spec_before(s, stop) == s.take(p),
    decreases p,
{
    if p == 0 {
        if s.len() == 0 {
            assert(s.take(0) =~= s);
        } else {
            assert(s.take(0) =~= Seq::<u8>::empty());
        }
    } else {
        lemma_before_idx(s.drop_first(), stop, p - 1);
        assert(seq![s[0]] + s.drop_first().take(p - 1) =~= s.take(p));
    }
}

/// The parts of `s` split on `sep`, keeping every empty part; splitting the
/// empty text yields one empty part.
pub open spec fn spec_split(s: Seq<u8>, sep: u8) -> Seq<Seq<u8>>
    decreases s.len(),
{
    if s.len() == 0 {
        seq![Seq::<u8>::empty()]
    } else if s[0] == sep {
        seq![Seq::<u8>::empty()] + spec_split(s.drop_first(), sep)
    } else {
        let rest = spec_split(s.drop_first(), sep);
        seq![seq![s[0]] + rest.first()] + rest.drop_first()
    }
}

pub proof fn lemma_split_len(s: Seq<u8>, sep: u8)
    ensures
        spec_split(s, sep).len() >= 1,
    decreases s.len(),
{
    if s.len() > 0 {
        lemma_split_len(s.drop_first(), sep);
    }
}

/// Splitting at the first separator: everything before it is the first part,
/// the split of everything after it is the rest.
pub proof fn lemma_split_at_first(s: Seq<u8>, sep: u8, k: int)
    requires
        0 <= k <= s.len(),
        forall|j: int| 0 <= j < k ==> s[j] != sep,
        k < s.len() ==> s[k] == sep,
    ensures
        k == s.len() ==> spec_split(s, sep) == seq![s],
        k < s.len() ==> spec_split(s, sep) == seq![s.take(k)] + spec_split(s.skip(k + 1), sep),
    decreases k,
{
    if k == 0 {
        if s.len() == 0 {
            assert(s =~= Seq::<u8>::empty());
        } else {
            assert(s[0] == sep);
            assert(s.take(0) =~= Seq::<u8>::empty());
            assert(s.skip(1) =~= s.drop_first());
        }
    } else {
        assert(s[0] != sep);
        let rest = spec_split(s.drop_first(), sep);
        lemma_split_len(s.drop_first(), sep);
        lemma_split_at_first(s.drop_first(), sep, k - 1);
        if k == s.len() {
            assert(rest == seq![s.drop_first()]);
            assert(seq![s[0]] + s.drop_first() =~= s);
            assert(spec_split(s, sep) =~= seq![s]);
        } else {
            assert(rest == seq![s.drop_first().take(k - 1)] + spec_split(
                s.drop_first().skip(k),
                sep,
            ));
            assert(rest.first() == s.drop_first().take(k - 1));
            assert(rest.drop_first() =~= spec_split(s.drop_first().skip(k), sep));
            assert(seq![s[0]] + s.drop_first().take(k - 1) =~= s.take(k));
            assert(s.drop_first().skip(k) =~= s.skip(k + 1));
            assert(spec_split(s, sep) =~= seq![s.take(k)] + spec_split(s.skip(k + 1), sep));
        }
    }
}

/// Copies `s[lo..hi]` into a fresh vector.
pub fn sub_vec(s: &[u8], lo: usize, hi: usize) -> (r: Vec<u8>)
    requires
        lo <= hi <= s@.len(),
    ensures
        r@ == s@.subrange(lo as int, hi as int),
{
    let mut r: Vec<u8> = Vec::new();
    let mut k: usize = lo;
    while k < hi
        invariant
            lo <= k <= hi <= s@.len(),
            r@ == s@.subrange(lo as int, k as int),
        decreases hi - k,
    {
        r.push(s[k]);
        proof {
            assert(s@.subrange(lo as int, k as int).push(s@[k as int]) =~= s@.subrange(
                lo as int,
                k + 1,
            ));
        }
        k += 1;
    }
    r
}

/// First position of `b` in `s[lo..hi]`, or `hi` when it has none.
pub fn find_byte(s: &[u8], lo: usize, hi: usize, b: u8) -> (r: usize)
    requires
        lo <= hi <= s@.len(),
    ensures
        lo <= r <= hi,
        forall|k: int| lo <= k < r ==> s@[k] != b,
        r < hi ==> s@[r as int] == b,
{
    let mut p = lo;
    while p < hi && s[p] != b
        invariant
            lo <= p <= hi <= s@.len(),
            forall|k: int| lo <= k < p ==> s@[k] != b,
        decreases hi - p,
    {
        p += 1;
    }
    p
}

/// Splits `s` on a separator byte, keeping every empty part.
pub fn split_bytes(s: &[u8], sep: u8) -> (r: Vec<Vec<u8>>)
    ensures
        r@.map_values(|v: Vec<u8>| v@) == spec_split(s@, sep),
{
    let n = s.len();
    let ghost src = s@;
    let mut parts: Vec<Vec<u8>> = Vec::new();
    let mut start: usize = 0;
    let mut i: usize = 0;
    proof {
        assert(src.skip(0) =~= src);
        assert(parts@.map_values(|v: Vec<u8>| v@) =~= Seq::<Seq<u8>>::empty());
    }
    while i < n
        invariant
            0 <= start <= i <= n,
            n == src.len(),
            src == s@,
            forall|k: int| start <= k < i ==> src[k] != sep,
            spec_split(src, sep) == parts@.map_values(|v: Vec<u8>| v@) + spec_split(
                src.skip(start as int),
                sep,
            ),
        decreases n - i,
    {
        if s[i] == sep {
            let part = sub_vec(s, start, i);
            proof {
                let tail = src.skip(start as int);
                lemma_split_at_first(tail, sep, i - start);
                assert(tail.take(i - start) =~= src.subrange(start as int, i as int));
                assert(tail.skip(i - start + 1) =~= src.skip(i + 1));
                assert(parts@.push(part).map_values(|v: Vec<u8>| v@) =~= parts@.map_values(
                    |v: Vec<u8>| v@,
                ) + seq![part@]);
                assert((parts@.map_values(|v: Vec<u8>| v@) + seq![part@]) + spec_split(
                    src.skip(i + 1),
                    sep,
                ) =~= parts@.map_values(|v: Vec<u8>| v@) + (seq![part@] + spec_split(
                    src.skip(i + 1),
                    sep,
                )));
            }
            parts.push(part);
            start = i + 1;
        }
        i += 1;
    }
    let last = sub_vec(s, start, n);
    proof {
        let tail = src.skip(start as int);
        lemma_split_at_first(tail, sep, n - start);
        assert(tail =~= src.subrange(start as int, n as int));
        assert(parts@.push(last).map_values(|v: Vec<u8>| v@) =~= parts@.map_values(
            |v: Vec<u8>| v@,
        ) + seq![last@]);
        assert(parts@.map_values(|v: Vec<u8>| v@) + seq![last@] =~= parts@.map_values(
            |v: Vec<u8>| v@,
        ) + spec_split(src.skip(start as int), sep));
    }
    parts.push(last);
    parts
}

/// The text with every leading `b` byte removed.
pub open spec fn spec_strip_leading(s: Seq<u8>, b: u8) -> Seq<u8>
    decreases s.len(),
{
    if s.len() > 0 && s[0] == b {
        spec_strip_leading(s.drop_first(), b)
    } else {
        s
    }
}

/// The text with every trailing `b` byte removed.
pub open spec fn spec_strip_trailing(s: Seq<u8>, b: u8) -> Seq<u8>
    decreases s.len(),
{
    if s.len() > 0 && s.last() == b {
        spec_strip_trailing(s.drop_last(), b)
    } else {
        s
    }
}

pub proof fn lemma_strip_leading_idx(s: Seq<u8>, b: u8, a: int)
    requires
        0 <= a <= s.len(),
        forall|k: int| 0 <= k < a ==> s[k] == b,
        a < s.len() ==> s[a] != b,
    ensures
        spec_strip_leading(s, b) == s.skip(a),
    decreases a,
{
    if a == 0 {
        assert(s.skip(0) =~= s);
    } else {
        lemma_strip_leading_idx(s.drop_first(), b, a - 1);
        assert(s.drop_first().skip(a - 1) =~= s.skip(a));
    }
}

pub proof fn lemma_strip_trailing_idx(s: Seq<u8>, b: u8, t: int)
    requires
        0 <= t <= s.len(),
        forall|k: int| t <= k < s.len() ==> s[k] == b,
        t > 0 ==> s[t - 1] != b,
    ensures
        spec_strip_trailing(s, b) == s.take(t),
    decreases s.len(),
{
    if s.len() == t {
        assert(s.take(t) =~= s);
    } else {
        lemma_strip_trailing_idx(s.drop_last(), b, t);
        assert(s.drop_last().take(t) =~= s.take(t));
    }
}

/// First position in `s[lo..hi]` whose byte is not `b`, or `hi`.
pub fn skip_leading(s: &[u8], lo: usize, hi: usize, b: u8) -> (r: usize)
    requires
        lo <= hi <= s@.len(),
    ensures
        lo <= r <= hi,
        forall|k: int| lo <= k < r ==> s@[k] == b,
        r < hi ==> s@[r as int] != b,
{
    let mut p = lo;
    while p < hi && s[p] == b
        invariant
            lo <= p <= hi <= s@.len(),
            forall|k: int| lo <= k < p ==> s@[k] == b,
        decreases hi - p,
    {
        p += 1;
    }
    p
}

/// Bound after the last byte of `s[lo..hi]` that is not `b`, or `lo`.
pub fn skip_trailing(s: &[u8], lo: usize, hi: usize, b: u8) -> (r: usize)
    requires
        lo <= hi <= s@.len(),
    ensures
        lo <= r <= hi,
        forall|k: int| r <= k < hi ==> s@[k] == b,
        r > lo ==> s@[r - 1] != b,
{
    let mut p = hi;
    while p > lo && s[p - 1] == b
        invariant
            lo <= p <= hi <= s@.len(),
            forall|k: int| p <= k < hi ==> s@[k] == b,
        decreases p,
    {
        p -= 1;
    }
    p
}

/// ASCII lowercase of one byte.
pub open spec fn spec_lower(b: u8) -> u8 {
    if 0x41 <= b && b <= 0x5a {
        (b + 0x20) as u8
    } else {
        b
    }
}

/// ASCII lowercase of a whole text.
pub open spec fn spec_to_lower(s: Seq<u8>) -> Seq<u8> {
    s.map_values(|b: u8| spec_lower(b))
}

/// Lowercases ASCII letters, leaving every other byte alone.
pub fn to_lower(s: &[u8]) -> (r: Vec<u8>)
    ensures
        r@ == spec_to_lower(s@),
{
    let n = s.len();
    let mut r: Vec<u8> = Vec::new();
    let mut i: usize = 0;
    while i < n
        invariant
            0 <= i <= n,
            n == s@.len(),
            r@ == spec_to_lower(s@.take(i as int)),
        decreases n - i,
    {
        let b = s[i];
        let low: u8 = if 0x41 <= b && b <= 0x5a {
            b + 0x20
        } else {
            b
        };
        r.push(low);
        proof {
            assert(spec_to_lower(s@.take(i as int)).push(spec_lower(s@[i as int]))
                =~= spec_to_lower(s@.take(i + 1)));
        }
        i += 1;
    }
    proof {
        assert(s@.take(n as int) =~= s@);
    }
    r
}

/// Byte-string equality, pinned to the views.
pub fn bytes_eq(a: &[u8], b: &[u8]) -> (r: bool)
    ensures
        r == (a@ == b@),
{
    if a.len() != b.len() {
        return false;
    }
    let n = a.len();
    let mut i: usize = 0;
    while i < n
        invariant
            n == a@.len(),
            n == b@.len(),
            0 <= i <= n,
            forall|k: int| 0 <= k < i ==> a@[k] == b@[k],
        decreases n - i,
    {
        if a[i] != b[i] {
            return false;
        }
        i += 1;
    }
    proof {
        assert(a@ =~= b@);
    }
    true
}

} // verus!
