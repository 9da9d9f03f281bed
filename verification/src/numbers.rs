//! Decimal integer parsing with the exact acceptance rules of the standard
//! library's `from_str` (an optional sign, then one or more ASCII digits,
//! rejected on any other character or on overflow), together with the small
//! arithmetic helpers the activity window needs.

use vstd::prelude::*;

verus! {

/// Whether `c` is an ASCII decimal digit.
pub open spec fn is_digit(c: char) -> bool {
    '0' <= c && c <= '9'
}

/// The numeric value of a digit character.
pub open spec fn digit_val(c: char) -> int {
    c as int - '0' as int
}

/// Whether every character of `s` is an ASCII decimal digit.
pub open spec fn all_digits(s: Seq<char>) -> bool {
    forall|i: int| 0 <= i < s.len() ==> is_digit(#[trigger] s[i])
}

/// The value of a sequence of decimal digits, most significant first.
pub open spec fn digits_val(s: Seq<char>) -> int
    decreases s.len(),
{
    if s.len() == 0 {
        0
    } else {
        digits_val(s.drop_last()) * 10 + digit_val(s.last())
    }
}

/// A digit sequence is worth at least as much as any of its prefixes.
proof fn lemma_digits_val_prefix(s: Seq<char>, n: int)
    requires
        all_digits(s),
        0 <= n <= s.len(),
    ensures
        digits_val(s.take(n)) <= digits_val(s),
        digits_val(s) >= 0,
    decreases s.len(),
{
    if s.len() == 0 {
    } else {
        lemma_digits_val_prefix(s.drop_last(), if n < s.len() { n } else { n - 1 });
        if n < s.len() {
            assert(s.drop_last().take(n) =~= s.take(n));
            assert(digits_val(s.take(n)) <= digits_val(s.drop_last()));
        } else {
            assert(s.take(n) =~= s);
        }
    }
}

/// What the digit run after the optional sign is worth, when `s` from
/// position `from` on is one or more digits and nothing else: the common core
/// of the `from_str` acceptance rules.
pub open spec fn digits_from(s: Seq<char>, from: int) -> Option<int> {
    if from < s.len() && all_digits(s.skip(from)) {
        Some(digits_val(s.skip(from)))
    } else {
        None
    }
}

/// Parses `s[from..]` as one or more decimal digits, accepting only values up
/// to `limit`; `None` on an empty run, a non-digit, or a value over `limit`.
fn parse_digits(s: &str, from: usize, limit: u64) -> (r: Option<u64>)
    requires
        from <= s@.len(),
    ensures
        match r {
            Some(v) => digits_from(s@, from as int) == Some(v as int) && v <= limit,
            None => match digits_from(s@, from as int) {
                Some(v) => v > limit,
                None => true,
            },
        },
{
    let len = s.unicode_len();
    if from >= len {
        return None;
    }
    let mut acc: u64 = 0;
    let mut i: usize = from;
    while i < len
        invariant
            from <= i <= len,
            len == s@.len(),
            all_digits(s@.subrange(from as int, i as int)),
            acc as int == digits_val(s@.subrange(from as int, i as int)),
            acc <= limit,
        decreases len - i,
    {
        let c = s.get_char(i);
        if c < '0' || c > '9' {
            proof {
                assert(!is_digit(s@[i as int]));
                assert(s@.skip(from as int)[i - from] == s@[i as int]);
                assert(!all_digits(s@.skip(from as int)));
            }
            return None;
        }
        let d: u64 = (c as u32 - '0' as u32) as u64;
        proof {
            assert(s@.subrange(from as int, i + 1).drop_last() =~= s@.subrange(
                from as int,
                i as int,
            ));
        }
        if d > limit || acc > (limit - d) / 10 {
            proof {
                let full = s@.skip(from as int);
                let pre = s@.subrange(from as int, i + 1);
                assert(digits_val(pre) == acc * 10 + d);
                if d <= limit {
                    assert((limit - d) / 10 * 10 + (limit - d) % 10 == limit - d);
                    assert(acc * 10 >= ((limit - d) / 10 + 1) * 10);
                }
                assert(digits_val(pre) > limit);
                if all_digits(full) {
                    assert(full.take(i + 1 - from) =~= pre);
                    lemma_digits_val_prefix(full, i + 1 - from);
                }
            }
            return None;
        }
        acc = acc * 10 + d;
        i = i + 1;
    }
    proof {
        assert(s@.subrange(from as int, len as int) =~= s@.skip(from as int));
    }
    Some(acc)
}

/// What `i64::from_str` returns for `s`: the signed value of an optional
/// `+` or `-` followed by one or more decimal digits, `None` on any other
/// shape and on values outside the `i64` range.
pub open spec fn parse_i64_spec(s: Seq<char>) -> Option<int> {
    let signed = s.len() > 0 && (s[0] == '+' || s[0] == '-');
    let from: int = if signed { 1 } else { 0 };
    let negative = s.len() > 0 && s[0] == '-';
    match digits_from(s, from) {
        Some(v) => {
            let val = if negative {
                -v
            } else {
                v
            };
            if i64::MIN <= val <= i64::MAX {
                Some(val)
            } else {
                None
            }
        },
        None => None,
    }
}

/// Parses a signed decimal integer exactly as `i64::from_str` does.
pub fn parse_i64(s: &str) -> (r: Option<i64>)
    ensures
        match r {
            Some(v) => parse_i64_spec(s@) == Some(v as int),
            None => parse_i64_spec(s@) is None,
        },
{
    let len = s.unicode_len();
    if len == 0 {
        return None;
    }
    let first = s.get_char(0);
    let negative = first == '-';
    let from: usize = if first == '-' || first == '+' {
        1
    } else {
        0
    };
    let limit: u64 = if negative {
        9223372036854775808
    } else {
        9223372036854775807
    };
    match parse_digits(s, from, limit) {
        Some(mag) => {
            if negative {
                if mag == 9223372036854775808 {
                    Some(i64::MIN)
                } else {
                    Some(-(mag as i64))
                }
            } else {
                Some(mag as i64)
            }
        },
        None => None,
    }
}

/// What `u32::from_str` returns for `s`: the value of an optional `+`
/// followed by one or more decimal digits, `None` on any other shape and on
/// values over `u32::MAX`.
pub open spec fn parse_u32_spec(s: Seq<char>) -> Option<int> {
    let from: int = if s.len() > 0 && s[0] == '+' {
        1
    } else {
        0
    };
    match digits_from(s, from) {
        Some(v) => if v <= u32::MAX {
            Some(v)
        } else {
            None
        },
        None => None,
    }
}

/// Parses an unsigned decimal integer exactly as `u32::from_str` does.
pub fn parse_u32(s: &str) -> (r: Option<u32>)
    ensures
        match r {
            Some(v) => parse_u32_spec(s@) == Some(v as int),
            None => parse_u32_spec(s@) is None,
        },
{
    let len = s.unicode_len();
    let from: usize = if len > 0 && s.get_char(0) == '+' {
        1
    } else {
        0
    };
    match parse_digits(s, from, 4294967295) {
        Some(v) => Some(v as u32),
        None => None,
    }
}

/// Division by 1000 with truncation toward zero, as `/` behaves on `i64`.
pub open spec fn div1000_trunc(x: int) -> int {
    if x >= 0 {
        x / 1000
    } else {
        -((-x) / 1000)
    }
}

/// Addition on `i64` values, clamped to the representable range.
pub open spec fn saturating_add_i64(a: int, b: int) -> int {
    if a + b > i64::MAX {
        i64::MAX as int
    } else if a + b < i64::MIN {
        i64::MIN as int
    } else {
        a + b
    }
}

/// The track length in microseconds, converted to a millisecond offset by
/// integer division truncating toward zero.
pub fn length_to_offset(length_ms: i64) -> (r: i64)
    ensures
        r as int == div1000_trunc(length_ms as int),
{
    if length_ms >= 0 {
        let q = (length_ms as u64) / 1000;
        q as i64
    } else {
        let mag: u64 = ((-(length_ms + 1)) as u64) + 1;
        let q = mag / 1000;
        proof {
            assert(mag == -(length_ms as int));
            assert(q <= mag / 1000);
        }
        -(q as i64)
    }
}

/// The saturating sum of two `i64` values.
pub fn sat_add(a: i64, b: i64) -> (r: i64)
    ensures
        r as int == saturating_add_i64(a as int, b as int),
{
    match a.checked_add(b) {
        Some(v) => v,
        None => if b >= 0 {
            i64::MAX
        } else {
            i64::MIN
        },
    }
}

} // verus!
