//! Decimal integers in text: the parsing that `str::parse` does for `i64`
//! and `i32`, and the formatting that `to_string` does.

use vstd::prelude::*;
use vstd::string::StrSliceExecFns;
use vstd::string::StringExecFns;

use crate::text::chars_of;

verus! {

/// `c` is an ASCII decimal digit.
pub open spec fn is_digit(c: char) -> bool {
    0x30 <= (c as u32) <= 0x39
}

/// The value of the ASCII digit `c`.
pub open spec fn digit_value(c: char) -> int {
    (c as u32) - 0x30
}

/// Every character of `d` is an ASCII decimal digit.
pub open spec fn all_digits(d: Seq<char>) -> bool {
    forall|i: int| 0 <= i < d.len() ==> is_digit(#[trigger] d[i])
}

/// The number that the digits `d` spell in base 10.
pub open spec fn digits_value(d: Seq<char>) -> int
    decreases d.len(),
{
    if d.len() == 0 {
        0
    } else {
        digits_value(d.drop_last()) * 10 + digit_value(d.last())
    }
}

/// The integer that `s` spells: an optional `+` or `-`, then at least one
/// ASCII digit, and nothing else (no white space).
pub open spec fn decimal_value(s: Seq<char>) -> Option<int> {
    if s.len() > 0 && (s[0] == '+' || s[0] == '-') {
        let d = s.drop_first();
        if d.len() > 0 && all_digits(d) {
            Some(
                if s[0] == '-' {
                    -digits_value(d)
                } else {
                    digits_value(d)
                },
            )
        } else {
            None
        }
    } else if s.len() > 0 && all_digits(s) {
        Some(digits_value(s))
    } else {
        None
    }
}

/// What `s.parse::<i64>().ok()` gives.
pub open spec fn parsed_i64(s: Seq<char>) -> Option<i64> {
    match decimal_value(s) {
        Some(x) => if i64::MIN <= x <= i64::MAX {
            Some(x as i64)
        } else {
            None
        },
        None => None,
    }
}

/// What `s.parse::<i32>().ok()` gives.
pub open spec fn parsed_i32(s: Seq<char>) -> Option<i32> {
    match decimal_value(s) {
        Some(x) => if i32::MIN <= x <= i32::MAX {
            Some(x as i32)
        } else {
            None
        },
        None => None,
    }
}

/// The ASCII digit for `d` (0 to 9).
pub open spec fn digit_char(d: int) -> char {
    (d + 0x30) as char
}

/// The base-10 digits of `n`, without leading zeros.
pub open spec fn digits_text(n: nat) -> Seq<char>
    decreases n,
{
    if n < 10 {
        seq![digit_char(n as int)]
    } else {
        digits_text(n / 10) + seq![digit_char((n % 10) as int)]
    }
}

/// `n` in base 10, with a `-` in front of a negative number (`to_string`).
pub open spec fn decimal_text(n: int) -> Seq<char> {
    if n < 0 {
        seq!['-'] + digits_text((-n) as nat)
    } else {
        digits_text(n as nat)
    }
}

/// Digits spell no less than any of their prefixes.
proof fn lemma_digits_value_grows(d: Seq<char>, k: int)
    requires
        0 <= k <= d.len(),
        all_digits(d),
    ensures
        digits_value(d.take(k)) <= digits_value(d),
        0 <= digits_value(d.take(k)),
    decreases d.len() - k,
{
    if k < d.len() {
        assert(d.take(k + 1).drop_last() =~= d.take(k));
        assert(d.take(k + 1).last() == d[k]);
        lemma_digits_value_grows(d, k + 1);
    } else {
        assert(d.take(k) =~= d);
        lemma_digits_value_nonneg(d);
    }
}

/// Digits spell a number that is not negative.
proof fn lemma_digits_value_nonneg(d: Seq<char>)
    requires
        all_digits(d),
    ensures
        0 <= digits_value(d),
    decreases d.len(),
{
    if d.len() > 0 {
        assert(all_digits(d.drop_last()));
        lemma_digits_value_nonneg(d.drop_last());
    }
}

/// The magnitude spelled by the digits of `v[start..]`, or `None` where a
/// character is not a digit or the magnitude exceeds `u64::MAX`.
fn digits_magnitude(v: &Vec<char>, start: usize) -> (r: Option<u64>)
    requires
        start <= v@.len(),
    ensures
        match r {
            Some(m) => all_digits(v@.skip(start as int)) && m == digits_value(
                v@.skip(start as int),
            ),
            None => !all_digits(v@.skip(start as int)) || digits_value(v@.skip(start as int))
                > u64::MAX,
        },
{
    let n = v.len();
    let mut m: u64 = 0;
    let mut i: usize = start;
    let ghost d = v@.skip(start as int);
    assert(v@.subrange(start as int, start as int) =~= Seq::<char>::empty());
    while i < n
        invariant
            n == v@.len(),
            start <= i <= n,
            d == v@.skip(start as int),
            all_digits(v@.subrange(start as int, i as int)),
            m == digits_value(v@.subrange(start as int, i as int)),
        decreases n - i,
    {
        let ghost prefix = v@.subrange(start as int, i + 1);
        assert(prefix.drop_last() =~= v@.subrange(start as int, i as int));
        assert(prefix =~= d.take(i + 1 - start));
        let c = v[i];
        let u = c as u32;
        if u < 0x30 || u > 0x39 {
            assert(!is_digit(d[i - start]));
            return None;
        }
        assert(all_digits(prefix));
        let digit = (u - 0x30) as u64;
        match m.checked_mul(10) {
            Some(t) => match t.checked_add(digit) {
                Some(next) => {
                    m = next;
                },
                None => {
                    proof {
                        if all_digits(d) {
                            lemma_digits_value_grows(d, i + 1 - start);
                        }
                    }
                    return None;
                },
            },
            None => {
                proof {
                    if all_digits(d) {
                        lemma_digits_value_grows(d, i + 1 - start);
                        lemma_digits_value_nonneg(v@.subrange(start as int, i as int));
                    }
                }
                return None;
            },
        }
        i = i + 1;
    }
    assert(v@.subrange(start as int, n as int) =~= d);
    Some(m)
}

/// `s` parsed as a decimal `i64` (`str::parse::<i64>().ok()`).
pub fn parse_i64(s: &str) -> (r: Option<i64>)
    ensures
        r == parsed_i64(s@),
{
    let v = chars_of(s);
    let n = v.len();
    if n == 0 {
        return None;
    }
    let signed = v[0] == '+' || v[0] == '-';
    let negative = v[0] == '-';
    let start: usize = if signed {
        1
    } else {
        0
    };
    if start == n {
        return None;
    }
    assert(v@.skip(1) =~= v@.drop_first());
    assert(v@.skip(0) =~= v@);
    match digits_magnitude(&v, start) {
        Some(m) => {
            if negative {
                if m <= 0x8000_0000_0000_0000u64 {
                    if m == 0x8000_0000_0000_0000u64 {
                        Some(i64::MIN)
                    } else {
                        Some(-(m as i64))
                    }
                } else {
                    None
                }
            } else if m <= 0x7fff_ffff_ffff_ffffu64 {
                Some(m as i64)
            } else {
                None
            }
        },
        None => None,
    }
}

/// `s` parsed as a decimal `i32` (`str::parse::<i32>().ok()`).
pub fn parse_i32(s: &str) -> (r: Option<i32>)
    ensures
        r == parsed_i32(s@),
{
    match parse_i64(s) {
        Some(x) => if -2147483648i64 <= x && x <= 2147483647i64 {
            Some(x as i32)
        } else {
            None
        },
        None => None,
    }
}

/// The ASCII digit for `d`, as a one-character string.
fn digit_str(d: u64) -> (r: &'static str)
    requires
        d < 10,
    ensures
        r@ == seq![digit_char(d as int)],
{
    proof {
        reveal_strlit("0123456789");
    }
    let r = "0123456789".substring_char(d as usize, (d + 1) as usize);
    assert(r@ =~= seq![digit_char(d as int)]);
    r
}

/// Appends the base-10 digits of `n` to `out`.
fn push_digits(out: &mut String, n: u64)
    ensures
        final(out)@ == old(out)@ + digits_text(n as nat),
    decreases n,
{
    if n >= 10 {
        push_digits(out, n / 10);
    }
    out.append(digit_str(n % 10));
    assert(final(out)@ =~= old(out)@ + digits_text(n as nat));
}

/// `n` in base 10 (`u64::to_string`).
pub fn format_u64(n: u64) -> (r: String)
    ensures
        r@ == decimal_text(n as int),
{
    let mut out = String::new();
    push_digits(&mut out, n);
    assert(out@ =~= decimal_text(n as int));
    out
}

/// `n` in base 10 (`i64::to_string`).
pub fn format_i64(n: i64) -> (r: String)
    ensures
        r@ == decimal_text(n as int),
{
    let mut out = String::new();
    if n < 0 {
        out.append("-");
        proof {
            reveal_strlit("-");
        }
        let magnitude: u64 = if n == i64::MIN {
            0x8000_0000_0000_0000u64
        } else {
            (-n) as u64
        };
        push_digits(&mut out, magnitude);
    } else {
        push_digits(&mut out, n as u64);
    }
    assert(out@ =~= decimal_text(n as int));
    out
}

/// The digits of a number are digits, and spell the number.
proof fn lemma_digits_text_value(n: nat)
    ensures
        all_digits(digits_text(n)),
        digits_value(digits_text(n)) == n,
        digits_text(n).len() > 0,
    decreases n,
{
    let d = (n % 10) as int;
    assert(digit_value(digit_char(d)) == d);
    if n >= 10 {
        lemma_digits_text_value(n / 10);
        vstd::arithmetic::div_mod::lemma_fundamental_div_mod(n as int, 10);
        let t = digits_text(n);
        assert(t.drop_last() =~= digits_text(n / 10));
        assert(t.last() == digit_char(d));
        assert(digits_value(t) == digits_value(t.drop_last()) * 10 + digit_value(t.last()));
        assert forall|i: int| 0 <= i < t.len() implies is_digit(#[trigger] t[i]) by {
            if i < t.len() - 1 {
                assert(t[i] == digits_text(n / 10)[i]);
            }
        }
    } else {
        let t = digits_text(n);
        assert(t.drop_last() =~= Seq::<char>::empty());
        assert(t.last() == digit_char(n as int));
        assert(digit_value(digit_char(n as int)) == n);
        assert(digits_value(t) == digits_value(t.drop_last()) * 10 + digit_value(t.last()));
    }
}

/// Formatting an `i64` in base 10 and parsing the text back gives the
/// number again.
pub proof fn law_decimal_round_trip(n: i64)
    ensures
        parsed_i64(decimal_text(n as int)) == Some(n),
{
    let m: nat = if n < 0 {
        (-n) as nat
    } else {
        n as nat
    };
    lemma_digits_text_value(m);
    let d = digits_text(m);
    assert(is_digit(d[0]));
    if n < 0 {
        let s = decimal_text(n as int);
        assert(s.drop_first() =~= d);
        assert(s[0] == '-');
    } else {
        assert(d[0] != '+' && d[0] != '-');
    }
}

} // verus!
