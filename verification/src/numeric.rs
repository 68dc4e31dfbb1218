//! Decimal and hexadecimal text of integers: `str::parse::<i64>`, `i64::to_string`
//! and `format!("{:x}", ..)` written out and proved against their documented meaning.
use vstd::prelude::*;
use vstd::string::*;
use crate::text::{chars_of, string_from_chars};

verus! {

/// An ASCII decimal digit.
pub open spec fn is_digit(c: char) -> bool {
    '0' <= c && c <= '9'
}

/// Every character is an ASCII decimal digit.
pub open spec fn all_digits(s: Seq<char>) -> bool {
    forall|i: int| 0 <= i < s.len() ==> is_digit(#[trigger] s[i])
}

/// The number that a string of decimal digits denotes (most significant digit first).
pub open spec fn digits_value(s: Seq<char>) -> nat
    decreases s.len(),
{
    if s.len() == 0 {
        0
    } else {
        digits_value(s.drop_last()) * 10 + ((s.last() as int - '0' as int) as nat)
    }
}

/// What `str::parse::<i64>` accepts: an optional `+` or `-` sign, then one or more ASCII
/// digits, denoting a value within the range of `i64`. Anything else is an error.
pub open spec fn spec_parse_i64(s: Seq<char>) -> Option<i64> {
    let signed = s.len() > 0 && (s[0] == '-' || s[0] == '+');
    let negative = s.len() > 0 && s[0] == '-';
    let body = if signed { s.drop_first() } else { s };
    let v: int = if negative { -(digits_value(body) as int) } else { digits_value(body) as int };
    if body.len() > 0 && all_digits(body) && i64::MIN <= v && v <= i64::MAX {
        Some(v as i64)
    } else {
        None
    }
}

/// The character for a digit value below 16 (lower-case letters above 9).
pub open spec fn digit_char(d: nat) -> char {
    if d < 10 {
        ('0' as int + d) as char
    } else {
        ('a' as int + (d - 10)) as char
    }
}

/// The digits of `n` in the given base, most significant first, with no leading zeros
/// (`0` is written as a single `0`).
pub open spec fn radix_text(n: nat, base: nat) -> Seq<char>
    decreases n,
{
    if base < 2 || n < base {
        seq![digit_char(n)]
    } else {
        proof {
            assert(n / base < n) by (nonlinear_arith)
                requires
                    base >= 2,
                    n >= base,
            ;
        }
        radix_text(n / base, base).push(digit_char(n % base))
    }
}

/// `i64::to_string`: a `-` for negative values, then the decimal digits of the magnitude.
pub open spec fn spec_i64_to_decimal(x: i64) -> Seq<char> {
    if x < 0 {
        seq!['-'] + radix_text((-(x as int)) as nat, 10)
    } else {
        radix_text(x as nat, 10)
    }
}

/// `format!("{:x}", n)` for a `u64`: lower-case hexadecimal without leading zeros.
pub open spec fn spec_u64_to_lower_hex(n: u64) -> Seq<char> {
    radix_text(n as nat, 16)
}

proof fn lemma_digits_value_prefix_monotone(s: Seq<char>, k: int)
    requires
        0 <= k <= s.len(),
        all_digits(s),
    ensures
        digits_value(s.subrange(0, k)) <= digits_value(s),
    decreases s.len() - k,
{
    if k < s.len() {
        lemma_digits_value_prefix_monotone(s, k + 1);
        let t = s.subrange(0, k + 1);
        assert(t.drop_last() =~= s.subrange(0, k));
        assert(is_digit(s[k]));
    } else {
        assert(s.subrange(0, k) =~= s);
    }
}

proof fn lemma_digit_char_value(d: nat)
    requires
        d < 10,
    ensures
        is_digit(digit_char(d)),
        digit_char(d) as int - '0' as int == d,
{
    assert('0' as int == 48);
    assert((48 + d) as char as int == 48 + d);
}

proof fn lemma_radix_text_digits(n: nat, base: nat)
    requires
        2 <= base <= 10,
    ensures
        radix_text(n, base).len() > 0,
        all_digits(radix_text(n, base)),
        base == 10 ==> digits_value(radix_text(n, base)) == n,
    decreases n,
{
    if n < base {
        lemma_digit_char_value(n);
        let t = radix_text(n, base);
        assert(is_digit(t[0]));
        assert(t.drop_last() =~= Seq::<char>::empty());
        assert(digits_value(t.drop_last()) == 0);
    } else {
        assert(n / base < n) by (nonlinear_arith)
            requires
                base >= 2,
                n >= base,
        ;
        lemma_radix_text_digits(n / base, base);
        let t = radix_text(n, base);
        assert(t.drop_last() =~= radix_text(n / base, base));
        assert(n % base < base) by (nonlinear_arith)
            requires
                base >= 2,
        ;
        assert forall|i: int| 0 <= i < t.len() implies is_digit(#[trigger] t[i]) by {
            if i < t.len() - 1 {
                assert(t[i] == radix_text(n / base, base)[i]);
            }
        }
        lemma_digit_char_value(n % base);
        if base == 10 {
            assert(n == (n / 10) * 10 + n % 10) by (nonlinear_arith);
        }
    }
}

/// The decimal text of an `i64` is an optional `-` followed by digits: it holds no `,`.
pub proof fn lemma_decimal_has_no_comma(x: i64)
    ensures
        forall|i: int| 0 <= i < spec_i64_to_decimal(x).len() ==> #[trigger] spec_i64_to_decimal(x)[i] != ',',
{
    let s = spec_i64_to_decimal(x);
    if x < 0 {
        let m = (-(x as int)) as nat;
        lemma_radix_text_digits(m, 10);
        let r = radix_text(m, 10);
        assert forall|i: int| 0 <= i < s.len() implies #[trigger] s[i] != ',' by {
            if i > 0 {
                assert(s[i] == r[i - 1]);
                assert(is_digit(r[i - 1]));
            }
        }
    } else {
        lemma_radix_text_digits(x as nat, 10);
        let r = radix_text(x as nat, 10);
        assert forall|i: int| 0 <= i < s.len() implies #[trigger] s[i] != ',' by {
            assert(is_digit(r[i]));
        }
    }
}

/// Decimal text of every `i64` is read back by `str::parse::<i64>` as the same value.
pub proof fn law_decimal_round_trip(x: i64)
    ensures
        spec_parse_i64(spec_i64_to_decimal(x)) == Some(x),
{
    let s = spec_i64_to_decimal(x);
    if x < 0 {
        let m = (-(x as int)) as nat;
        lemma_radix_text_digits(m, 10);
        assert(s.drop_first() =~= radix_text(m, 10));
    } else {
        lemma_radix_text_digits(x as nat, 10);
        assert(is_digit(s[0]));
    }
}

/// Digits of `n` in base 10 or 16, most significant first.
fn unsigned_text(n: u64, base: u64) -> (r: Vec<char>)
    requires
        base == 10 || base == 16,
    ensures
        r@ == radix_text(n as nat, base as nat),
{
    let mut out: Vec<char> = Vec::new();
    let mut rem: u64 = n;
    while rem >= base
        invariant
            base == 10 || base == 16,
            radix_text(n as nat, base as nat) == radix_text(rem as nat, base as nat) + out@,
        decreases rem,
    {
        let d = rem % base;
        let c = hex_digit_char(d);
        proof {
            assert(radix_text(rem as nat, base as nat) == radix_text((rem / base) as nat, base as nat).push(digit_char(d as nat)));
            assert(radix_text((rem / base) as nat, base as nat).push(digit_char(d as nat)) + out@
                =~= radix_text((rem / base) as nat, base as nat) + out@.insert(0, c));
        }
        out.insert(0, c);
        rem = rem / base;
    }
    let c = hex_digit_char(rem);
    proof {
        assert(radix_text(rem as nat, base as nat) == seq![digit_char(rem as nat)]);
        assert(seq![digit_char(rem as nat)] + out@ =~= out@.insert(0, c));
    }
    out.insert(0, c);
    out
}

/// The character for a digit value below 16 (`0`-`9`, then `a`-`f`).
pub fn hex_digit_char(d: u64) -> (c: char)
    requires
        d < 16,
    ensures
        c == digit_char(d as nat),
{
    let code: u8 = if d < 10 { 48 + d as u8 } else { 97 + (d as u8 - 10) };
    proof {
        assert('0' as int == 48);
        assert('a' as int == 97);
    }
    code as char
}

/// Decimal text of an `i64`, as `i64::to_string` writes it.
pub fn i64_to_decimal(x: i64) -> (r: String)
    ensures
        r@ == spec_i64_to_decimal(x),
{
    if x < 0 {
        let magnitude: u64 = if x == i64::MIN { 9223372036854775808u64 } else { (-x) as u64 };
        let digits = unsigned_text(magnitude, 10);
        let mut all: Vec<char> = Vec::new();
        all.push('-');
        let mut i: usize = 0;
        while i < digits.len()
            invariant
                i <= digits.len(),
                all@ == seq!['-'] + digits@.subrange(0, i as int),
            decreases digits.len() - i,
        {
            all.push(digits[i]);
            assert(digits@.subrange(0, i + 1) =~= digits@.subrange(0, i as int).push(digits@[i as int]));
            i = i + 1;
        }
        assert(digits@.subrange(0, digits.len() as int) =~= digits@);
        string_from_chars(&all)
    } else {
        let digits = unsigned_text(x as u64, 10);
        string_from_chars(&digits)
    }
}

/// Lower-case hexadecimal text of a `u64`, as `format!("{:x}", n)` writes it.
pub fn u64_to_lower_hex(n: u64) -> (r: String)
    ensures
        r@ == spec_u64_to_lower_hex(n),
{
    let digits = unsigned_text(n, 16);
    string_from_chars(&digits)
}

/// Reads an `i64` from text as `str::parse::<i64>` does; `None` where it reports an error.
pub fn parse_i64(s: &str) -> (r: Option<i64>)
    ensures
        r == spec_parse_i64(s@),
{
    let cs = chars_of(s);
    let n = cs.len();
    if n == 0 {
        return None;
    }
    let negative = cs[0] == '-';
    let signed = cs[0] == '-' || cs[0] == '+';
    let start: usize = if signed { 1 } else { 0 };
    let ghost body = if signed { s@.drop_first() } else { s@ };
    assert(body =~= s@.subrange(start as int, n as int));
    if start == n {
        return None;
    }
    let mut acc: i64 = 0;
    let mut i: usize = start;
    while i < n
        invariant
            cs@ == s@,
            n == cs@.len(),
            start <= i <= n,
            start < n,
            body == s@.subrange(start as int, n as int),
            body == (if s@[0] == '-' || s@[0] == '+' { s@.drop_first() } else { s@ }),
            all_digits(body.subrange(0, i - start)),
            negative ==> acc as int == -(digits_value(body.subrange(0, i - start)) as int),
            !negative ==> acc as int == digits_value(body.subrange(0, i - start)) as int,
            negative == (s@[0] == '-'),
            negative ==> acc <= 0,
            !negative ==> acc >= 0,
        decreases n - i,
    {
        let c = cs[i];
        let ghost prefix = body.subrange(0, i - start);
        let ghost next = body.subrange(0, i + 1 - start);
        assert(next.drop_last() =~= prefix);
        assert(next.last() == c);
        if !('0' <= c && c <= '9') {
            assert(body[i - start] == s@[i as int]);
            assert(!is_digit(body[i - start]));
            return None;
        }
        let d: i64 = (c as u32 - '0' as u32) as i64;
        assert(d as int == c as int - '0' as int);
        assert(all_digits(next)) by {
            assert forall|j: int| 0 <= j < next.len() implies is_digit(#[trigger] next[j]) by {
                if j < next.len() - 1 {
                    assert(next[j] == prefix[j]);
                }
            }
        }
        let stepped = if negative {
            match acc.checked_mul(10) {
                Some(t) => t.checked_sub(d),
                None => None,
            }
        } else {
            match acc.checked_mul(10) {
                Some(t) => t.checked_add(d),
                None => None,
            }
        };
        match stepped {
            Some(v) => {
                acc = v;
            },
            None => {
                proof {
                    let dv = digits_value(next) as int;
                    assert(dv == digits_value(prefix) * 10 + d);
                    assert(negative ==> -dv < i64::MIN) by (nonlinear_arith)
                        requires
                            negative ==> acc as int == -(digits_value(prefix) as int),
                            dv == digits_value(prefix) * 10 + d,
                            0 <= d,
                            negative ==> (acc * 10 < i64::MIN || acc * 10 - d < i64::MIN);
                    assert(!negative ==> dv > i64::MAX) by (nonlinear_arith)
                        requires
                            !negative ==> acc as int == digits_value(prefix) as int,
                            dv == digits_value(prefix) * 10 + d,
                            0 <= d,
                            !negative ==> (acc * 10 > i64::MAX || acc * 10 + d > i64::MAX);
                    if all_digits(body) {
                        lemma_digits_value_prefix_monotone(body, i + 1 - start);
                    }
                }
                return None;
            },
        }
        i = i + 1;
    }
    assert(body.subrange(0, n - start) =~= body);
    Some(acc)
}


/// What `str::parse::<u64>` accepts: an optional `+` sign, then one or more ASCII digits,
/// denoting a value within the range of `u64`. Anything else (a `-` sign too) is an error.
pub open spec fn spec_parse_u64(s: Seq<char>) -> Option<u64> {
    let signed = s.len() > 0 && s[0] == '+';
    let body = if signed { s.drop_first() } else { s };
    if body.len() > 0 && all_digits(body) && digits_value(body) <= u64::MAX {
        Some(digits_value(body) as u64)
    } else {
        None
    }
}

/// Reads a `u64` from text as `str::parse::<u64>` does; `None` where it reports an error.
pub fn parse_u64(s: &str) -> (r: Option<u64>)
    ensures
        r == spec_parse_u64(s@),
{
    let cs = chars_of(s);
    let n = cs.len();
    if n == 0 {
        return None;
    }
    let signed = cs[0] == '+';
    let start: usize = if signed { 1 } else { 0 };
    let ghost body = if signed { s@.drop_first() } else { s@ };
    assert(body =~= s@.subrange(start as int, n as int));
    if start == n {
        return None;
    }
    let mut acc: u64 = 0;
    let mut i: usize = start;
    while i < n
        invariant
            cs@ == s@,
            n == cs@.len(),
            start <= i <= n,
            start < n,
            body == s@.subrange(start as int, n as int),
            body == (if s@[0] == '+' { s@.drop_first() } else { s@ }),
            all_digits(body.subrange(0, i - start)),
            acc as int == digits_value(body.subrange(0, i - start)) as int,
        decreases n - i,
    {
        let c = cs[i];
        let ghost prefix = body.subrange(0, i - start);
        let ghost next = body.subrange(0, i + 1 - start);
        assert(next.drop_last() =~= prefix);
        assert(next.last() == c);
        if !('0' <= c && c <= '9') {
            assert(body[i - start] == s@[i as int]);
            assert(!is_digit(body[i - start]));
            assert(!all_digits(body));
            return None;
        }
        let d: u64 = (c as u32 - '0' as u32) as u64;
        assert(d as int == c as int - '0' as int);
        assert(all_digits(next)) by {
            assert forall|j: int| 0 <= j < next.len() implies is_digit(#[trigger] next[j]) by {
                if j < next.len() - 1 {
                    assert(next[j] == prefix[j]);
                }
            }
        }
        let stepped = match acc.checked_mul(10) {
            Some(t) => t.checked_add(d),
            None => None,
        };
        match stepped {
            Some(v) => {
                acc = v;
            },
            None => {
                proof {
                    let dv = digits_value(next) as int;
                    assert(dv == digits_value(prefix) * 10 + d);
                    assert(dv > u64::MAX) by (nonlinear_arith)
                        requires
                            acc as int == digits_value(prefix) as int,
                            dv == digits_value(prefix) * 10 + d,
                            0 <= d,
                            acc * 10 > u64::MAX || acc * 10 + d > u64::MAX,
                    ;
                    if all_digits(body) {
                        lemma_digits_value_prefix_monotone(body, i + 1 - start);
                    }
                }
                return None;
            },
        }
        i = i + 1;
    }
    assert(body.subrange(0, n - start) =~= body);
    Some(acc)
}

} // verus!
