//! Numerals written as text: integers and decimal numbers.
use vstd::prelude::*;

verus! {

pub open spec fn is_digit(c: char) -> bool {
    '0' <= c && c <= '9'
}

pub open spec fn digit_value(c: char) -> int {
    c as int - '0' as int
}

pub open spec fn all_digits(s: Seq<char>) -> bool {
    forall|i: int| 0 <= i < s.len() ==> is_digit(#[trigger] s[i])
}

/// The value of a run of decimal digits, most significant first.
pub open spec fn digits_value(s: Seq<char>) -> int
    decreases s.len(),
{
    if s.len() == 0 {
        0
    } else {
        digits_value(s.drop_last()) * 10 + digit_value(s.last())
    }
}

/// An optional sign followed by one or more digits.
pub open spec fn signed_value(s: Seq<char>) -> Option<int> {
    if s.len() > 0 && (s[0] == '-' || s[0] == '+') {
        let body = s.drop_first();
        if body.len() > 0 && all_digits(body) {
            Some(if s[0] == '-' { -digits_value(body) } else { digits_value(body) })
        } else {
            None
        }
    } else if s.len() > 0 && all_digits(s) {
        Some(digits_value(s))
    } else {
        None
    }
}

/// The integer a text denotes, where it is a signed numeral in the range of `i64`.
pub open spec fn int_text(s: Seq<char>) -> Option<int> {
    match signed_value(s) {
        Some(v) => if i64::MIN <= v && v <= i64::MAX { Some(v) } else { None },
        None => None,
    }
}

/// A decimal number `(-1)^negative * mantissa * 10^exponent`.
#[derive(Clone, Copy, Debug, PartialEq, Eq)]
pub struct Decimal {
    pub negative: bool,
    pub mantissa: u64,
    pub exponent: i64,
}

/// Position of the first exponent marker (`e` or `E`), or the length when there is none.
pub open spec fn exp_index(s: Seq<char>) -> int
    decreases s.len(),
{
    if s.len() == 0 {
        0
    } else if s[0] == 'e' || s[0] == 'E' {
        0
    } else {
        1 + exp_index(s.drop_first())
    }
}

/// Position of the first `.`, or the length when there is none.
pub open spec fn dot_index(s: Seq<char>) -> int
    decreases s.len(),
{
    if s.len() == 0 {
        0
    } else if s[0] == '.' {
        0
    } else {
        1 + dot_index(s.drop_first())
    }
}

/// The decimal a text denotes: an optional sign, digits with at most one `.`
/// (at least one digit in all), and an optional exponent `e`/`E` with a signed
/// integer. Text whose significant digits exceed 64 bits, or whose scale
/// exceeds `i64`, is refused.
pub open spec fn decimal_text(s: Seq<char>) -> Option<Decimal> {
    let neg = s.len() > 0 && s[0] == '-';
    let start: int = if s.len() > 0 && (s[0] == '-' || s[0] == '+') { 1 } else { 0 };
    let body = s.subrange(start, s.len() as int);
    let e = exp_index(body);
    let m = body.subrange(0, e);
    let d = dot_index(m);
    let whole = m.subrange(0, d);
    let frac = if d < m.len() { m.subrange(d + 1, m.len() as int) } else { Seq::empty() };
    let exp = if e < body.len() { int_text(body.subrange(e + 1, body.len() as int)) } else { Some(0) };
    if all_digits(whole) && all_digits(frac) && whole.len() + frac.len() > 0 && exp is Some {
        let mant = digits_value(whole + frac);
        let scale = exp->0 - frac.len();
        if mant <= u64::MAX && i64::MIN <= scale && scale <= i64::MAX {
            Some(Decimal { negative: neg, mantissa: mant as u64, exponent: scale as i64 })
        } else {
            None
        }
    } else {
        None
    }
}

pub open spec fn pow10(n: nat) -> int
    decreases n,
{
    if n == 0 {
        1
    } else {
        10 * pow10((n - 1) as nat)
    }
}

/// A run of `n` digits stays below `10^n`.
pub proof fn lemma_digits_bound(s: Seq<char>)
    requires
        all_digits(s),
    ensures
        0 <= digits_value(s) < pow10(s.len()),
    decreases s.len(),
{
    if s.len() > 0 {
        lemma_digits_bound(s.drop_last());
        assert(is_digit(s[s.len() - 1]));
    }
}

proof fn lemma_digits_nonneg(s: Seq<char>)
    requires
        all_digits(s),
    ensures
        digits_value(s) >= 0,
    decreases s.len(),
{
    if s.len() > 0 {
        lemma_digits_nonneg(s.drop_last());
    }
}

proof fn lemma_exp_index(s: Seq<char>, i: int)
    requires
        0 <= i <= s.len(),
        forall|j: int| 0 <= j < i ==> s[j] != 'e' && s[j] != 'E',
        i == s.len() || s[i] == 'e' || s[i] == 'E',
    ensures
        exp_index(s) == i,
    decreases i,
{
    if i > 0 {
        lemma_exp_index(s.drop_first(), i - 1);
    }
}

proof fn lemma_dot_index(s: Seq<char>, i: int)
    requires
        0 <= i <= s.len(),
        forall|j: int| 0 <= j < i ==> s[j] != '.',
        i == s.len() || s[i] == '.',
    ensures
        dot_index(s) == i,
    decreases i,
{
    if i > 0 {
        lemma_dot_index(s.drop_first(), i - 1);
    }
}

/// The characters of a string, one by one.
pub fn chars_of(s: &str) -> (r: Vec<char>)
    ensures
        r@ == s@,
{
    let n = s.unicode_len();
    let mut r: Vec<char> = Vec::new();
    let mut i: usize = 0;
    while i < n
        invariant
            n == s@.len(),
            i <= n,
            r@ == s@.subrange(0, i as int),
        decreases n - i,
    {
        r.push(s.get_char(i));
        i = i + 1;
        assert(r@ =~= s@.subrange(0, i as int));
    }
    assert(r@ =~= s@);
    r
}

/// The value of the digits `s[lo..hi]`, where they are all digits and the value is at most `cap`.
pub(crate) fn digits_capped(s: &Vec<char>, lo: usize, hi: usize, cap: u64) -> (r: Option<u64>)
    requires
        lo <= hi <= s@.len(),
    ensures
        r is Some <==> (all_digits(s@.subrange(lo as int, hi as int)) && digits_value(
            s@.subrange(lo as int, hi as int),
        ) <= cap),
        r is Some ==> r->0 == digits_value(s@.subrange(lo as int, hi as int)),
{
    let mut acc: u64 = 0;
    let mut big = false;
    let mut i: usize = lo;
    while i < hi
        invariant
            lo <= i <= hi <= s@.len(),
            all_digits(s@.subrange(lo as int, i as int)),
            digits_value(s@.subrange(lo as int, i as int)) >= 0,
            !big ==> acc == digits_value(s@.subrange(lo as int, i as int)) && acc <= cap,
            big ==> digits_value(s@.subrange(lo as int, i as int)) > cap,
        decreases hi - i,
    {
        let c = s[i];
        let ghost prev = s@.subrange(lo as int, i as int);
        let ghost next = s@.subrange(lo as int, i + 1);
        assert(next.drop_last() =~= prev);
        if !('0' <= c && c <= '9') {
            assert(s@.subrange(lo as int, hi as int)[i - lo] == c);
            return None;
        }
        let d = (c as u32 - '0' as u32) as u64;
        if !big {
            let v: u128 = acc as u128 * 10 + d as u128;
            if v > cap as u128 {
                big = true;
            } else {
                acc = v as u64;
            }
        }
        i = i + 1;
        assert(all_digits(next)) by {
            assert forall|j: int| 0 <= j < next.len() implies is_digit(#[trigger] next[j]) by {
                if j < prev.len() {
                    assert(next[j] == prev[j]);
                }
            }
        }
    }
    if big {
        None
    } else {
        Some(acc)
    }
}

/// The integer `s[lo..hi]` denotes, as `int_text` reads it.
fn int_in(s: &Vec<char>, lo: usize, hi: usize) -> (r: Option<i64>)
    requires
        lo <= hi <= s@.len(),
    ensures
        r is Some <==> int_text(s@.subrange(lo as int, hi as int)) is Some,
        r is Some ==> r->0 == int_text(s@.subrange(lo as int, hi as int))->0,
{
    let ghost t = s@.subrange(lo as int, hi as int);
    if lo < hi && (s[lo] == '-' || s[lo] == '+') {
        assert(t.drop_first() =~= s@.subrange(lo + 1, hi as int));
        if lo + 1 == hi {
            return None;
        }
        let cap: u64 = if s[lo] == '-' { 9223372036854775808 } else { 9223372036854775807 };
        match digits_capped(s, lo + 1, hi, cap) {
            Some(v) => {
                if s[lo] == '-' {
                    if v == 9223372036854775808 {
                        Some(i64::MIN)
                    } else {
                        Some(-(v as i64))
                    }
                } else {
                    Some(v as i64)
                }
            },
            None => {
                proof {
                    if all_digits(t.drop_first()) {
                        lemma_digits_nonneg(t.drop_first());
                    }
                }
                None
            },
        }
    } else {
        if lo == hi {
            return None;
        }
        match digits_capped(s, lo, hi, 9223372036854775807) {
            Some(v) => Some(v as i64),
            None => None,
        }
    }
}

/// Reads an integer numeral: an optional sign and one or more digits, in the range of `i64`.
pub fn parse_int(s: &str) -> (r: Option<i64>)
    ensures
        r is Some <==> int_text(s@) is Some,
        r is Some ==> r->0 == int_text(s@)->0,
{
    let c = chars_of(s);
    assert(c@.subrange(0, c@.len() as int) =~= c@);
    int_in(&c, 0, c.len())
}

pub proof fn lemma_all_digits_concat(a: Seq<char>, b: Seq<char>)
    ensures
        all_digits(a + b) == (all_digits(a) && all_digits(b)),
{
    if all_digits(a) && all_digits(b) {
        assert forall|j: int| 0 <= j < (a + b).len() implies is_digit(#[trigger] (a + b)[j]) by {
            if j < a.len() {
                assert((a + b)[j] == a[j]);
            } else {
                assert((a + b)[j] == b[j - a.len()]);
            }
        }
    }
    if all_digits(a + b) {
        assert forall|j: int| 0 <= j < a.len() implies is_digit(#[trigger] a[j]) by {
            assert((a + b)[j] == a[j]);
        }
        assert forall|j: int| 0 <= j < b.len() implies is_digit(#[trigger] b[j]) by {
            assert((a + b)[j + a.len()] == b[j]);
        }
    }
}

/// `s[lo1..hi1]` followed by `s[lo2..hi2]`.
fn join_ranges(s: &Vec<char>, lo1: usize, hi1: usize, lo2: usize, hi2: usize) -> (r: Vec<char>)
    requires
        lo1 <= hi1 <= s@.len(),
        lo2 <= hi2 <= s@.len(),
    ensures
        r@ == s@.subrange(lo1 as int, hi1 as int) + s@.subrange(lo2 as int, hi2 as int),
{
    let mut r: Vec<char> = Vec::new();
    let mut i: usize = lo1;
    while i < hi1
        invariant
            lo1 <= i <= hi1 <= s@.len(),
            r@ == s@.subrange(lo1 as int, i as int),
        decreases hi1 - i,
    {
        r.push(s[i]);
        i = i + 1;
        assert(r@ =~= s@.subrange(lo1 as int, i as int));
    }
    let mut k: usize = lo2;
    while k < hi2
        invariant
            lo2 <= k <= hi2 <= s@.len(),
            r@ == s@.subrange(lo1 as int, hi1 as int) + s@.subrange(lo2 as int, k as int),
        decreases hi2 - k,
    {
        r.push(s[k]);
        k = k + 1;
        assert(r@ =~= s@.subrange(lo1 as int, hi1 as int) + s@.subrange(lo2 as int, k as int));
    }
    r
}

/// Reads a decimal numeral as `decimal_text` describes it.
#[verifier::rlimit(60)]
pub fn parse_decimal(s: &str) -> (r: Option<Decimal>)
    ensures
        r == decimal_text(s@),
{
    let c = chars_of(s);
    let n = c.len();
    let neg = n > 0 && c[0] == '-';
    let start: usize = if n > 0 && (c[0] == '-' || c[0] == '+') { 1 } else { 0 };
    let ghost body = s@.subrange(start as int, n as int);
    let mut e: usize = start;
    while e < n && c[e] != 'e' && c[e] != 'E'
        invariant
            start <= e <= n == c@.len(),
            c@ == s@,
            forall|j: int| start <= j < e ==> c@[j] != 'e' && c@[j] != 'E',
        decreases n - e,
    {
        e = e + 1;
    }
    proof {
        lemma_exp_index(body, e - start);
    }
    let ghost m = body.subrange(0, e - start);
    let mut d: usize = start;
    while d < e && c[d] != '.'
        invariant
            start <= d <= e <= n == c@.len(),
            c@ == s@,
            forall|j: int| start <= j < d ==> c@[j] != '.',
        decreases e - d,
    {
        d = d + 1;
    }
    proof {
        lemma_dot_index(m, d - start);
    }
    let frac_lo: usize = if d < e { d + 1 } else { e };
    let ghost whole = m.subrange(0, d - start);
    let ghost frac = if d < e { m.subrange(d - start + 1, m.len() as int) } else { Seq::<char>::empty() };
    assert(whole =~= c@.subrange(start as int, d as int));
    assert(frac =~= c@.subrange(frac_lo as int, e as int));
    if d - start + (e - frac_lo) == 0 {
        return None;
    }
    let digits = join_ranges(&c, start, d, frac_lo, e);
    assert(digits@ =~= whole + frac);
    assert(digits@.subrange(0, digits@.len() as int) =~= digits@);
    proof {
        lemma_all_digits_concat(whole, frac);
    }
    let dl = digits.len();
    let mant = match digits_capped(&digits, 0, dl, u64::MAX) {
        Some(v) => v,
        None => {
            return None;
        },
    };
    let exp: i64 = if e < n {
        assert(body.subrange(e - start + 1, body.len() as int) =~= c@.subrange(e + 1, n as int));
        match int_in(&c, e + 1, n) {
            Some(x) => x,
            None => {
                return None;
            },
        }
    } else {
        0
    };
    let scale: i128 = exp as i128 - (e - frac_lo) as i128;
    if scale < i64::MIN as i128 || scale > i64::MAX as i128 {
        return None;
    }
    Some(Decimal { negative: neg, mantissa: mant, exponent: scale as i64 })
}

} // verus!
