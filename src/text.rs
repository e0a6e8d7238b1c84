use vstd::prelude::*;
use vstd::string::*;

use crate::ratio::Ratio;

verus! {

pub open spec fn is_digit(c: char) -> bool {
    '0' <= c && c <= '9'
}

pub open spec fn digit_value(c: char) -> nat {
    ((c as u32) as int - ('0' as u32) as int) as nat
}

pub open spec fn all_digits(s: Seq<char>) -> bool {
    forall|i: int| 0 <= i < s.len() ==> is_digit(#[trigger] s[i])
}

/// The value of a string of decimal digits, most significant first.
pub open spec fn digits_value(s: Seq<char>) -> nat
    decreases s.len(),
{
    if s.len() == 0 {
        0
    } else {
        digits_value(s.drop_last()) * 10 + digit_value(s.last())
    }
}

/// The natural number that `s` writes in decimal, if `s` is a non-empty run of digits.
pub open spec fn natural_of(s: Seq<char>) -> Option<nat> {
    if s.len() > 0 && all_digits(s) {
        Some(digits_value(s))
    } else {
        None
    }
}

pub open spec fn pow10(k: nat) -> nat
    decreases k,
{
    if k == 0 {
        1
    } else {
        10 * pow10((k - 1) as nat)
    }
}

/// `s` is `<digits>.<digits>` with its point at `p`.
pub open spec fn point_at(s: Seq<char>, p: int) -> bool {
    0 < p < s.len() - 1 && s[p] == '.' && all_digits(s.subrange(0, p)) && all_digits(
        s.subrange(p + 1, s.len() as int),
    )
}

/// The decimal number that `s` writes, as (digits without the point, digits after the point).
pub open spec fn decimal_of(s: Seq<char>) -> Option<(nat, nat)> {
    if s.len() > 0 && all_digits(s) {
        Some((digits_value(s), 0))
    } else if exists|p: int| point_at(s, p) {
        let p = choose|p: int| point_at(s, p);
        Some(
            (
                digits_value(s.subrange(0, p) + s.subrange(p + 1, s.len() as int)),
                (s.len() - p - 1) as nat,
            ),
        )
    } else {
        None
    }
}

/// The ratio that `s` writes in decimal, where numerator and denominator fit in 64 bits.
pub open spec fn ratio_of(s: Seq<char>) -> Option<Ratio> {
    match decimal_of(s) {
        Some((v, k)) => if v <= u64::MAX && pow10(k) <= u64::MAX {
            Some(Ratio { num: v as u64, den: pow10(k) as u64 })
        } else {
            None
        },
        None => None,
    }
}

pub open spec fn digit_char(d: nat) -> char {
    if d == 0 {
        '0'
    } else if d == 1 {
        '1'
    } else if d == 2 {
        '2'
    } else if d == 3 {
        '3'
    } else if d == 4 {
        '4'
    } else if d == 5 {
        '5'
    } else if d == 6 {
        '6'
    } else if d == 7 {
        '7'
    } else if d == 8 {
        '8'
    } else {
        '9'
    }
}

/// The decimal digits of `n`, without leading zeros.
pub open spec fn decimal_digits(n: nat) -> Seq<char>
    decreases n,
{
    if n < 10 {
        seq![digit_char(n)]
    } else {
        decimal_digits(n / 10).push(digit_char(n % 10))
    }
}

pub open spec fn starts_with(s: Seq<char>, p: Seq<char>) -> bool {
    p.len() <= s.len() && s.subrange(0, p.len() as int) == p
}

/// Whether `s` begins with `p`.
pub fn has_prefix(s: &str, p: &str) -> (r: bool)
    ensures
        r == starts_with(s@, p@),
{
    let n = s.unicode_len();
    let m = p.unicode_len();
    if m > n {
        return false;
    }
    let mut i: usize = 0;
    while i < m
        invariant
            0 <= i <= m <= n,
            n == s@.len(),
            m == p@.len(),
            forall|k: int| 0 <= k < i ==> s@[k] == p@[k],
        decreases m - i,
    {
        if s.get_char(i) != p.get_char(i) {
            assert(s@.subrange(0, m as int)[i as int] != p@[i as int]);
            return false;
        }
        i = i + 1;
    }
    assert(s@.subrange(0, m as int) =~= p@);
    true
}

/// Whether `s` and `p` hold the same characters.
pub fn same_text(s: &str, p: &str) -> (r: bool)
    ensures
        r == (s@ == p@),
{
    let n = s.unicode_len();
    let m = p.unicode_len();
    if m != n {
        return false;
    }
    let pre = has_prefix(s, p);
    assert(s@.subrange(0, m as int) =~= s@);
    pre
}

proof fn lemma_digits_prefix_le(s: Seq<char>, j: int)
    requires
        0 <= j <= s.len(),
    ensures
        digits_value(s.subrange(0, j)) <= digits_value(s),
    decreases s.len() - j,
{
    if j < s.len() {
        lemma_digits_prefix_le(s, j + 1);
        assert(s.subrange(0, j + 1).drop_last() =~= s.subrange(0, j));
    } else {
        assert(s.subrange(0, j) =~= s);
    }
}

proof fn lemma_pow10_mono(a: nat, b: nat)
    requires
        a <= b,
    ensures
        pow10(a) <= pow10(b),
    decreases b - a,
{
    if a < b {
        lemma_pow10_mono(a, (b - 1) as nat);
        assert(pow10(b) == 10 * pow10((b - 1) as nat));
    }
}

/// Parses a non-empty run of decimal digits into a `u64`.
pub fn parse_natural(s: &str) -> (r: Option<u64>)
    ensures
        r == (match natural_of(s@) {
            Some(v) => if v <= u64::MAX {
                Some(v as u64)
            } else {
                None
            },
            None => None,
        }),
{
    let n = s.unicode_len();
    if n == 0 {
        return None;
    }
    let mut acc: u64 = 0;
    let mut i: usize = 0;
    while i < n
        invariant
            0 <= i <= n,
            n == s@.len(),
            all_digits(s@.subrange(0, i as int)),
            acc as nat == digits_value(s@.subrange(0, i as int)),
        decreases n - i,
    {
        let c = s.get_char(i);
        if !('0' <= c && c <= '9') {
            return None;
        }
        let d = (c as u32 - '0' as u32) as u64;
        assert(s@.subrange(0, i + 1).drop_last() =~= s@.subrange(0, i as int));
        if acc > (u64::MAX - d) / 10 {
            proof {
                assert(digits_value(s@.subrange(0, i + 1)) == acc * 10 + d);
                lemma_digits_prefix_le(s@, i + 1);
            }
            return None;
        }
        acc = acc * 10 + d;
        i = i + 1;
        assert forall|k: int| 0 <= k < i implies is_digit(#[trigger] s@.subrange(0, i as int)[k]) by {
            if k < i - 1 {
                assert(s@.subrange(0, i as int)[k] == s@.subrange(0, i - 1)[k]);
            }
        }
    }
    assert(s@.subrange(0, n as int) =~= s@);
    Some(acc)
}

fn first_point(s: &str) -> (r: Option<usize>)
    ensures
        match r {
            Some(p) => p < s@.len() && s@[p as int] == '.' && forall|k: int|
                0 <= k < p ==> s@[k] != '.',
            None => forall|k: int| 0 <= k < s@.len() ==> s@[k] != '.',
        },
{
    let n = s.unicode_len();
    let mut i: usize = 0;
    while i < n
        invariant
            0 <= i <= n,
            n == s@.len(),
            forall|k: int| 0 <= k < i ==> s@[k] != '.',
        decreases n - i,
    {
        if s.get_char(i) == '.' {
            return Some(i);
        }
        i = i + 1;
    }
    None
}

fn pow10_checked(k: usize) -> (r: Option<u64>)
    ensures
        r == (if pow10(k as nat) <= u64::MAX {
            Some(pow10(k as nat) as u64)
        } else {
            None
        }),
{
    let mut acc: u64 = 1;
    let mut j: usize = 0;
    while j < k
        invariant
            0 <= j <= k,
            acc as nat == pow10(j as nat),
        decreases k - j,
    {
        if acc > u64::MAX / 10 {
            proof {
                lemma_pow10_mono((j + 1) as nat, k as nat);
            }
            return None;
        }
        acc = acc * 10;
        j = j + 1;
    }
    Some(acc)
}

/// Parses a decimal number such as `12` or `2.5` into an exact ratio.
pub fn parse_ratio(s: &str) -> (r: Option<Ratio>)
    ensures
        r == ratio_of(s@),
        r matches Some(q) ==> q.wf(),
{
    let n = s.unicode_len();
    match first_point(s) {
        None => {
            let v = parse_natural(s);
            proof {
                assert forall|p: int| !point_at(s@, p) by {
                    if 0 <= p < s@.len() {
                        assert(s@[p] != '.');
                    }
                }
            }
            match v {
                Some(x) => Some(Ratio { num: x, den: 1 }),
                None => None,
            }
        },
        Some(p) => {
            proof {
                assert(!is_digit(s@[p as int]));
                assert(!all_digits(s@));
            }
            if p == 0 || p + 1 >= n {
                proof {
                    assert forall|q: int| !point_at(s@, q) by {
                        if point_at(s@, q) {
                            assert(q >= p) by {
                                if q < p {
                                    assert(s@[q] != '.');
                                }
                            }
                            if q > p {
                                assert(s@.subrange(0, q)[p as int] == '.');
                            }
                        }
                    }
                }
                return None;
            }
            let int_part = s.substring_char(0, p);
            let frac_part = s.substring_char(p + 1, n);
            let mut joined = String::from_str(int_part);
            joined.append(frac_part);
            let num = parse_natural(joined.as_str());
            proof {
                let jv = joined@;
                assert(jv =~= s@.subrange(0, p as int) + s@.subrange(p + 1, n as int));
                // Any point at which `s` splits is its first point.
                assert forall|q: int| point_at(s@, q) implies q == p by {
                    if q < p {
                        assert(s@[q] != '.');
                    }
                    if q > p {
                        assert(s@.subrange(0, q)[p as int] == '.');
                    }
                }
                if all_digits(jv) {
                    assert forall|k: int| 0 <= k < p implies is_digit(
                        #[trigger] s@.subrange(0, p as int)[k],
                    ) by {
                        assert(jv[k] == s@.subrange(0, p as int)[k]);
                    }
                    assert forall|k: int| 0 <= k < n - p - 1 implies is_digit(
                        #[trigger] s@.subrange(p + 1, n as int)[k],
                    ) by {
                        assert(jv[p + k] == s@.subrange(p + 1, n as int)[k]);
                    }
                    assert(point_at(s@, p as int));
                } else {
                    if point_at(s@, p as int) {
                        assert forall|k: int| 0 <= k < jv.len() implies is_digit(#[trigger] jv[k]) by {
                            if k < p {
                                assert(jv[k] == s@.subrange(0, p as int)[k]);
                            } else {
                                assert(jv[k] == s@.subrange(p + 1, n as int)[k - p]);
                            }
                        }
                    }
                }
            }
            match num {
                None => None,
                Some(x) => {
                    let den = pow10_checked(n - p - 1);
                    match den {
                        None => None,
                        Some(d) => {
                            proof {
                                assert(pow10((n - p - 1) as nat) >= 1) by {
                                    lemma_pow10_mono(0, (n - p - 1) as nat);
                                }
                            }
                            Some(Ratio { num: x, den: d })
                        },
                    }
                },
            }
        },
    }
}

fn digit_str(d: u64) -> (r: &'static str)
    requires
        d < 10,
    ensures
        r@ == seq![digit_char(d as nat)],
{
    proof {
        reveal_strlit("0");
        reveal_strlit("1");
        reveal_strlit("2");
        reveal_strlit("3");
        reveal_strlit("4");
        reveal_strlit("5");
        reveal_strlit("6");
        reveal_strlit("7");
        reveal_strlit("8");
        reveal_strlit("9");
    }
    if d == 0 {
        "0"
    } else if d == 1 {
        "1"
    } else if d == 2 {
        "2"
    } else if d == 3 {
        "3"
    } else if d == 4 {
        "4"
    } else if d == 5 {
        "5"
    } else if d == 6 {
        "6"
    } else if d == 7 {
        "7"
    } else if d == 8 {
        "8"
    } else {
        "9"
    }
}

/// Writes `n` in decimal.
pub fn decimal_string(n: u64) -> (r: String)
    ensures
        r@ == decimal_digits(n as nat),
    decreases n,
{
    if n < 10 {
        String::from_str(digit_str(n))
    } else {
        let mut s = decimal_string(n / 10);
        s.append(digit_str(n % 10));
        s
    }
}

} // verus!
