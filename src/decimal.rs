use vstd::prelude::*;

verus! {

/// The most digits that a decimal number may carry; it keeps the mantissa
/// and the power of ten of the scale within 64 bits.
pub const MAX_DIGITS: usize = 18;

pub open spec fn pow10(n: nat) -> nat
    decreases n,
{
    if n == 0 {
        1
    } else {
        10 * pow10((n - 1) as nat)
    }
}

pub proof fn lemma_pow10_positive(n: nat)
    ensures
        pow10(n) >= 1,
    decreases n,
{
    if n > 0 {
        lemma_pow10_positive((n - 1) as nat);
    }
}

pub proof fn lemma_pow10_bound(n: nat)
    requires
        n <= 18,
    ensures
        pow10(n) <= 1_000_000_000_000_000_000,
{
    reveal_with_fuel(pow10, 19);
    lemma_pow10_monotone(n, 18);
}

pub proof fn lemma_pow10_monotone(a: nat, b: nat)
    requires
        a <= b,
    ensures
        pow10(a) <= pow10(b),
    decreases b,
{
    if a < b {
        lemma_pow10_monotone(a, (b - 1) as nat);
    }
}

/// `10^n` for a scale that fits the bound of decimal numbers.
pub fn pow10_u64(n: u8) -> (r: u64)
    requires
        n <= 18,
    ensures
        r == pow10(n as nat),
{
    let mut r: u64 = 1;
    let mut i: u8 = 0;
    while i < n
        invariant
            i <= n <= 18,
            r == pow10(i as nat),
        decreases n - i,
    {
        proof {
            lemma_pow10_monotone((i + 1) as nat, 18);
            lemma_pow10_bound(18);
        }
        r = r * 10;
        i = i + 1;
    }
    r
}

pub open spec fn is_digit(c: char) -> bool {
    '0' <= c && c <= '9'
}

pub open spec fn digit_value(c: char) -> int {
    c as int - '0' as int
}

/// The digits of `s`, in order, with every other character left out.
pub open spec fn digits_of(s: Seq<char>) -> Seq<char>
    decreases s.len(),
{
    if s.len() == 0 {
        Seq::empty()
    } else if is_digit(s.last()) {
        digits_of(s.drop_last()).push(s.last())
    } else {
        digits_of(s.drop_last())
    }
}

/// How many decimal points `s` holds.
pub open spec fn dot_count(s: Seq<char>) -> nat
    decreases s.len(),
{
    if s.len() == 0 {
        0
    } else if s.last() == '.' {
        dot_count(s.drop_last()) + 1
    } else {
        dot_count(s.drop_last())
    }
}

/// How many characters follow the first decimal point of `s` (none if it has none).
pub open spec fn fraction_len(s: Seq<char>) -> nat
    decreases s.len(),
{
    if s.len() == 0 {
        0
    } else if dot_count(s.drop_last()) > 0 {
        fraction_len(s.drop_last()) + 1
    } else {
        0
    }
}

/// The integer that a string of digits denotes.
pub open spec fn digits_value(d: Seq<char>) -> int
    decreases d.len(),
{
    if d.len() == 0 {
        0
    } else {
        digits_value(d.drop_last()) * 10 + digit_value(d.last())
    }
}

pub open spec fn has_sign(s: Seq<char>) -> bool {
    s.len() > 0 && (s[0] == '-' || s[0] == '+')
}

pub open spec fn is_negative_text(s: Seq<char>) -> bool {
    s.len() > 0 && s[0] == '-'
}

/// `s` without its leading sign.
pub open spec fn unsigned_part(s: Seq<char>) -> Seq<char> {
    if has_sign(s) {
        s.subrange(1, s.len() as int)
    } else {
        s
    }
}

/// An optional sign, then digits with at most one decimal point among them,
/// and at least one digit in all (`7`, `-0.25`, `+3.`, `.5`).
pub open spec fn is_decimal_text(s: Seq<char>) -> bool {
    let b = unsigned_part(s);
    &&& forall|i: int| 0 <= i < b.len() ==> is_digit(#[trigger] b[i]) || b[i] == '.'
    &&& dot_count(b) <= 1
    &&& digits_of(b).len() >= 1
}

/// Decimal text that a `Decimal` can hold: no more than `MAX_DIGITS` digits.
pub open spec fn is_bounded_decimal_text(s: Seq<char>) -> bool {
    is_decimal_text(s) && digits_of(unsigned_part(s)).len() <= MAX_DIGITS
}

/// The mantissa of decimal text: its digits read as one integer, with its sign.
pub open spec fn text_mantissa(s: Seq<char>) -> int {
    let m = digits_value(digits_of(unsigned_part(s)));
    if is_negative_text(s) {
        -m
    } else {
        m
    }
}

/// The scale of decimal text: how many digits follow the decimal point.
pub open spec fn text_scale(s: Seq<char>) -> nat {
    fraction_len(unsigned_part(s))
}

/// A decimal number, `mantissa / 10^scale`.
#[derive(Clone, Copy, Debug, PartialEq, Eq, Structural)]
pub struct Decimal {
    pub mantissa: i64,
    pub scale: u8,
}

/// A ratio of two integers, `num / den`. It is kept unreduced: the operations
/// that produce one state its numerator and denominator exactly.
#[derive(Clone, Copy, Debug, PartialEq, Eq, Structural)]
pub struct Ratio {
    pub num: i128,
    pub den: i128,
}

impl Ratio {
    /// The ratio has a positive denominator.
    pub open spec fn wf(self) -> bool {
        self.den > 0
    }
}

proof fn lemma_prefix_counts(b: Seq<char>, k: int)
    requires
        0 <= k <= b.len(),
    ensures
        dot_count(b.subrange(0, k)) <= dot_count(b),
        digits_of(b.subrange(0, k)).len() <= digits_of(b).len(),
    decreases b.len(),
{
    if k < b.len() {
        lemma_prefix_counts(b.drop_last(), k);
        assert(b.drop_last().subrange(0, k) =~= b.subrange(0, k));
    } else {
        assert(b.subrange(0, k) =~= b);
    }
}

impl Decimal {
    /// The mantissa has at most `MAX_DIGITS` digits and the scale is at most
    /// `MAX_DIGITS`.
    pub open spec fn wf(self) -> bool {
        &&& -1_000_000_000_000_000_000 < self.mantissa < 1_000_000_000_000_000_000
        &&& self.scale <= MAX_DIGITS
    }

    /// The number as an exact ratio.
    pub open spec fn ratio(self) -> Ratio {
        Ratio { num: self.mantissa as i128, den: pow10(self.scale as nat) as i128 }
    }

    /// The number is greater than zero.
    pub open spec fn is_positive(self) -> bool {
        self.mantissa > 0
    }

    /// Reads decimal text: an optional sign, digits, and at most one decimal
    /// point among them. Text of any other form, or with more than
    /// `MAX_DIGITS` digits, gives `None`.
    pub fn parse(s: &str) -> (r: Option<Decimal>)
        ensures
            r.is_some() <==> is_bounded_decimal_text(s@),
            r matches Some(d) ==> d.wf() && d.mantissa == text_mantissa(s@) && d.scale
                == text_scale(s@),
    {
        let n = s.unicode_len();
        let mut start: usize = 0;
        let mut negative = false;
        if n > 0 {
            let c0 = s.get_char(0);
            if c0 == '-' {
                negative = true;
                start = 1;
            } else if c0 == '+' {
                start = 1;
            }
        }
        let ghost b = unsigned_part(s@);
        assert(b =~= s@.subrange(start as int, n as int));
        let mut m: u64 = 0;
        let mut ndigits: usize = 0;
        let mut seen_dot = false;
        let mut frac: usize = 0;
        let mut i: usize = start;
        while i < n
            invariant
                start <= i <= n,
                n == s@.len(),
                b == s@.subrange(start as int, n as int),
                b == unsigned_part(s@),
                negative == is_negative_text(s@),
                forall|j: int|
                    0 <= j < i - start ==> is_digit(#[trigger] b[j]) || b[j] == '.',
                dot_count(b.subrange(0, i - start)) <= 1,
                seen_dot == (dot_count(b.subrange(0, i - start)) == 1),
                ndigits == digits_of(b.subrange(0, i - start)).len(),
                ndigits <= MAX_DIGITS,
                m == digits_value(digits_of(b.subrange(0, i - start))),
                m < pow10(ndigits as nat),
                frac == fraction_len(b.subrange(0, i - start)),
                frac <= ndigits,
            decreases n - i,
        {
            let c = s.get_char(i);
            let ghost p = b.subrange(0, i - start);
            let ghost q = b.subrange(0, i + 1 - start);
            assert(q.drop_last() =~= p);
            assert(q.last() == c);
            let had_dot = seen_dot;
            assert(b[i - start] == c);
            if c == '.' {
                assert(dot_count(q) == dot_count(p) + 1);
                assert(digits_of(q) == digits_of(p));
                if seen_dot {
                    proof {
                        lemma_prefix_counts(b, i + 1 - start);
                    }
                    return None;
                }
                seen_dot = true;
            } else if '0' <= c && c <= '9' {
                if ndigits == MAX_DIGITS {
                    proof {
                        assert(digits_of(q) == digits_of(p).push(c));
                        lemma_prefix_counts(b, i + 1 - start);
                    }
                    return None;
                }
                proof {
                    lemma_pow10_bound((ndigits + 1) as nat);
                    assert(digits_of(q) == digits_of(p).push(c));
                    assert(digits_of(q).drop_last() =~= digits_of(p));
                    assert(dot_count(q) == dot_count(p));
                }
                m = m * 10 + (c as u64 - '0' as u64);
                ndigits = ndigits + 1;
            } else {
                assert(b[i - start] == c);
                return None;
            }
            if had_dot {
                frac = frac + 1;
            }
            i = i + 1;
        }
        assert(b.subrange(0, n - start) =~= b);
        if ndigits == 0 {
            return None;
        }
        proof {
            lemma_pow10_bound(ndigits as nat);
        }
        let mantissa: i64 = if negative {
            -(m as i64)
        } else {
            m as i64
        };
        Some(Decimal { mantissa, scale: frac as u8 })
    }

    /// The number as an exact ratio.
    pub fn to_ratio(&self) -> (r: Ratio)
        requires
            self.wf(),
        ensures
            r == self.ratio(),
            r.wf(),
    {
        proof {
            lemma_pow10_positive(self.scale as nat);
            lemma_pow10_bound(self.scale as nat);
        }
        Ratio { num: self.mantissa as i128, den: pow10_u64(self.scale) as i128 }
    }
}

} // verus!
