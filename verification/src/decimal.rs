//! Exact decimal amounts.
//!
//! Prices, quantities, account totals, signals and weights are decimal
//! numbers with six places after the point. A [`Decimal`] holds such a number
//! as a count of millionths; its view is that count. The magnitude is bounded
//! by [`LIMIT`], so that products of two amounts always fit in 128 bits.

use vstd::prelude::*;
use vstd::string::*;

verus! {

/// Millionths in one unit.
pub const SCALE: i64 = 1_000_000;

/// Largest magnitude of an amount, in millionths.
pub const LIMIT: i64 = 1_000_000_000_000_000_000;

/// A decimal number with six fractional digits.
#[derive(Clone, Copy, Debug, PartialEq, Eq, Structural)]
pub struct Decimal {
    micros: i64,
}

impl View for Decimal {
    type V = int;

    /// The amount in millionths.
    closed spec fn view(&self) -> int {
        self.micros as int
    }
}

/// The number within [`LIMIT`] that is nearest to `micros`.
pub open spec fn clamp(micros: int) -> int {
    if micros > LIMIT {
        LIMIT as int
    } else if micros < -LIMIT {
        -LIMIT
    } else {
        micros
    }
}

/// Integer division that rounds toward zero.
pub open spec fn trunc_div(a: int, b: int) -> int
    recommends
        b != 0,
{
    let q = (if a < 0 {
        -a
    } else {
        a
    }) / (if b < 0 {
        -b
    } else {
        b
    });
    if (a < 0) == (b < 0) {
        q
    } else {
        -q
    }
}

/// Divides and rounds toward zero.
pub fn divide(a: i128, b: i128) -> (r: i128)
    requires
        b != 0,
        i128::MIN < a,
        i128::MIN < b,
    ensures
        r == trunc_div(a as int, b as int),
{
    let x: u128 = if a < 0 {
        (-a) as u128
    } else {
        a as u128
    };
    let y: u128 = if b < 0 {
        (-b) as u128
    } else {
        b as u128
    };
    let q: u128 = x / y;
    if (a < 0) == (b < 0) {
        q as i128
    } else {
        -(q as i128)
    }
}

/// The mean of `count` numbers within a bound is within the bound.
pub proof fn lemma_mean_bound(sum: int, count: int, bound: int)
    requires
        count > 0,
        bound >= 0,
        -(count * bound) <= sum <= count * bound,
    ensures
        -bound <= trunc_div(sum, count) <= bound,
{
    let x = if sum < 0 {
        -sum
    } else {
        sum
    };
    assert(0 <= x / count <= bound) by (nonlinear_arith)
        requires
            0 <= x <= count * bound,
            count > 0,
            bound >= 0,
    ;
}

/// The quotient of two amounts, in millionths, rounded toward zero; `None`
/// when the divisor is zero or the quotient is beyond [`LIMIT`].
pub open spec fn quotient_micros(num: int, den: int) -> Option<int> {
    if den == 0 {
        None
    } else {
        let q = trunc_div(num * SCALE, den);
        if -LIMIT <= q <= LIMIT {
            Some(q)
        } else {
            None
        }
    }
}

/// The whole units in the magnitude of an amount, capped at `i32::MAX`.
pub open spec fn whole_units(micros: int) -> int {
    let magnitude = if micros < 0 {
        -micros
    } else {
        micros
    };
    let units = magnitude / (SCALE as int);
    if units > i32::MAX {
        i32::MAX as int
    } else {
        units
    }
}

/// Whether a byte is a decimal digit.
pub open spec fn is_digit(b: u8) -> bool {
    48 <= b <= 57
}

/// Whether every byte is a decimal digit.
pub open spec fn all_digits(s: Seq<u8>) -> bool {
    forall|i: int| 0 <= i < s.len() ==> is_digit(#[trigger] s[i])
}

/// The number that a run of decimal digits writes.
pub open spec fn digits_value(s: Seq<u8>) -> nat
    decreases s.len(),
{
    if s.len() == 0 {
        0
    } else {
        digits_value(s.drop_last()) * 10 + (s.last() - 48) as nat
    }
}

/// Ten to the power of `n`.
pub open spec fn pow10(n: nat) -> nat
    decreases n,
{
    if n == 0 {
        1
    } else {
        10 * pow10((n - 1) as nat)
    }
}

/// The millionths that the digits after the point stand for: the first six
/// count, later ones are dropped.
pub open spec fn fraction_micros(digits: Seq<u8>) -> nat {
    if digits.len() >= 6 {
        digits_value(digits.take(6))
    } else {
        digits_value(digits) * pow10((6 - digits.len()) as nat)
    }
}

/// Where the first point stands, or the length where there is none.
pub open spec fn dot_index(s: Seq<u8>) -> int
    decreases s.len(),
{
    if s.len() == 0 {
        0
    } else if s[0] == 46 {
        0
    } else {
        1 + dot_index(s.drop_first())
    }
}

/// The millionths written by unsigned decimal text: digits, then optionally
/// a point and more digits, with at least one digit in all.
pub open spec fn unsigned_micros(body: Seq<u8>) -> Option<nat> {
    let dot = dot_index(body);
    let whole = body.take(dot);
    let fraction = if dot < body.len() {
        body.skip(dot + 1)
    } else {
        Seq::<u8>::empty()
    };
    if all_digits(whole) && all_digits(fraction) && whole.len() + fraction.len() >= 1 {
        Some(digits_value(whole) * 1_000_000 + fraction_micros(fraction))
    } else {
        None
    }
}

/// The millionths written by decimal text with an optional leading `+` or
/// `-`; `None` for any other text and for numbers beyond [`LIMIT`].
pub open spec fn decimal_micros(text: Seq<u8>) -> Option<int> {
    let signed = text.len() > 0 && (text[0] == 45 || text[0] == 43);
    let negative = text.len() > 0 && text[0] == 45;
    let body = if signed {
        text.skip(1)
    } else {
        text
    };
    match unsigned_micros(body) {
        None => None,
        Some(m) => if m > LIMIT {
            None
        } else if negative {
            Some(-m)
        } else {
            Some(m as int)
        },
    }
}

/// The whole number written by an optional sign and at least one digit;
/// `None` for other text and for numbers outside `i32`.
pub open spec fn integer_value(text: Seq<u8>) -> Option<int> {
    let signed = text.len() > 0 && (text[0] == 45 || text[0] == 43);
    let negative = text.len() > 0 && text[0] == 45;
    let body = if signed {
        text.skip(1)
    } else {
        text
    };
    if body.len() >= 1 && all_digits(body) {
        let v = if negative {
            -digits_value(body)
        } else {
            digits_value(body) as int
        };
        if i32::MIN <= v <= i32::MAX {
            Some(v)
        } else {
            None
        }
    } else {
        None
    }
}

proof fn lemma_digits_push(s: Seq<u8>, d: u8)
    requires
        is_digit(d),
    ensures
        digits_value(s.push(d)) == digits_value(s) * 10 + (d - 48),
{
    assert(s.push(d).drop_last() =~= s);
}

proof fn lemma_dot_index_bounds(s: Seq<u8>)
    ensures
        0 <= dot_index(s) <= s.len(),
        dot_index(s) < s.len() ==> s[dot_index(s)] == 46,
        forall|j: int| 0 <= j < dot_index(s) ==> s[j] != 46,
    decreases s.len(),
{
    if s.len() > 0 && s[0] != 46 {
        let rest = s.drop_first();
        lemma_dot_index_bounds(rest);
        assert forall|j: int| 0 <= j < dot_index(s) implies s[j] != 46 by {
            if j > 0 {
                assert(s[j] == rest[j - 1]);
            }
        }
        if dot_index(s) < s.len() {
            assert(s[dot_index(s)] == rest[dot_index(rest)]);
        }
    }
}

proof fn lemma_dot_index_is(s: Seq<u8>, k: int)
    requires
        0 <= k <= s.len(),
        forall|j: int| 0 <= j < k ==> s[j] != 46,
        k < s.len() ==> s[k] == 46,
    ensures
        dot_index(s) == k,
{
    lemma_dot_index_bounds(s);
}

proof fn lemma_pow10_values()
    ensures
        pow10(0) == 1,
        pow10(1) == 10,
        pow10(2) == 100,
        pow10(3) == 1_000,
        pow10(4) == 10_000,
        pow10(5) == 100_000,
        pow10(6) == 1_000_000,
{
    reveal_with_fuel(pow10, 7);
}

/// Reads the digits that start at `from`. `value` is what they write unless
/// that is more than `cap`, which `over` reports.
fn scan_digits(bytes: &[u8], from: usize, cap: u64) -> (r: (usize, u64, bool))
    requires
        from <= bytes.len(),
        cap <= 1_000_000_000_000_000,
    ensures
        from <= r.0 <= bytes.len(),
        all_digits(bytes@.subrange(from as int, r.0 as int)),
        r.0 < bytes.len() ==> !is_digit(bytes@[r.0 as int]),
        !r.2 ==> r.1 == digits_value(bytes@.subrange(from as int, r.0 as int)) && r.1 <= cap,
        r.2 ==> digits_value(bytes@.subrange(from as int, r.0 as int)) > cap,
{
    let n = bytes.len();
    let mut i: usize = from;
    let mut value: u64 = 0;
    let mut over = false;
    proof {
        assert(bytes@.subrange(from as int, from as int) =~= Seq::<u8>::empty());
    }
    while i < n && 48 <= bytes[i] && bytes[i] <= 57
        invariant
            n == bytes.len(),
            from <= i <= n,
            cap <= 1_000_000_000_000_000,
            all_digits(bytes@.subrange(from as int, i as int)),
            !over ==> value == digits_value(bytes@.subrange(from as int, i as int)) && value
                <= cap,
            over ==> digits_value(bytes@.subrange(from as int, i as int)) > cap,
        decreases n - i,
    {
        let d = bytes[i] - 48;
        proof {
            let before = bytes@.subrange(from as int, i as int);
            let after = bytes@.subrange(from as int, i + 1);
            assert(after =~= before.push(bytes@[i as int]));
            lemma_digits_push(before, bytes@[i as int]);
            assert forall|j: int| 0 <= j < after.len() implies is_digit(#[trigger] after[j]) by {
                if j < before.len() {
                    assert(after[j] == before[j]);
                }
            }
        }
        if !over {
            let next = value * 10 + d as u64;
            if next > cap {
                over = true;
            } else {
                value = next;
            }
        }
        i = i + 1;
    }
    (i, value, over)
}

/// Reads the digits after the point, which start at `from`, and gives the
/// millionths they stand for.
fn scan_fraction(bytes: &[u8], from: usize) -> (r: (usize, u64))
    requires
        from <= bytes.len(),
    ensures
        from <= r.0 <= bytes.len(),
        all_digits(bytes@.subrange(from as int, r.0 as int)),
        r.0 < bytes.len() ==> !is_digit(bytes@[r.0 as int]),
        r.1 == fraction_micros(bytes@.subrange(from as int, r.0 as int)),
        r.1 < 1_000_000,
{
    let n = bytes.len();
    let mut i: usize = from;
    let mut value: u64 = 0;
    let mut taken: u8 = 0;
    proof {
        assert(bytes@.subrange(from as int, from as int) =~= Seq::<u8>::empty());
        lemma_pow10_values();
    }
    while i < n && 48 <= bytes[i] && bytes[i] <= 57
        invariant
            n == bytes.len(),
            from <= i <= n,
            taken <= 6,
            taken == if i - from >= 6 { 6int } else { i - from },
            all_digits(bytes@.subrange(from as int, i as int)),
            value == digits_value(bytes@.subrange(from as int, from + taken)),
            value < pow10(taken as nat),
        decreases n - i,
    {
        let d = bytes[i] - 48;
        proof {
            let before = bytes@.subrange(from as int, i as int);
            let after = bytes@.subrange(from as int, i + 1);
            assert forall|j: int| 0 <= j < after.len() implies is_digit(#[trigger] after[j]) by {
                if j < before.len() {
                    assert(after[j] == before[j]);
                }
            }
            lemma_pow10_values();
        }
        if taken < 6 {
            proof {
                let before = bytes@.subrange(from as int, from + taken);
                let after = bytes@.subrange(from as int, from + taken + 1);
                assert(after =~= before.push(bytes@[i as int]));
                lemma_digits_push(before, bytes@[i as int]);
            }
            value = value * 10 + d as u64;
            taken = taken + 1;
        }
        i = i + 1;
    }
    let ghost digits = bytes@.subrange(from as int, i as int);
    let ghost written = value;
    let ghost short = taken;
    proof {
        if digits.len() >= 6 {
            assert(digits.take(6) =~= bytes@.subrange(from as int, from + 6));
        } else {
            assert(digits =~= bytes@.subrange(from as int, from + taken));
        }
    }
    while taken < 6
        invariant
            short <= taken <= 6,
            value == written * pow10((taken - short) as nat),
            value < pow10(taken as nat),
            written < pow10(short as nat),
        decreases 6 - taken,
    {
        proof {
            lemma_pow10_values();
            assert(pow10((taken + 1 - short) as nat) == 10 * pow10((taken - short) as nat));
            assert(written * (10 * pow10((taken - short) as nat)) == 10 * (written * pow10(
                (taken - short) as nat,
            ))) by (nonlinear_arith);
        }
        value = value * 10;
        taken = taken + 1;
    }
    proof {
        lemma_pow10_values();
        if digits.len() >= 6 {
            assert(short == 6);
            assert(value == written * 1) by (nonlinear_arith)
                requires
                    value == written * pow10(0),
                    pow10(0) == 1,
            ;
        }
    }
    (i, value)
}

impl Decimal {
    #[verifier::type_invariant]
    spec fn within_limit(self) -> bool {
        -LIMIT <= self.micros <= LIMIT
    }

    /// The amount of `micros` millionths.
    pub closed spec fn of(micros: int) -> Decimal {
        Decimal { micros: micros as i64 }
    }

    /// `of` and the view are inverse to each other on amounts within the limit.
    pub proof fn lemma_of(micros: int)
        requires
            -LIMIT <= micros <= LIMIT,
        ensures
            Decimal::of(micros)@ == micros,
    {
    }

    /// An amount is determined by its view.
    pub proof fn lemma_same(a: Decimal, b: Decimal)
        ensures
            a@ == b@ <==> a == b,
            Decimal::of(a@) == a,
    {
    }

    /// The amount of nothing.
    pub fn zero() -> (r: Decimal)
        ensures
            r@ == 0,
            r == Decimal::of(0),
    {
        Decimal { micros: 0 }
    }

    /// The amount of `micros` millionths, if that is within the limit.
    pub fn from_micros(micros: i64) -> (r: Option<Decimal>)
        ensures
            r is Some <==> -LIMIT <= micros <= LIMIT,
            r matches Some(d) ==> d@ == micros && d == Decimal::of(micros as int),
    {
        if -LIMIT <= micros && micros <= LIMIT {
            Some(Decimal { micros })
        } else {
            None
        }
    }

    /// The amount of `units` whole units.
    pub fn from_units(units: i32) -> (r: Decimal)
        ensures
            r@ == units * SCALE,
            r == Decimal::of(units * SCALE),
    {
        let wide: i64 = units as i64;
        Decimal { micros: wide * SCALE }
    }

    /// The amount nearest to `micros` millionths.
    pub fn clamped(micros: i128) -> (r: Decimal)
        ensures
            r@ == clamp(micros as int),
            r == Decimal::of(clamp(micros as int)),
    {
        if micros > 1_000_000_000_000_000_000 {
            Decimal { micros: LIMIT }
        } else if micros < -1_000_000_000_000_000_000 {
            Decimal { micros: -LIMIT }
        } else {
            Decimal { micros: micros as i64 }
        }
    }

    /// The amount in millionths.
    pub fn micros(&self) -> (r: i64)
        ensures
            r == self@,
            -LIMIT <= r <= LIMIT,
    {
        proof {
            use_type_invariant(self);
        }
        self.micros
    }

    /// Whether the amount is more than zero.
    pub fn is_positive(&self) -> (r: bool)
        ensures
            r == (self@ > 0),
    {
        self.micros > 0
    }

    /// Whether the amount is zero.
    pub fn is_zero(&self) -> (r: bool)
        ensures
            r == (self@ == 0),
    {
        self.micros == 0
    }

    /// The whole units in the magnitude of the amount: the sign is dropped
    /// and the fraction cut off. Amounts beyond `i32::MAX` units give
    /// `i32::MAX`.
    pub fn whole_shares(&self) -> (r: i32)
        ensures
            r == whole_units(self@),
            r >= 0,
    {
        proof {
            use_type_invariant(self);
        }
        let magnitude: i64 = if self.micros < 0 {
            -self.micros
        } else {
            self.micros
        };
        let units: i64 = magnitude / SCALE;
        if units > 2_147_483_647 {
            2_147_483_647
        } else {
            units as i32
        }
    }

    /// `num / den` as an amount: see [`quotient_micros`].
    pub open spec fn spec_quotient(num: Decimal, den: Decimal) -> Option<Decimal> {
        match quotient_micros(num@, den@) {
            Some(q) => Some(Decimal::of(q)),
            None => None,
        }
    }

    /// `num / den`, rounded toward zero at the sixth place.
    #[verifier::when_used_as_spec(spec_quotient)]
    pub fn quotient(num: Decimal, den: Decimal) -> (r: Option<Decimal>)
        ensures
            r == Decimal::spec_quotient(num, den),
            r matches Some(q) ==> q@ == quotient_micros(num@, den@)->0,
    {
        proof {
            use_type_invariant(num);
            use_type_invariant(den);
        }
        if den.micros == 0 {
            return None;
        }
        let n: i128 = num.micros as i128;
        let d: i128 = den.micros as i128;
        let scaled: i128 = n * 1_000_000;
        let un: u128 = if scaled < 0 {
            (-scaled) as u128
        } else {
            scaled as u128
        };
        let ud: u128 = if d < 0 {
            (-d) as u128
        } else {
            d as u128
        };
        let uq: u128 = un / ud;
        if uq > 1_000_000_000_000_000_000 {
            return None;
        }
        let q: i64 = if (scaled < 0) == (d < 0) {
            uq as i64
        } else {
            -(uq as i64)
        };
        Some(Decimal { micros: q })
    }

    /// Reads decimal text: an optional sign, digits, and optionally a point
    /// and more digits. Digits past the sixth place are dropped.
    pub fn parse(text: &str) -> (r: Option<Decimal>)
        ensures
            r is Some <==> decimal_micros(text.spec_bytes()) is Some,
            r matches Some(d) ==> d@ == decimal_micros(text.spec_bytes())->0 && d == Decimal::of(
                d@,
            ),
    {
        let bytes = text.as_bytes();
        let n = bytes.len();
        let signed = n > 0 && (bytes[0] == 45 || bytes[0] == 43);
        let negative = n > 0 && bytes[0] == 45;
        let start: usize = if signed {
            1
        } else {
            0
        };
        let ghost body = if signed {
            bytes@.skip(1)
        } else {
            bytes@
        };
        let (dot, whole, over) = scan_digits(bytes, start, 1_000_000_000_000);
        let ghost whole_digits = bytes@.subrange(start as int, dot as int);
        proof {
            assert(body =~= bytes@.subrange(start as int, n as int));
            assert(forall|j: int| 0 <= j < dot - start ==> body[j] == whole_digits[j]);
            lemma_dot_index_bounds(body);
        }
        let mut end: usize = dot;
        let mut micros: u64 = 0;
        let mut fraction_len: usize = 0;
        if dot < n && bytes[dot] == 46 {
            let (stop, m) = scan_fraction(bytes, dot + 1);
            end = stop;
            micros = m;
            fraction_len = stop - (dot + 1);
            proof {
                lemma_dot_index_is(body, dot - start);
                assert(body.take(dot - start) =~= whole_digits);
                let fraction = bytes@.subrange(dot + 1, stop as int);
                if stop == n {
                    assert(body.skip(dot - start + 1) =~= fraction);
                } else {
                    let tail = body.skip(dot - start + 1);
                    assert(tail[stop - dot - 1] == bytes@[stop as int]);
                }
            }
        } else {
            proof {
                if dot == n {
                    lemma_dot_index_is(body, dot - start);
                    assert(body.take(dot - start) =~= whole_digits);
                    lemma_pow10_values();
                    assert(digits_value(Seq::<u8>::empty()) == 0);
                } else {
                    assert(body[dot - start] == bytes@[dot as int]);
                    assert(dot_index(body) > dot - start);
                    assert(body.take(dot_index(body))[dot - start] == body[dot - start]);
                }
            }
        }
        if end != n {
            return None;
        }
        if (dot - start) + fraction_len == 0 {
            return None;
        }
        if over {
            proof {
                assert(digits_value(whole_digits) * 1_000_000 > LIMIT) by (nonlinear_arith)
                    requires
                        digits_value(whole_digits) > 1_000_000_000_000,
                ;
            }
            return None;
        }
        let magnitude: u64 = whole * 1_000_000 + micros;
        if magnitude > 1_000_000_000_000_000_000 {
            return None;
        }
        let value: i64 = if negative {
            -(magnitude as i64)
        } else {
            magnitude as i64
        };
        Some(Decimal { micros: value })
    }
}

/// Reads a whole number: an optional sign and at least one digit.
pub fn parse_integer(text: &str) -> (r: Option<i32>)
    ensures
        r is Some <==> integer_value(text.spec_bytes()) is Some,
        r matches Some(v) ==> v == integer_value(text.spec_bytes())->0,
{
    let bytes = text.as_bytes();
    let n = bytes.len();
    let signed = n > 0 && (bytes[0] == 45 || bytes[0] == 43);
    let negative = n > 0 && bytes[0] == 45;
    let start: usize = if signed {
        1
    } else {
        0
    };
    let (end, value, over) = scan_digits(bytes, start, 2_147_483_648);
    proof {
        let body = if signed {
            bytes@.skip(1)
        } else {
            bytes@
        };
        assert(body =~= bytes@.subrange(start as int, n as int));
        if end < n {
            assert(body[end - start] == bytes@[end as int]);
        }
    }
    if end != n || end == start || over {
        return None;
    }
    if negative {
        Some((-(value as i64)) as i32)
    } else if value > 2_147_483_647 {
        None
    } else {
        Some(value as i32)
    }
}

} // verus!
