//! Fixed-precision decimal values and their locale rendering.
//!
//! A measurement is the rational `num / 10^precision`; it renders with
//! exactly `precision` fractional digits and a decimal comma.  Quotients
//! of measurements are rounded half away from zero, uniformly.

use vstd::prelude::*;
use vstd::string::StringExecFns;

verus! {

/// Mantissas and divisors handed to the rounding division stay below this
/// bound so that every 128-bit intermediate (`2*a + b`) stays in range.
pub const DIV_LIMIT: i128 = 10_000_000_000_000_000_000_000_000_000_000_000_000;

/// `10^p`.
pub open spec fn pow10(p: nat) -> nat
    decreases p,
{
    if p == 0 {
        1
    } else {
        10 * pow10((p - 1) as nat)
    }
}

pub proof fn lemma_pow10_mono(a: nat, b: nat)
    requires
        a <= b,
    ensures
        pow10(a) <= pow10(b),
    decreases b,
{
    if a < b {
        lemma_pow10_mono(a, (b - 1) as nat);
        assert(pow10(b) == 10 * pow10((b - 1) as nat));
    }
}

pub proof fn lemma_pow10_38()
    ensures
        pow10(38) == 100_000_000_000_000_000_000_000_000_000_000_000_000nat,
{
    reveal_with_fuel(pow10, 40);
}

/// `10^p` as a machine integer.
pub fn pow10_exec(p: u8) -> (r: u128)
    requires
        p <= 38,
    ensures
        r == pow10(p as nat),
        r >= 1,
    decreases p,
{
    if p == 0 {
        1
    } else {
        let sub: u128 = pow10_exec(p - 1);
        proof {
            lemma_pow10_mono(p as nat, 38);
            lemma_pow10_38();
            assert(pow10(p as nat) == 10 * pow10((p - 1) as nat));
        }
        10 * sub
    }
}

/// A decimal digit character.
pub open spec fn is_digit(c: char) -> bool {
    '0' <= c && c <= '9'
}

/// The numeric value of a digit character.
pub open spec fn digit_val(c: char) -> nat {
    (c as u32 - '0' as u32) as nat
}

/// The decimal digit character for `d` (`d < 10`).
pub open spec fn digit_char(d: nat) -> char {
    if d == 0 {
        '0'
    } else if d == 1 {
        '1'
    } else if d == 2 {
        '2'
    } else if d == 3 {
        '3'
    } else if d == 4 {
        '4'
    } else if d == 5 {
        '5'
    } else if d == 6 {
        '6'
    } else if d == 7 {
        '7'
    } else if d == 8 {
        '8'
    } else {
        '9'
    }
}

/// The ordinary decimal digit string of `n`, without sign or padding.
pub open spec fn dec_digits(n: nat) -> Seq<char>
    decreases n,
{
    if n < 10 {
        seq![digit_char(n)]
    } else {
        dec_digits(n / 10) + seq![digit_char(n % 10)]
    }
}

/// The last `width` decimal digits of `n`, zero-padded to `width` characters.
pub open spec fn dec_digits_pad(n: nat, width: nat) -> Seq<char>
    decreases width,
{
    if width == 0 {
        Seq::<char>::empty()
    } else {
        dec_digits_pad(n / 10, (width - 1) as nat) + seq![digit_char(n % 10)]
    }
}

/// The locale text of the nonnegative value `n / 10^p`: the integer part,
/// then a comma, then exactly `p` fractional digits.
pub open spec fn spec_decimal_nat(n: nat, p: nat) -> Seq<char> {
    if p == 0 {
        dec_digits(n)
    } else {
        dec_digits(n / pow10(p)) + seq![','] + dec_digits_pad(n % pow10(p), p)
    }
}

/// The locale text of the value `num / 10^p`, a minus sign first when negative.
pub open spec fn spec_decimal(num: int, p: nat) -> Seq<char> {
    if num < 0 {
        seq!['-'] + spec_decimal_nat((-num) as nat, p)
    } else {
        spec_decimal_nat(num as nat, p)
    }
}

fn digit_str(d: u128) -> (s: &'static str)
    requires
        d < 10,
    ensures
        s@ == seq![digit_char(d as nat)],
{
    let r: &'static str = if d == 0 {
        "0"
    } else if d == 1 {
        "1"
    } else if d == 2 {
        "2"
    } else if d == 3 {
        "3"
    } else if d == 4 {
        "4"
    } else if d == 5 {
        "5"
    } else if d == 6 {
        "6"
    } else if d == 7 {
        "7"
    } else if d == 8 {
        "8"
    } else {
        "9"
    };
    proof {
        reveal_strlit("0");
        reveal_strlit("1");
        reveal_strlit("2");
        reveal_strlit("3");
        reveal_strlit("4");
        reveal_strlit("5");
        reveal_strlit("6");
        reveal_strlit("7");
        reveal_strlit("8");
        reveal_strlit("9");
        assert(r@ =~= seq![digit_char(d as nat)]);
    }
    r
}

pub(crate) fn dec_digits_exec(n: u128) -> (s: String)
    ensures
        s@ == dec_digits(n as nat),
    decreases n,
{
    if n < 10 {
        String::from_str(digit_str(n))
    } else {
        let mut s: String = dec_digits_exec(n / 10);
        s.append(digit_str(n % 10));
        s
    }
}

pub(crate) fn dec_digits_pad_exec(n: u128, width: u8) -> (s: String)
    ensures
        s@ == dec_digits_pad(n as nat, width as nat),
    decreases width,
{
    if width == 0 {
        String::new()
    } else {
        let mut s: String = dec_digits_pad_exec(n / 10, width - 1);
        s.append(digit_str(n % 10));
        s
    }
}

pub proof fn lemma_dec_digits_props(n: nat)
    ensures
        dec_digits(n).len() >= 1,
        forall|i: int| 0 <= i < dec_digits(n).len() ==> is_digit(#[trigger] dec_digits(n)[i]),
    decreases n,
{
    if n >= 10 {
        lemma_dec_digits_props(n / 10);
    }
}

pub proof fn lemma_dec_digits_pad_props(n: nat, w: nat)
    ensures
        dec_digits_pad(n, w).len() == w,
        forall|i: int| 0 <= i < w ==> is_digit(#[trigger] dec_digits_pad(n, w)[i]),
    decreases w,
{
    if w > 0 {
        lemma_dec_digits_pad_props(n / 10, (w - 1) as nat);
    }
}

/// A fixed-precision decimal value: the number `num / 10^precision`.
///
/// The mantissa is a plain integer, so every computation on it is exact
/// decimal arithmetic; the text form always shows exactly `precision`
/// fractional digits, with a comma as the decimal separator.
#[derive(Clone, Copy, Debug, PartialEq, Eq, Structural)]
pub struct PreciseNum {
    pub num: i128,
    pub precision: u8,
}

impl PreciseNum {
    /// The mantissa can be negated and `10^precision` computed in 128 bits.
    pub open spec fn inv(self) -> bool {
        self.num != i128::MIN && self.precision <= 38
    }

    /// The locale text of this value.
    pub open spec fn spec_format(self) -> Seq<char> {
        spec_decimal(self.num as int, self.precision as nat)
    }

    /// Builds the value `n / 10^p` from a pre-scaled integer mantissa.
    pub fn new_scaled(n: i64, p: u8) -> (r: PreciseNum)
        ensures
            r.num == n as int,
            r.precision == p,
    {
        PreciseNum { num: n as i128, precision: p }
    }

    /// Renders the value with exactly `precision` fractional digits and a
    /// decimal comma.
    pub fn format(&self) -> (s: String)
        requires
            self.inv(),
        ensures
            s@ == self.spec_format(),
    {
        let mag: u128 = if self.num >= 0 {
            self.num as u128
        } else {
            (-self.num) as u128
        };
        if self.precision == 0 {
            let ds: String = dec_digits_exec(mag);
            if self.num < 0 {
                let mut s: String = String::from_str("-");
                s.append(ds.as_str());
                proof {
                    reveal_strlit("-");
                    assert(s@ =~= self.spec_format());
                }
                s
            } else {
                ds
            }
        } else {
            let q: u128 = pow10_exec(self.precision);
            proof {
                lemma_pow10_mono(1, self.precision as nat);
            }
            let ip: String = dec_digits_exec(mag / q);
            let fp: String = dec_digits_pad_exec(mag % q, self.precision);
            let mut s: String = if self.num < 0 {
                let t: String = String::from_str("-");
                proof {
                    reveal_strlit("-");
                }
                t
            } else {
                String::new()
            };
            s.append(ip.as_str());
            s.append(",");
            s.append(fp.as_str());
            proof {
                reveal_strlit(",");
                assert(s@ =~= self.spec_format());
            }
            s
        }
    }
}

/// Renders a plain integer in decimal, as its ordinary digit string.
pub fn format_int(n: i64) -> (s: String)
    ensures
        s@ == spec_decimal(n as int, 0),
{
    let v: PreciseNum = PreciseNum::new_scaled(n, 0);
    v.format()
}

/// The formatting invariant: with a positive precision the text carries
/// exactly `precision` digits after the one decimal comma, which is the
/// only comma; with precision zero it carries no comma at all.
pub proof fn lemma_format_fraction_digits(v: PreciseNum)
    ensures
        v.precision > 0 ==> v.spec_format().len() > v.precision,
        v.precision > 0 ==> v.spec_format()[v.spec_format().len() - v.precision - 1] == ',',
        v.precision > 0 ==> forall|j: int|
            v.spec_format().len() - v.precision <= j < v.spec_format().len() ==> is_digit(
                #[trigger] v.spec_format()[j],
            ),
        v.precision > 0 ==> forall|j: int|
            0 <= j < v.spec_format().len() - v.precision - 1 ==> #[trigger] v.spec_format()[j]
                != ',',
        v.precision == 0 ==> forall|j: int|
            0 <= j < v.spec_format().len() ==> #[trigger] v.spec_format()[j] != ',',
{
    let p = v.precision as nat;
    let mag: nat = if v.num >= 0 {
        v.num as nat
    } else {
        (-v.num) as nat
    };
    lemma_dec_digits_props(mag);
    if p == 0 {
        assert forall|j: int| 0 <= j < v.spec_format().len() implies #[trigger] v.spec_format()[j]
            != ',' by {
            if v.num < 0 {
                if j > 0 {
                    assert(v.spec_format()[j] == dec_digits(mag)[j - 1]);
                }
            } else {
                assert(v.spec_format()[j] == dec_digits(mag)[j]);
            }
        }
    } else {
        lemma_pow10_mono(1, p);
        let ip = dec_digits(mag / pow10(p));
        let fp = dec_digits_pad(mag % pow10(p), p);
        lemma_dec_digits_props(mag / pow10(p));
        lemma_dec_digits_pad_props(mag % pow10(p), p);
        let t = v.spec_format();
        let head: int = if v.num < 0 {
            1int
        } else {
            0int
        };
        assert(t.len() == head + ip.len() + 1 + p);
        assert(t[head + ip.len()] == ',');
        assert forall|j: int| t.len() - p <= j < t.len() implies is_digit(#[trigger] t[j]) by {
            assert(t[j] == fp[j - (head + ip.len() + 1)]);
        }
        assert forall|j: int| 0 <= j < t.len() - p - 1 implies #[trigger] t[j] != ',' by {
            if v.num < 0 && j == 0 {
            } else {
                assert(t[j] == ip[j - head]);
                assert(is_digit(ip[j - head]));
            }
        }
    }
}

/// Rounds the nonnegative rational `a / b` (with `b > 0`) to the nearest
/// integer, halves rounded up.
pub open spec fn round_nat(a: nat, b: nat) -> nat
    recommends
        b > 0,
{
    (2 * a + b) / (2 * b)
}

/// Rounds the rational `a / b` (with `b != 0`) to the nearest integer,
/// halves rounded away from zero.
pub open spec fn spec_ratio_int(a: int, b: int) -> int
    recommends
        b != 0,
{
    let aa = if a >= 0 { a } else { -a };
    let bb = if b >= 0 { b } else { -b };
    let m = round_nat(aa as nat, bb as nat) as int;
    if (a >= 0) == (b >= 0) {
        m
    } else {
        -m
    }
}

proof fn lemma_round_nat_le(a: nat, b: nat)
    requires
        b > 0,
    ensures
        round_nat(a, b) <= a,
{
    let x = (2 * a + b) as int;
    let d = (2 * b) as int;
    let m = round_nat(a, b) as int;
    vstd::arithmetic::div_mod::lemma_fundamental_div_mod(x, d);
    vstd::arithmetic::div_mod::lemma_mod_bound(x, d);
    assert(m == x / d);
    assert(d * m <= x);
    assert(m <= a) by (nonlinear_arith)
        requires
            d * m <= x,
            x == 2 * a + b,
            d == 2 * b,
            b >= 1,
            a >= 0,
            m >= 0,
    ;
}

/// Rounds `a / b` (with `b != 0`) to the nearest integer, halves away
/// from zero.
pub fn round_div(a: i128, b: i128) -> (r: i128)
    requires
        b != 0,
        -DIV_LIMIT < a < DIV_LIMIT,
        -DIV_LIMIT < b < DIV_LIMIT,
    ensures
        r == spec_ratio_int(a as int, b as int),
        -DIV_LIMIT < r < DIV_LIMIT,
{
    let aa: u128 = if a >= 0 {
        a as u128
    } else {
        (-a) as u128
    };
    let bb: u128 = if b >= 0 {
        b as u128
    } else {
        (-b) as u128
    };
    let m: u128 = (2 * aa + bb) / (2 * bb);
    proof {
        lemma_round_nat_le(aa as nat, bb as nat);
    }
    if (a >= 0) == (b >= 0) {
        m as i128
    } else {
        -(m as i128)
    }
}

/// A value computed by a clinical formula: either a finite fixed-precision
/// decimal, or the non-finite outcome of a division by zero.  The textual
/// sentinels for the non-finite outcomes are `inf`, `-inf` and `NaN`.
#[derive(Clone, Copy, Debug, PartialEq, Eq, Structural)]
pub enum CalcNum {
    Num(PreciseNum),
    PositiveInfinity,
    NegativeInfinity,
    NotANumber,
}

impl CalcNum {
    pub open spec fn inv(self) -> bool {
        match self {
            CalcNum::Num(v) => v.inv(),
            _ => true,
        }
    }

    pub open spec fn spec_format(self) -> Seq<char> {
        match self {
            CalcNum::Num(v) => v.spec_format(),
            CalcNum::PositiveInfinity => "inf"@,
            CalcNum::NegativeInfinity => "-inf"@,
            CalcNum::NotANumber => "NaN"@,
        }
    }

    /// Renders the value; a non-finite outcome renders as its sentinel.
    pub fn format(&self) -> (s: String)
        requires
            self.inv(),
        ensures
            s@ == self.spec_format(),
    {
        match self {
            CalcNum::Num(v) => v.format(),
            CalcNum::PositiveInfinity => String::from_str("inf"),
            CalcNum::NegativeInfinity => String::from_str("-inf"),
            CalcNum::NotANumber => String::from_str("NaN"),
        }
    }
}

/// Two measurements of one dimension, presented as `A×B`.
#[derive(Clone, Copy, Debug, PartialEq, Eq, Structural)]
pub struct NumXNum {
    pub num1: PreciseNum,
    pub num2: PreciseNum,
}

impl NumXNum {
    pub open spec fn inv(self) -> bool {
        self.num1.inv() && self.num2.inv()
    }

    pub open spec fn spec_format(self) -> Seq<char> {
        self.num1.spec_format() + "×"@ + self.num2.spec_format()
    }

    /// Renders the pair as `A×B`.
    pub fn format(&self) -> (s: String)
        requires
            self.inv(),
        ensures
            s@ == self.spec_format(),
    {
        let mut s: String = self.num1.format();
        s.append("×");
        let second: String = self.num2.format();
        s.append(second.as_str());
        proof {
            assert(s@ =~= self.spec_format());
        }
        s
    }
}

/// A stroke volume together with its origin: computed automatically from
/// the Simpson volumes, or entered by the operator (Doppler measurement).
#[derive(Clone, Copy, Debug, PartialEq, Eq, Structural)]
pub struct AutoValue {
    pub value: PreciseNum,
    pub auto: bool,
}

impl AutoValue {
    pub open spec fn inv(self) -> bool {
        self.value.inv()
    }

    /// The value with its unit; a manually entered value is marked as the
    /// Doppler measurement it is.
    pub open spec fn spec_format(self) -> Seq<char> {
        self.value.spec_format() + " мл"@ + if self.auto {
            Seq::<char>::empty()
        } else {
            " (по допплеру)"@
        }
    }

    pub fn format(&self) -> (s: String)
        requires
            self.inv(),
        ensures
            s@ == self.spec_format(),
    {
        let mut s: String = self.value.format();
        s.append(" мл");
        if !self.auto {
            s.append(" (по допплеру)");
        }
        proof {
            assert(s@ =~= self.spec_format());
        }
        s
    }
}

/// What `render_to_string` yields: the empty string for an absent value,
/// else the value's text wrapped in the given prefix and suffix.
pub open spec fn spec_compose(value: Option<PreciseNum>, left: Seq<char>, right: Seq<char>) -> Seq<
    char,
> {
    match value {
        Option::None => Seq::<char>::empty(),
        Option::Some(v) => left + v.spec_format() + right,
    }
}

pub open spec fn opt_inv(value: Option<PreciseNum>) -> bool {
    match value {
        Option::None => true,
        Option::Some(v) => v.inv(),
    }
}

/// Composes the text fragment for an optional measurement: empty when the
/// value is absent, else `prefix + value + suffix`.
pub fn render_to_string(value: Option<PreciseNum>, left: &str, right: &str) -> (s: String)
    requires
        opt_inv(value),
    ensures
        s@ == spec_compose(value, left@, right@),
{
    match value {
        Option::Some(v) => {
            let mut s: String = String::from_str(left);
            let middle: String = v.format();
            s.append(middle.as_str());
            s.append(right);
            proof {
                assert(s@ =~= spec_compose(value, left@, right@));
            }
            s
        }
        Option::None => String::new(),
    }
}

/// Renders a measurement's plain text: the mantissa with its declared
/// precision and the decimal comma.
pub fn prep_num(num: &PreciseNum) -> (s: String)
    requires
        num.inv(),
    ensures
        s@ == num.spec_format(),
{
    num.format()
}

/// The quotient `a / (b * 10^p)` rounded half away from zero to a mantissa
/// of precision `p`; division by zero gives the non-finite value with the
/// sign of the numerator.
pub open spec fn spec_div_calc(a: int, b: int, p: u8) -> CalcNum {
    if b == 0 {
        if a > 0 {
            CalcNum::PositiveInfinity
        } else if a < 0 {
            CalcNum::NegativeInfinity
        } else {
            CalcNum::NotANumber
        }
    } else {
        CalcNum::Num(PreciseNum { num: spec_ratio_int(a, b) as i128, precision: p })
    }
}

/// Divides a pre-scaled numerator `a` by `b`, keeping `p` fractional
/// digits; a zero divisor yields the signed non-finite value, as a float
/// division would.
pub fn div_calc(a: i128, b: i128, p: u8) -> (r: CalcNum)
    requires
        -DIV_LIMIT < a < DIV_LIMIT,
        -DIV_LIMIT < b < DIV_LIMIT,
        p <= 38,
    ensures
        r == spec_div_calc(a as int, b as int, p),
        r.inv(),
{
    if b == 0 {
        if a > 0 {
            CalcNum::PositiveInfinity
        } else if a < 0 {
            CalcNum::NegativeInfinity
        } else {
            CalcNum::NotANumber
        }
    } else {
        let m: i128 = round_div(a, b);
        CalcNum::Num(PreciseNum { num: m, precision: p })
    }
}

} // verus!
