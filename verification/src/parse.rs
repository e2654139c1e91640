//! Parsers for the operator's raw text: plain integers, pre-scaled
//! measurements, the `A B` pair form, and the `ddmmyyyy` birth date.
//!
//! Each parser states exactly which inputs it accepts and which error
//! each rejected input yields.

use vstd::prelude::*;
use vstd::string::{StrSliceExecFns, StringExecFns};

use crate::date::PlainDate;
use crate::num::{
    dec_digits, dec_digits_exec, digit_char, digit_val, is_digit, lemma_dec_digits_props, pow10,
    pow10_exec, spec_decimal, NumXNum, PreciseNum,
};

verus! {

/// Why a piece of operator text was rejected.
#[derive(Clone, Copy, Debug, PartialEq, Eq, Structural)]
pub enum ParseError {
    InvalidDate,
    InvalidNumber,
    EmptyNumber,
    NumXNumNeedTwo,
    NumXNumFirstInvalid,
    NumXNumSecondInvalid,
    NumXNumTooMany,
    EmptyString,
}

impl ParseError {
    pub open spec fn message_spec(self) -> Seq<char> {
        match self {
            ParseError::InvalidDate => "Некорректная дата (ожидаю ДДММГГГГ)."@,
            ParseError::InvalidNumber => "Некорректное число."@,
            ParseError::EmptyNumber => "Ввод этого числа нельзя пропустить."@,
            ParseError::NumXNumNeedTwo => "Введите два числа через пробел."@,
            ParseError::NumXNumFirstInvalid => "Первое число некорректно."@,
            ParseError::NumXNumSecondInvalid => "Второе число некорректно."@,
            ParseError::NumXNumTooMany => "Должно быть ровно два числа, введено более двух."@,
            ParseError::EmptyString => "Строка не должна быть пустой."@,
        }
    }

    /// The operator-facing description of the error.
    pub fn message(&self) -> (r: &'static str)
        ensures
            r@ == self.message_spec(),
    {
        match self {
            ParseError::InvalidDate => "Некорректная дата (ожидаю ДДММГГГГ).",
            ParseError::InvalidNumber => "Некорректное число.",
            ParseError::EmptyNumber => "Ввод этого числа нельзя пропустить.",
            ParseError::NumXNumNeedTwo => "Введите два числа через пробел.",
            ParseError::NumXNumFirstInvalid => "Первое число некорректно.",
            ParseError::NumXNumSecondInvalid => "Второе число некорректно.",
            ParseError::NumXNumTooMany => "Должно быть ровно два числа, введено более двух.",
            ParseError::EmptyString => "Строка не должна быть пустой.",
        }
    }
}

/// Every character of `s` is a decimal digit.
pub open spec fn all_digits(s: Seq<char>) -> bool {
    forall|i: int| 0 <= i < s.len() ==> is_digit(#[trigger] s[i])
}

/// The value of a digit string read left to right.
pub open spec fn digits_val(s: Seq<char>) -> nat
    decreases s.len(),
{
    if s.len() == 0 {
        0
    } else {
        digits_val(s.drop_last()) * 10 + digit_val(s.last())
    }
}

/// What parsing an `i64` from `s` yields: empty input is its own error;
/// an optional sign, then digits only; a value out of the 64-bit range
/// is rejected as an invalid number.
pub open spec fn spec_parse_int(s: Seq<char>) -> Result<i64, ParseError> {
    if s.len() == 0 {
        Err(ParseError::EmptyNumber)
    } else {
        let neg = s[0] == '-';
        let signed = s[0] == '-' || s[0] == '+';
        let ds = if signed {
            s.skip(1)
        } else {
            s
        };
        if ds.len() == 0 || !all_digits(ds) {
            Err(ParseError::InvalidNumber)
        } else if neg {
            if digits_val(ds) <= 9_223_372_036_854_775_808nat {
                Ok((-(digits_val(ds) as int)) as i64)
            } else {
                Err(ParseError::InvalidNumber)
            }
        } else {
            if digits_val(ds) <= 9_223_372_036_854_775_807nat {
                Ok(digits_val(ds) as i64)
            } else {
                Err(ParseError::InvalidNumber)
            }
        }
    }
}

/// The characters of `s`, in order.
pub(crate) fn str_chars(s: &str) -> (v: Vec<char>)
    ensures
        v@ == s@,
{
    let n: usize = s.unicode_len();
    let mut v: Vec<char> = Vec::new();
    let mut i: usize = 0;
    while i < n
        invariant
            i <= n,
            n == s@.len(),
            v@ == s@.take(i as int),
        decreases n - i,
    {
        let c: char = s.get_char(i);
        v.push(c);
        proof {
            assert(v@ =~= s@.take(i as int + 1));
        }
        i = i + 1;
    }
    proof {
        assert(s@.take(n as int) =~= s@);
    }
    v
}

#[verifier::loop_isolation(false)]
fn parse_int_range(v: &Vec<char>, from: usize, to: usize) -> (r: Result<i64, ParseError>)
    requires
        from <= to <= v@.len(),
    ensures
        r == spec_parse_int(v@.subrange(from as int, to as int)),
{
    let ghost s = v@.subrange(from as int, to as int);
    if from == to {
        return Err(ParseError::EmptyNumber);
    }
    let c0: char = v[from];
    assert(c0 == s[0]);
    let neg: bool = c0 == '-';
    let signed: bool = c0 == '-' || c0 == '+';
    let start: usize = if signed {
        from + 1
    } else {
        from
    };
    let ghost ds = if signed {
        s.skip(1)
    } else {
        s
    };
    proof {
        assert(ds.len() == to - start);
        assert(forall|k: int| 0 <= k < ds.len() ==> ds[k] == v@[start + k]);
    }
    if start == to {
        return Err(ParseError::InvalidNumber);
    }
    let limit: u64 = if neg {
        9_223_372_036_854_775_808u64
    } else {
        9_223_372_036_854_775_807u64
    };
    let mut acc: u64 = 0;
    let mut over: bool = false;
    let mut i: usize = start;
    while i < to
        invariant
            start <= i <= to <= v@.len(),
            ds.len() == to - start,
            forall|k: int| 0 <= k < ds.len() ==> ds[k] == v@[start + k],
            limit == if neg {
                9_223_372_036_854_775_808u64
            } else {
                9_223_372_036_854_775_807u64
            },
            all_digits(ds.take(i - start)),
            !over ==> acc == digits_val(ds.take(i - start)) && acc <= limit,
            over ==> digits_val(ds.take(i - start)) > limit,
        decreases to - i,
    {
        let c: char = v[i];
        proof {
            assert(c == ds[i - start]);
        }
        if !('0' <= c && c <= '9') {
            proof {
                assert(!is_digit(ds[i - start]));
                assert(!all_digits(ds)) by {
                    assert(0 <= i - start < ds.len() && !is_digit(ds[i - start]));
                }
            }
            return Err(ParseError::InvalidNumber);
        }
        let d: u64 = (c as u32 - '0' as u32) as u64;
        proof {
            assert(d == digit_val(c));
            assert(d <= 9);
            assert(ds.take(i - start + 1).drop_last() =~= ds.take(i - start));
            assert(ds.take(i - start + 1).last() == ds[i - start]);
        }
        if over || acc > (limit - d) / 10 {
            proof {
                if !over {
                    vstd::arithmetic::div_mod::lemma_fundamental_div_mod(
                        (limit - d) as int,
                        10int,
                    );
                    vstd::arithmetic::div_mod::lemma_mod_bound((limit - d) as int, 10int);
                    assert(acc * 10 + d > limit);
                }
                assert(digits_val(ds.take(i - start + 1)) > limit);
            }
            over = true;
        } else {
            acc = acc * 10 + d;
        }
        i = i + 1;
    }
    proof {
        assert(ds.take(to - start) =~= ds);
    }
    if over {
        return Err(ParseError::InvalidNumber);
    }
    if neg {
        if acc == 9_223_372_036_854_775_808u64 {
            Ok(i64::MIN)
        } else {
            Ok(-(acc as i64))
        }
    } else {
        Ok(acc as i64)
    }
}

/// Parses an `i64`: an optional sign, then decimal digits; empty input
/// and malformed or out-of-range numbers are rejected with their own
/// errors.
pub fn parse_int(inp: &str) -> (r: Result<i64, ParseError>)
    ensures
        r == spec_parse_int(inp@),
{
    let v: Vec<char> = str_chars(inp);
    let n: usize = v.len();
    proof {
        assert(v@.subrange(0, n as int) =~= inp@);
    }
    parse_int_range(&v, 0, n)
}

/// What parsing a pre-scaled measurement yields: the integer mantissa
/// with the declared precision attached.
pub open spec fn spec_parse_num(s: Seq<char>, p: u8) -> Result<PreciseNum, ParseError> {
    match spec_parse_int(s) {
        Ok(n) => Ok(PreciseNum { num: n as i128, precision: p }),
        Err(e) => Err(e),
    }
}

/// Parses a pre-scaled integer mantissa and attaches the declared
/// precision: the text `175` at precision 1 is the value `17,5`.
pub fn parse_num_precise(inp: &str, precision: u8) -> (r: Result<PreciseNum, ParseError>)
    ensures
        r == spec_parse_num(inp@, precision),
{
    match parse_int(inp) {
        Ok(n) => Ok(PreciseNum::new_scaled(n, precision)),
        Err(e) => Err(e),
    }
}

/// Rejects only the empty string.
pub fn parse_string(inp: &str) -> (r: Result<String, ParseError>)
    ensures
        inp@.len() == 0 ==> r == Err::<String, ParseError>(ParseError::EmptyString),
        inp@.len() > 0 ==> r is Ok,
        r matches Ok(s) ==> s@ == inp@,
{
    if inp.is_empty() {
        Err(ParseError::EmptyString)
    } else {
        Ok(inp.to_owned())
    }
}

/// The whitespace that separates the two numbers of a pair.
pub open spec fn is_space(c: char) -> bool {
    c == ' ' || c == '\t' || c == '\n' || c == '\r' || c == '\u{b}' || c == '\u{c}'
}

/// The first position at or after `i` holding a non-space character, or
/// the end of `s`.
pub open spec fn skip_spaces(s: Seq<char>, i: int) -> int
    decreases s.len() - i,
{
    if i < 0 || i >= s.len() {
        s.len() as int
    } else if is_space(s[i]) {
        skip_spaces(s, i + 1)
    } else {
        i
    }
}

/// The first position at or after `i` holding a space, or the end of
/// `s`.
pub open spec fn token_end(s: Seq<char>, i: int) -> int
    decreases s.len() - i,
{
    if i < 0 || i >= s.len() {
        s.len() as int
    } else if !is_space(s[i]) {
        token_end(s, i + 1)
    } else {
        i
    }
}

fn is_space_exec(c: char) -> (b: bool)
    ensures
        b == is_space(c),
{
    c == ' ' || c == '\t' || c == '\n' || c == '\r' || c == '\u{b}' || c == '\u{c}'
}

fn skip_spaces_exec(v: &Vec<char>, from: usize) -> (r: usize)
    requires
        from <= v@.len(),
    ensures
        r == skip_spaces(v@, from as int),
        from <= r <= v@.len(),
    decreases v@.len() - from,
{
    if from == v.len() {
        return from;
    }
    if is_space_exec(v[from]) {
        skip_spaces_exec(v, from + 1)
    } else {
        from
    }
}

fn token_end_exec(v: &Vec<char>, from: usize) -> (r: usize)
    requires
        from <= v@.len(),
    ensures
        r == token_end(v@, from as int),
        from <= r <= v@.len(),
    decreases v@.len() - from,
{
    if from == v.len() {
        return from;
    }
    if !is_space_exec(v[from]) {
        token_end_exec(v, from + 1)
    } else {
        from
    }
}

/// What parsing the `A B` pair yields, in the order the checks run:
/// fewer than two space-separated numbers, a malformed first or second
/// number, and more than two numbers each give their own error.
pub open spec fn spec_parse_num_x_num(s: Seq<char>, p: u8) -> Result<NumXNum, ParseError> {
    let i0 = skip_spaces(s, 0);
    if i0 == s.len() {
        Err(ParseError::NumXNumNeedTwo)
    } else {
        let i1 = token_end(s, i0);
        match spec_parse_int(s.subrange(i0, i1)) {
            Err(_) => Err(ParseError::NumXNumFirstInvalid),
            Ok(n1) => {
                let i2 = skip_spaces(s, i1);
                if i2 == s.len() {
                    Err(ParseError::NumXNumNeedTwo)
                } else {
                    let i3 = token_end(s, i2);
                    match spec_parse_int(s.subrange(i2, i3)) {
                        Err(_) => Err(ParseError::NumXNumSecondInvalid),
                        Ok(n2) => {
                            if skip_spaces(s, i3) < s.len() {
                                Err(ParseError::NumXNumTooMany)
                            } else {
                                Ok(
                                    NumXNum {
                                        num1: PreciseNum { num: n1 as i128, precision: p },
                                        num2: PreciseNum { num: n2 as i128, precision: p },
                                    },
                                )
                            }
                        },
                    }
                }
            },
        }
    }
}

/// Parses exactly two space-separated pre-scaled numbers into a pair.
pub fn parse_num_x_num(inp: &str, precision: u8) -> (r: Result<NumXNum, ParseError>)
    ensures
        r == spec_parse_num_x_num(inp@, precision),
{
    let v: Vec<char> = str_chars(inp);
    let n: usize = v.len();
    let i0: usize = skip_spaces_exec(&v, 0);
    if i0 == n {
        return Err(ParseError::NumXNumNeedTwo);
    }
    let i1: usize = token_end_exec(&v, i0);
    let first: Result<i64, ParseError> = parse_int_range(&v, i0, i1);
    match first {
        Err(_) => Err(ParseError::NumXNumFirstInvalid),
        Ok(n1) => {
            let i2: usize = skip_spaces_exec(&v, i1);
            if i2 == n {
                return Err(ParseError::NumXNumNeedTwo);
            }
            let i3: usize = token_end_exec(&v, i2);
            let second: Result<i64, ParseError> = parse_int_range(&v, i2, i3);
            match second {
                Err(_) => Err(ParseError::NumXNumSecondInvalid),
                Ok(n2) => {
                    let i4: usize = skip_spaces_exec(&v, i3);
                    if i4 < n {
                        Err(ParseError::NumXNumTooMany)
                    } else {
                        Ok(
                            NumXNum {
                                num1: PreciseNum::new_scaled(n1, precision),
                                num2: PreciseNum::new_scaled(n2, precision),
                            },
                        )
                    }
                },
            }
        },
    }
}

proof fn lemma_digit_val_of_char(d: nat)
    requires
        d < 10,
    ensures
        is_digit(digit_char(d)),
        digit_val(digit_char(d)) == d,
{
}

/// The value of the canonical digit string of `m` is `m` itself.
pub proof fn lemma_digits_val_dec_digits(m: nat)
    ensures
        digits_val(dec_digits(m)) == m,
    decreases m,
{
    if m < 10 {
        let t = dec_digits(m);
        assert(t =~= seq![digit_char(m)]);
        assert(t.drop_last() =~= Seq::<char>::empty());
        assert(t.last() == digit_char(m));
        lemma_digit_val_of_char(m);
        assert(digits_val(t.drop_last()) == 0);
        assert(digits_val(t) == digits_val(t.drop_last()) * 10 + digit_val(t.last()));
    } else {
        lemma_digits_val_dec_digits(m / 10);
        let t = dec_digits(m);
        assert(t =~= dec_digits(m / 10) + seq![digit_char(m % 10)]);
        assert(t.drop_last() =~= dec_digits(m / 10));
        assert(t.last() == digit_char(m % 10));
        lemma_digit_val_of_char(m % 10);
        assert(digits_val(t) == digits_val(t.drop_last()) * 10 + digit_val(t.last()));
        assert(digits_val(t) == (m / 10) * 10 + (m % 10));
        vstd::arithmetic::div_mod::lemma_fundamental_div_mod(m as int, 10int);
    }
}

/// Formatting an integer and parsing the text back returns exactly the
/// integer: the parse/format round trip on the representable inputs.
pub proof fn lemma_int_round_trip(n: i64)
    ensures
        spec_parse_int(spec_decimal(n as int, 0)) == Ok::<i64, ParseError>(n),
{
    let s = spec_decimal(n as int, 0);
    if n >= 0 {
        let m = n as nat;
        assert(s == dec_digits(m));
        lemma_dec_digits_props(m);
        lemma_digits_val_dec_digits(m);
        assert(is_digit(s[0]));
        assert(s[0] != '-' && s[0] != '+');
        assert(all_digits(s)) by {
            assert(forall|i: int|
                0 <= i < s.len() ==> is_digit(#[trigger] s[i]) == is_digit(dec_digits(m)[i]));
        }
        assert(digits_val(s) == m);
    } else {
        let m = (-(n as int)) as nat;
        assert(s == seq!['-'] + dec_digits(m));
        lemma_dec_digits_props(m);
        lemma_digits_val_dec_digits(m);
        assert(s[0] == '-');
        let ds = s.skip(1);
        assert(ds =~= dec_digits(m));
        assert(ds.len() >= 1);
        assert(all_digits(ds)) by {
            assert(forall|i: int|
                0 <= i < ds.len() ==> is_digit(#[trigger] ds[i]) == is_digit(dec_digits(m)[i]));
        }
        assert(digits_val(ds) == m);
        assert(m <= 9_223_372_036_854_775_808nat);
        assert((-(digits_val(ds) as int)) as i64 == n);
    }
}

/// The round trip lifted to a measurement: the mantissa text parses back
/// to the same stored value and precision.
pub proof fn lemma_num_round_trip(n: i64, p: u8)
    ensures
        spec_parse_num(spec_decimal(n as int, 0), p) == Ok::<PreciseNum, ParseError>(
            PreciseNum { num: n as i128, precision: p },
        ),
{
    lemma_int_round_trip(n);
}

/// The prompt label for a pre-scaled number: marked as a whole number,
/// or with its divisor `10^p` spelled out.
pub open spec fn spec_prep_num_msg(msg: Seq<char>, p: u8) -> Seq<char> {
    if p == 0 {
        msg + " (целое)"@
    } else {
        msg + " (/"@ + dec_digits(pow10(p as nat)) + ")"@
    }
}

/// Builds the prompt label for a pre-scaled number.  Precisions beyond
/// 18 would overflow the original 64-bit divisor and are excluded.
pub fn prep_num_msg(msg: &str, p: u8) -> (s: String)
    requires
        p <= 18,
    ensures
        s@ == spec_prep_num_msg(msg@, p),
{
    if p == 0 {
        let mut s: String = String::from_str(msg);
        s.append(" (целое)");
        s
    } else {
        let q: u128 = pow10_exec(p);
        let qs: String = dec_digits_exec(q);
        let mut s: String = String::from_str(msg);
        s.append(" (/");
        s.append(qs.as_str());
        s.append(")");
        proof {
            assert(s@ =~= spec_prep_num_msg(msg@, p));
        }
        s
    }
}

/// What parsing a birth date yields: exactly eight digits read as
/// `ddmmyyyy`, which must form a real calendar date.
pub open spec fn spec_parse_date(s: Seq<char>) -> Result<PlainDate, ParseError> {
    if s.len() == 8 && all_digits(s) {
        let date = PlainDate {
            year: digits_val(s.subrange(4, 8)) as i32,
            month: digits_val(s.subrange(2, 4)) as u8,
            day: digits_val(s.subrange(0, 2)) as u8,
        };
        if date.wf() {
            Ok(date)
        } else {
            Err(ParseError::InvalidDate)
        }
    } else {
        Err(ParseError::InvalidDate)
    }
}

fn digit_at(v: &Vec<char>, i: usize) -> (d: u32)
    requires
        i < v@.len(),
        is_digit(v@[i as int]),
    ensures
        d == digit_val(v@[i as int]),
        d <= 9,
{
    let c: char = v[i];
    c as u32 - '0' as u32
}

/// Parses a `ddmmyyyy` birth date; anything but eight digits forming a
/// real calendar date is rejected.
pub fn parse_date(inp: &str) -> (r: Result<PlainDate, ParseError>)
    ensures
        r == spec_parse_date(inp@),
{
    let v: Vec<char> = str_chars(inp);
    if v.len() != 8 {
        return Err(ParseError::InvalidDate);
    }
    let mut i: usize = 0;
    while i < 8
        invariant
            i <= 8,
            v@.len() == 8,
            v@ == inp@,
            forall|k: int| 0 <= k < i ==> is_digit(#[trigger] v@[k]),
        decreases 8 - i,
    {
        let c: char = v[i];
        if !('0' <= c && c <= '9') {
            proof {
                assert(!is_digit(inp@[i as int]));
            }
            return Err(ParseError::InvalidDate);
        }
        i = i + 1;
    }
    let day: u8 = (digit_at(&v, 0) * 10 + digit_at(&v, 1)) as u8;
    let month: u8 = (digit_at(&v, 2) * 10 + digit_at(&v, 3)) as u8;
    let year: i32 = (digit_at(&v, 4) * 1000 + digit_at(&v, 5) * 100 + digit_at(&v, 6) * 10
        + digit_at(&v, 7)) as i32;
    proof {
        let s = inp@;
        assert(s.subrange(0, 2).drop_last() =~= s.subrange(0, 1));
        assert(s.subrange(0, 1).drop_last() =~= s.subrange(0, 0));
        assert(s.subrange(2, 4).drop_last() =~= s.subrange(2, 3));
        assert(s.subrange(2, 3).drop_last() =~= s.subrange(2, 2));
        assert(s.subrange(4, 8).drop_last() =~= s.subrange(4, 7));
        assert(s.subrange(4, 7).drop_last() =~= s.subrange(4, 6));
        assert(s.subrange(4, 6).drop_last() =~= s.subrange(4, 5));
        assert(s.subrange(4, 5).drop_last() =~= s.subrange(4, 4));
        assert(digits_val(s.subrange(0, 0)) == 0);
        assert(s.subrange(0, 1).last() == s[0]);
        assert(digits_val(s.subrange(0, 1)) == digit_val(s[0]));
        assert(s.subrange(0, 2).last() == s[1]);
        assert(digits_val(s.subrange(0, 2)) == digit_val(s[0]) * 10 + digit_val(s[1]));
        assert(digits_val(s.subrange(2, 2)) == 0);
        assert(s.subrange(2, 3).last() == s[2]);
        assert(digits_val(s.subrange(2, 3)) == digit_val(s[2]));
        assert(s.subrange(2, 4).last() == s[3]);
        assert(digits_val(s.subrange(2, 4)) == digit_val(s[2]) * 10 + digit_val(s[3]));
        assert(digits_val(s.subrange(4, 4)) == 0);
        assert(s.subrange(4, 5).last() == s[4]);
        assert(digits_val(s.subrange(4, 5)) == digit_val(s[4]));
        assert(s.subrange(4, 6).last() == s[5]);
        assert(digits_val(s.subrange(4, 6)) == digit_val(s[4]) * 10 + digit_val(s[5]));
        assert(s.subrange(4, 7).last() == s[6]);
        assert(digits_val(s.subrange(4, 7)) == digit_val(s[4]) * 100 + digit_val(s[5]) * 10
            + digit_val(s[6]));
        assert(s.subrange(4, 8).last() == s[7]);
        assert(digits_val(s.subrange(4, 8)) == digit_val(s[4]) * 1000 + digit_val(s[5]) * 100
            + digit_val(s[6]) * 10 + digit_val(s[7]));
        assert(day == digits_val(s.subrange(0, 2)));
        assert(month == digits_val(s.subrange(2, 4)));
        assert(year == digits_val(s.subrange(4, 8)));
    }
    if crate::date::valid_date(year, month, day) {
        Ok(PlainDate { year, month, day })
    } else {
        Err(ParseError::InvalidDate)
    }
}

} // verus!
