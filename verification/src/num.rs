//! Integers in text: parsing as `str::parse` does for the primitive integer
//! types, and decimal / hexadecimal rendering as `format!` does.
use vstd::prelude::*;

verus! {

/// Why a string is not an integer (the kinds of `std::num::ParseIntError`).
#[derive(Debug, Clone, Copy, PartialEq, Eq)]
pub enum IntErrorKind {
    Empty,
    InvalidDigit,
    PosOverflow,
    NegOverflow,
}

impl IntErrorKind {
    /// The text that `ParseIntError` displays for this kind.
    pub fn description(&self) -> (s: &'static str)
        ensures
            s@ == int_error_text(*self),
    {
        match self {
            IntErrorKind::Empty => "cannot parse integer from empty string",
            IntErrorKind::InvalidDigit => "invalid digit found in string",
            IntErrorKind::PosOverflow => "number too large to fit in target type",
            IntErrorKind::NegOverflow => "number too small to fit in target type",
        }
    }
}

/// The text that `ParseIntError` displays for each kind.
pub open spec fn int_error_text(k: IntErrorKind) -> Seq<char> {
    match k {
        IntErrorKind::Empty => "cannot parse integer from empty string"@,
        IntErrorKind::InvalidDigit => "invalid digit found in string"@,
        IntErrorKind::PosOverflow => "number too large to fit in target type"@,
        IntErrorKind::NegOverflow => "number too small to fit in target type"@,
    }
}

pub open spec fn is_digit(c: char) -> bool {
    '0' <= c <= '9'
}

pub open spec fn digit_val(c: char) -> nat {
    ((c as int) - ('0' as int)) as nat
}

/// The value of a string of decimal digits.
pub open spec fn dec_value(s: Seq<char>) -> nat
    decreases s.len(),
{
    if s.len() == 0 {
        0
    } else {
        dec_value(s.drop_last()) * 10 + digit_val(s.last())
    }
}

/// The first index at or after `i` that holds no decimal digit (or the length).
pub open spec fn digits_end(s: Seq<char>, i: int) -> int
    decreases s.len() - i,
{
    if i < 0 || i >= s.len() {
        s.len() as int
    } else if !is_digit(s[i]) {
        i
    } else {
        digits_end(s, i + 1)
    }
}

/// `str::parse` for an integer type whose range is `lo..=hi`
/// (`signed` when the type accepts a leading `-`).
pub open spec fn parse_int(s: Seq<char>, signed: bool, lo: int, hi: int) -> Result<
    int,
    IntErrorKind,
> {
    if s.len() == 0 {
        Err(IntErrorKind::Empty)
    } else {
        let neg = signed && s[0] == '-';
        let d = if s[0] == '+' || neg {
            s.drop_first()
        } else {
            s
        };
        if d.len() == 0 {
            Err(IntErrorKind::InvalidDigit)
        } else {
            let k = digits_end(d, 0);
            let v = dec_value(d.take(k));
            if !neg && v > hi {
                Err(IntErrorKind::PosOverflow)
            } else if neg && -v < lo {
                Err(IntErrorKind::NegOverflow)
            } else if k < d.len() {
                Err(IntErrorKind::InvalidDigit)
            } else if neg {
                Ok(-v)
            } else {
                Ok(v as int)
            }
        }
    }
}

pub open spec fn parse_u64(s: Seq<char>) -> Option<u64> {
    match parse_int(s, false, 0, u64::MAX as int) {
        Ok(v) => Some(v as u64),
        Err(_) => None,
    }
}

pub open spec fn parse_u32(s: Seq<char>) -> Option<u32> {
    match parse_int(s, false, 0, u32::MAX as int) {
        Ok(v) => Some(v as u32),
        Err(_) => None,
    }
}

pub open spec fn parse_u16(s: Seq<char>) -> Option<u16> {
    match parse_int(s, false, 0, u16::MAX as int) {
        Ok(v) => Some(v as u16),
        Err(_) => None,
    }
}

pub open spec fn parse_u8(s: Seq<char>) -> Option<u8> {
    match parse_int(s, false, 0, u8::MAX as int) {
        Ok(v) => Some(v as u8),
        Err(_) => None,
    }
}

pub open spec fn parse_i32(s: Seq<char>) -> Option<i32> {
    match parse_int(s, true, i32::MIN as int, i32::MAX as int) {
        Ok(v) => Some(v as i32),
        Err(_) => None,
    }
}

pub open spec fn parse_i64(s: Seq<char>) -> Option<i64> {
    match parse_int(s, true, i64::MIN as int, i64::MAX as int) {
        Ok(v) => Some(v as i64),
        Err(_) => None,
    }
}

pub open spec fn narrow_i128(r: Result<int, IntErrorKind>) -> Result<i128, IntErrorKind> {
    match r {
        Ok(v) => Ok(v as i128),
        Err(e) => Err(e),
    }
}

pub open spec fn narrow_u64(r: Result<int, IntErrorKind>) -> Result<u64, IntErrorKind> {
    match r {
        Ok(v) => Ok(v as u64),
        Err(e) => Err(e),
    }
}

proof fn lemma_dec_value_push(s: Seq<char>, c: char)
    ensures
        dec_value(s.push(c)) == dec_value(s) * 10 + digit_val(c),
{
    assert(s.push(c).drop_last() =~= s);
}

proof fn lemma_digits_end_bounds(s: Seq<char>, i: int)
    requires
        0 <= i <= s.len(),
    ensures
        i <= digits_end(s, i) <= s.len(),
        forall|j: int| i <= j < digits_end(s, i) ==> is_digit(s[j]),
        digits_end(s, i) < s.len() ==> !is_digit(s[digits_end(s, i)]),
    decreases s.len() - i,
{
    if i < s.len() && is_digit(s[i]) {
        lemma_digits_end_bounds(s, i + 1);
    }
}

/// Growing a run of digits never lowers its value.
proof fn lemma_dec_value_mono(s: Seq<char>, j: int, k: int)
    requires
        0 <= j <= k <= s.len(),
    ensures
        dec_value(s.take(j)) <= dec_value(s.take(k)),
    decreases k - j,
{
    if j < k {
        lemma_dec_value_mono(s, j, k - 1);
        assert(s.take(k).drop_last() =~= s.take(k - 1));
    }
}

/// Parses an integer of the range `lo..=hi` from `s` as `str::parse` does.
pub fn parse_int_exec(s: &Vec<char>, signed: bool, lo: i128, hi: i128) -> (r: Result<
    i128,
    IntErrorKind,
>)
    requires
        -0x1_0000_0000_0000_0000 <= lo <= 0 <= hi <= 0x1_0000_0000_0000_0000,
    ensures
        r == narrow_i128(parse_int(s@, signed, lo as int, hi as int)),
        r is Ok ==> lo <= r->Ok_0 <= hi,
{
    if s.len() == 0 {
        return Err(IntErrorKind::Empty);
    }
    let neg = signed && s[0] == '-';
    let start: usize = if s[0] == '+' || neg {
        1
    } else {
        0
    };
    let ghost d = if s@[0] == '+' || neg {
        s@.drop_first()
    } else {
        s@
    };
    assert(d =~= s@.subrange(start as int, s@.len() as int));
    if start == s.len() {
        return Err(IntErrorKind::InvalidDigit);
    }
    let mut acc: i128 = 0;
    let mut i: usize = start;
    proof {
        lemma_digits_end_bounds(d, 0);
    }
    while i < s.len()
        invariant
            start <= i <= s@.len(),
            start < s@.len(),
            d == s@.subrange(start as int, s@.len() as int),
            s@.len() > 0,
            neg == (signed && s@[0] == '-'),
            d == (if s@[0] == '+' || neg {
                s@.drop_first()
            } else {
                s@
            }),
            forall|j: int| 0 <= j < i - start ==> is_digit(d[j]),
            0 <= acc <= 0x1_0000_0000_0000_0000,
            acc == dec_value(d.take(i - start)),
            !neg ==> acc <= hi,
            neg ==> -acc >= lo,
            -0x1_0000_0000_0000_0000 <= lo <= 0 <= hi <= 0x1_0000_0000_0000_0000,
        decreases s@.len() - i,
    {
        let c = s[i];
        let ghost k = (i - start) as int;
        assert(d[k] == c);
        if !('0' <= c && c <= '9') {
            proof {
                assert(digits_end(d, 0) == k) by {
                    lemma_digits_end_bounds(d, 0);
                    if digits_end(d, 0) > k {
                        assert(is_digit(d[k]));
                    }
                    if digits_end(d, 0) < k {
                        assert(is_digit(d[digits_end(d, 0)]));
                    }
                }
            }
            return Err(IntErrorKind::InvalidDigit);
        }
        let dv: i128 = (c as u32 - '0' as u32) as i128;
        proof {
            assert(d.take(k + 1) =~= d.take(k).push(c));
            lemma_dec_value_push(d.take(k), c);
        }
        acc = acc * 10 + dv;
        i = i + 1;
        if !neg && acc > hi {
            proof {
                lemma_digits_end_bounds(d, 0);
                assert(digits_end(d, 0) >= k + 1) by {
                    if digits_end(d, 0) < k + 1 {
                        assert(is_digit(d[digits_end(d, 0)]));
                    }
                }
                lemma_dec_value_mono(d, k + 1, digits_end(d, 0));
            }
            return Err(IntErrorKind::PosOverflow);
        }
        if neg && -acc < lo {
            proof {
                lemma_digits_end_bounds(d, 0);
                assert(digits_end(d, 0) >= k + 1) by {
                    if digits_end(d, 0) < k + 1 {
                        assert(is_digit(d[digits_end(d, 0)]));
                    }
                }
                lemma_dec_value_mono(d, k + 1, digits_end(d, 0));
            }
            return Err(IntErrorKind::NegOverflow);
        }
    }
    proof {
        lemma_digits_end_bounds(d, 0);
        assert(digits_end(d, 0) == d.len()) by {
            if digits_end(d, 0) < d.len() {
                assert(is_digit(d[digits_end(d, 0)]));
            }
        }
        assert(d.take(d.len() as int) =~= d);
    }
    if neg {
        Ok(-acc)
    } else {
        Ok(acc)
    }
}

/// `str::parse::<u64>`.
pub fn parse_u64_chars(s: &Vec<char>) -> (r: Option<u64>)
    ensures
        r == parse_u64(s@),
{
    match parse_int_exec(s, false, 0, 0xffff_ffff_ffff_ffff) {
        Ok(v) => Some(v as u64),
        Err(_) => None,
    }
}

/// `str::parse::<u64>`, keeping the kind of error.
pub fn parse_u64_result(s: &Vec<char>) -> (r: Result<u64, IntErrorKind>)
    ensures
        r == narrow_u64(parse_int(s@, false, 0, u64::MAX as int)),
{
    match parse_int_exec(s, false, 0, 0xffff_ffff_ffff_ffff) {
        Ok(v) => Ok(v as u64),
        Err(e) => Err(e),
    }
}

/// `str::parse::<u32>`.
pub fn parse_u32_chars(s: &Vec<char>) -> (r: Option<u32>)
    ensures
        r == parse_u32(s@),
{
    match parse_int_exec(s, false, 0, 0xffff_ffff) {
        Ok(v) => Some(v as u32),
        Err(_) => None,
    }
}

/// `str::parse::<u16>`.
pub fn parse_u16_chars(s: &Vec<char>) -> (r: Option<u16>)
    ensures
        r == parse_u16(s@),
{
    match parse_int_exec(s, false, 0, 0xffff) {
        Ok(v) => Some(v as u16),
        Err(_) => None,
    }
}

/// `str::parse::<u8>`.
pub fn parse_u8_chars(s: &Vec<char>) -> (r: Option<u8>)
    ensures
        r == parse_u8(s@),
{
    match parse_int_exec(s, false, 0, 0xff) {
        Ok(v) => Some(v as u8),
        Err(_) => None,
    }
}

/// `str::parse::<i32>`.
pub fn parse_i32_chars(s: &Vec<char>) -> (r: Option<i32>)
    ensures
        r == parse_i32(s@),
{
    match parse_int_exec(s, true, -0x8000_0000, 0x7fff_ffff) {
        Ok(v) => Some(v as i32),
        Err(_) => None,
    }
}

/// `str::parse::<i64>`.
pub fn parse_i64_chars(s: &Vec<char>) -> (r: Option<i64>)
    ensures
        r == parse_i64(s@),
{
    match parse_int_exec(s, true, -0x8000_0000_0000_0000, 0x7fff_ffff_ffff_ffff) {
        Ok(v) => Some(v as i64),
        Err(_) => None,
    }
}

// ---------------------------------------------------------------------------
// Rendering
// ---------------------------------------------------------------------------
/// The character of a digit value below 16 (lower-case letters above 9).
pub open spec fn digit_char(d: nat) -> char {
    if d == 0 {
        '0'
    } else if d == 1 {
        '1'
    } else if d == 2 {
        '2'
    } else if d == 3 {
        '3'
    } else if d == 4 {
        '4'
    } else if d == 5 {
        '5'
    } else if d == 6 {
        '6'
    } else if d == 7 {
        '7'
    } else if d == 8 {
        '8'
    } else if d == 9 {
        '9'
    } else if d == 10 {
        'a'
    } else if d == 11 {
        'b'
    } else if d == 12 {
        'c'
    } else if d == 13 {
        'd'
    } else if d == 14 {
        'e'
    } else {
        'f'
    }
}

/// The digits of `n` in base `b`, most significant first, without padding.
pub open spec fn digits(n: nat, b: nat) -> Seq<char>
    recommends
        2 <= b <= 16,
    decreases n,
{
    if n < b || b < 2 {
        seq![digit_char(n)]
    } else {
        proof {
            lemma_div_smaller(n, b);
        }
        digits(n / b, b).push(digit_char(n % b))
    }
}

pub proof fn lemma_div_smaller(n: nat, b: nat)
    requires
        n >= b,
        b >= 2,
    ensures
        n / b < n,
{
    assert(n / b < n) by (nonlinear_arith)
        requires
            n >= b,
            b >= 2,
    ;
}

proof fn lemma_digit_value(d: nat)
    requires
        d < 10,
    ensures
        is_digit(digit_char(d)),
        digit_val(digit_char(d)) == d,
{
}

/// `format!("{}", n)` for an unsigned `n`.
pub open spec fn dec(n: nat) -> Seq<char> {
    digits(n, 10)
}

/// `format!("{}", n)` for a signed `n`.
pub open spec fn dec_signed(n: int) -> Seq<char> {
    if n < 0 {
        seq!['-'] + dec((-n) as nat)
    } else {
        dec(n as nat)
    }
}

/// `format!("{:0w$x}", n)`: lower-case hexadecimal, zero-padded to width `w`.
pub open spec fn hex_padded(n: nat, w: nat) -> Seq<char> {
    let h = digits(n, 16);
    if h.len() < w {
        Seq::new((w - h.len()) as nat, |i: int| '0') + h
    } else {
        h
    }
}

fn digit_char_exec(d: u64) -> (c: char)
    requires
        d < 16,
    ensures
        c == digit_char(d as nat),
{
    match d {
        0 => '0',
        1 => '1',
        2 => '2',
        3 => '3',
        4 => '4',
        5 => '5',
        6 => '6',
        7 => '7',
        8 => '8',
        9 => '9',
        10 => 'a',
        11 => 'b',
        12 => 'c',
        13 => 'd',
        14 => 'e',
        _ => 'f',
    }
}

/// Appends the base-`b` digits of `n` to `v`.
pub fn push_digits(v: &mut Vec<char>, n: u64, b: u64)
    requires
        2 <= b <= 16,
    ensures
        final(v)@ == old(v)@ + digits(n as nat, b as nat),
    decreases n,
{
    if n >= b {
        proof {
            lemma_div_smaller(n as nat, b as nat);
        }
        push_digits(v, n / b, b);
    }
    proof {
        if n < b {
            vstd::arithmetic::div_mod::lemma_small_mod(n as nat, b as nat);
        }
    }
    v.push(digit_char_exec(n % b));
    assert(v@ =~= old(v)@ + digits(n as nat, b as nat));
}

/// Appends the decimal rendering of `n` to `v`.
pub fn push_dec(v: &mut Vec<char>, n: u64)
    ensures
        final(v)@ == old(v)@ + dec(n as nat),
{
    push_digits(v, n, 10);
}

/// Appends the decimal rendering of a signed `n` to `v`.
pub fn push_dec_signed(v: &mut Vec<char>, n: i64)
    ensures
        final(v)@ == old(v)@ + dec_signed(n as int),
{
    if n < 0 {
        v.push('-');
        let m: u64 = if n == i64::MIN {
            0x8000_0000_0000_0000
        } else {
            (-n) as u64
        };
        push_dec(v, m);
        assert(v@ =~= old(v)@ + dec_signed(n as int));
    } else {
        push_dec(v, n as u64);
    }
}

/// Appends `n` in lower-case hexadecimal, zero-padded to width `w`.
pub fn push_hex_padded(v: &mut Vec<char>, n: u64, w: usize)
    ensures
        final(v)@ == old(v)@ + hex_padded(n as nat, w as nat),
{
    let mut h: Vec<char> = Vec::new();
    push_digits(&mut h, n, 16);
    assert(h@ =~= digits(n as nat, 16));
    if h.len() < w {
        let mut k: usize = 0;
        while k < w - h.len()
            invariant
                h@ == digits(n as nat, 16),
                h@.len() < w,
                k <= w - h@.len(),
                v@ == old(v)@ + Seq::new(k as nat, |i: int| '0'),
            decreases w - h@.len() - k,
        {
            v.push('0');
            k = k + 1;
            assert(v@ =~= old(v)@ + Seq::new(k as nat, |i: int| '0'));
        }
    }
    crate::text::extend(v, &h);
    assert(v@ =~= old(v)@ + hex_padded(n as nat, w as nat));
}

/// The decimal rendering of `n` as a `String`.
pub fn dec_string(n: u64) -> (s: String)
    ensures
        s@ == dec(n as nat),
{
    let mut v: Vec<char> = Vec::new();
    push_dec(&mut v, n);
    assert(v@ =~= dec(n as nat));
    crate::text::string_of(v)
}

// ---------------------------------------------------------------------------
// Binary floating point of integers
// ---------------------------------------------------------------------------
pub open spec fn pow2(e: nat) -> nat
    decreases e,
{
    if e == 0 {
        1
    } else {
        2 * pow2((e - 1) as nat)
    }
}

/// `2^53`: below it every integer is exactly an `f64`.
pub open spec fn two53() -> nat {
    9007199254740992
}

/// How many low bits of `b` an `f64` cannot hold (the halvings that bring
/// `b` below `2^53`).
pub open spec fn excess_bits(b: nat) -> nat
    decreases b,
{
    if b < two53() {
        0
    } else {
        1 + excess_bits(b / 2)
    }
}

/// `n / d` rounded to the nearest integer, ties to the even one.
pub open spec fn round_div_even(n: nat, d: nat) -> nat
    recommends
        d > 0,
{
    let q = n / d;
    let r = n % d;
    if 2 * r > d || (2 * r == d && q % 2 == 1) {
        q + 1
    } else {
        q
    }
}

/// The value of `b as f64` for an unsigned integer `b`: `b` rounded to 53
/// significant bits, ties to an even significand.
pub open spec fn f64_of(b: nat) -> nat {
    round_div_even(b, pow2(excess_bits(b))) * pow2(excess_bits(b))
}

proof fn lemma_pow2_pos(e: nat)
    ensures
        pow2(e) >= 1,
    decreases e,
{
    if e > 0 {
        lemma_pow2_pos((e - 1) as nat);
    }
}

/// `n / d` rounded to the nearest integer, ties to even.
pub fn round_div_even_exec(n: u128, d: u128) -> (r: u128)
    requires
        d > 0,
        n <= 0x3fff_ffff_ffff_ffff_ffff_ffff_ffff_ffff,
        d <= 0x3fff_ffff_ffff_ffff_ffff_ffff_ffff_ffff,
    ensures
        r == round_div_even(n as nat, d as nat),
{
    let q = n / d;
    let rem = n % d;
    proof {
        assert(rem < d) by (nonlinear_arith)
            requires
                rem == n % d,
                d > 0,
        ;
        assert(q <= n) by (nonlinear_arith)
            requires
                q == n / d,
                d > 0,
        ;
    }
    if 2 * rem > d || (2 * rem == d && q % 2 == 1) {
        q + 1
    } else {
        q
    }
}

/// The value of `b as f64`, as an integer.
pub fn f64_of_exec(b: u64) -> (v: u128)
    ensures
        v == f64_of(b as nat),
        v <= 0x2_0000_0000_0000_0000,
{
    let mut p: u64 = 1;
    let ghost mut e: nat = 0;
    proof {
        reveal_with_fuel(pow2, 1);
    }
    while b / p >= 9007199254740992
        invariant
            p as nat == pow2(e),
            p >= 1,
            p <= 4096,
            excess_bits(b as nat) == e + excess_bits((b / p) as nat),
        decreases b / p,
    {
        proof {
            assert(p < 2048) by (nonlinear_arith)
                requires
                    b / p >= 9007199254740992,
                    p >= 1,
                    b <= 0xffff_ffff_ffff_ffff,
            ;
            vstd::arithmetic::div_mod::lemma_div_denominator(b as int, p as int, 2);
            assert((b / p) / 2 < b / p) by (nonlinear_arith)
                requires
                    b / p >= 1,
            ;
        }
        p = p * 2;
        proof {
            e = e + 1;
        }
    }
    proof {
        assert(excess_bits(b as nat) == e);
    }
    let q = round_div_even_exec(b as u128, p as u128);
    proof {
        assert(q <= b / p + 1) by (nonlinear_arith)
            requires
                q == round_div_even(b as nat, p as nat),
                p >= 1,
        ;
        assert(q * p <= 0x2_0000_0000_0000_0000) by (nonlinear_arith)
            requires
                q <= b / p + 1,
                p >= 1,
                p <= 4096,
                b <= 0xffff_ffff_ffff_ffff,
        ;
    }
    q * (p as u128)
}

// ---------------------------------------------------------------------------
// Laws
// ---------------------------------------------------------------------------
/// The decimal rendering of a number is a non-empty run of digits whose
/// value is the number.
pub proof fn lemma_digits_are_decimal(n: nat)
    ensures
        forall|j: int| 0 <= j < dec(n).len() ==> is_digit(#[trigger] dec(n)[j]),
        dec(n).len() >= 1,
        dec_value(dec(n)) == n,
    decreases n,
{
    if n >= 10 {
        lemma_div_smaller(n, 10);
        lemma_digits_are_decimal(n / 10);
        lemma_dec_value_push(dec(n / 10), digit_char(n % 10));
        lemma_digit_value(n % 10);
        assert(dec(n) == dec(n / 10).push(digit_char(n % 10)));
        assert(dec_value(dec(n)) == dec_value(dec(n / 10)) * 10 + n % 10);
        assert((n / 10) * 10 + n % 10 == n) by (nonlinear_arith);
        assert forall|j: int| 0 <= j < dec(n).len() implies is_digit(#[trigger] dec(n)[j]) by {
            if j < dec(n / 10).len() {
                assert(dec(n)[j] == dec(n / 10)[j]);
            }
        }
    } else {
        lemma_digit_value(n);
        assert(dec(n) == seq![digit_char(n)]);
        assert(dec(n).drop_last() =~= Seq::<char>::empty());
        assert(dec_value(dec(n)) == dec_value(Seq::<char>::empty()) * 10 + digit_val(digit_char(n)));
    }
}

/// Rendering an unsigned number in decimal and parsing it back gives the
/// number again.
pub proof fn lemma_parse_of_dec(n: u64)
    ensures
        parse_u64(dec(n as nat)) == Some(n),
{
    let s = dec(n as nat);
    lemma_digits_are_decimal(n as nat);
    lemma_digits_end_bounds(s, 0);
    assert(digits_end(s, 0) == s.len()) by {
        if digits_end(s, 0) < s.len() {
            assert(is_digit(s[digits_end(s, 0)]));
        }
    }
    assert(s.take(s.len() as int) =~= s);
    assert(s[0] != '+' && s[0] != '-') by {
        assert(is_digit(s[0]));
    }
}

} // verus!
