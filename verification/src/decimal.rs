//! Signed fixed-point decimals with 18 fractional digits.
//!
//! `Dec` holds exactly what `injective_math::FPDecimal` holds: a 256-bit
//! magnitude (as four little-endian 64-bit limbs) and a sign byte (`1` for
//! non-negative, `0` for negative). Arithmetic is performed by `FPDecimal`;
//! the contracts below state what each operation computes on the magnitude
//! and sign, and which inputs make it panic (those are excluded by `requires`).

use injective_math::FPDecimal;
use primitive_types::U256;
use vstd::prelude::*;

verus! {

/// 2^256: magnitudes must stay below this bound.
pub open spec fn mag_bound() -> int {
    0x1_0000_0000_0000_0000_0000_0000_0000_0000_0000_0000_0000_0000_0000_0000_0000_0000_0000_0000int
}

/// Scale of the fixed-point representation (10^18 units per whole number).
pub open spec fn precision() -> nat {
    1_000_000_000_000_000_000nat
}

/// The integer held by four little-endian 64-bit limbs.
pub open spec fn u256_value(n: [u64; 4]) -> nat {
    (n[0] + n[1] * 0x1_0000_0000_0000_0000int + n[2]
        * 0x1_0000_0000_0000_0000_0000_0000_0000_0000int + n[3]
        * 0x1_0000_0000_0000_0000_0000_0000_0000_0000_0000_0000_0000_0000int) as nat
}

/// A whole number of units: divisible by the scale, with quotient `k`.
pub proof fn lemma_whole(k: nat)
    ensures
        (k * precision()) % precision() == 0,
        (k * precision()) / precision() == k,
{
    vstd::arithmetic::div_mod::lemma_div_by_multiple(k as int, precision() as int);
    vstd::arithmetic::div_mod::lemma_mod_multiples_basic(k as int, precision() as int);
}

/// Whether a magnitude can be held in 256 bits.
pub open spec fn fits(m: nat) -> bool {
    m < mag_bound()
}

/// The mathematical content of a decimal: sign byte and magnitude.
/// The represented number is `mag / 10^18`, negated when `sign == 0`.
pub ghost struct DecModel {
    pub sign: i8,
    pub mag: nat,
}

impl DecModel {
    /// The sign byte is one of the two values that the arithmetic produces.
    pub open spec fn wf(self) -> bool {
        self.sign == 0 || self.sign == 1
    }

    /// The represented number, in units of 10^-18.
    pub open spec fn value(self) -> int {
        if self.sign == 0 {
            -(self.mag as int)
        } else {
            self.mag as int
        }
    }

    /// Strictly negative (a zero magnitude is never negative).
    pub open spec fn is_negative(self) -> bool {
        self.mag != 0 && self.sign == 0
    }
}

pub open spec fn model(sign: i8, mag: nat) -> DecModel {
    DecModel { sign, mag }
}

pub open spec fn fp_zero() -> DecModel {
    model(1, 0)
}

pub open spec fn fp_one() -> DecModel {
    model(1, precision())
}

/// The whole number `n` as a decimal.
pub open spec fn fp_nat(n: nat) -> DecModel {
    model(1, n * precision())
}

/// Sum as `FPDecimal::_add` computes it.
pub open spec fn fp_add(a: DecModel, b: DecModel) -> DecModel {
    if a.sign == b.sign {
        model(a.sign, a.mag + b.mag)
    } else if a.mag > b.mag {
        model(a.sign, (a.mag - b.mag) as nat)
    } else if a.mag == b.mag {
        fp_zero()
    } else {
        model(b.sign, (b.mag - a.mag) as nat)
    }
}

/// The addition does not overflow the 256-bit magnitude.
pub open spec fn add_ok(a: DecModel, b: DecModel) -> bool {
    a.sign != b.sign || fits(a.mag + b.mag)
}

pub open spec fn fp_flip(b: DecModel) -> DecModel {
    model((1 - b.sign) as i8, b.mag)
}

/// Difference as `FPDecimal::_sub` computes it: addition of the sign-flipped operand.
pub open spec fn fp_sub(a: DecModel, b: DecModel) -> DecModel {
    fp_add(a, fp_flip(b))
}

pub open spec fn sub_ok(a: DecModel, b: DecModel) -> bool {
    add_ok(a, fp_flip(b))
}

/// Product, truncated to 18 fractional digits.
pub open spec fn fp_mul(a: DecModel, b: DecModel) -> DecModel {
    model(if a.sign != b.sign { 0 } else { 1 }, (a.mag * b.mag) / precision())
}

pub open spec fn mul_ok(a: DecModel, b: DecModel) -> bool {
    fits((a.mag * b.mag) / precision())
}

/// Quotient, truncated to 18 fractional digits.
pub open spec fn fp_div(a: DecModel, b: DecModel) -> DecModel {
    if b == fp_one() {
        a
    } else if (precision() * a.mag) / b.mag == 0 {
        fp_zero()
    } else {
        model(if a.sign == b.sign { 1 } else { 0 }, (precision() * a.mag) / b.mag)
    }
}

pub open spec fn div_ok(a: DecModel, b: DecModel) -> bool {
    b.mag != 0 && (b == fp_one() || fits((precision() * a.mag) / b.mag))
}

/// `<` as `FPDecimal` implements it.
pub open spec fn fp_lt(a: DecModel, b: DecModel) -> bool {
    if a.sign != b.sign {
        a.sign < b.sign
    } else if a.sign == 0 {
        a.mag >= b.mag
    } else {
        a.mag < b.mag
    }
}

/// `>` as `FPDecimal` implements it.
pub open spec fn fp_gt(a: DecModel, b: DecModel) -> bool {
    if a.sign != b.sign {
        a.sign > b.sign
    } else if a.sign == 0 {
        a.mag < b.mag
    } else {
        a.mag > b.mag
    }
}

/// `<=` as `FPDecimal` implements it.
pub open spec fn fp_le(a: DecModel, b: DecModel) -> bool {
    if a.sign != b.sign {
        a.sign < b.sign
    } else if a.sign == 0 {
        a.mag >= b.mag
    } else {
        a.mag <= b.mag
    }
}

/// `>=` as `FPDecimal` implements it.
pub open spec fn fp_ge(a: DecModel, b: DecModel) -> bool {
    if a.sign != b.sign {
        a.sign > b.sign
    } else if a.sign == 0 {
        a.mag <= b.mag
    } else {
        a.mag >= b.mag
    }
}

/// Integer part (truncation toward zero), keeping the sign byte.
pub open spec fn fp_int(a: DecModel) -> DecModel {
    model(a.sign, (a.mag / precision()) * precision())
}

/// Four 64-bit limbs hold less than 2^256.
pub proof fn lemma_mag_bound(d: Dec)
    ensures
        fits(d@.mag),
{
}

/// Arithmetic on well-formed decimals yields well-formed decimals.
pub proof fn lemma_wf_closed(a: DecModel, b: DecModel)
    requires
        a.wf(),
        b.wf(),
    ensures
        fp_add(a, b).wf(),
        fp_sub(a, b).wf(),
        fp_mul(a, b).wf(),
        fp_div(a, b).wf(),
        fp_int(a).wf(),
        fp_round_to_min_tick(a, b).wf(),
{
}

/// Addition is exact on the represented numbers.
pub proof fn lemma_add_value(a: DecModel, b: DecModel)
    requires
        a.wf(),
        b.wf(),
    ensures
        fp_add(a, b).value() == a.value() + b.value(),
{
}

/// Subtraction is exact on the represented numbers.
pub proof fn lemma_sub_value(a: DecModel, b: DecModel)
    requires
        a.wf(),
        b.wf(),
    ensures
        fp_sub(a, b).value() == a.value() - b.value(),
{
}

/// A fixed-point decimal with the representation of `FPDecimal`.
#[derive(Clone, Copy, Debug, PartialEq, Eq)]
pub struct Dec {
    pub num: [u64; 4],
    pub sign: i8,
}

impl View for Dec {
    type V = DecModel;

    open spec fn view(&self) -> DecModel {
        model(self.sign, u256_value(self.num))
    }
}

impl Dec {
    /// Zero.
    pub fn zero() -> (r: Dec)
        ensures
            r@ == fp_zero(),
    {
        Dec { num: [0, 0, 0, 0], sign: 1 }
    }

    /// One.
    pub fn one() -> (r: Dec)
        ensures
            r@ == fp_one(),
    {
        Dec { num: [1_000_000_000_000_000_000, 0, 0, 0], sign: 1 }
    }

    /// Whether the magnitude is zero (whatever the sign byte).
    pub fn is_zero(&self) -> (r: bool)
        ensures
            r == (self@.mag == 0),
    {
        self.num[0] == 0 && self.num[1] == 0 && self.num[2] == 0 && self.num[3] == 0
    }

    /// Whether the number is strictly negative.
    pub fn is_negative(&self) -> (r: bool)
        ensures
            r == self@.is_negative(),
    {
        !self.is_zero() && self.sign == 0
    }
}

/// `FPDecimal + FPDecimal`; the caller excludes a magnitude overflow, on which it panics.
#[verifier::external_body]
pub(crate) fn dec_add(a: Dec, b: Dec) -> (r: Dec)
    requires
        a@.wf(),
        b@.wf(),
        add_ok(a@, b@),
    ensures
        r@ == fp_add(a@, b@),
{
    let x = FPDecimal { num: U256(a.num), sign: a.sign } + FPDecimal { num: U256(b.num), sign: b.sign };
    Dec { num: x.num.0, sign: x.sign }
}

/// `FPDecimal - FPDecimal`; the caller excludes a magnitude overflow, on which it panics.
#[verifier::external_body]
pub(crate) fn dec_sub(a: Dec, b: Dec) -> (r: Dec)
    requires
        a@.wf(),
        b@.wf(),
        sub_ok(a@, b@),
    ensures
        r@ == fp_sub(a@, b@),
{
    let x = FPDecimal { num: U256(a.num), sign: a.sign } - FPDecimal { num: U256(b.num), sign: b.sign };
    Dec { num: x.num.0, sign: x.sign }
}

/// `FPDecimal * FPDecimal`: the exact product of the magnitudes divided by 10^18,
/// rounded down; it panics when that quotient needs more than 256 bits.
#[verifier::external_body]
pub(crate) fn dec_mul(a: Dec, b: Dec) -> (r: Dec)
    requires
        mul_ok(a@, b@),
    ensures
        r@ == fp_mul(a@, b@),
{
    let x = FPDecimal { num: U256(a.num), sign: a.sign } * FPDecimal { num: U256(b.num), sign: b.sign };
    Dec { num: x.num.0, sign: x.sign }
}

/// `FPDecimal / FPDecimal`: `10^18 * a / b` rounded down; dividing by one returns
/// the dividend unchanged. It panics on a zero divisor or a quotient beyond 256 bits.
#[verifier::external_body]
pub(crate) fn dec_div(a: Dec, b: Dec) -> (r: Dec)
    requires
        a@.wf(),
        b@.wf(),
        div_ok(a@, b@),
    ensures
        r@ == fp_div(a@, b@),
{
    let x = FPDecimal { num: U256(a.num), sign: a.sign } / FPDecimal { num: U256(b.num), sign: b.sign };
    Dec { num: x.num.0, sign: x.sign }
}

/// `<` of `FPDecimal` (`PartialOrd::lt`), which compares sign bytes first.
#[verifier::external_body]
pub(crate) fn dec_lt(a: Dec, b: Dec) -> (r: bool)
    ensures
        r == fp_lt(a@, b@),
{
    FPDecimal { num: U256(a.num), sign: a.sign } < FPDecimal { num: U256(b.num), sign: b.sign }
}

/// `>` of `FPDecimal` (`PartialOrd::gt`).
#[verifier::external_body]
pub(crate) fn dec_gt(a: Dec, b: Dec) -> (r: bool)
    ensures
        r == fp_gt(a@, b@),
{
    FPDecimal { num: U256(a.num), sign: a.sign } > FPDecimal { num: U256(b.num), sign: b.sign }
}

/// `<=` of `FPDecimal` (`PartialOrd::le`).
#[verifier::external_body]
pub(crate) fn dec_le(a: Dec, b: Dec) -> (r: bool)
    ensures
        r == fp_le(a@, b@),
{
    FPDecimal { num: U256(a.num), sign: a.sign } <= FPDecimal { num: U256(b.num), sign: b.sign }
}

/// `>=` of `FPDecimal` (`PartialOrd::ge`).
#[verifier::external_body]
pub(crate) fn dec_ge(a: Dec, b: Dec) -> (r: bool)
    ensures
        r == fp_ge(a@, b@),
{
    FPDecimal { num: U256(a.num), sign: a.sign } >= FPDecimal { num: U256(b.num), sign: b.sign }
}

/// `FPDecimal::int`: the magnitude rounded down to a multiple of 10^18, sign kept.
#[verifier::external_body]
pub(crate) fn dec_int(a: Dec) -> (r: Dec)
    ensures
        r@ == fp_int(a@),
{
    let x = FPDecimal { num: U256(a.num), sign: a.sign }.int();
    Dec { num: x.num.0, sign: x.sign }
}

/// 10^n
pub open spec fn pow10(n: nat) -> nat
    decreases n,
{
    if n == 0 {
        1
    } else {
        10 * pow10((n - 1) as nat)
    }
}

/// The decimal that `FPDecimal::from(x: i128)` builds: magnitude `|x| * 10^18`,
/// sign byte `0` exactly when `x` is negative.
pub open spec fn fp_from_int(x: int) -> DecModel {
    model(if x < 0 { 0 } else { 1 }, (if x < 0 { -x } else { x }) as nat * precision())
}

/// What `injective_math::round_to_min_tick` computes: zero below the tick, otherwise
/// the integer part of `num / tick` (a zero tick giving zero) times the tick.
pub open spec fn fp_round_to_min_tick(num: DecModel, tick: DecModel) -> DecModel {
    if fp_lt(num, tick) {
        fp_zero()
    } else {
        fp_mul(fp_int(fp_div_or_zero(num, tick)), tick)
    }
}

/// `injective_math::div_dec`: the quotient, or zero for a zero divisor.
pub open spec fn fp_div_or_zero(num: DecModel, tick: DecModel) -> DecModel {
    if tick == fp_zero() {
        fp_zero()
    } else {
        fp_div(num, tick)
    }
}

/// The inputs on which `injective_math::round_to_min_tick` returns without panicking.
pub open spec fn round_to_min_tick_ok(num: DecModel, tick: DecModel) -> bool {
    fp_lt(num, tick) || ((tick == fp_zero() || div_ok(num, tick)) && mul_ok(
        fp_int(fp_div_or_zero(num, tick)),
        tick,
    ))
}

/// The models of an optional decimal.
pub open spec fn option_model(r: Option<Dec>) -> Option<DecModel> {
    match r {
        Some(d) => Some(d@),
        None => None,
    }
}

/// The models of a decimal or an error text.
pub open spec fn result_model(r: Result<Dec, String>) -> Result<DecModel, Seq<char>> {
    match r {
        Ok(d) => Ok(d@),
        Err(e) => Err(e@),
    }
}

/// The character of a decimal digit.
pub open spec fn digit_char(d: nat) -> char {
    (('0' as int) + d) as char
}

/// The decimal digits of a number without leading zeros ("0" for zero), as
/// `U256` displays it.
pub open spec fn nat_text(n: nat) -> Seq<char>
    decreases n,
{
    if n < 10 {
        seq![digit_char(n)]
    } else {
        nat_text(n / 10).push(digit_char(n % 10))
    }
}

/// The last `width` decimal digits of a number, with leading zeros.
pub open spec fn padded_text(n: nat, width: nat) -> Seq<char>
    decreases width,
{
    if width == 0 {
        Seq::empty()
    } else {
        padded_text(n / 10, (width - 1) as nat).push(digit_char(n % 10))
    }
}

/// The text without its trailing zeros.
pub open spec fn trim_trailing_zeros(s: Seq<char>) -> Seq<char>
    decreases s.len(),
{
    if s.len() > 0 && s.last() == '0' {
        trim_trailing_zeros(s.drop_last())
    } else {
        s
    }
}

/// The text that `FPDecimal` displays for a value: a minus for the sign byte `0`,
/// the whole part, and, when the fraction is not zero, a dot and the 18
/// fractional digits without their trailing zeros.
pub open spec fn fp_display(d: DecModel) -> Seq<char> {
    let sign = if d.sign == 0 { "-"@ } else { ""@ };
    let whole = nat_text(d.mag / precision());
    let fraction = d.mag % precision();
    if fraction == 0 {
        sign + whole
    } else {
        sign + whole + "."@ + trim_trailing_zeros(padded_text(fraction, 18))
    }
}

/// Every character is a decimal digit.
pub open spec fn is_digit_text(t: Seq<char>) -> bool {
    forall|k: int| 0 <= k < t.len() ==> '0' <= #[trigger] t[k] <= '9'
}

/// The number that a text of decimal digits spells (zero for the empty text).
pub open spec fn digit_value(t: Seq<char>) -> nat
    decreases t.len(),
{
    if t.len() == 0 {
        0
    } else {
        digit_value(t.drop_last()) * 10 + ((t.last() as int) - ('0' as int)) as nat
    }
}

/// `U256::from_dec_str` accepts the text: decimal digits only, spelling a number
/// below 2^256.
pub open spec fn dec_text_ok(t: Seq<char>) -> bool {
    is_digit_text(t) && fits(digit_value(t))
}

/// The text without its leading minus signs.
pub open spec fn strip_minus(s: Seq<char>) -> Seq<char>
    decreases s.len(),
{
    if s.len() > 0 && s[0] == '-' {
        strip_minus(s.drop_first())
    } else {
        s
    }
}

/// How many dots the text holds.
pub open spec fn dot_count(t: Seq<char>) -> nat
    decreases t.len(),
{
    if t.len() == 0 {
        0
    } else {
        dot_count(t.drop_last()) + if t.last() == '.' { 1nat } else { 0nat }
    }
}

/// The position of the first dot, or the length when there is none.
pub open spec fn dot_index(t: Seq<char>) -> int
    decreases t.len(),
{
    if t.len() == 0 || t[0] == '.' {
        0
    } else {
        1 + dot_index(t.drop_first())
    }
}

/// What `FPDecimal::from_str` returns for a text: after the leading minus signs,
/// either digits (the whole number, its sign byte `0` after a minus unless it is
/// zero) or digits, a dot and at most 18 fractional digits (sign byte `0` after a
/// minus); otherwise the message of the generic error it returns, checked in this
/// order: the integer digits, the fractional digits, their count, the dots.
pub open spec fn fp_parse(s: Seq<char>) -> Result<DecModel, Seq<char>> {
    let t = strip_minus(s);
    let negative = s.len() > 0 && s[0] == '-';
    let integer = t.take(dot_index(t));
    let fraction = t.skip(dot_index(t) + 1);
    if dot_count(t) == 0 {
        if !dec_text_ok(t) {
            Err("Error parsing integer"@)
        } else {
            Ok(model(if negative && digit_value(t) != 0 { 0 } else { 1 }, digit_value(t) * precision()))
        }
    } else if dot_count(t) == 1 {
        if !dec_text_ok(integer) {
            Err("Error parsing integer"@)
        } else if !dec_text_ok(fraction) {
            Err("Error parsing fraction"@)
        } else if fraction.len() > 18 {
            Err("Cannot parse more than 18 fractional digits"@)
        } else {
            Ok(model(if negative { 0 } else { 1 }, digit_value(integer) * precision() + digit_value(fraction) * pow10((18 - fraction.len()) as nat)))
        }
    } else {
        Err("Unexpected number of dots"@)
    }
}

/// `FPDecimal::from_str` does not panic on the text: a value that it accepts fits
/// in 256 bits (it multiplies and adds without an overflow check).
pub open spec fn parse_fits(s: Seq<char>) -> bool {
    fp_parse(s) matches Ok(d) ==> fits(d.mag)
}

/// `FPDecimal::from(u128)`: the whole number `x`.
#[verifier::external_body]
pub(crate) fn dec_from_u128(x: u128) -> (r: Dec)
    ensures
        r@ == fp_nat(x as nat),
{
    let d = FPDecimal::from(x);
    Dec { num: d.num.0, sign: d.sign }
}

/// `FPDecimal::from(i128)`.
#[verifier::external_body]
pub(crate) fn dec_from_i128(x: i128) -> (r: Dec)
    ensures
        r@ == fp_from_int(x as int),
{
    let d = FPDecimal::from(x);
    Dec { num: d.num.0, sign: d.sign }
}

/// `u128::from(FPDecimal)`: the magnitude's whole part (the sign byte is ignored);
/// it panics when that does not fit in 128 bits.
#[verifier::external_body]
pub(crate) fn dec_to_u128(a: Dec) -> (r: u128)
    requires
        a@.mag / precision() <= u128::MAX,
    ensures
        r as nat == a@.mag / precision(),
{
    u128::from(FPDecimal { num: U256(a.num), sign: a.sign })
}

/// `FPDecimal::pow` for base ten and a whole exponent from -18 to 59, which it
/// answers from its table of exact powers of ten (and `ONE` for a zero exponent).
/// Other exponents and bases go through square roots, logarithms and
/// exponentials, which can panic; they are not admitted.
#[verifier::external_body]
pub(crate) fn dec_pow(base: Dec, exponent: Dec) -> (r: Option<Dec>)
    requires
        base@ == fp_nat(10),
        exponent@.mag % precision() == 0,
        exponent@.sign == 1 && exponent@.mag / precision() <= 59 || exponent@.sign == 0 && 1
            <= exponent@.mag / precision() <= 18,
    ensures
        exponent@.sign == 1 ==> option_model(r) == Some(
            model(1, pow10((18 + exponent@.mag / precision()) as nat)),
        ),
        exponent@.sign == 0 ==> option_model(r) == Some(
            model(1, pow10((18 - exponent@.mag / precision()) as nat)),
        ),
{
    let b = FPDecimal { num: U256(base.num), sign: base.sign };
    match b.pow(FPDecimal { num: U256(exponent.num), sign: exponent.sign }) {
        Ok(d) => Some(Dec { num: d.num.0, sign: d.sign }),
        Err(_) => None,
    }
}

/// `injective_math::round_to_min_tick`.
#[verifier::external_body]
pub(crate) fn dec_round_to_min_tick(num: Dec, tick: Dec) -> (r: Dec)
    requires
        num@.wf(),
        tick@.wf(),
        round_to_min_tick_ok(num@, tick@),
    ensures
        r@ == fp_round_to_min_tick(num@, tick@),
{
    let d = injective_math::round_to_min_tick(FPDecimal { num: U256(num.num), sign: num.sign }, FPDecimal { num: U256(tick.num), sign: tick.sign });
    Dec { num: d.num.0, sign: d.sign }
}

/// `Display` of `FPDecimal` (through `to_string`), as `fp_display` states it.
#[verifier::external_body]
pub(crate) fn dec_to_string(a: Dec) -> (r: String)
    ensures
        r@ == fp_display(a@),
{
    FPDecimal { num: U256(a.num), sign: a.sign }.to_string()
}

/// `FPDecimal::from_str` on a text that does not make it panic: the value that
/// `fp_parse` states, or the message of the generic error that it returns (its
/// only kind of error), without the "Generic error: " that its display adds.
#[verifier::external_body]
pub(crate) fn dec_from_str(s: &str) -> (r: Result<Dec, String>)
    requires
        parse_fits(s@),
    ensures
        result_model(r) == fp_parse(s@),
{
    match <FPDecimal as std::str::FromStr>::from_str(s) {
        Ok(d) => Ok(Dec { num: d.num.0, sign: d.sign }),
        Err(e) => {
            let text = e.to_string();
            match text.strip_prefix("Generic error: ") {
                Some(msg) => Err(msg.to_owned()),
                None => Err(text),
            }
        },
    }
}

/// `U256 % U256`; a zero divisor panics.
#[verifier::external_body]
pub(crate) fn mag_rem(a: [u64; 4], b: [u64; 4]) -> (r: [u64; 4])
    requires
        u256_value(b) != 0,
    ensures
        u256_value(r) == u256_value(a) % u256_value(b),
{
    (U256(a) % U256(b)).0
}

/// `U256 - U256`; an underflow panics.
#[verifier::external_body]
pub(crate) fn mag_sub(a: [u64; 4], b: [u64; 4]) -> (r: [u64; 4])
    requires
        u256_value(b) <= u256_value(a),
    ensures
        u256_value(r) == u256_value(a) - u256_value(b),
{
    (U256(a) - U256(b)).0
}

/// `U256 + U256`; an overflow panics.
#[verifier::external_body]
pub(crate) fn mag_add(a: [u64; 4], b: [u64; 4]) -> (r: [u64; 4])
    requires
        fits(u256_value(a) + u256_value(b)),
    ensures
        u256_value(r) == u256_value(a) + u256_value(b),
{
    (U256(a) + U256(b)).0
}

} // verus!
