//! Rounding to market ticks and decimal scaling.

use crate::decimal::{
    dec_from_i128, dec_from_u128, dec_lt, dec_mul, dec_pow, fits, fp_from_int, fp_lt, fp_mul, fp_nat,
    lemma_whole, mag_add, mag_rem, mag_sub, model, mul_ok, pow10, precision, Dec, DecModel,
};
use vstd::prelude::*;

verus! {

/// The whole number `source` as a decimal.
pub fn i32_to_dec(source: i32) -> (r: Dec)
    ensures
        r@ == fp_from_int(source as int),
        r@.wf(),
{
    dec_from_i128(source as i128)
}

/// `num` rounded up to a multiple of the tick: the tick itself when `num` is below
/// it, `num` unchanged when it is already a multiple, and otherwise the next
/// multiple above it.
pub open spec fn round_up_spec(num: DecModel, tick: DecModel) -> DecModel {
    if fp_lt(num, tick) {
        tick
    } else if num.mag % tick.mag == 0 {
        num
    } else {
        model(1, (num.mag - num.mag % tick.mag + tick.mag) as nat)
    }
}

/// The inputs on which rounding up neither divides by a zero tick nor overflows.
pub open spec fn round_up_ok(num: DecModel, tick: DecModel) -> bool {
    fp_lt(num, tick) || (tick.mag != 0 && (num.mag % tick.mag == 0 || fits(
        (num.mag - num.mag % tick.mag + tick.mag) as nat,
    )))
}

/// Rounding up keeps the sign byte well formed.
pub proof fn lemma_round_up_wf(num: DecModel, tick: DecModel)
    requires
        num.wf(),
        tick.wf(),
    ensures
        round_up_spec(num, tick).wf(),
{
}

proof fn lemma_mod_le(a: nat, b: nat)
    requires
        b != 0,
    ensures
        a % b <= a,
        a % b < b,
{
    assert(a % b <= a) by (nonlinear_arith)
        requires
            b != 0,
    ;
}

/// Rounds `num` up to the market's minimum tick.
pub fn round_up_to_min_tick(num: Dec, min_tick: Dec) -> (r: Dec)
    requires
        round_up_ok(num@, min_tick@),
    ensures
        r@ == round_up_spec(num@, min_tick@),
{
    if dec_lt(num, min_tick) {
        return min_tick;
    }
    let remainder = mag_rem(num.num, min_tick.num);
    let rem = Dec { num: remainder, sign: 1 };
    if rem.is_zero() {
        return num;
    }
    proof {
        lemma_mod_le(num@.mag, min_tick@.mag);
    }
    let rounded = mag_add(mag_sub(num.num, remainder), min_tick.num);
    Dec { num: rounded, sign: 1 }
}

/// Rounding a non-negative amount up to a positive tick gives a multiple of the
/// tick, at least one tick, never below the amount and, for a positive amount,
/// less than one tick above it; rounding the result again leaves it unchanged.
pub proof fn law_round_up_to_min_tick(num: DecModel, tick: DecModel)
    requires
        num.sign == 1,
        tick.sign == 1,
        tick.mag > 0,
        round_up_ok(num, tick),
    ensures
        round_up_spec(num, tick).sign == 1,
        round_up_spec(num, tick).mag >= num.mag,
        round_up_spec(num, tick).mag >= tick.mag,
        round_up_spec(num, tick).mag % tick.mag == 0,
        num.mag > 0 ==> round_up_spec(num, tick).mag < num.mag + tick.mag,
        round_up_spec(round_up_spec(num, tick), tick) == round_up_spec(num, tick),
{
    let n = num.mag as int;
    let t = tick.mag as int;
    vstd::arithmetic::div_mod::lemma_fundamental_div_mod(n, t);
    vstd::arithmetic::div_mod::lemma_mod_self_0(t);
    if n >= t && n % t != 0 {
        let k = n / t;
        assert(n - n % t + t == (k + 1) * t) by (nonlinear_arith)
            requires
                n == t * k + n % t,
        ;
        vstd::arithmetic::div_mod::lemma_mod_multiples_basic(k + 1, t);
        vstd::arithmetic::div_mod::lemma_mod_bound(n, t);
    }
}

/// Multiplication by a power of ten.
pub trait Scaled: Sized {
    /// The power is one of the tabled powers of ten and the product does not overflow.
    spec fn scaled_ok(self, digits: i32) -> bool;

    /// `self` times ten to the power `digits`.
    fn scaled(self, digits: i32) -> (r: Self)
        requires
            self.scaled_ok(digits),
    ;
}

/// Ten as a decimal.
pub open spec fn fp_ten() -> DecModel {
    fp_nat(10)
}

/// Ten to the power `digits` (from -18 to 59), exactly as `FPDecimal::pow` looks
/// it up in its table.
pub open spec fn fp_ten_pow(digits: int) -> DecModel {
    model(1, pow10((18 + digits) as nat))
}

impl Scaled for Dec {
    open spec fn scaled_ok(self, digits: i32) -> bool {
        &&& -18 <= digits <= 59
        &&& mul_ok(self@, fp_ten_pow(digits as int))
    }

    fn scaled(self, digits: i32) -> (r: Dec)
        ensures
            r@ == fp_mul(self@, fp_ten_pow(digits as int)),
    {
        let ten = dec_from_u128(10);
        let exponent = dec_from_i128(digits as i128);
        proof {
            let e = fp_from_int(digits as int);
            if digits >= 0 {
                lemma_whole(digits as nat);
            } else {
                lemma_whole((-digits) as nat);
            }
        }
        match dec_pow(ten, exponent) {
            Some(power) => dec_mul(self, power),
            None => {
                proof {
                    assert(false);
                }
                self
            },
        }
    }
}

/// The factor 10^18 by which protobuf encodes decimal values.
pub fn dec_scale_factor() -> (r: Dec)
    ensures
        r@ == fp_nat(1_000_000_000_000_000_000),
{
    let one = Dec::one();
    proof {
        reveal_with_fuel(pow10, 37);
        lemma_whole(1_000_000_000_000_000_000);
        assert(pow10(36) == 1_000_000_000_000_000_000_000_000_000_000_000_000);
    }
    one.scaled(18)
}

} // verus!
