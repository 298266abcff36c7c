//! Helpers for writing amounts and order books in tests and fixtures.

use crate::decimal::{
    dec_from_str, dec_from_u128, dec_le, dec_sub, dec_to_string, dec_to_u128, fp_display, fp_le,
    fp_mul, fp_nat, fp_parse, fp_sub, model, mul_ok, parse_fits, precision, sub_ok, Dec, DecModel,
};
use crate::helpers::{fp_ten_pow, Scaled};
use crate::orderbook::PriceLevel;
use crate::types::Coin;
use vstd::prelude::*;

verus! {

/// The number of decimals of a token's base unit.
#[derive(PartialEq, Eq, Debug, Copy, Clone)]
pub enum Decimals {
    Eighteen,
    Six,
}

/// The number of decimals, as a number.
pub open spec fn decimals_spec(decimals: Decimals) -> int {
    match decimals {
        Decimals::Eighteen => 18,
        Decimals::Six => 6,
    }
}

impl Decimals {
    /// The number of decimals.
    pub fn get_decimals(&self) -> (r: i32)
        ensures
            r == (match self {
                Decimals::Eighteen => 18i32,
                Decimals::Six => 6i32,
            }),
    {
        match self {
            Decimals::Eighteen => 18,
            Decimals::Six => 6,
        }
    }
}

/// Whether a mocked fee-multiplier query answers or fails.
#[derive(PartialEq, Eq, Debug, Copy, Clone)]
pub enum MultiplierQueryBehavior {
    Success,
    Fail,
}

/// The side of a resting limit order.
#[derive(PartialEq, Eq, Debug, Copy, Clone)]
pub enum OrderSide {
    Buy,
    Sell,
}

/// A price level with whole-number price and quantity.
pub fn create_price_level(p: u128, q: u128) -> (r: PriceLevel)
    ensures
        r.p@ == fp_nat(p as nat),
        r.q@ == fp_nat(q as nat),
{
    PriceLevel { p: dec_from_u128(p), q: dec_from_u128(q) }
}

/// `|first - second| <= max_diff`, with the subtraction and comparison of `FPDecimal`.
pub fn are_fpdecimals_approximately_equal(first: Dec, second: Dec, max_diff: Dec) -> (r: bool)
    requires
        first@.wf(),
        second@.wf(),
        sub_ok(first@, second@),
    ensures
        r == fp_le(model(1, fp_sub(first@, second@).mag), max_diff@),
{
    let difference = dec_sub(first, second);
    let abs = Dec { num: difference.num, sign: 1 };
    dec_le(abs, max_diff)
}

/// The text with its underscores (digit-group separators) removed.
pub open spec fn without_underscores(s: Seq<char>) -> Seq<char> {
    s.filter(|c: char| c != '_')
}

/// `str::replace` of every underscore by nothing.
#[verifier::external_body]
fn remove_underscores(s: &str) -> (r: String)
    ensures
        r@ == without_underscores(s@),
{
    s.replace('_', "")
}

/// The decimal that a human-readable number spells (underscores ignored).
pub open spec fn human_value(raw_number: Seq<char>) -> DecModel {
    fp_parse(without_underscores(raw_number))->Ok_0
}

/// The human-readable number reads as a decimal without making the parser panic,
/// and scaling it by ten to the power `digits` (from -18 to 59) does not overflow.
pub open spec fn human_scaling_ok(raw_number: Seq<char>, digits: int) -> bool {
    &&& fp_parse(without_underscores(raw_number)) is Ok
    &&& parse_fits(without_underscores(raw_number))
    &&& -18 <= digits <= 59
    &&& mul_ok(human_value(raw_number), fp_ten_pow(digits))
}

/// Reads a human-readable number and scales it by the given power of ten.
fn human_scaled(raw_number: &str, digits: i32) -> (r: Dec)
    requires
        human_scaling_ok(raw_number@, digits as int),
    ensures
        r@ == fp_mul(human_value(raw_number@), fp_ten_pow(digits as int)),
{
    let text = remove_underscores(raw_number);
    match dec_from_str(text.as_str()) {
        Ok(value) => value.scaled(digits),
        Err(_) => {
            proof {
                assert(false);
            }
            Dec::zero()
        },
    }
}

/// A human-readable amount (such as "100_000.5") in base units of a token with
/// the given number of decimals.
pub fn human_to_dec(raw_number: &str, decimals: Decimals) -> (r: Dec)
    requires
        human_scaling_ok(raw_number@, decimals_spec(decimals)),
    ensures
        r@ == fp_mul(human_value(raw_number@), fp_ten_pow(decimals_spec(decimals))),
{
    human_scaled(raw_number, decimals.get_decimals())
}

/// A human-readable amount as protobuf encodes it: in base units of a token with
/// the given number of decimals, times 10^18, displayed.
pub fn human_to_proto(raw_number: &str, decimals: i32) -> (r: String)
    requires
        human_scaling_ok(raw_number@, 18 + decimals),
    ensures
        r@ == fp_display(fp_mul(human_value(raw_number@), fp_ten_pow(18 + decimals))),
{
    dec_to_string(human_scaled(raw_number, 18 + decimals))
}

/// A bank coin of the whole base units that a human-readable amount spells.
pub fn str_coin(human_amount: &str, denom: &str, decimals: Decimals) -> (r: Coin)
    requires
        human_scaling_ok(human_amount@, decimals_spec(decimals)),
        fp_mul(human_value(human_amount@), fp_ten_pow(decimals_spec(decimals))).mag / precision()
            <= u128::MAX,
    ensures
        r.amount as nat == fp_mul(human_value(human_amount@), fp_ten_pow(decimals_spec(decimals))).mag
            / precision(),
        r.denom@ == denom@,
{
    let scaled_amount = human_to_dec(human_amount, decimals);
    Coin { denom: denom.to_owned(), amount: dec_to_u128(scaled_amount) }
}

} // verus!
