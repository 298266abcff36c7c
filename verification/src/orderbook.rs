//! Order-book arithmetic: which price levels a swap consumes and at what price.

use crate::decimal::{
    add_ok, dec_add, dec_div, dec_ge, dec_gt, dec_lt, dec_mul, dec_round_to_min_tick, dec_sub,
    div_ok, fp_add, fp_div, fp_ge, fp_gt, fp_lt, fp_mul, fp_round_to_min_tick, fp_sub, fp_zero,
    fp_int, fp_one, mul_ok, precision, round_to_min_tick_ok, sub_ok, Dec, DecModel,
};
use crate::error::{generic_err, is_generic_err, ContractError};
use crate::helpers::{round_up_ok, round_up_spec, round_up_to_min_tick};
use vstd::prelude::*;

verus! {

/// One price level of an order book: price `p` and quantity `q`.
#[derive(Debug, Clone, Copy)]
pub struct PriceLevel {
    pub p: Dec,
    pub q: Dec,
}

/// The models of a price level's price and quantity.
pub ghost struct LevelModel {
    pub p: DecModel,
    pub q: DecModel,
}

impl View for PriceLevel {
    type V = LevelModel;

    open spec fn view(&self) -> LevelModel {
        LevelModel { p: self.p@, q: self.q@ }
    }
}

/// The models of a sequence of price levels.
pub open spec fn levels_model(levels: Seq<PriceLevel>) -> Seq<LevelModel> {
    levels.map_values(|l: PriceLevel| l@)
}

/// Every price and quantity has a well-formed sign byte.
pub open spec fn levels_wf(levels: Seq<LevelModel>) -> bool {
    forall|i: int| #![trigger levels[i]] 0 <= i < levels.len() ==> levels[i].p.wf() && levels[i].q.wf()
}

/// How much of a price level counts toward a total: its quantity, or its
/// notional (quantity times price).
#[derive(Debug, Clone, Copy)]
pub enum LevelMeasure {
    Quantity,
    Notional,
}

/// The amount that a level contributes under a measure.
pub open spec fn level_value(l: LevelModel, m: LevelMeasure) -> DecModel {
    match m {
        LevelMeasure::Quantity => l.q,
        LevelMeasure::Notional => fp_mul(l.q, l.p),
    }
}

/// The part of a level that is taken when `sum` has already been collected:
/// the whole level, or, when it would carry the sum past the total, the share
/// of its quantity that reaches the total, rounded up to the quantity tick.
pub open spec fn taken_level(
    l: LevelModel,
    value: DecModel,
    sum: DecModel,
    total: DecModel,
    tick: DecModel,
) -> LevelModel {
    if fp_gt(fp_add(sum, value), total) {
        let excess = fp_sub(fp_add(value, sum), total);
        let raw_quantity = fp_mul(fp_div(fp_sub(value, excess), value), l.q);
        LevelModel { p: l.p, q: round_up_spec(raw_quantity, tick) }
    } else {
        l
    }
}

/// Taking a level neither divides by zero nor overflows.
pub open spec fn taken_level_ok(
    l: LevelModel,
    value: DecModel,
    sum: DecModel,
    total: DecModel,
    tick: DecModel,
) -> bool {
    &&& add_ok(sum, value)
    &&& fp_gt(fp_add(sum, value), total) ==> {
        let excess = fp_sub(fp_add(value, sum), total);
        let share = fp_div(fp_sub(value, excess), value);
        &&& add_ok(value, sum)
        &&& sub_ok(fp_add(value, sum), total)
        &&& sub_ok(value, excess)
        &&& div_ok(fp_sub(value, excess), value)
        &&& mul_ok(share, l.q)
        &&& round_up_ok(fp_mul(share, l.q), tick)
    }
}

/// The sum collected and the levels taken, from level `i` on, stopping at the
/// first level that brings the sum to the total.
pub open spec fn scan_levels(
    levels: Seq<LevelModel>,
    m: LevelMeasure,
    total: DecModel,
    tick: DecModel,
    i: nat,
    sum: DecModel,
    taken: Seq<LevelModel>,
) -> (DecModel, Seq<LevelModel>)
    decreases levels.len() - i,
{
    if i >= levels.len() {
        (sum, taken)
    } else {
        let value = level_value(levels[i as int], m);
        let new_sum = fp_add(sum, value);
        let new_taken = taken.push(taken_level(levels[i as int], value, sum, total, tick));
        if fp_ge(new_sum, total) {
            (new_sum, new_taken)
        } else {
            scan_levels(levels, m, total, tick, i + 1, new_sum, new_taken)
        }
    }
}

/// The scan from level `i` on neither meets a level of zero value nor overflows.
pub open spec fn scan_ok(
    levels: Seq<LevelModel>,
    m: LevelMeasure,
    total: DecModel,
    tick: DecModel,
    i: nat,
    sum: DecModel,
) -> bool
    decreases levels.len() - i,
{
    if i >= levels.len() {
        true
    } else {
        let l = levels[i as int];
        let value = level_value(l, m);
        let new_sum = fp_add(sum, value);
        &&& m is Notional ==> mul_ok(l.q, l.p)
        &&& value != fp_zero()
        &&& taken_level_ok(l, value, sum, total, tick)
        &&& !fp_ge(new_sum, total) ==> scan_ok(levels, m, total, tick, i + 1, new_sum)
    }
}

/// The levels that fill `total` under the measure, the last one possibly taken in
/// part; `None` when the book does not hold enough.
pub open spec fn minimum_levels_spec(
    levels: Seq<LevelModel>,
    total: DecModel,
    m: LevelMeasure,
    tick: DecModel,
) -> Option<Seq<LevelModel>> {
    let (sum, taken) = scan_levels(levels, m, total, tick, 0, fp_zero(), Seq::empty());
    if fp_lt(sum, total) {
        None
    } else {
        Some(taken)
    }
}

/// The inputs on which the minimum levels are computed without a panic.
pub open spec fn minimum_levels_ok(
    levels: Seq<LevelModel>,
    total: DecModel,
    m: LevelMeasure,
    tick: DecModel,
) -> bool {
    &&& levels_wf(levels)
    &&& total.wf()
    &&& tick.wf()
    &&& scan_ok(levels, m, total, tick, 0, fp_zero())
}

proof fn lemma_value_wf(l: LevelModel, m: LevelMeasure)
    requires
        l.p.wf(),
        l.q.wf(),
    ensures
        level_value(l, m).wf(),
{
}

/// The amount that a level contributes under the measure.
fn measure_level(level: &PriceLevel, m: LevelMeasure) -> (r: Dec)
    requires
        m is Notional ==> mul_ok(level.q@, level.p@),
    ensures
        r@ == level_value(level@, m),
{
    match m {
        LevelMeasure::Quantity => level.q,
        LevelMeasure::Notional => dec_mul(level.q, level.p),
    }
}

/// The price levels, best first, that fill `total` under the measure; the last
/// one is cut to the share that reaches the total, rounded up to the quantity
/// tick. Fails when the whole book holds less than the total.
pub fn get_minimum_liquidity_levels(
    levels: &Vec<PriceLevel>,
    total: Dec,
    calc: LevelMeasure,
    min_quantity_tick_size: Dec,
) -> (r: Result<Vec<PriceLevel>, ContractError>)
    requires
        minimum_levels_ok(levels_model(levels@), total@, calc, min_quantity_tick_size@),
    ensures
        minimum_levels_spec(levels_model(levels@), total@, calc, min_quantity_tick_size@) matches Some(
            taken,
        ) ==> r matches Ok(v) && levels_model(v@) == taken,
        minimum_levels_spec(levels_model(levels@), total@, calc, min_quantity_tick_size@) is None
            ==> r is Err && is_generic_err(r->Err_0, "Not enough liquidity to fulfill order"@),
{
    let ghost lm = levels_model(levels@);
    let ghost tick = min_quantity_tick_size@;
    let mut sum = Dec::zero();
    let mut orders: Vec<PriceLevel> = Vec::new();
    let mut i: usize = 0;
    assert(levels_model(orders@) =~= Seq::<LevelModel>::empty());
    while i < levels.len()
        invariant_except_break
            scan_ok(lm, calc, total@, tick, i as nat, sum@),
            scan_levels(lm, calc, total@, tick, 0, fp_zero(), Seq::empty()) == scan_levels(
                lm,
                calc,
                total@,
                tick,
                i as nat,
                sum@,
                levels_model(orders@),
            ),
        invariant
            i <= levels.len(),
            lm == levels_model(levels@),
            tick == min_quantity_tick_size@,
            minimum_levels_ok(lm, total@, calc, tick),
            sum@.wf(),
        ensures
            scan_levels(lm, calc, total@, tick, 0, fp_zero(), Seq::empty()) == (
                sum@,
                levels_model(orders@),
            ),
        decreases levels.len() - i,
    {
        let level = levels[i];
        assert(lm[i as int] == level@);
        assert(lm[i as int].p.wf() && lm[i as int].q.wf());
        proof {
            lemma_value_wf(level@, calc);
        }
        let value = measure_level(&level, calc);
        let ghost old_orders = levels_model(orders@);
        let ghost old_sum = sum@;
        let order_to_add = if dec_gt(dec_add(sum, value), total) {
            let excess = dec_sub(dec_add(value, sum), total);
            let share = dec_div(dec_sub(value, excess), value);
            let raw_quantity = dec_mul(share, level.q);
            let rounded_quantity = round_up_to_min_tick(raw_quantity, min_quantity_tick_size);
            PriceLevel { p: level.p, q: rounded_quantity }
        } else {
            level
        };
        sum = dec_add(sum, value);
        orders.push(order_to_add);
        assert(levels_model(orders@) =~= old_orders.push(
            taken_level(lm[i as int], value@, old_sum, total@, tick),
        ));
        if dec_ge(sum, total) {
            break;
        }
        i = i + 1;
    }
    if dec_lt(sum, total) {
        return Err(generic_err("Not enough liquidity to fulfill order"));
    }
    Ok(orders)
}

/// The total quantity and total notional (price times quantity) of the first `n` levels.
pub open spec fn level_totals(levels: Seq<LevelModel>, n: nat) -> (DecModel, DecModel)
    decreases n,
{
    if n == 0 || n > levels.len() {
        (fp_zero(), fp_zero())
    } else {
        let (quantity, notional) = level_totals(levels, (n - 1) as nat);
        let l = levels[n - 1];
        (fp_add(quantity, l.q), fp_add(notional, fp_mul(l.p, l.q)))
    }
}

/// Summing the first `n` levels does not overflow.
pub open spec fn level_totals_ok(levels: Seq<LevelModel>, n: nat) -> bool
    decreases n,
{
    if n == 0 || n > levels.len() {
        true
    } else {
        let (quantity, notional) = level_totals(levels, (n - 1) as nat);
        let l = levels[n - 1];
        &&& level_totals_ok(levels, (n - 1) as nat)
        &&& add_ok(quantity, l.q)
        &&& mul_ok(l.p, l.q)
        &&& add_ok(notional, fp_mul(l.p, l.q))
    }
}

/// The quantity-weighted average price of the levels, rounded to the price tick:
/// up (never below the true average) or down (never above it).
pub open spec fn average_price_spec(levels: Seq<LevelModel>, tick: DecModel, is_rounding_up: bool) -> DecModel {
    let (quantity, notional) = level_totals(levels, levels.len());
    let average = fp_div(notional, quantity);
    if is_rounding_up {
        round_up_spec(average, tick)
    } else {
        fp_round_to_min_tick(average, tick)
    }
}

/// The inputs on which the average price is computed without a panic: the
/// sums fit, the total quantity is not zero, and division and rounding succeed.
pub open spec fn average_price_ok(levels: Seq<LevelModel>, tick: DecModel, is_rounding_up: bool) -> bool {
    let (quantity, notional) = level_totals(levels, levels.len());
    let average = fp_div(notional, quantity);
    &&& levels_wf(levels)
    &&& tick.wf()
    &&& level_totals_ok(levels, levels.len())
    &&& quantity != fp_zero()
    &&& div_ok(notional, quantity)
    &&& is_rounding_up ==> round_up_ok(average, tick)
    &&& !is_rounding_up ==> round_to_min_tick_ok(average, tick)
}

proof fn lemma_totals_wf(levels: Seq<LevelModel>, n: nat)
    requires
        levels_wf(levels),
    ensures
        level_totals(levels, n).0.wf(),
        level_totals(levels, n).1.wf(),
    decreases n,
{
    if n > 0 && n <= levels.len() {
        lemma_totals_wf(levels, (n - 1) as nat);
        assert(levels[n - 1].p.wf());
    }
}

/// The average price of the levels, weighted by quantity, rounded to the tick.
pub fn get_average_price_from_orders(levels: &Vec<PriceLevel>, min_price_tick_size: Dec, is_rounding_up: bool) -> (r: Dec)
    requires
        average_price_ok(levels_model(levels@), min_price_tick_size@, is_rounding_up),
    ensures
        r@ == average_price_spec(levels_model(levels@), min_price_tick_size@, is_rounding_up),
        r@.wf(),
{
    let ghost lm = levels_model(levels@);
    let mut total_quantity = Dec::zero();
    let mut total_notional = Dec::zero();
    let mut i: usize = 0;
    while i < levels.len()
        invariant
            i <= levels.len(),
            lm == levels_model(levels@),
            levels_wf(lm),
            level_totals_ok(lm, lm.len()),
            (total_quantity@, total_notional@) == level_totals(lm, i as nat),
        decreases levels.len() - i,
    {
        let level = levels[i];
        assert(lm[i as int] == level@);
        proof {
            lemma_totals_wf(lm, i as nat);
            lemma_totals_ok_prefix(lm, lm.len(), (i + 1) as nat);
        }
        total_quantity = dec_add(total_quantity, level.q);
        total_notional = dec_add(total_notional, dec_mul(level.p, level.q));
        i = i + 1;
    }
    proof {
        lemma_totals_wf(lm, lm.len());
    }
    let average_price = dec_div(total_notional, total_quantity);
    proof {
        crate::decimal::lemma_wf_closed(total_notional@, total_quantity@);
        crate::decimal::lemma_wf_closed(average_price@, min_price_tick_size@);
        crate::helpers::lemma_round_up_wf(average_price@, min_price_tick_size@);
    }
    if is_rounding_up {
        round_up_to_min_tick(average_price, min_price_tick_size)
    } else {
        dec_round_to_min_tick(average_price, min_price_tick_size)
    }
}

/// The quantity-weighted average price of the levels, before rounding.
pub open spec fn true_average_price(levels: Seq<LevelModel>) -> DecModel {
    let (quantity, notional) = level_totals(levels, levels.len());
    fp_div(notional, quantity)
}

/// Rounding a non-negative number down to a positive tick never raises it.
proof fn lemma_round_down_not_above(num: DecModel, tick: DecModel)
    requires
        num.sign == 1,
        tick.sign == 1,
        tick.mag > 0,
    ensures
        fp_round_to_min_tick(num, tick).sign == 1,
        fp_round_to_min_tick(num, tick).mag <= num.mag,
{
    let p = precision() as int;
    let n = num.mag as int;
    let t = tick.mag as int;
    if !fp_lt(num, tick) {
        let d = crate::decimal::fp_div_or_zero(num, tick);
        if tick == fp_one() {
            assert(d == num);
            vstd::arithmetic::div_mod::lemma_fundamental_div_mod(n, p);
            vstd::arithmetic::div_mod::lemma_mod_bound(n, p);
            let k = n / p;
            assert(k * p * p / p == k * p) by {
                vstd::arithmetic::div_mod::lemma_div_by_multiple(k * p, p);
            }
            assert(k * p <= n) by (nonlinear_arith)
                requires
                    n == p * k + n % p,
                    n % p >= 0,
            ;
        } else if (p * n) / t == 0 {
            assert(fp_int(d).mag == 0);
        } else {
            let q = (p * n) / t;
            assert(d.mag == q);
            vstd::arithmetic::div_mod::lemma_div_denominator(p * n, t, p);
            vstd::arithmetic::div_mod::lemma_div_multiples_vanish_quotient(p, n, t);
            assert(t * p == p * t) by (nonlinear_arith);
            let k = q / p;
            assert(k == n / t);
            assert(k * p * t / p == k * t) by {
                assert(k * p * t == (k * t) * p) by (nonlinear_arith);
                vstd::arithmetic::div_mod::lemma_div_by_multiple(k * t, p);
            }
            vstd::arithmetic::div_mod::lemma_fundamental_div_mod(n, t);
            vstd::arithmetic::div_mod::lemma_mod_bound(n, t);
            assert(k * t <= n) by (nonlinear_arith)
                requires
                    n == t * k + n % t,
                    n % t >= 0,
            ;
            assert(fp_int(d).mag == k * p);
        }
    }
}

/// Estimates err on the side of the swap: a buy is priced at the average of the
/// levels rounded up to the price tick, never below the true average, and a
/// sale at the average rounded down, never above it (and never negative).
pub proof fn law_average_price_is_conservative(levels: Seq<LevelModel>, tick: DecModel)
    requires
        true_average_price(levels).sign == 1,
        tick.sign == 1,
        tick.mag > 0,
        round_up_ok(true_average_price(levels), tick),
    ensures
        average_price_spec(levels, tick, true).value() >= true_average_price(levels).value(),
        0 <= average_price_spec(levels, tick, false).value() <= true_average_price(levels).value(),
{
    crate::helpers::law_round_up_to_min_tick(true_average_price(levels), tick);
    lemma_round_down_not_above(true_average_price(levels), tick);
}

proof fn lemma_totals_ok_prefix(levels: Seq<LevelModel>, n: nat, k: nat)
    requires
        level_totals_ok(levels, n),
        k <= n <= levels.len(),
    ensures
        level_totals_ok(levels, k),
    decreases n,
{
    if k < n {
        lemma_totals_ok_prefix(levels, (n - 1) as nat, k);
    }
}

/// The price of the last level taken.
pub fn get_worst_price_from_orders(levels: &Vec<PriceLevel>) -> (r: Dec)
    requires
        levels@.len() > 0,
    ensures
        r == levels@.last().p,
{
    levels[levels.len() - 1].p
}

proof fn lemma_scan_shape(
    levels: Seq<LevelModel>,
    m: LevelMeasure,
    total: DecModel,
    tick: DecModel,
    i: nat,
    sum: DecModel,
    taken: Seq<LevelModel>,
)
    requires
        i <= levels.len(),
        taken.len() == i,
        forall|k: int| 0 <= k < i ==> taken[k] == levels[k],
    ensures
        ({
            let t = scan_levels(levels, m, total, tick, i, sum, taken).1;
            &&& t.len() <= levels.len()
            &&& i < levels.len() ==> t.len() > i
            &&& forall|k: int| 0 <= k < t.len() ==> #[trigger] t[k].p == levels[k].p
            &&& forall|k: int| 0 <= k < t.len() - 1 ==> #[trigger] t[k] == levels[k]
        }),
    decreases levels.len() - i,
{
    if i < levels.len() {
        let value = level_value(levels[i as int], m);
        let new_sum = fp_add(sum, value);
        let new_taken = taken.push(taken_level(levels[i as int], value, sum, total, tick));
        if !fp_ge(new_sum, total) {
            assert(!fp_gt(new_sum, total));
            assert(new_taken[i as int] == levels[i as int]);
            assert forall|k: int| 0 <= k < i + 1 implies new_taken[k] == levels[k] by {
                if k < i {
                    assert(new_taken[k] == taken[k]);
                }
            }
            lemma_scan_shape(levels, m, total, tick, i + 1, new_sum, new_taken);
        } else {
            assert forall|k: int| 0 <= k < new_taken.len() implies #[trigger] new_taken[k].p == levels[k].p by {
                if k < i {
                    assert(new_taken[k] == taken[k]);
                }
            }
            assert forall|k: int| 0 <= k < new_taken.len() - 1 implies #[trigger] new_taken[k] == levels[k] by {
                assert(new_taken[k] == taken[k]);
            }
        }
    }
}

/// The levels taken are the first levels of the book, in order and at their own
/// prices, at least one when the book has any; all but the last are taken whole.
pub proof fn law_minimum_levels_are_a_prefix(
    levels: Seq<LevelModel>,
    total: DecModel,
    m: LevelMeasure,
    tick: DecModel,
)
    requires
        minimum_levels_spec(levels, total, m, tick) is Some,
    ensures
        ({
            let taken = minimum_levels_spec(levels, total, m, tick).unwrap();
            &&& taken.len() <= levels.len()
            &&& levels.len() > 0 ==> taken.len() > 0
            &&& forall|k: int| 0 <= k < taken.len() ==> #[trigger] taken[k].p == levels[k].p
            &&& forall|k: int| 0 <= k < taken.len() - 1 ==> #[trigger] taken[k] == levels[k]
        }),
{
    lemma_scan_shape(levels, m, total, tick, 0, fp_zero(), Seq::empty());
}

} // verus!
