//! Estimation of a swap: for each market of the route, the price, quantity and
//! fee of the atomic market order that the step would place.
//!
//! One step of an estimate goes through these calls, in this order, with the
//! chain queries in between made by the caller:
//! `check_swap_denom`, then `plan_single_swap_execution` (given the market's
//! atomic fee multiplier), then `estimate_step_from_orderbook` (given the order
//! book that the plan asks for), and for a buy `settle_buy` (given the
//! contract's balance of the quote denomination).

use crate::decimal::{
    add_ok, dec_add, dec_div, dec_gt, dec_mul, dec_round_to_min_tick, dec_sub, dec_to_string,
    div_ok, option_model, fp_add, fp_display, fp_div, fp_gt, fp_mul, fp_one, fp_round_to_min_tick, fp_sub,
    fp_zero, lemma_wf_closed, mul_ok, round_to_min_tick_ok, sub_ok, Dec, DecModel,
};
use crate::error::{generic_err, is_generic_err, ContractError, StdError};
use crate::helpers::{lemma_round_up_wf, round_up_ok, round_up_spec, round_up_to_min_tick};
use crate::orderbook::{
    average_price_ok, average_price_spec, get_average_price_from_orders,
    get_minimum_liquidity_levels, get_worst_price_from_orders, levels_model, minimum_levels_ok,
    minimum_levels_spec, law_minimum_levels_are_a_prefix, LevelMeasure, LevelModel, PriceLevel,
};
use crate::types::{
    reversed_market_ids, Config, FPCoin, MarketId, StepExecutionEstimate, SwapEstimationAmount,
    SwapEstimationResult, SwapRoute,
};
use vstd::prelude::*;

verus! {

/// What the swap logic reads of a spot market.
#[derive(Debug)]
pub struct SpotMarket {
    pub market_id: MarketId,
    pub base_denom: String,
    pub quote_denom: String,
    pub taker_fee_rate: Dec,
    pub relayer_fee_share_rate: Dec,
    pub min_price_tick_size: Dec,
    pub min_quantity_tick_size: Dec,
}

impl SpotMarket {
    /// All decimals of the market have well-formed sign bytes.
    pub open spec fn wf(self) -> bool {
        &&& self.taker_fee_rate@.wf()
        &&& self.relayer_fee_share_rate@.wf()
        &&& self.min_price_tick_size@.wf()
        &&& self.min_quantity_tick_size@.wf()
    }
}

/// The side of the order book to read: resting buy orders or resting sell orders.
#[derive(Debug, Clone, Copy, PartialEq, Eq)]
pub enum BookSide {
    Buy,
    Sell,
}

/// The order-book query that one step needs, and the step's direction and fee rate.
#[derive(Debug)]
pub struct StepPlan {
    pub is_buy: bool,
    pub fee_percent: Dec,
    pub side: BookSide,
    pub limit_cumulative_quantity: Option<Dec>,
    pub limit_cumulative_notional: Option<Dec>,
}

/// The share of the relayer fee that goes back to the swapper: the market's
/// relayer share when the contract relays its own orders, zero otherwise.
pub fn get_effective_fee_discount_rate(market: &SpotMarket, is_self_relayer: bool) -> (r: Dec)
    ensures
        r@ == (if is_self_relayer { market.relayer_fee_share_rate@ } else { fp_zero() }),
{
    if !is_self_relayer {
        Dec::zero()
    } else {
        market.relayer_fee_share_rate
    }
}

/// The fee rate of an atomic order: taker rate times the atomic multiplier,
/// less the discount.
pub open spec fn fee_percent_spec(market: SpotMarket, fee_multiplier: DecModel, is_self_relayer: bool) -> DecModel {
    let discount = if is_self_relayer { market.relayer_fee_share_rate@ } else { fp_zero() };
    fp_mul(fp_mul(market.taker_fee_rate@, fee_multiplier), fp_sub(fp_one(), discount))
}

pub open spec fn fee_percent_ok(market: SpotMarket, fee_multiplier: DecModel, is_self_relayer: bool) -> bool {
    let discount = if is_self_relayer { market.relayer_fee_share_rate@ } else { fp_zero() };
    &&& market.wf()
    &&& fee_multiplier.wf()
    &&& mul_ok(market.taker_fee_rate@, fee_multiplier)
    &&& sub_ok(fp_one(), discount)
    &&& mul_ok(fp_mul(market.taker_fee_rate@, fee_multiplier), fp_sub(fp_one(), discount))
}

/// Whether the step buys the market's base denomination: estimating from the
/// amount to receive, when that amount is in the base denomination; estimating
/// from the amount paid, when that amount is not in the base denomination.
pub open spec fn is_buy_spec(market: SpotMarket, amount: SwapEstimationAmount) -> bool {
    if amount.from_target() {
        amount.coin().denom@ == market.base_denom@
    } else {
        amount.coin().denom@ != market.base_denom@
    }
}

/// The amount that a step starts from.
pub fn estimation_coin(amount: &SwapEstimationAmount) -> (r: &FPCoin)
    ensures
        *r == amount.coin(),
{
    match amount {
        SwapEstimationAmount::InputQuantity(c) => c,
        SwapEstimationAmount::ReceiveQuantity(c) => c,
    }
}

/// Fails when the coin of the step is neither of the market's denominations.
pub fn check_swap_denom(market: &SpotMarket, amount: &SwapEstimationAmount) -> (r: Result<
    (),
    ContractError,
>)
    ensures
        r is Ok <==> (amount.coin().denom@ == market.quote_denom@ || amount.coin().denom@
            == market.base_denom@),
        r is Err ==> is_generic_err(r->Err_0, "Invalid swap denom - neither base nor quote"@),
{
    let balance_in = estimation_coin(amount);
    if balance_in.denom != market.quote_denom && balance_in.denom != market.base_denom {
        return Err(generic_err("Invalid swap denom - neither base nor quote"));
    }
    Ok(())
}

/// The quote funds that a buy from a paid quote amount `q` may spend on the
/// order, the rest being the fee: `q / (1 + fee)`.
pub open spec fn available_quote_spec(q: DecModel, f: DecModel) -> DecModel {
    fp_div(q, fp_add(fp_one(), f))
}

/// The quote amount that a sell must raise so that `t` remains after the fee:
/// `t / (1 - fee)`.
pub open spec fn required_quote_spec(t: DecModel, f: DecModel) -> DecModel {
    fp_div(t, fp_sub(fp_one(), f))
}

/// The order-book query of a step: buys read resting sells and sells read resting
/// buys; from a paid quote amount and to a received quote amount the book is
/// limited by notional, otherwise by quantity.
pub open spec fn plan_matches(
    plan: StepPlan,
    market: SpotMarket,
    amount: SwapEstimationAmount,
    f: DecModel,
) -> bool {
    let q = amount.coin().amount@;
    let is_buy = is_buy_spec(market, amount);
    &&& plan.is_buy == is_buy
    &&& plan.fee_percent@ == f
    &&& plan.side == (if is_buy { BookSide::Sell } else { BookSide::Buy })
    &&& (if is_buy && !amount.from_target() {
        plan.limit_cumulative_quantity is None && option_model(plan.limit_cumulative_notional) == Some(available_quote_spec(q, f))
    } else if is_buy {
        plan.limit_cumulative_notional is None && option_model(plan.limit_cumulative_quantity) == Some(round_up_spec(q, market.min_quantity_tick_size@))
    } else if !amount.from_target() {
        plan.limit_cumulative_notional is None && option_model(plan.limit_cumulative_quantity) == Some(q)
    } else {
        plan.limit_cumulative_quantity is None && option_model(plan.limit_cumulative_notional) == Some(required_quote_spec(q, f))
    })
}

/// The plan's arithmetic neither divides by zero nor overflows.
pub open spec fn plan_ok(market: SpotMarket, amount: SwapEstimationAmount, f: DecModel) -> bool {
    let q = amount.coin().amount@;
    let is_buy = is_buy_spec(market, amount);
    &&& q.wf()
    &&& f.wf()
    &&& market.wf()
    &&& (is_buy && !amount.from_target()) ==> add_ok(fp_one(), f) && div_ok(q, fp_add(fp_one(), f))
    &&& (is_buy && amount.from_target()) ==> round_up_ok(q, market.min_quantity_tick_size@)
    &&& (!is_buy && amount.from_target()) ==> sub_ok(fp_one(), f) && div_ok(q, fp_sub(fp_one(), f))
}

/// The fee rate and the order-book query of one step, given whether the
/// contract relays its own orders (its fee recipient is itself) and the
/// market's atomic execution fee multiplier.
pub fn plan_single_swap_execution(
    market: &SpotMarket,
    amount: &SwapEstimationAmount,
    config: &Config,
    contract_address: &str,
    fee_multiplier: Dec,
) -> (r: StepPlan)
    requires
        fee_percent_ok(*market, fee_multiplier@, config.fee_recipient@ == contract_address@),
        plan_ok(*market, *amount, fee_percent_spec(*market, fee_multiplier@, config.fee_recipient@ == contract_address@)),
    ensures
        plan_matches(r, *market, *amount, fee_percent_spec(*market, fee_multiplier@, config.fee_recipient@ == contract_address@)),
        r.is_buy ==> r.side == BookSide::Sell,
        !r.is_buy ==> r.side == BookSide::Buy,
{
    let is_self_relayer = config.fee_recipient == contract_address.to_owned();
    let discount = get_effective_fee_discount_rate(market, is_self_relayer);
    let fee_percent = dec_mul(
        dec_mul(market.taker_fee_rate, fee_multiplier),
        dec_sub(Dec::one(), discount),
    );
    let balance_in = estimation_coin(amount);
    let from_target = match amount {
        SwapEstimationAmount::ReceiveQuantity(_) => true,
        SwapEstimationAmount::InputQuantity(_) => false,
    };
    let is_buy = if from_target {
        balance_in.denom == market.base_denom
    } else {
        balance_in.denom != market.base_denom
    };
    let q = balance_in.amount;
    if is_buy && !from_target {
        let available = dec_div(q, dec_add(Dec::one(), fee_percent));
        StepPlan {
            is_buy,
            fee_percent,
            side: BookSide::Sell,
            limit_cumulative_quantity: None,
            limit_cumulative_notional: Some(available),
        }
    } else if is_buy {
        let rounded = round_up_to_min_tick(q, market.min_quantity_tick_size);
        StepPlan {
            is_buy,
            fee_percent,
            side: BookSide::Sell,
            limit_cumulative_quantity: Some(rounded),
            limit_cumulative_notional: None,
        }
    } else if !from_target {
        StepPlan {
            is_buy,
            fee_percent,
            side: BookSide::Buy,
            limit_cumulative_quantity: Some(q),
            limit_cumulative_notional: None,
        }
    } else {
        let required = dec_div(q, dec_sub(Dec::one(), fee_percent));
        StepPlan {
            is_buy,
            fee_percent,
            side: BookSide::Buy,
            limit_cumulative_quantity: None,
            limit_cumulative_notional: Some(required),
        }
    }
}

/// The content of a step estimate.
pub ghost struct EstimateModel {
    pub worst_price: DecModel,
    pub result_denom: Seq<char>,
    pub result_quantity: DecModel,
    pub is_buy_order: bool,
    pub fee_amount: DecModel,
    pub fee_denom: Seq<char>,
}

/// The estimate holds exactly this content, with a fee.
pub open spec fn describes(e: StepExecutionEstimate, m: EstimateModel) -> bool {
    &&& e.worst_price@ == m.worst_price
    &&& e.result_denom@ == m.result_denom
    &&& e.result_quantity@ == m.result_quantity
    &&& e.is_buy_order == m.is_buy_order
    &&& e.fee_estimate is Some
    &&& e.fee_estimate.unwrap().amount@ == m.fee_amount
    &&& e.fee_estimate.unwrap().denom@ == m.fee_denom
}

/// A buy estimate that still has to be checked against the contract's funds.
#[derive(Debug)]
pub struct PendingBuy {
    pub estimate: StepExecutionEstimate,
    /// Quote funds that the order may need at its worst price, fee included.
    pub required_funds: Dec,
    /// Quote funds that the swapper brings to this step.
    pub own_input: Dec,
}

/// The content of a pending buy.
pub ghost struct BuyModel {
    pub estimate: EstimateModel,
    pub required_funds: DecModel,
    pub own_input: DecModel,
}

pub open spec fn describes_buy(b: PendingBuy, m: BuyModel) -> bool {
    &&& describes(b.estimate, m.estimate)
    &&& b.required_funds@ == m.required_funds
    &&& b.own_input@ == m.own_input
}

/// Selling the base amount `q` into the resting buys: the quote received at the
/// average price (rounded down), less the fee.
pub open spec fn sell_from_source_spec(market: SpotMarket, q: DecModel, f: DecModel, levels: Seq<LevelModel>) -> Option<EstimateModel> {
    match minimum_levels_spec(levels, q, LevelMeasure::Quantity, market.min_quantity_tick_size@) {
        None => None,
        Some(top) => {
            let average = average_price_spec(top, market.min_price_tick_size@, false);
            let exchanged = fp_mul(q, average);
            let fee = fp_mul(exchanged, f);
            Some(EstimateModel {
                worst_price: top.last().p,
                result_denom: market.quote_denom@,
                result_quantity: fp_sub(exchanged, fee),
                is_buy_order: false,
                fee_amount: fee,
                fee_denom: market.quote_denom@,
            })
        },
    }
}

pub open spec fn sell_from_source_ok(market: SpotMarket, q: DecModel, f: DecModel, levels: Seq<LevelModel>) -> bool {
    &&& q.wf()
    &&& f.wf()
    &&& market.wf()
    &&& minimum_levels_ok(levels, q, LevelMeasure::Quantity, market.min_quantity_tick_size@)
    &&& minimum_levels_spec(levels, q, LevelMeasure::Quantity, market.min_quantity_tick_size@) matches Some(top) ==> {
        let average = average_price_spec(top, market.min_price_tick_size@, false);
        let exchanged = fp_mul(q, average);
        &&& top.len() > 0
        &&& average_price_ok(top, market.min_price_tick_size@, false)
        &&& mul_ok(q, average)
        &&& mul_ok(exchanged, f)
        &&& sub_ok(exchanged, fp_mul(exchanged, f))
    }
}

/// Selling enough base to receive the quote amount `t` after the fee: the quote
/// to raise is `t / (1 - fee)`; the base needed is that over the average price
/// (rounded down), rounded up to the quantity tick.
pub open spec fn sell_from_target_spec(market: SpotMarket, t: DecModel, f: DecModel, levels: Seq<LevelModel>) -> Option<EstimateModel> {
    let required = required_quote_spec(t, f);
    match minimum_levels_spec(levels, required, LevelMeasure::Notional, market.min_quantity_tick_size@) {
        None => None,
        Some(top) => {
            let average = average_price_spec(top, market.min_price_tick_size@, false);
            Some(EstimateModel {
                worst_price: top.last().p,
                result_denom: market.base_denom@,
                result_quantity: round_up_spec(fp_div(required, average), market.min_quantity_tick_size@),
                is_buy_order: false,
                fee_amount: fp_sub(required, t),
                fee_denom: market.quote_denom@,
            })
        },
    }
}

pub open spec fn sell_from_target_ok(market: SpotMarket, t: DecModel, f: DecModel, levels: Seq<LevelModel>) -> bool {
    let required = required_quote_spec(t, f);
    &&& t.wf()
    &&& f.wf()
    &&& market.wf()
    &&& sub_ok(fp_one(), f)
    &&& div_ok(t, fp_sub(fp_one(), f))
    &&& sub_ok(required, t)
    &&& minimum_levels_ok(levels, required, LevelMeasure::Notional, market.min_quantity_tick_size@)
    &&& minimum_levels_spec(levels, required, LevelMeasure::Notional, market.min_quantity_tick_size@) matches Some(top) ==> {
        let average = average_price_spec(top, market.min_price_tick_size@, false);
        &&& top.len() > 0
        &&& average_price_ok(top, market.min_price_tick_size@, false)
        &&& div_ok(required, average)
        &&& round_up_ok(fp_div(required, average), market.min_quantity_tick_size@)
    }
}

/// Buying base with the paid quote amount `q`: `q / (1 + fee)` goes to the order,
/// the rest is the fee; the base received is that over the average price
/// (rounded up), rounded down to the quantity tick.
pub open spec fn buy_from_source_spec(market: SpotMarket, q: DecModel, f: DecModel, levels: Seq<LevelModel>) -> Option<BuyModel> {
    let available = available_quote_spec(q, f);
    match minimum_levels_spec(levels, available, LevelMeasure::Notional, market.min_quantity_tick_size@) {
        None => None,
        Some(top) => {
            let average = average_price_spec(top, market.min_price_tick_size@, true);
            let worst = top.last().p;
            let expected_base = fp_div(available, average);
            Some(BuyModel {
                estimate: EstimateModel {
                    worst_price: worst,
                    result_denom: market.base_denom@,
                    result_quantity: fp_round_to_min_tick(expected_base, market.min_quantity_tick_size@),
                    is_buy_order: true,
                    fee_amount: fp_sub(q, available),
                    fee_denom: market.quote_denom@,
                },
                required_funds: fp_mul(fp_mul(worst, expected_base), fp_add(fp_one(), f)),
                own_input: available,
            })
        },
    }
}

pub open spec fn buy_from_source_ok(market: SpotMarket, q: DecModel, f: DecModel, levels: Seq<LevelModel>) -> bool {
    let available = available_quote_spec(q, f);
    &&& q.wf()
    &&& f.wf()
    &&& market.wf()
    &&& add_ok(fp_one(), f)
    &&& div_ok(q, fp_add(fp_one(), f))
    &&& minimum_levels_ok(levels, available, LevelMeasure::Notional, market.min_quantity_tick_size@)
    &&& minimum_levels_spec(levels, available, LevelMeasure::Notional, market.min_quantity_tick_size@) matches Some(top) ==> {
        let average = average_price_spec(top, market.min_price_tick_size@, true);
        let worst = top.last().p;
        let expected_base = fp_div(available, average);
        &&& top.len() > 0
        &&& average_price_ok(top, market.min_price_tick_size@, true)
        &&& div_ok(available, average)
        &&& round_to_min_tick_ok(expected_base, market.min_quantity_tick_size@)
        &&& sub_ok(q, available)
        &&& mul_ok(worst, expected_base)
        &&& mul_ok(fp_mul(worst, expected_base), fp_add(fp_one(), f))
    }
}

/// Buying the base amount `t` (rounded up to the quantity tick): the quote paid is
/// that times the average price (rounded up), plus the fee on it.
pub open spec fn buy_from_target_spec(market: SpotMarket, t: DecModel, f: DecModel, levels: Seq<LevelModel>) -> Option<BuyModel> {
    let rounded = round_up_spec(t, market.min_quantity_tick_size@);
    match minimum_levels_spec(levels, rounded, LevelMeasure::Quantity, market.min_quantity_tick_size@) {
        None => None,
        Some(top) => {
            let average = average_price_spec(top, market.min_price_tick_size@, true);
            let worst = top.last().p;
            let exchanged = fp_mul(rounded, average);
            let fee = fp_mul(exchanged, f);
            let required_input = fp_add(exchanged, fee);
            Some(BuyModel {
                estimate: EstimateModel {
                    worst_price: worst,
                    result_denom: market.quote_denom@,
                    result_quantity: required_input,
                    is_buy_order: true,
                    fee_amount: fee,
                    fee_denom: market.quote_denom@,
                },
                required_funds: fp_mul(fp_mul(worst, rounded), fp_add(fp_one(), f)),
                own_input: required_input,
            })
        },
    }
}

pub open spec fn buy_from_target_ok(market: SpotMarket, t: DecModel, f: DecModel, levels: Seq<LevelModel>) -> bool {
    let rounded = round_up_spec(t, market.min_quantity_tick_size@);
    &&& t.wf()
    &&& f.wf()
    &&& market.wf()
    &&& round_up_ok(t, market.min_quantity_tick_size@)
    &&& minimum_levels_ok(levels, rounded, LevelMeasure::Quantity, market.min_quantity_tick_size@)
    &&& minimum_levels_spec(levels, rounded, LevelMeasure::Quantity, market.min_quantity_tick_size@) matches Some(top) ==> {
        let average = average_price_spec(top, market.min_price_tick_size@, true);
        let worst = top.last().p;
        let exchanged = fp_mul(rounded, average);
        &&& top.len() > 0
        &&& average_price_ok(top, market.min_price_tick_size@, true)
        &&& mul_ok(rounded, average)
        &&& mul_ok(exchanged, f)
        &&& add_ok(exchanged, fp_mul(exchanged, f))
        &&& add_ok(fp_one(), f)
        &&& mul_ok(worst, rounded)
        &&& mul_ok(fp_mul(worst, rounded), fp_add(fp_one(), f))
    }
}

proof fn lemma_top_wf(top: Seq<LevelModel>)
    requires
        crate::orderbook::levels_wf(top),
        top.len() > 0,
    ensures
        top.last().p.wf(),
        top.last().q.wf(),
{
    assert(top[top.len() - 1].p.wf());
}

fn quote_fee(market: &SpotMarket, amount: Dec) -> (r: Option<FPCoin>)
    ensures
        r is Some,
        r.unwrap().amount == amount,
        r.unwrap().denom@ == market.quote_denom@,
{
    Some(FPCoin { denom: market.quote_denom.clone(), amount })
}

fn estimate_execution_sell_from_source(market: &SpotMarket, input_base_quantity: Dec, fee_percent: Dec, levels: &Vec<PriceLevel>) -> (r: Result<StepExecutionEstimate, ContractError>)
    requires
        sell_from_source_ok(*market, input_base_quantity@, fee_percent@, levels_model(levels@)),
    ensures
        sell_from_source_spec(*market, input_base_quantity@, fee_percent@, levels_model(levels@)) matches Some(m) ==> r matches Ok(e) && describes(e, m),
        sell_from_source_spec(*market, input_base_quantity@, fee_percent@, levels_model(levels@)) is None ==> r is Err && is_generic_err(r->Err_0, "Not enough liquidity to fulfill order"@),
{
    let top_orders = match get_minimum_liquidity_levels(levels, input_base_quantity, LevelMeasure::Quantity, market.min_quantity_tick_size) {
        Ok(t) => t,
        Err(e) => return Err(e),
    };
    let average_price = get_average_price_from_orders(&top_orders, market.min_price_tick_size, false);
    let worst_price = get_worst_price_from_orders(&top_orders);
    let expected_exchange_quantity = dec_mul(input_base_quantity, average_price);
    let fee_estimate = dec_mul(expected_exchange_quantity, fee_percent);
    proof {
        lemma_wf_closed(input_base_quantity@, average_price@);
        lemma_wf_closed(expected_exchange_quantity@, fee_percent@);
    }
    let expected_quantity = dec_sub(expected_exchange_quantity, fee_estimate);
    Ok(StepExecutionEstimate {
        worst_price,
        result_quantity: expected_quantity,
        result_denom: market.quote_denom.clone(),
        is_buy_order: false,
        fee_estimate: quote_fee(market, fee_estimate),
    })
}

fn estimate_execution_sell_from_target(market: &SpotMarket, target_quote_output_quantity: Dec, fee_percent: Dec, levels: &Vec<PriceLevel>) -> (r: Result<StepExecutionEstimate, ContractError>)
    requires
        sell_from_target_ok(*market, target_quote_output_quantity@, fee_percent@, levels_model(levels@)),
    ensures
        sell_from_target_spec(*market, target_quote_output_quantity@, fee_percent@, levels_model(levels@)) matches Some(m) ==> r matches Ok(e) && describes(e, m),
        sell_from_target_spec(*market, target_quote_output_quantity@, fee_percent@, levels_model(levels@)) is None ==> r is Err && is_generic_err(r->Err_0, "Not enough liquidity to fulfill order"@),
{
    proof {
        lemma_wf_closed(fp_one(), fee_percent@);
    }
    let required_swap_quantity_in_quote = dec_div(target_quote_output_quantity, dec_sub(Dec::one(), fee_percent));
    proof {
        lemma_wf_closed(target_quote_output_quantity@, fp_sub(fp_one(), fee_percent@));
    }
    let required_fee = dec_sub(required_swap_quantity_in_quote, target_quote_output_quantity);
    let top_orders = match get_minimum_liquidity_levels(levels, required_swap_quantity_in_quote, LevelMeasure::Notional, market.min_quantity_tick_size) {
        Ok(t) => t,
        Err(e) => return Err(e),
    };
    let average_price = get_average_price_from_orders(&top_orders, market.min_price_tick_size, false);
    let worst_price = get_worst_price_from_orders(&top_orders);
    let required_swap_input_quantity_in_base = dec_div(required_swap_quantity_in_quote, average_price);
    Ok(StepExecutionEstimate {
        worst_price,
        result_quantity: round_up_to_min_tick(required_swap_input_quantity_in_base, market.min_quantity_tick_size),
        result_denom: market.base_denom.clone(),
        is_buy_order: false,
        fee_estimate: quote_fee(market, required_fee),
    })
}

fn estimate_execution_buy_from_source(market: &SpotMarket, input_quote_quantity: Dec, fee_percent: Dec, levels: &Vec<PriceLevel>) -> (r: Result<PendingBuy, ContractError>)
    requires
        buy_from_source_ok(*market, input_quote_quantity@, fee_percent@, levels_model(levels@)),
    ensures
        buy_from_source_spec(*market, input_quote_quantity@, fee_percent@, levels_model(levels@)) matches Some(m) ==> r matches Ok(b) && describes_buy(b, m),
        buy_from_source_spec(*market, input_quote_quantity@, fee_percent@, levels_model(levels@)) is None ==> r is Err && is_generic_err(r->Err_0, "Not enough liquidity to fulfill order"@),
{
    proof {
        lemma_wf_closed(fp_one(), fee_percent@);
    }
    let one_plus_fee = dec_add(Dec::one(), fee_percent);
    let available_swap_quote_funds = dec_div(input_quote_quantity, one_plus_fee);
    proof {
        lemma_wf_closed(input_quote_quantity@, one_plus_fee@);
    }
    let top_orders = match get_minimum_liquidity_levels(levels, available_swap_quote_funds, LevelMeasure::Notional, market.min_quantity_tick_size) {
        Ok(t) => t,
        Err(e) => return Err(e),
    };
    let average_price = get_average_price_from_orders(&top_orders, market.min_price_tick_size, true);
    let worst_price = get_worst_price_from_orders(&top_orders);
    proof {
        lemma_top_wf(levels_model(top_orders@));
    }
    let expected_base_quantity = dec_div(available_swap_quote_funds, average_price);
    proof {
        lemma_wf_closed(available_swap_quote_funds@, average_price@);
    }
    let result_quantity = dec_round_to_min_tick(expected_base_quantity, market.min_quantity_tick_size);
    let fee_estimate = dec_sub(input_quote_quantity, available_swap_quote_funds);
    let required_funds = dec_mul(dec_mul(worst_price, expected_base_quantity), one_plus_fee);
    Ok(PendingBuy {
        estimate: StepExecutionEstimate {
            worst_price,
            result_quantity,
            result_denom: market.base_denom.clone(),
            is_buy_order: true,
            fee_estimate: quote_fee(market, fee_estimate),
        },
        required_funds,
        own_input: available_swap_quote_funds,
    })
}

fn estimate_execution_buy_from_target(market: &SpotMarket, target_base_output_quantity: Dec, fee_percent: Dec, levels: &Vec<PriceLevel>) -> (r: Result<PendingBuy, ContractError>)
    requires
        buy_from_target_ok(*market, target_base_output_quantity@, fee_percent@, levels_model(levels@)),
    ensures
        buy_from_target_spec(*market, target_base_output_quantity@, fee_percent@, levels_model(levels@)) matches Some(m) ==> r matches Ok(b) && describes_buy(b, m),
        buy_from_target_spec(*market, target_base_output_quantity@, fee_percent@, levels_model(levels@)) is None ==> r is Err && is_generic_err(r->Err_0, "Not enough liquidity to fulfill order"@),
{
    let rounded_target_base_output_quantity = round_up_to_min_tick(target_base_output_quantity, market.min_quantity_tick_size);
    proof {
        lemma_round_up_wf(target_base_output_quantity@, market.min_quantity_tick_size@);
    }
    let top_orders = match get_minimum_liquidity_levels(levels, rounded_target_base_output_quantity, LevelMeasure::Quantity, market.min_quantity_tick_size) {
        Ok(t) => t,
        Err(e) => return Err(e),
    };
    let average_price = get_average_price_from_orders(&top_orders, market.min_price_tick_size, true);
    let worst_price = get_worst_price_from_orders(&top_orders);
    let expected_exchange_quote_quantity = dec_mul(rounded_target_base_output_quantity, average_price);
    let fee_estimate = dec_mul(expected_exchange_quote_quantity, fee_percent);
    proof {
        lemma_wf_closed(expected_exchange_quote_quantity@, fee_percent@);
        lemma_wf_closed(fp_one(), fee_percent@);
    }
    let required_input_quote_quantity = dec_add(expected_exchange_quote_quantity, fee_estimate);
    let required_funds = dec_mul(dec_mul(worst_price, rounded_target_base_output_quantity), dec_add(Dec::one(), fee_percent));
    Ok(PendingBuy {
        estimate: StepExecutionEstimate {
            worst_price,
            result_quantity: required_input_quote_quantity,
            result_denom: market.quote_denom.clone(),
            is_buy_order: true,
            fee_estimate: quote_fee(market, fee_estimate),
        },
        required_funds,
        own_input: required_input_quote_quantity,
    })
}

/// The result of reading the order book for a step: a finished estimate (sells),
/// or a buy still to be checked against the contract's funds.
#[derive(Debug)]
pub enum StepOutcome {
    Estimated(StepExecutionEstimate),
    NeedsFunds(PendingBuy),
}

/// What reading the order book gives for a step, by direction; `None` when the
/// book lacks liquidity.
pub open spec fn step_outcome_matches(
    r: StepOutcome,
    market: SpotMarket,
    amount: SwapEstimationAmount,
    f: DecModel,
    levels: Seq<LevelModel>,
) -> bool {
    let q = amount.coin().amount@;
    if is_buy_spec(market, amount) {
        let m = if amount.from_target() {
            buy_from_target_spec(market, q, f, levels)
        } else {
            buy_from_source_spec(market, q, f, levels)
        };
        r matches StepOutcome::NeedsFunds(b) && describes_buy(b, m.unwrap())
    } else {
        let m = if amount.from_target() {
            sell_from_target_spec(market, q, f, levels)
        } else {
            sell_from_source_spec(market, q, f, levels)
        };
        r matches StepOutcome::Estimated(e) && describes(e, m.unwrap())
    }
}

/// The step's estimate exists: the order book holds enough liquidity.
pub open spec fn step_has_liquidity(market: SpotMarket, amount: SwapEstimationAmount, f: DecModel, levels: Seq<LevelModel>) -> bool {
    let q = amount.coin().amount@;
    if is_buy_spec(market, amount) {
        if amount.from_target() {
            buy_from_target_spec(market, q, f, levels) is Some
        } else {
            buy_from_source_spec(market, q, f, levels) is Some
        }
    } else {
        if amount.from_target() {
            sell_from_target_spec(market, q, f, levels) is Some
        } else {
            sell_from_source_spec(market, q, f, levels) is Some
        }
    }
}

/// Reading the order book neither divides by zero nor overflows.
pub open spec fn step_ok(market: SpotMarket, amount: SwapEstimationAmount, f: DecModel, levels: Seq<LevelModel>) -> bool {
    let q = amount.coin().amount@;
    if is_buy_spec(market, amount) {
        if amount.from_target() {
            buy_from_target_ok(market, q, f, levels)
        } else {
            buy_from_source_ok(market, q, f, levels)
        }
    } else {
        if amount.from_target() {
            sell_from_target_ok(market, q, f, levels)
        } else {
            sell_from_source_ok(market, q, f, levels)
        }
    }
}

/// The estimate of one step from the order book that its plan asked for.
pub fn estimate_step_from_orderbook(
    market: &SpotMarket,
    amount: &SwapEstimationAmount,
    plan: &StepPlan,
    levels: &Vec<PriceLevel>,
) -> (r: Result<StepOutcome, ContractError>)
    requires
        plan.is_buy == is_buy_spec(*market, *amount),
        step_ok(*market, *amount, plan.fee_percent@, levels_model(levels@)),
    ensures
        step_has_liquidity(*market, *amount, plan.fee_percent@, levels_model(levels@)) ==> (r matches Ok(o)
            && step_outcome_matches(o, *market, *amount, plan.fee_percent@, levels_model(levels@))),
        !step_has_liquidity(*market, *amount, plan.fee_percent@, levels_model(levels@)) ==> r is Err
            && is_generic_err(r->Err_0, "Not enough liquidity to fulfill order"@),
        r matches Ok(o) ==> ({
            let q = amount.coin().amount@;
            let f = plan.fee_percent@;
            let tick = market.min_quantity_tick_size@;
            let book = levels_model(levels@);
            let taken = if plan.is_buy {
                if amount.from_target() {
                    minimum_levels_spec(book, round_up_spec(q, tick), LevelMeasure::Quantity, tick)
                } else {
                    minimum_levels_spec(book, fp_div(q, fp_add(fp_one(), f)), LevelMeasure::Notional, tick)
                }
            } else {
                if amount.from_target() {
                    minimum_levels_spec(book, fp_div(q, fp_sub(fp_one(), f)), LevelMeasure::Notional, tick)
                } else {
                    minimum_levels_spec(book, q, LevelMeasure::Quantity, tick)
                }
            };
            let worst = match o {
                StepOutcome::Estimated(e) => e.worst_price@,
                StepOutcome::NeedsFunds(b) => b.estimate.worst_price@,
            };
            &&& (plan.is_buy <==> o is NeedsFunds)
            &&& worst == taken.unwrap().last().p
        }),
{
    proof {
        law_worst_price_is_last_level_taken(*market, amount.coin().amount@, plan.fee_percent@, levels_model(levels@));
    }
    let coin = estimation_coin(amount);
    let from_target = match amount {
        SwapEstimationAmount::ReceiveQuantity(_) => true,
        SwapEstimationAmount::InputQuantity(_) => false,
    };
    if plan.is_buy {
        let pending = if from_target {
            estimate_execution_buy_from_target(market, coin.amount, plan.fee_percent, levels)
        } else {
            estimate_execution_buy_from_source(market, coin.amount, plan.fee_percent, levels)
        };
        match pending {
            Ok(b) => Ok(StepOutcome::NeedsFunds(b)),
            Err(e) => Err(e),
        }
    } else {
        let estimate = if from_target {
            estimate_execution_sell_from_target(market, coin.amount, plan.fee_percent, levels)
        } else {
            estimate_execution_sell_from_source(market, coin.amount, plan.fee_percent, levels)
        };
        match estimate {
            Ok(e) => Ok(StepOutcome::Estimated(e)),
            Err(e) => Err(e),
        }
    }
}

/// The quote funds that can back a buy order: the contract's balance, plus the
/// swapper's own input when only simulating (during execution the balance
/// already holds it).
pub open spec fn funds_for_margin_spec(funds_in_contract: DecModel, own_input: DecModel, is_simulation: bool) -> DecModel {
    if is_simulation {
        fp_add(funds_in_contract, own_input)
    } else {
        funds_in_contract
    }
}

/// The message of a buy that the contract's funds cannot back.
pub open spec fn too_high_message(required: DecModel, available: DecModel) -> Seq<char> {
    "Swap amount too high, required funds: "@ + fp_display(required) + ", available funds: "@
        + fp_display(available)
}

/// Accepts a buy estimate when the funds for margin cover the funds it may need.
pub fn settle_buy(pending: PendingBuy, funds_in_contract: Dec, is_simulation: bool) -> (r: Result<
    StepExecutionEstimate,
    ContractError,
>)
    requires
        funds_in_contract@.wf(),
        pending.own_input@.wf(),
        is_simulation ==> add_ok(funds_in_contract@, pending.own_input@),
    ensures
        ({
            let margin = funds_for_margin_spec(funds_in_contract@, pending.own_input@, is_simulation);
            &&& fp_gt(pending.required_funds@, margin) ==> r is Err && is_generic_err(
                r->Err_0,
                too_high_message(pending.required_funds@, margin),
            )
            &&& !fp_gt(pending.required_funds@, margin) ==> (r matches Ok(e) && e == pending.estimate)
        }),
        is_simulation ==> (r is Ok <==> !fp_gt(
            pending.required_funds@,
            fp_add(funds_in_contract@, pending.own_input@),
        )),
        !is_simulation ==> (r is Ok <==> !fp_gt(pending.required_funds@, funds_in_contract@)),
{
    let funds_for_margin = if is_simulation {
        dec_add(funds_in_contract, pending.own_input)
    } else {
        funds_in_contract
    };
    if dec_gt(pending.required_funds, funds_for_margin) {
        let msg = "Swap amount too high, required funds: ".to_owned().concat(
            dec_to_string(pending.required_funds).as_str(),
        ).concat(", available funds: ").concat(dec_to_string(funds_for_margin).as_str());
        return Err(ContractError::Std(StdError::GenericErr { msg }));
    }
    Ok(pending.estimate)
}

/// The quantity that a swap estimate starts from.
#[derive(Debug, Clone, Copy)]
pub enum SwapQuantity {
    /// The amount paid in the source denomination.
    InputQuantity(Dec),
    /// The amount to receive in the target denomination.
    OutputQuantity(Dec),
}

/// Fails unless the quantity is positive.
pub fn validate_swap_quantity(swap_quantity: &SwapQuantity) -> (r: Result<(), ContractError>)
    ensures
        swap_quantity matches SwapQuantity::InputQuantity(q) ==> ((r is Ok <==> !(q@.mag == 0
            || q@.is_negative())) && (r is Err ==> is_generic_err(
            r->Err_0,
            "source_quantity must be positive"@,
        ))),
        swap_quantity matches SwapQuantity::OutputQuantity(q) ==> ((r is Ok <==> !(q@.mag == 0
            || q@.is_negative())) && (r is Err ==> is_generic_err(
            r->Err_0,
            "target_quantity must be positive"@,
        ))),
{
    match swap_quantity {
        SwapQuantity::InputQuantity(q) => {
            if q.is_zero() || q.is_negative() {
                return Err(generic_err("source_quantity must be positive"));
            }
        },
        SwapQuantity::OutputQuantity(q) => {
            if q.is_zero() || q.is_negative() {
                return Err(generic_err("target_quantity must be positive"));
            }
        },
    }
    Ok(())
}

/// A swap estimate in progress: the markets in the order in which the estimate
/// visits them, the amount reached so far, and the fee of each step done.
pub struct SwapEstimation {
    pub steps: Vec<MarketId>,
    pub from_target: bool,
    pub current: FPCoin,
    pub fees: Vec<FPCoin>,
    pub next: usize,
    /// The markets estimated so far, in the order of the steps.
    pub visited: Ghost<Seq<SpotMarket>>,
}

impl SwapEstimation {
    /// One fee has been recorded for each step done.
    pub open spec fn wf(self) -> bool {
        &&& self.fees@.len() == self.next <= self.steps@.len()
        &&& self.visited@.len() == self.next
        &&& forall|i: int| 0 <= i < self.next ==> self.visited@[i].market_id@ == #[trigger] self.steps@[i]@
        &&& forall|i: int| 0 <= i < self.next ==> #[trigger] self.fees@[i].denom@ == self.visited@[i].quote_denom@
    }

    /// Starts an estimate over a route read for the two denominations. From an
    /// input quantity the markets are visited from the source denomination on,
    /// starting with that quantity of the source; from an output quantity they
    /// are visited backward, starting with that quantity of the target.
    pub fn start(route: &SwapRoute, source_denom: String, target_denom: String, swap_quantity: SwapQuantity) -> (r: SwapEstimation)
        ensures
            r.wf(),
            r.next == 0,
            swap_quantity matches SwapQuantity::InputQuantity(q) ==> {
                &&& !r.from_target
                &&& r.current.amount == q
                &&& r.current.denom@ == source_denom@
                &&& r.steps@ == (if route.source_denom@ == source_denom@ { route.steps@ } else { route.steps@.reverse() })
            },
            swap_quantity matches SwapQuantity::OutputQuantity(q) ==> {
                &&& r.from_target
                &&& r.current.amount == q
                &&& r.current.denom@ == target_denom@
                &&& r.steps@ == (if route.source_denom@ == source_denom@ { route.steps@.reverse() } else { route.steps@ })
            },
    {
        let forward = route.steps_from(source_denom.as_str());
        match swap_quantity {
            SwapQuantity::InputQuantity(q) => SwapEstimation {
                steps: forward,
                from_target: false,
                current: FPCoin { amount: q, denom: source_denom },
                fees: Vec::new(),
                next: 0,
                visited: Ghost(Seq::empty()),
            },
            SwapQuantity::OutputQuantity(q) => {
                proof {
                    assert(route.steps@.reverse().reverse() =~= route.steps@);
                }
                SwapEstimation {
                steps: reversed_market_ids(&forward),
                from_target: true,
                current: FPCoin { amount: q, denom: target_denom },
                fees: Vec::new(),
                next: 0,
                visited: Ghost(Seq::empty()),
            }
            },
        }
    }

    /// The market and amount of the next step, or `None` when every step is done.
    pub fn next_step(&self) -> (r: Option<(MarketId, SwapEstimationAmount)>)
        requires
            self.wf(),
        ensures
            r is Some <==> self.next < self.steps@.len(),
            r matches Some((id, amount)) ==> {
                &&& id == self.steps@[self.next as int]
                &&& amount.from_target() == self.from_target
                &&& amount.coin().amount == self.current.amount
                &&& amount.coin().denom@ == self.current.denom@
            },
    {
        if self.next >= self.steps.len() {
            return None;
        }
        let coin = self.current.copy();
        let amount = if self.from_target {
            SwapEstimationAmount::ReceiveQuantity(coin)
        } else {
            SwapEstimationAmount::InputQuantity(coin)
        };
        Some((self.steps[self.next].clone(), amount))
    }

    /// Records the estimate of the next step, made on `market`: its result becomes
    /// the current amount and its fee, in the market's quote denomination, is
    /// appended.
    pub fn record(&mut self, market: &SpotMarket, estimate: StepExecutionEstimate)
        requires
            old(self).wf(),
            old(self).next < old(self).steps@.len(),
            market.market_id@ == old(self).steps@[old(self).next as int]@,
            estimate.fee_estimate matches Some(f) && f.denom@ == market.quote_denom@,
        ensures
            final(self).wf(),
            final(self).next == old(self).next + 1,
            final(self).steps@ == old(self).steps@,
            final(self).from_target == old(self).from_target,
            final(self).current.amount == estimate.result_quantity,
            final(self).current.denom@ == estimate.result_denom@,
            final(self).fees@ == old(self).fees@.push(estimate.fee_estimate.unwrap()),
            final(self).visited@ == old(self).visited@.push(*market),
    {
        let steps_len = self.steps.len();
        assert(self.next < steps_len);
        self.current = FPCoin { amount: estimate.result_quantity, denom: estimate.result_denom };
        match estimate.fee_estimate {
            Some(fee) => self.fees.push(fee),
            None => {},
        }
        proof {
            self.visited@ = self.visited@.push(*market);
        }
        self.next = self.next + 1;
    }

    /// The estimate once every step is done: the amount reached and the fees.
    pub fn finish(self) -> (r: SwapEstimationResult)
        requires
            self.wf(),
            self.next == self.steps@.len(),
        ensures
            r.result_quantity == self.current.amount,
            r.expected_fees@ == self.fees@,
            r.expected_fees@.len() == self.steps@.len(),
            forall|i: int| 0 <= i < self.steps@.len() ==> self.visited@[i].market_id@ == #[trigger] self.steps@[i]@,
            forall|i: int| 0 <= i < self.steps@.len() ==> #[trigger] r.expected_fees@[i].denom@ == self.visited@[i].quote_denom@,
    {
        SwapEstimationResult { expected_fees: self.fees, result_quantity: self.current.amount }
    }
}

/// In every step estimate the fee and the amounts traded add up exactly: a buy
/// from a paid amount splits it into order funds and fee; a sale of a given
/// amount receives the exchanged quote less the fee; a buy of a given amount
/// pays the exchanged quote plus the fee; a sale toward a received amount raises
/// that amount plus the fee.
pub proof fn law_step_fee_accounting(market: SpotMarket, q: DecModel, f: DecModel, levels: Seq<LevelModel>)
    requires
        q.wf(),
        f.wf(),
    ensures
        buy_from_source_spec(market, q, f, levels) is Some ==> ({
            let b = buy_from_source_spec(market, q, f, levels).unwrap();
            b.estimate.fee_amount.value() + b.own_input.value() == q.value()
        }),
        sell_from_source_spec(market, q, f, levels) is Some ==> ({
            let e = sell_from_source_spec(market, q, f, levels).unwrap();
            let top = minimum_levels_spec(levels, q, LevelMeasure::Quantity, market.min_quantity_tick_size@).unwrap();
            let exchanged = fp_mul(q, average_price_spec(top, market.min_price_tick_size@, false));
            e.result_quantity.value() + e.fee_amount.value() == exchanged.value()
        }),
        buy_from_target_spec(market, q, f, levels) is Some ==> ({
            let b = buy_from_target_spec(market, q, f, levels).unwrap();
            let rounded = round_up_spec(q, market.min_quantity_tick_size@);
            let top = minimum_levels_spec(levels, rounded, LevelMeasure::Quantity, market.min_quantity_tick_size@).unwrap();
            let exchanged = fp_mul(rounded, average_price_spec(top, market.min_price_tick_size@, true));
            b.estimate.result_quantity.value() == exchanged.value() + b.estimate.fee_amount.value()
        }),
        sell_from_target_spec(market, q, f, levels) is Some ==> ({
            let e = sell_from_target_spec(market, q, f, levels).unwrap();
            e.fee_amount.value() + q.value() == required_quote_spec(q, f).value()
        }),
{
    lemma_wf_closed(fp_one(), f);
    lemma_wf_closed(q, fp_add(fp_one(), f));
    lemma_wf_closed(q, fp_sub(fp_one(), f));
    crate::decimal::lemma_sub_value(q, available_quote_spec(q, f));
    crate::decimal::lemma_sub_value(required_quote_spec(q, f), q);
    if sell_from_source_spec(market, q, f, levels) is Some {
        let top = minimum_levels_spec(levels, q, LevelMeasure::Quantity, market.min_quantity_tick_size@).unwrap();
        let exchanged = fp_mul(q, average_price_spec(top, market.min_price_tick_size@, false));
        crate::decimal::lemma_sub_value(exchanged, fp_mul(exchanged, f));
    }
    if buy_from_target_spec(market, q, f, levels) is Some {
        let rounded = round_up_spec(q, market.min_quantity_tick_size@);
        let top = minimum_levels_spec(levels, rounded, LevelMeasure::Quantity, market.min_quantity_tick_size@).unwrap();
        let exchanged = fp_mul(rounded, average_price_spec(top, market.min_price_tick_size@, true));
        crate::decimal::lemma_add_value(exchanged, fp_mul(exchanged, f));
    }
}

/// An atomic order is placed at the estimate's worst price, so that it fills
/// every level that the estimate counts on: that price is the price of the last
/// level taken from the book, which is the level at that position in the book.
/// The levels taken are those that reach, measured by quantity, the base amount
/// sold or bought, or, measured by notional, the quote amount raised
/// (`t / (1 - fee)`) or spent (`q / (1 + fee)`). A buy's required funds are that
/// worst price times the base quantity bought, plus the fee rate on it.
pub proof fn law_worst_price_is_last_level_taken(market: SpotMarket, q: DecModel, f: DecModel, levels: Seq<LevelModel>)
    ensures
        sell_from_source_spec(market, q, f, levels) matches Some(e) ==> {
            let taken = minimum_levels_spec(levels, q, LevelMeasure::Quantity, market.min_quantity_tick_size@).unwrap();
            &&& e.worst_price == taken.last().p
            &&& taken.len() > 0 ==> e.worst_price == levels[taken.len() - 1].p
        },
        sell_from_target_spec(market, q, f, levels) matches Some(e) ==> {
            let raised = fp_div(q, fp_sub(fp_one(), f));
            let taken = minimum_levels_spec(levels, raised, LevelMeasure::Notional, market.min_quantity_tick_size@).unwrap();
            &&& e.worst_price == taken.last().p
            &&& taken.len() > 0 ==> e.worst_price == levels[taken.len() - 1].p
        },
        buy_from_source_spec(market, q, f, levels) matches Some(b) ==> {
            let spent = fp_div(q, fp_add(fp_one(), f));
            let taken = minimum_levels_spec(levels, spent, LevelMeasure::Notional, market.min_quantity_tick_size@).unwrap();
            &&& b.estimate.worst_price == taken.last().p
            &&& taken.len() > 0 ==> b.estimate.worst_price == levels[taken.len() - 1].p
            &&& b.own_input == spent
            &&& b.required_funds == fp_mul(
                fp_mul(b.estimate.worst_price, fp_div(spent, average_price_spec(taken, market.min_price_tick_size@, true))),
                fp_add(fp_one(), f),
            )
        },
        buy_from_target_spec(market, q, f, levels) matches Some(b) ==> {
            let rounded = round_up_spec(q, market.min_quantity_tick_size@);
            let taken = minimum_levels_spec(levels, rounded, LevelMeasure::Quantity, market.min_quantity_tick_size@).unwrap();
            &&& b.estimate.worst_price == taken.last().p
            &&& taken.len() > 0 ==> b.estimate.worst_price == levels[taken.len() - 1].p
            &&& b.required_funds == fp_mul(fp_mul(b.estimate.worst_price, rounded), fp_add(fp_one(), f))
        },
{
    let tick = market.min_quantity_tick_size@;
    if sell_from_source_spec(market, q, f, levels) is Some {
        law_minimum_levels_are_a_prefix(levels, q, LevelMeasure::Quantity, tick);
    }
    if sell_from_target_spec(market, q, f, levels) is Some {
        law_minimum_levels_are_a_prefix(levels, fp_div(q, fp_sub(fp_one(), f)), LevelMeasure::Notional, tick);
    }
    if buy_from_source_spec(market, q, f, levels) is Some {
        law_minimum_levels_are_a_prefix(levels, fp_div(q, fp_add(fp_one(), f)), LevelMeasure::Notional, tick);
    }
    if buy_from_target_spec(market, q, f, levels) is Some {
        law_minimum_levels_are_a_prefix(levels, round_up_spec(q, tick), LevelMeasure::Quantity, tick);
    }
}

/// What each kind of step trades: a sale of base (from a base amount, or toward
/// a quote amount) is a sell order, and a purchase of base a buy order. Every fee
/// is charged in the quote denomination. From the amount paid the result is the
/// amount received (quote for a sale, base for a purchase); toward an amount to
/// receive the result is the amount to pay (base for a sale, quote for a purchase).
pub proof fn law_step_directions_and_denominations(market: SpotMarket, q: DecModel, f: DecModel, levels: Seq<LevelModel>)
    ensures
        sell_from_source_spec(market, q, f, levels) matches Some(e) ==> !e.is_buy_order
            && e.result_denom == market.quote_denom@ && e.fee_denom == market.quote_denom@,
        sell_from_target_spec(market, q, f, levels) matches Some(e) ==> !e.is_buy_order
            && e.result_denom == market.base_denom@ && e.fee_denom == market.quote_denom@,
        buy_from_source_spec(market, q, f, levels) matches Some(b) ==> b.estimate.is_buy_order
            && b.estimate.result_denom == market.base_denom@ && b.estimate.fee_denom == market.quote_denom@,
        buy_from_target_spec(market, q, f, levels) matches Some(b) ==> b.estimate.is_buy_order
            && b.estimate.result_denom == market.quote_denom@ && b.estimate.fee_denom == market.quote_denom@,
{
}

/// On a book listed best first, the worst price is the worst of the prices
/// taken: a sale (into bids listed from the highest) gets no more than any level
/// it takes, and a buy (from asks listed from the lowest) pays no less.
pub proof fn law_worst_price_bounds_the_levels_taken(market: SpotMarket, q: DecModel, f: DecModel, levels: Seq<LevelModel>)
    ensures
        (forall|i: int, j: int| 0 <= i <= j < levels.len() ==> levels[j].p.value() <= levels[i].p.value())
            ==> (sell_from_source_spec(market, q, f, levels) matches Some(e) ==> {
            let taken = minimum_levels_spec(levels, q, LevelMeasure::Quantity, market.min_quantity_tick_size@).unwrap();
            forall|k: int| 0 <= k < taken.len() ==> e.worst_price.value() <= #[trigger] taken[k].p.value()
        }),
        (forall|i: int, j: int| 0 <= i <= j < levels.len() ==> levels[j].p.value() <= levels[i].p.value())
            ==> (sell_from_target_spec(market, q, f, levels) matches Some(e) ==> {
            let taken = minimum_levels_spec(levels, fp_div(q, fp_sub(fp_one(), f)), LevelMeasure::Notional, market.min_quantity_tick_size@).unwrap();
            forall|k: int| 0 <= k < taken.len() ==> e.worst_price.value() <= #[trigger] taken[k].p.value()
        }),
        (forall|i: int, j: int| 0 <= i <= j < levels.len() ==> levels[i].p.value() <= levels[j].p.value())
            ==> (buy_from_source_spec(market, q, f, levels) matches Some(b) ==> {
            let taken = minimum_levels_spec(levels, fp_div(q, fp_add(fp_one(), f)), LevelMeasure::Notional, market.min_quantity_tick_size@).unwrap();
            forall|k: int| 0 <= k < taken.len() ==> #[trigger] taken[k].p.value() <= b.estimate.worst_price.value()
        }),
        (forall|i: int, j: int| 0 <= i <= j < levels.len() ==> levels[i].p.value() <= levels[j].p.value())
            ==> (buy_from_target_spec(market, q, f, levels) matches Some(b) ==> {
            let taken = minimum_levels_spec(levels, round_up_spec(q, market.min_quantity_tick_size@), LevelMeasure::Quantity, market.min_quantity_tick_size@).unwrap();
            forall|k: int| 0 <= k < taken.len() ==> #[trigger] taken[k].p.value() <= b.estimate.worst_price.value()
        }),
{
    let tick = market.min_quantity_tick_size@;
    law_worst_price_is_last_level_taken(market, q, f, levels);
    if sell_from_source_spec(market, q, f, levels) is Some {
        law_minimum_levels_are_a_prefix(levels, q, LevelMeasure::Quantity, tick);
    }
    if sell_from_target_spec(market, q, f, levels) is Some {
        law_minimum_levels_are_a_prefix(levels, fp_div(q, fp_sub(fp_one(), f)), LevelMeasure::Notional, tick);
    }
    if buy_from_source_spec(market, q, f, levels) is Some {
        law_minimum_levels_are_a_prefix(levels, fp_div(q, fp_add(fp_one(), f)), LevelMeasure::Notional, tick);
    }
    if buy_from_target_spec(market, q, f, levels) is Some {
        law_minimum_levels_are_a_prefix(levels, round_up_spec(q, tick), LevelMeasure::Quantity, tick);
    }
}

/// A buy takes liquidity from resting sell orders and a sale from resting buy
/// orders, whichever way the step is estimated (from the amount paid or from the
/// amount to receive).
pub proof fn law_buys_read_asks_and_sales_read_bids(plan: StepPlan, market: SpotMarket, amount: SwapEstimationAmount, f: DecModel)
    requires
        plan_matches(plan, market, amount, f),
    ensures
        plan.is_buy ==> plan.side == BookSide::Sell,
        !plan.is_buy ==> plan.side == BookSide::Buy,
        plan.is_buy == (if amount.from_target() {
            amount.coin().denom@ == market.base_denom@
        } else {
            amount.coin().denom@ != market.base_denom@
        }),
{
}

/// When only simulating, the funds that can back a buy are the contract's
/// balance plus the swapper's own input (which the contract does not hold yet);
/// during execution they are the balance alone (which already holds the input).
pub proof fn law_simulation_counts_the_swappers_input(funds_in_contract: DecModel, own_input: DecModel)
    requires
        funds_in_contract.wf(),
        own_input.wf(),
    ensures
        funds_for_margin_spec(funds_in_contract, own_input, true).value() == funds_in_contract.value() + own_input.value(),
        funds_for_margin_spec(funds_in_contract, own_input, false) == funds_in_contract,
{
    crate::decimal::lemma_add_value(funds_in_contract, own_input);
}

} // verus!
