//! Execution of a swap: one atomic market order per market of the route, each
//! answered by a reply that feeds the next order, until the last one pays out.
//!
//! A swap goes through these calls, with chain work in between done by the
//! caller: `validate_swap_request`, `start_swap_flow` (given the route's markets
//! and, for an exact output, the estimated input and the first market), then for
//! each step `execute_swap_step` (given the step's estimate) and, on its reply,
//! `parse_atomic_order_reply` and `apply_trade`.

use crate::decimal::{
    add_ok, dec_add, dec_div, dec_from_str, dec_from_u128, dec_gt, dec_int, dec_lt, dec_mul,
    dec_sub, dec_to_u128, fits, fp_add, fp_div, fp_gt, fp_int, fp_lt, fp_mul, fp_nat, fp_one,
    fp_parse, fp_sub, parse_fits, lemma_wf_closed, mul_ok, precision, sub_ok, Dec, DecModel,
};
use crate::error::{custom_error, is_custom_error, ContractError, StdError};
use crate::helpers::{dec_scale_factor, round_up_ok, round_up_spec, round_up_to_min_tick};
use crate::queries::SpotMarket;
use crate::types::{
    Coin, CurrentSwapOperation, CurrentSwapStep, FPCoin, MarketId, StepExecutionEstimate,
    SwapQuantityMode, SwapResults,
};
use vstd::prelude::*;

verus! {

/// The reply id of an atomic market order.
pub const ATOMIC_ORDER_REPLY_ID: u64 = 1u64;

/// The reply id of a deposit.
pub const DEPOSIT_REPLY_ID: u64 = 2u64;

/// Checks the funds and the quantity of a swap request: exactly one coin is sent
/// and the requested output quantity is positive.
pub fn validate_swap_request(funds: &Vec<Coin>, swap_quantity_mode: &SwapQuantityMode) -> (r: Result<
    (),
    ContractError,
>)
    ensures
        funds@.len() != 1 ==> r is Err && is_custom_error(
            r->Err_0,
            "Only one denom can be passed in funds"@,
        ),
        funds@.len() == 1 && (swap_quantity_mode.quantity()@.is_negative()
            || swap_quantity_mode.quantity()@.mag == 0) ==> r is Err && is_custom_error(
            r->Err_0,
            "Output quantity must be positive!"@,
        ),
        r is Ok <==> funds@.len() == 1 && !swap_quantity_mode.quantity()@.is_negative()
            && swap_quantity_mode.quantity()@.mag != 0,
{
    if funds.len() != 1 {
        return Err(custom_error("Only one denom can be passed in funds"));
    }
    let quantity = match swap_quantity_mode {
        SwapQuantityMode::MinOutputQuantity(q) => *q,
        SwapQuantityMode::ExactOutputQuantity(q) => *q,
    };
    if quantity.is_negative() || quantity.is_zero() {
        return Err(custom_error("Output quantity must be positive!"));
    }
    Ok(())
}

/// For a swap to an exact output: the input that the estimate asks for, and the
/// first market of the route.
#[derive(Debug)]
pub struct ExactOutputQuote {
    pub estimated_input: Dec,
    pub first_market: SpotMarket,
}

/// The input that an exact-output swap takes from the coin provided: when the
/// first market quotes in the source denomination, the whole part of the
/// estimate plus one; otherwise the estimate rounded up to the first market's
/// quantity tick.
pub open spec fn required_input_spec(estimate: DecModel, first_market: SpotMarket, source_denom: Seq<char>) -> DecModel {
    if first_market.quote_denom@ == source_denom {
        fp_add(fp_int(estimate), fp_one())
    } else {
        round_up_spec(estimate, first_market.min_quantity_tick_size@)
    }
}

/// The inputs on which preparing an exact-output swap does not panic.
pub open spec fn exact_output_ok(quote: ExactOutputQuote, coin_provided: Coin) -> bool {
    let estimate = quote.estimated_input@;
    let provided = fp_nat(coin_provided.amount as nat);
    let required = required_input_spec(estimate, quote.first_market, coin_provided.denom@);
    &&& estimate.wf()
    &&& quote.first_market.wf()
    &&& quote.first_market.quote_denom@ == coin_provided.denom@ ==> add_ok(fp_int(estimate), fp_one())
    &&& quote.first_market.quote_denom@ != coin_provided.denom@ ==> round_up_ok(
        estimate,
        quote.first_market.min_quantity_tick_size@,
    )
    &&& !fp_gt(required, provided) ==> sub_ok(provided, estimate) && fp_sub(provided, estimate).mag
        / precision() <= u128::MAX
}

/// An exact-output swap spends at least the estimated input, and when the coin
/// covers what it spends, the refund (the coin less the estimate) is not negative
/// and is exactly that difference.
pub proof fn law_exact_output_spends_estimate_and_refunds_rest(
    estimate: DecModel,
    first_market: SpotMarket,
    source_denom: Seq<char>,
    provided_amount: nat,
)
    requires
        estimate.sign == 1,
        first_market.min_quantity_tick_size@.sign == 1,
        first_market.min_quantity_tick_size@.mag > 0,
        first_market.quote_denom@ != source_denom ==> round_up_ok(
            estimate,
            first_market.min_quantity_tick_size@,
        ),
    ensures
        required_input_spec(estimate, first_market, source_denom).value() >= estimate.value(),
        !fp_gt(required_input_spec(estimate, first_market, source_denom), fp_nat(provided_amount))
            ==> fp_sub(fp_nat(provided_amount), estimate).sign == 1 && fp_sub(
            fp_nat(provided_amount),
            estimate,
        ).value() == fp_nat(provided_amount).value() - estimate.value(),
{
    if first_market.quote_denom@ == source_denom {
        vstd::arithmetic::div_mod::lemma_fundamental_div_mod(estimate.mag as int, precision() as int);
        vstd::arithmetic::div_mod::lemma_mod_bound(estimate.mag as int, precision() as int);
        assert((estimate.mag / precision()) * precision() == precision() * (estimate.mag / precision()))
            by (nonlinear_arith);
    } else {
        crate::helpers::law_round_up_to_min_tick(estimate, first_market.min_quantity_tick_size@);
    }
    crate::decimal::lemma_sub_value(fp_nat(provided_amount), estimate);
}

/// The request carries exactly one coin and a positive output quantity.
pub open spec fn swap_request_ok(funds: Seq<Coin>, swap_quantity_mode: SwapQuantityMode) -> bool {
    &&& funds.len() == 1
    &&& !swap_quantity_mode.quantity()@.is_negative()
    &&& swap_quantity_mode.quantity()@.mag != 0
}

/// Starts a swap: checks the request, then gives the swap operation to store and
/// the balance that its first order spends. For a minimum output, the whole coin
/// provided is swapped and nothing is refunded. For an exact output, only the
/// required input is swapped, provided that the coin covers it, and the coin less
/// the estimate is refunded at the end.
pub fn start_swap_flow(
    sender_address: String,
    funds: Vec<Coin>,
    steps: Vec<MarketId>,
    swap_quantity_mode: SwapQuantityMode,
    exact_output: Option<ExactOutputQuote>,
) -> (r: Result<(CurrentSwapOperation, FPCoin), ContractError>)
    requires
        swap_request_ok(funds@, swap_quantity_mode) ==> (swap_quantity_mode is ExactOutputQuantity)
            == (exact_output is Some),
        swap_request_ok(funds@, swap_quantity_mode) ==> (exact_output matches Some(quote)
            ==> exact_output_ok(quote, funds@[0])),
    ensures
        funds@.len() != 1 ==> r is Err && is_custom_error(
            r->Err_0,
            "Only one denom can be passed in funds"@,
        ),
        funds@.len() == 1 && !swap_request_ok(funds@, swap_quantity_mode) ==> r is Err
            && is_custom_error(r->Err_0, "Output quantity must be positive!"@),
        swap_request_ok(funds@, swap_quantity_mode) && swap_quantity_mode is MinOutputQuantity ==> (r matches Ok((op, balance)) && {
            &&& op.refund.amount == 0
            &&& op.refund.denom@ == funds@[0].denom@
            &&& balance.amount@ == fp_nat(funds@[0].amount as nat)
            &&& balance.denom@ == funds@[0].denom@
        }),
        swap_request_ok(funds@, swap_quantity_mode) ==> (exact_output matches Some(quote) ==> {
            let coin_provided = funds@[0];
            let provided = fp_nat(coin_provided.amount as nat);
            let required = required_input_spec(quote.estimated_input@, quote.first_market, coin_provided.denom@);
            &&& fp_gt(required, provided) ==> (r matches Err(ContractError::InsufficientFundsProvided(p, q))
                && p@ == provided && q@ == required)
            &&& !fp_gt(required, provided) ==> (r matches Ok((op, balance)) && {
                &&& op.refund.amount as nat == fp_sub(provided, quote.estimated_input@).mag / precision()
                &&& op.refund.denom@ == coin_provided.denom@
                &&& balance.amount@ == required
                &&& balance.denom@ == coin_provided.denom@
            })
        }),
        r matches Ok((op, _)) ==> {
            &&& swap_request_ok(funds@, swap_quantity_mode)
            &&& op.sender_address@ == sender_address@
            &&& op.swap_steps@ == steps@
            &&& op.swap_quantity_mode == swap_quantity_mode
            &&& op.input_funds.amount == funds@[0].amount
            &&& op.input_funds.denom@ == funds@[0].denom@
        },
{
    match validate_swap_request(&funds, &swap_quantity_mode) {
        Ok(()) => {},
        Err(e) => return Err(e),
    }
    let coin_provided = Coin { denom: funds[0].denom.clone(), amount: funds[0].amount };
    let source_denom = coin_provided.denom.clone();
    let (current_balance, refund_amount) = match exact_output {
        Some(quote) => {
            let estimate = quote.estimated_input;
            let first_market = quote.first_market;
            let is_input_quote = first_market.quote_denom == source_denom;
            let required_input = if is_input_quote {
                dec_add(dec_int(estimate), Dec::one())
            } else {
                round_up_to_min_tick(estimate, first_market.min_quantity_tick_size)
            };
            let provided = dec_from_u128(coin_provided.amount);
            if dec_gt(required_input, provided) {
                return Err(ContractError::InsufficientFundsProvided(provided, required_input));
            }
            let refund = dec_sub(provided, estimate);
            (FPCoin { amount: required_input, denom: source_denom.clone() }, dec_to_u128(refund))
        },
        None => (FPCoin { amount: dec_from_u128(coin_provided.amount), denom: source_denom.clone() }, 0u128),
    };
    let swap_operation = CurrentSwapOperation {
        sender_address,
        swap_steps: steps,
        swap_quantity_mode,
        input_funds: Coin { denom: coin_provided.denom, amount: coin_provided.amount },
        refund: Coin { denom: source_denom, amount: refund_amount },
    };
    Ok((swap_operation, current_balance))
}

/// The atomic market order that a step places.
#[derive(Debug)]
pub struct OrderRequest {
    pub market_id: MarketId,
    pub price: Dec,
    pub quantity: Dec,
    pub is_buy: bool,
    pub fee_recipient: String,
}

/// The order of step `step_idx` and the step to remember until its reply: the
/// order is placed at the estimate's worst price, for the estimated base quantity
/// when buying and for the whole balance when selling.
pub fn execute_swap_step(
    swap_operation: &CurrentSwapOperation,
    step_idx: u16,
    current_balance: FPCoin,
    estimation: StepExecutionEstimate,
    fee_recipient: String,
) -> (r: (OrderRequest, CurrentSwapStep))
    requires
        (step_idx as int) < swap_operation.swap_steps@.len(),
    ensures
        r.0.market_id == swap_operation.swap_steps@[step_idx as int],
        r.0.price == estimation.worst_price,
        r.0.quantity == (if estimation.is_buy_order { estimation.result_quantity } else { current_balance.amount }),
        r.0.is_buy == estimation.is_buy_order,
        r.0.fee_recipient@ == fee_recipient@,
        r.1.step_idx == step_idx,
        r.1.current_balance.amount == current_balance.amount,
        r.1.current_balance.denom@ == current_balance.denom@,
        r.1.step_target_denom@ == estimation.result_denom@,
        r.1.is_buy == estimation.is_buy_order,
{
    let market_id = swap_operation.swap_steps[step_idx as usize].clone();
    let quantity = if estimation.is_buy_order {
        estimation.result_quantity
    } else {
        current_balance.amount
    };
    let order = OrderRequest {
        market_id,
        price: estimation.worst_price,
        quantity,
        is_buy: estimation.is_buy_order,
        fee_recipient,
    };
    let step = CurrentSwapStep {
        step_idx,
        current_balance,
        step_target_denom: estimation.result_denom,
        is_buy: estimation.is_buy_order,
    };
    (order, step)
}

/// The trade that an atomic order reports, as texts of protobuf-encoded decimals.
#[derive(Debug)]
pub struct TradeData {
    pub price: String,
    pub quantity: String,
    pub fee: String,
}

/// The reply to an atomic order, as far as it was read.
#[derive(Debug)]
pub enum OrderReply {
    /// The order failed with this error.
    SubMsgFailed(String),
    /// The reply carries no data.
    MissingData,
    /// The reply's data could not be decoded; the decoder's error.
    Unparsable(String),
    /// The decoded response, with its trade results if any.
    Parsed(Option<TradeData>),
}

/// What an atomic order traded: average price, quantity and fee.
#[derive(Debug, Clone, Copy)]
pub struct Trade {
    pub price: Dec,
    pub quantity: Dec,
    pub fee: Dec,
}

/// A protobuf-encoded decimal text, read and divided by the factor 10^18.
pub open spec fn decoded_spec(text: Seq<char>) -> Result<DecModel, Seq<char>> {
    match fp_parse(text) {
        Ok(d) => Ok(fp_div(d, fp_nat(1_000_000_000_000_000_000))),
        Err(e) => Err(e),
    }
}

/// The texts of a trade are read in turn (price, quantity, fee) until one is
/// rejected; none that is read makes the decimal parser panic.
pub open spec fn trade_texts_fit(t: TradeData) -> bool {
    &&& parse_fits(t.price@)
    &&& fp_parse(t.price@) is Ok ==> parse_fits(t.quantity@)
    &&& fp_parse(t.price@) is Ok && fp_parse(t.quantity@) is Ok ==> parse_fits(t.fee@)
}

/// The error is a generic error with the given text.
pub open spec fn is_std_error(e: ContractError, msg: Seq<char>) -> bool {
    e matches ContractError::Std(StdError::GenericErr { msg: m }) && m@ == msg
}

proof fn lemma_descale_ok(d: DecModel)
    requires
        d.wf(),
        fits(d.mag),
    ensures
        crate::decimal::div_ok(d, fp_nat(1_000_000_000_000_000_000)),
        fp_div(d, fp_nat(1_000_000_000_000_000_000)).wf(),
{
    let s = 1_000_000_000_000_000_000_000_000_000_000_000_000nat;
    assert(fp_nat(1_000_000_000_000_000_000).mag == s);
    vstd::arithmetic::div_mod::lemma_div_is_ordered_by_denominator(
        (precision() * d.mag) as int,
        precision() as int,
        s as int,
    );
    vstd::arithmetic::div_mod::lemma_div_by_multiple(d.mag as int, precision() as int);
    assert(precision() * d.mag == d.mag * precision()) by (nonlinear_arith);
    assert((precision() * d.mag) / s <= d.mag);
    assert(fits((precision() * d.mag) / s));
}

/// Reads a protobuf-encoded decimal text into its value.
fn decode_dec(text: &str) -> (r: Result<Dec, ContractError>)
    requires
        parse_fits(text@),
    ensures
        decoded_spec(text@) matches Ok(d) ==> (r matches Ok(v) && v@ == d && v@.wf()),
        decoded_spec(text@) matches Err(e) ==> (r is Err && is_std_error(r->Err_0, e)),
{
    match dec_from_str(text) {
        Ok(value) => {
            proof {
                crate::decimal::lemma_mag_bound(value);
                lemma_descale_ok(value@);
            }
            Ok(dec_div(value, dec_scale_factor()))
        },
        Err(msg) => Err(ContractError::Std(StdError::GenericErr { msg })),
    }
}

/// Reads the reply of an atomic order with reply id `id`.
pub fn parse_atomic_order_reply(id: u64, reply: OrderReply) -> (r: Result<Trade, ContractError>)
    requires
        reply matches OrderReply::Parsed(Some(t)) ==> trade_texts_fit(t),
    ensures
        reply matches OrderReply::SubMsgFailed(e) ==> (r matches Err(ContractError::SubMsgFailure(m))
            && m@ == e@),
        reply is MissingData ==> (r matches Err(ContractError::ReplyParseFailure { id: i, err })
            && i == id && err@ == "Missing reply data"@),
        reply matches OrderReply::Unparsable(e) ==> (r matches Err(ContractError::ReplyParseFailure { id: i, err })
            && i == id && err@ == e@),
        reply matches OrderReply::Parsed(None) ==> (r is Err && is_custom_error(
            r->Err_0,
            "No trade data in order response"@,
        )),
        reply matches OrderReply::Parsed(Some(t)) ==> {
            let price = decoded_spec(t.price@);
            let quantity = decoded_spec(t.quantity@);
            let fee = decoded_spec(t.fee@);
            &&& price matches Err(e) ==> (r is Err && is_std_error(r->Err_0, e))
            &&& (price is Ok && quantity is Err) ==> (r is Err && is_std_error(r->Err_0, quantity->Err_0))
            &&& (price is Ok && quantity is Ok && fee is Err) ==> (r is Err && is_std_error(r->Err_0, fee->Err_0))
            &&& price is Ok && quantity is Ok && fee is Ok ==> (r matches Ok(trade) && trade.price@
                == price->Ok_0 && trade.quantity@ == quantity->Ok_0 && trade.fee@ == fee->Ok_0)
        },
        r matches Ok(trade) ==> trade.price@.wf() && trade.quantity@.wf() && trade.fee@.wf(),
{
    let trade_data = match reply {
        OrderReply::SubMsgFailed(e) => return Err(ContractError::SubMsgFailure(e)),
        OrderReply::MissingData => {
            return Err(ContractError::ReplyParseFailure { id, err: "Missing reply data".to_owned() })
        },
        OrderReply::Unparsable(e) => return Err(ContractError::ReplyParseFailure { id, err: e }),
        OrderReply::Parsed(None) => return Err(custom_error("No trade data in order response")),
        OrderReply::Parsed(Some(t)) => t,
    };
    let price = match decode_dec(trade_data.price.as_str()) {
        Ok(v) => v,
        Err(e) => return Err(e),
    };
    let quantity = match decode_dec(trade_data.quantity.as_str()) {
        Ok(v) => v,
        Err(e) => return Err(e),
    };
    let fee = match decode_dec(trade_data.fee.as_str()) {
        Ok(v) => v,
        Err(e) => return Err(e),
    };
    Ok(Trade { price, quantity, fee })
}

/// What happens after an order's trade: the next step is placed, or the swap ends
/// and pays out.
#[derive(Debug)]
pub enum ReplyOutcome {
    NextStep { step_idx: u16, balance: FPCoin, swap_results: Vec<SwapResults> },
    Finished {
        /// The coin sent to the swapper.
        send: Coin,
        /// The refund sent to the swapper, when there is one.
        refund: Option<Coin>,
        final_amount: Dec,
        swap_results: Vec<SwapResults>,
    },
}

/// The balance that a trade leaves: the quantity bought, or for a sale the
/// quantity times the price less the fee.
pub open spec fn traded_balance_spec(trade: Trade, is_buy: bool) -> DecModel {
    if is_buy {
        trade.quantity@
    } else {
        fp_sub(fp_mul(trade.quantity@, trade.price@), trade.fee@)
    }
}

/// The index of the last step, as the 16-bit step counter holds it.
pub open spec fn last_step_index(len: nat) -> u16 {
    (len - 1) as u16
}

/// The inputs on which applying a trade does not panic.
pub open spec fn apply_trade_ok(trade: Trade, current_step: CurrentSwapStep, swap: CurrentSwapOperation) -> bool {
    let balance = traded_balance_spec(trade, current_step.is_buy);
    &&& swap.swap_steps@.len() >= 1
    &&& (current_step.step_idx as int) < swap.swap_steps@.len()
    &&& trade.price@.wf() && trade.quantity@.wf() && trade.fee@.wf()
    &&& !current_step.is_buy ==> mul_ok(trade.quantity@, trade.price@) && sub_ok(
        fp_mul(trade.quantity@, trade.price@),
        trade.fee@,
    )
    &&& (current_step.step_idx >= last_step_index(swap.swap_steps@.len()) && !fp_lt(
        balance,
        swap.swap_quantity_mode.quantity()@,
    )) ==> balance.mag / precision() <= u128::MAX
}

/// The results recorded so far, followed by the trade of the current step.
pub open spec fn recorded_results(
    swap_results: Seq<SwapResults>,
    trade: Trade,
    current_step: CurrentSwapStep,
    swap: CurrentSwapOperation,
) -> Seq<SwapResults> {
    swap_results.push(
        SwapResults {
            market_id: swap.swap_steps@[current_step.step_idx as int],
            quantity: trade.quantity,
            price: trade.price,
            fee: trade.fee,
        },
    )
}

/// Applies the trade of the current step: records it, and either moves on to the
/// next step with the balance it left, or, after the last step, ends the swap —
/// failing when the balance is below the minimum output, and otherwise sending
/// the balance's whole part and any refund to the swapper.
pub fn apply_trade(
    trade: Trade,
    current_step: CurrentSwapStep,
    swap: &CurrentSwapOperation,
    swap_results: Vec<SwapResults>,
) -> (r: Result<ReplyOutcome, ContractError>)
    requires
        apply_trade_ok(trade, current_step, *swap),
    ensures
        ({
            let balance = traded_balance_spec(trade, current_step.is_buy);
            let last = last_step_index(swap.swap_steps@.len());
            let minimum = swap.swap_quantity_mode.quantity();
            &&& current_step.step_idx < last ==> (r matches Ok(ReplyOutcome::NextStep { step_idx, balance: b, swap_results: results })
                && step_idx == current_step.step_idx + 1 && b.amount@ == balance
                && b.denom@ == current_step.step_target_denom@
                && results@ == recorded_results(swap_results@, trade, current_step, *swap))
            &&& current_step.step_idx >= last && fp_lt(balance, minimum@) ==> (r matches Err(ContractError::MinOutputAmountNotReached(m))
                && m == minimum)
            &&& current_step.step_idx >= last && !fp_lt(balance, minimum@) ==> (r matches Ok(ReplyOutcome::Finished { send, refund, final_amount, swap_results: results })
                && final_amount@ == balance
                && send.denom@ == current_step.step_target_denom@
                && send.amount as nat == balance.mag / precision()
                && (swap.refund.amount > 0 ==> (refund matches Some(c) && c.amount == swap.refund.amount
                    && c.denom@ == swap.refund.denom@))
                && (swap.refund.amount == 0 ==> refund is None)
                && results@ == recorded_results(swap_results@, trade, current_step, *swap))
        }),
{
    let new_quantity = if current_step.is_buy {
        trade.quantity
    } else {
        proof {
            lemma_wf_closed(trade.quantity@, trade.price@);
        }
        dec_sub(dec_mul(trade.quantity, trade.price), trade.fee)
    };
    let mut swap_results = swap_results;
    let idx = current_step.step_idx;
    swap_results.push(SwapResults {
        market_id: swap.swap_steps[idx as usize].clone(),
        price: trade.price,
        quantity: trade.quantity,
        fee: trade.fee,
    });
    let new_balance = FPCoin { amount: new_quantity, denom: current_step.step_target_denom };
    let last = (swap.swap_steps.len() - 1) as u16;
    if idx < last {
        return Ok(ReplyOutcome::NextStep { step_idx: idx + 1, balance: new_balance, swap_results });
    }
    let min_output_quantity = match swap.swap_quantity_mode {
        SwapQuantityMode::MinOutputQuantity(q) => q,
        SwapQuantityMode::ExactOutputQuantity(q) => q,
    };
    if dec_lt(new_balance.amount, min_output_quantity) {
        return Err(ContractError::MinOutputAmountNotReached(min_output_quantity));
    }
    let final_amount = new_balance.amount;
    let send = new_balance.into_coin();
    let refund = if swap.refund.amount > 0 {
        Some(Coin { denom: swap.refund.denom.clone(), amount: swap.refund.amount })
    } else {
        None
    };
    Ok(ReplyOutcome::Finished { send, refund, final_amount, swap_results })
}

/// Only the atomic order reply is handled.
pub fn check_reply_id(id: u64) -> (r: Result<(), ContractError>)
    ensures
        r is Ok <==> id == ATOMIC_ORDER_REPLY_ID,
        r is Err ==> (r matches Err(ContractError::UnrecognizedReply(i)) && i == id),
{
    if id == ATOMIC_ORDER_REPLY_ID {
        Ok(())
    } else {
        Err(ContractError::UnrecognizedReply(id))
    }
}

} // verus!
