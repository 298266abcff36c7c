use swap_contract::contract::check_migration;
use injective_math::FPDecimal;
use swap_contract::decimal::Dec;
use swap_contract::error::{ContractError, StdError};
use swap_contract::queries::SpotMarket;
use swap_contract::swap::{
    apply_trade, check_reply_id, execute_swap_step, parse_atomic_order_reply, start_swap_flow,
    validate_swap_request, ExactOutputQuote, OrderReply, ReplyOutcome, Trade, TradeData,
};
use swap_contract::types::{
    Coin, CurrentSwapOperation, CurrentSwapStep, FPCoin, MarketId, StepExecutionEstimate,
    SwapQuantityMode,
};

fn dec(s: &str) -> Dec {
    to_dec(FPDecimal::must_from_str(s))
}

fn to_dec(d: FPDecimal) -> Dec {
    Dec { num: d.num.0, sign: d.sign }
}

fn dec_from_u128(x: u128) -> Dec {
    to_dec(FPDecimal::from(x))
}

fn coin(amount: u128, denom: &str) -> Coin {
    Coin { denom: denom.to_string(), amount }
}

fn market(quote: &str, base: &str, quantity_tick: &str) -> SpotMarket {
    SpotMarket {
        market_id: MarketId::unchecked("m1".to_string()),
        base_denom: base.to_string(),
        quote_denom: quote.to_string(),
        taker_fee_rate: dec("0.001"),
        relayer_fee_share_rate: dec("0.4"),
        min_price_tick_size: dec("0.001"),
        min_quantity_tick_size: dec(quantity_tick),
    }
}

fn operation(steps: usize, mode: SwapQuantityMode, refund: u128) -> CurrentSwapOperation {
    CurrentSwapOperation {
        sender_address: "sender".to_string(),
        swap_steps: (0..steps).map(|i| MarketId::unchecked(format!("m{}", i))).collect(),
        swap_quantity_mode: mode,
        input_funds: coin(100, "usdt"),
        refund: coin(refund, "usdt"),
    }
}

fn custom_message(e: ContractError) -> String {
    match e {
        ContractError::CustomError { val } => val,
        other => format!("{:?}", other),
    }
}

fn start_min_output(funds: Vec<Coin>, min_output_quantity: Dec) -> Result<(CurrentSwapOperation, FPCoin), ContractError> {
    start_swap_flow(
        "sender".to_string(),
        funds,
        vec![MarketId::unchecked("m1".to_string())],
        SwapQuantityMode::MinOutputQuantity(min_output_quantity),
        None,
    )
}

#[test]
fn it_reverts_swap_if_no_funds_were_passed() {
    let result = start_min_output(vec![], dec("2800"));
    assert_eq!(custom_message(result.unwrap_err()), "Only one denom can be passed in funds");
}

#[test]
fn it_reverts_swap_if_multiple_funds_were_passed() {
    let result = start_min_output(vec![coin(12, "eth"), coin(500_000, "inj")], dec("2800"));
    assert_eq!(custom_message(result.unwrap_err()), "Only one denom can be passed in funds");
}

#[test]
fn it_reverts_if_user_passes_quantities_equal_to_zero() {
    let result = start_min_output(vec![coin(12, "eth")], Dec::zero());
    assert_eq!(custom_message(result.unwrap_err()), "Output quantity must be positive!");
}

#[test]
fn it_reverts_if_user_passes_negative_quantities() {
    let result = start_min_output(vec![coin(12, "eth")], dec("-1"));
    assert!(result.is_err(), "swap with negative minimum amount to receive did not fail");
    assert_eq!(custom_message(result.unwrap_err()), "Output quantity must be positive!");
}

#[test]
fn output_quantity_must_be_positive() {
    let result = validate_swap_request(&vec![coin(10, "eth")], &SwapQuantityMode::ExactOutputQuantity(Dec::zero()));
    assert_eq!(custom_message(result.unwrap_err()), "Output quantity must be positive!");
    assert!(validate_swap_request(&vec![coin(10, "eth")], &SwapQuantityMode::MinOutputQuantity(dec("0.5"))).is_ok());
    let result = start_swap_flow(
        "sender".to_string(),
        vec![coin(10, "eth")],
        vec![MarketId::unchecked("m1".to_string())],
        SwapQuantityMode::ExactOutputQuantity(dec("-2")),
        None,
    );
    assert_eq!(custom_message(result.unwrap_err()), "Output quantity must be positive!");
}

#[test]
fn min_output_swap_spends_the_whole_coin_and_refunds_nothing() {
    let (op, balance) = start_swap_flow(
        "sender".to_string(),
        vec![coin(500, "usdt")],
        vec![MarketId::unchecked("m1".to_string())],
        SwapQuantityMode::MinOutputQuantity(dec("1")),
        None,
    )
    .unwrap();
    assert_eq!(balance.amount, dec_from_u128(500));
    assert_eq!(balance.denom, "usdt");
    assert_eq!(op.refund.amount, 0);
    assert_eq!(op.input_funds.amount, 500);
}

#[test]
fn exact_output_swap_takes_the_estimate_rounded_and_refunds_the_rest() {
    // The first market quotes in the source denomination: whole part of the estimate plus one.
    let quote = ExactOutputQuote { estimated_input: dec("100.4"), first_market: market("usdt", "eth", "0.001") };
    let (op, balance) = start_swap_flow(
        "sender".to_string(),
        vec![coin(500, "usdt")],
        vec![MarketId::unchecked("m1".to_string())],
        SwapQuantityMode::ExactOutputQuantity(dec("2")),
        Some(quote),
    )
    .unwrap();
    assert_eq!(balance.amount, dec_from_u128(101));
    assert_eq!(op.refund.amount, 399);
    assert_eq!(op.refund.denom, "usdt");

    // Otherwise the estimate is rounded up to the first market's quantity tick.
    let quote = ExactOutputQuote { estimated_input: dec("12.3"), first_market: market("usdt", "eth", "1") };
    let (_, balance) = start_swap_flow(
        "sender".to_string(),
        vec![coin(20, "eth")],
        vec![MarketId::unchecked("m1".to_string())],
        SwapQuantityMode::ExactOutputQuantity(dec("2")),
        Some(quote),
    )
    .unwrap();
    assert_eq!(balance.amount, dec_from_u128(13));
}

#[test]
fn exact_output_swap_fails_when_the_coin_is_short() {
    let quote = ExactOutputQuote { estimated_input: dec("608.5"), first_market: market("usdt", "inj", "0.001") };
    let result = start_swap_flow(
        "sender".to_string(),
        vec![coin(608, "usdt")],
        vec![MarketId::unchecked("m1".to_string())],
        SwapQuantityMode::ExactOutputQuantity(dec("600")),
        Some(quote),
    );
    match result {
        Err(ContractError::InsufficientFundsProvided(provided, required)) => {
            assert_eq!(provided, dec_from_u128(608));
            assert_eq!(required, dec_from_u128(609));
        },
        _ => panic!("expected insufficient funds"),
    }
}

#[test]
fn step_order_uses_worst_price_and_side_specific_quantity() {
    let op = operation(2, SwapQuantityMode::MinOutputQuantity(dec("1")), 0);
    let estimate = StepExecutionEstimate {
        worst_price: dec("830"),
        result_denom: "inj".to_string(),
        result_quantity: dec("2.5"),
        is_buy_order: true,
        fee_estimate: None,
    };
    let balance = FPCoin { amount: dec("2100"), denom: "usdt".to_string() };
    let (order, step) = execute_swap_step(&op, 1, balance, estimate, "fees".to_string());
    assert_eq!(order.market_id, MarketId::unchecked("m1".to_string()));
    assert_eq!(order.price, dec("830"));
    assert_eq!(order.quantity, dec("2.5"));
    assert!(order.is_buy);
    assert_eq!(order.fee_recipient, "fees");
    assert_eq!(step.step_idx, 1);
    assert_eq!(step.step_target_denom, "inj");

    let estimate = StepExecutionEstimate {
        worst_price: dec("192000"),
        result_denom: "usdt".to_string(),
        result_quantity: dec("2355097.5"),
        is_buy_order: false,
        fee_estimate: None,
    };
    let balance = FPCoin { amount: dec("12"), denom: "eth".to_string() };
    let (order, step) = execute_swap_step(&op, 0, balance, estimate, "fees".to_string());
    assert_eq!(order.quantity, dec("12"));
    assert!(!order.is_buy && !step.is_buy);
}

#[test]
fn reply_values_are_descaled() {
    let trade = parse_atomic_order_reply(
        1,
        OrderReply::Parsed(Some(TradeData {
            price: "2000000000000000000000".to_string(),
            quantity: "1500000000000000000".to_string(),
            fee: "3000000000000000000".to_string(),
        })),
    )
    .unwrap();
    assert_eq!(trade.price, dec("2000"));
    assert_eq!(trade.quantity, dec("1.5"));
    assert_eq!(trade.fee, dec("3"));
}

#[test]
fn reply_errors_are_reported() {
    assert!(matches!(parse_atomic_order_reply(1, OrderReply::SubMsgFailed("boom".to_string())), Err(ContractError::SubMsgFailure(m)) if m == "boom"));
    assert!(matches!(parse_atomic_order_reply(7, OrderReply::MissingData), Err(ContractError::ReplyParseFailure { id: 7, err }) if err == "Missing reply data"));
    assert!(matches!(parse_atomic_order_reply(1, OrderReply::Unparsable("bad".to_string())), Err(ContractError::ReplyParseFailure { id: 1, err }) if err == "bad"));
    assert_eq!(custom_message(parse_atomic_order_reply(1, OrderReply::Parsed(None)).unwrap_err()), "No trade data in order response");
    let bad = TradeData { price: "x".to_string(), quantity: "1".to_string(), fee: "1".to_string() };
    match parse_atomic_order_reply(1, OrderReply::Parsed(Some(bad))) {
        Err(ContractError::Std(StdError::GenericErr { msg })) => assert_eq!(msg, "Error parsing integer"),
        other => panic!("expected a parse error, got {:?}", other),
    }
    let too_precise = TradeData { price: "1.0000000000000000001".to_string(), quantity: "1".to_string(), fee: "1".to_string() };
    match parse_atomic_order_reply(1, OrderReply::Parsed(Some(too_precise))) {
        Err(ContractError::Std(StdError::GenericErr { msg })) => assert_eq!(msg, "Cannot parse more than 18 fractional digits"),
        other => panic!("expected a parse error, got {:?}", other),
    }
}

#[test]
fn a_sale_leaves_quantity_times_price_less_fee_and_moves_on() {
    let op = operation(2, SwapQuantityMode::MinOutputQuantity(dec("1")), 0);
    let step = CurrentSwapStep {
        step_idx: 0,
        current_balance: FPCoin { amount: dec("12"), denom: "eth".to_string() },
        step_target_denom: "usdt".to_string(),
        is_buy: false,
    };
    let trade = Trade { price: dec("196750"), quantity: dec("12"), fee: dec("5902.5") };
    match apply_trade(trade, step, &op, vec![]).unwrap() {
        ReplyOutcome::NextStep { step_idx, balance, swap_results } => {
            assert_eq!(step_idx, 1);
            assert_eq!(balance.amount, dec("2355097.5"));
            assert_eq!(balance.denom, "usdt");
            assert_eq!(swap_results.len(), 1);
            assert_eq!(swap_results[0].market_id, MarketId::unchecked("m0".to_string()));
            assert_eq!(swap_results[0].price, dec("196750"));
            assert_eq!(swap_results[0].quantity, dec("12"));
            assert_eq!(swap_results[0].fee, dec("5902.5"));
        },
        _ => panic!("expected the next step"),
    }
}

#[test]
fn the_last_trade_pays_out_with_the_refund() {
    let op = operation(1, SwapQuantityMode::ExactOutputQuantity(dec("2")), 7);
    let step = CurrentSwapStep {
        step_idx: 0,
        current_balance: FPCoin { amount: dec("10"), denom: "usdt".to_string() },
        step_target_denom: "eth".to_string(),
        is_buy: true,
    };
    let trade = Trade { price: dec("4"), quantity: dec("2.5"), fee: dec("0.1") };
    match apply_trade(trade, step, &op, vec![]).unwrap() {
        ReplyOutcome::Finished { send, refund, final_amount, swap_results } => {
            assert_eq!(final_amount, dec("2.5"));
            assert_eq!(send.denom, "eth");
            assert_eq!(send.amount, 2);
            let refund = refund.expect("a refund");
            assert_eq!(refund.amount, 7);
            assert_eq!(swap_results.len(), 1);
        },
        _ => panic!("expected the end of the swap"),
    }
}

#[test]
fn it_reverts_when_min_output_is_not_reached() {
    let op = operation(1, SwapQuantityMode::MinOutputQuantity(dec("3")), 0);
    let step = CurrentSwapStep {
        step_idx: 0,
        current_balance: FPCoin { amount: dec("10"), denom: "usdt".to_string() },
        step_target_denom: "eth".to_string(),
        is_buy: true,
    };
    let trade = Trade { price: dec("4"), quantity: dec("2.5"), fee: dec("0.1") };
    match apply_trade(trade, step, &op, vec![]) {
        Err(ContractError::MinOutputAmountNotReached(min)) => assert_eq!(min, dec("3")),
        _ => panic!("expected the minimum output error"),
    }
}

#[test]
fn only_atomic_order_replies_are_handled() {
    assert!(check_reply_id(1).is_ok());
    assert!(matches!(check_reply_id(2), Err(ContractError::UnrecognizedReply(2))));
}

#[test]
fn migration_only_from_the_released_version() {
    assert!(check_migration("crates.io:swap-contract", "1.0.1").is_ok());
    assert!(matches!(check_migration("crates.io:swap-contract", "1.0.0"), Err(ContractError::MigrationError {})));
    assert!(matches!(check_migration("crates.io:other", "1.0.1"), Err(ContractError::MigrationError {})));
}
