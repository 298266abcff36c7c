use injective_math::FPDecimal;
use swap_contract::decimal::Dec;
use swap_contract::test_utils::{human_to_dec, human_to_proto, str_coin, Decimals};

fn dec(s: &str) -> Dec {
    let d = FPDecimal::must_from_str(s);
    Dec { num: d.num.0, sign: d.sign }
}

#[test]
fn it_converts_integer_to_dec() {
    let integer = "1";
    let mut decimals = Decimals::Eighteen;
    let mut expected = dec("1000000000000000000");

    let actual = human_to_dec(integer, decimals);
    assert_eq!(actual, expected, "failed to convert integer with 18 decimal to dec");

    decimals = Decimals::Six;
    expected = dec("1000000");

    let actual = human_to_dec(integer, decimals);
    assert_eq!(actual, expected, "failed to convert integer with 6 decimal to dec");
}

#[test]
fn it_converts_decimals_above_zero_to_dec() {
    let integer = "1.1";
    let mut decimals = Decimals::Eighteen;
    let mut expected = dec("1100000000000000000");

    let actual = human_to_dec(integer, decimals);
    assert_eq!(actual, expected, "failed to convert integer with 18 decimal to dec");

    decimals = Decimals::Six;
    expected = dec("1100000");

    let actual = human_to_dec(integer, decimals);
    assert_eq!(actual, expected, "failed to convert integer with 6 decimal to dec");
}

#[test]
fn it_converts_decimals_above_zero_with_max_precision_limit_of_18_to_dec() {
    let integer = "1.000000000000000001";
    let decimals = Decimals::Eighteen;
    let expected = dec("1000000000000000001");

    let actual = human_to_dec(integer, decimals);
    assert_eq!(actual, expected, "failed to convert integer with 18 decimal to dec");
}

#[test]
fn it_converts_decimals_above_zero_with_max_precision_limit_of_6_to_dec() {
    let integer = "1.000001";
    let decimals = Decimals::Six;
    let expected = dec("1000001");

    let actual = human_to_dec(integer, decimals);
    assert_eq!(actual, expected, "failed to convert integer with 18 decimal to dec");
}

#[test]
fn it_converts_decimals_below_zero_to_dec() {
    let integer = "0.1123";
    let mut decimals = Decimals::Eighteen;
    let mut expected = dec("112300000000000000");

    let actual = human_to_dec(integer, decimals);
    assert_eq!(actual, expected, "failed to convert integer with 18 decimal to dec");

    decimals = Decimals::Six;
    expected = dec("112300");

    let actual = human_to_dec(integer, decimals);
    assert_eq!(actual, expected, "failed to convert integer with 6 decimal to dec");
}

#[test]
fn it_converts_decimals_below_zero_with_max_precision_limit_of_18_to_dec() {
    let integer = "0.000000000000000001";
    let decimals = Decimals::Eighteen;
    let expected = dec("1");

    let actual = human_to_dec(integer, decimals);
    assert_eq!(actual, expected, "failed to convert integer with 18 decimal to dec");
}

#[test]
fn it_converts_decimals_below_zero_with_max_precision_limit_of_6_to_dec() {
    let integer = "0.000001";
    let decimals = Decimals::Six;
    let expected = dec("1");

    let actual = human_to_dec(integer, decimals);
    assert_eq!(actual, expected, "failed to convert integer with 18 decimal to dec");
}

#[test]
fn it_converts_integer_to_proto() {
    let integer = "1";
    let mut decimals = Decimals::Eighteen;
    let mut expected = "1000000000000000000000000000000000000";

    let actual = human_to_proto(integer, decimals.get_decimals());
    assert_eq!(actual, expected, "failed to convert integer with 18 decimal to proto");

    decimals = Decimals::Six;
    expected = "1000000000000000000000000";

    let actual = human_to_proto(integer, decimals.get_decimals());
    assert_eq!(actual, expected, "failed to convert integer with 6 decimal to proto");
}

#[test]
fn it_converts_decimal_above_zero_to_proto() {
    let number = "1.1";
    let mut decimals = Decimals::Eighteen;
    let mut expected = "1100000000000000000000000000000000000";

    let actual = human_to_proto(number, decimals.get_decimals());
    assert_eq!(actual, expected, "failed to convert decimal with 18 decimal to proto");

    decimals = Decimals::Six;
    expected = "1100000000000000000000000";

    let actual = human_to_proto(number, decimals.get_decimals());
    assert_eq!(actual, expected, "failed to convert decimal with 6 decimal to proto");
}

#[test]
fn it_converts_decimal_below_zero_to_proto() {
    let number = "0.1";
    let mut decimals = Decimals::Eighteen;
    let mut expected = "100000000000000000000000000000000000";

    let actual = human_to_proto(number, decimals.get_decimals());
    assert_eq!(actual, expected, "failed to convert decimal with 18 decimal to proto");

    decimals = Decimals::Six;
    expected = "100000000000000000000000";

    let actual = human_to_proto(number, decimals.get_decimals());
    assert_eq!(actual, expected, "failed to convert decimal with 6 decimal to proto");
}

#[test]
fn it_converts_decimal_below_zero_with_18_decimals_with_max_precision_to_proto() {
    let number = "0.000000000000000001";
    let decimals = Decimals::Eighteen;
    let expected = "1000000000000000000";

    let actual = human_to_proto(number, decimals.get_decimals());
    assert_eq!(actual, expected, "failed to convert decimal with 18 decimal to proto");
}

#[test]
fn it_converts_decimal_below_zero_with_6_decimals_with_max_precision_to_proto() {
    let number = "0.000001";
    let decimals = Decimals::Six;
    let expected = "1000000000000000000";

    let actual = human_to_proto(number, decimals.get_decimals());
    assert_eq!(actual, expected, "failed to convert decimal with 6 decimal to proto");
}

#[test]
fn it_converts_decimal_above_zero_with_0_precision_to_proto() {
    let number = "1.000001";
    let expected = "1000001000000000000";

    let actual = human_to_proto(number, 0);
    assert_eq!(actual, expected, "failed to convert decimal with 0 decimal to proto");
}

#[test]
fn it_converts_decimal_below_zero_with_0_precision_to_proto() {
    let number = "0.000001";
    let expected = "1000000000000";

    let actual = human_to_proto(number, 0);
    assert_eq!(actual, expected, "failed to convert decimal with 0 decimal to proto");
}

#[test]
fn underscores_group_digits_and_coins_take_whole_units() {
    assert_eq!(human_to_dec("100_000", Decimals::Six), dec("100000000000"));
    let coin = str_coin("1_000.5", "usdt", Decimals::Six);
    assert_eq!(coin.amount, 1_000_500_000);
    assert_eq!(coin.denom, "usdt");
    let coin = str_coin("0.0000001", "usdt", Decimals::Six);
    assert_eq!(coin.amount, 0);
}
