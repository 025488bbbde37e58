use portfolio_report::decimal::Decimal;
use portfolio_report::formatting::{format_cash, format_shares, format_weight, get_weight, Weight};

#[test]
fn zero_denominator_gives_infinite_weight() {
    let zero = Decimal::from_int(0);
    assert_eq!(get_weight(&Decimal::from_int(25), &zero), Weight::Infinite);
    assert_eq!(get_weight(&Decimal::from_int(0), &zero), Weight::Infinite);
    assert_eq!(get_weight(&Decimal::from_int(-7), &zero), Weight::Infinite);
    assert_eq!(format_weight(&Weight::Infinite), "\u{221e}");
}

#[test]
fn weight_of_quarter_formats_as_percentage() {
    let w = get_weight(&Decimal::from_int(25), &Decimal::from_int(100));
    assert_eq!(format_weight(&w), "25.0%");
}

#[test]
fn weight_rounds_to_one_decimal_place() {
    // 9000 / 9500 = 94.736...% rounds to 94.7%.
    let w = get_weight(&Decimal::from_int(9000), &Decimal::from_int(9500));
    assert_eq!(format_weight(&w), "94.7%");
    // 10000 / 9500 = 105.26...% rounds to 105.3%.
    let w = get_weight(&Decimal::from_int(10000), &Decimal::from_int(9500));
    assert_eq!(format_weight(&w), "105.3%");
}

#[test]
fn weight_against_negative_denominator_keeps_sign() {
    let w = get_weight(&Decimal::from_int(25), &Decimal::from_int(-100));
    assert_eq!(format_weight(&w), "-25.0%");
    let w = get_weight(&Decimal::from_int(-25), &Decimal::from_int(-100));
    assert_eq!(format_weight(&w), "25.0%");
}

#[test]
fn small_negative_weight_shows_leading_zero() {
    // -5 / 1000 = -0.5%.
    let w = get_weight(&Decimal::from_int(-5), &Decimal::from_int(1000));
    assert_eq!(format_weight(&w), "-0.5%");
}

#[test]
fn usd_cash_is_rounded_separated_and_prefixed() {
    assert_eq!(format_cash("USD", &Decimal::new(12346, 1)), "$1,235");
}

#[test]
fn rub_cash_is_suffixed_with_ruble_sign() {
    assert_eq!(format_cash("RUB", &Decimal::from_int(1000)), "1,000\u{20bd}");
}

#[test]
fn other_currency_is_suffixed_with_its_code() {
    assert_eq!(format_cash("EUR", &Decimal::from_int(500)), "500 EUR");
}

#[test]
fn cash_rounds_halves_away_from_zero() {
    assert_eq!(format_cash("USD", &Decimal::new(12345, 1)), "$1,235");
    assert_eq!(format_cash("USD", &Decimal::new(-12345, 1)), "$-1,235");
    assert_eq!(format_cash("EUR", &Decimal::new(4994, 1)), "499 EUR");
}

#[test]
fn large_cash_gets_every_thousands_separator() {
    assert_eq!(format_cash("USD", &Decimal::from_int(1_234_567)), "$1,234,567");
    assert_eq!(format_cash("USD", &Decimal::from_int(-1_234_567)), "$-1,234,567");
}

#[test]
fn shares_format_with_and_without_forced_sign() {
    assert_eq!(format_shares(5, false), "5s");
    assert_eq!(format_shares(5, true), "+5s");
    assert_eq!(format_shares(-3, true), "-3s");
    assert_eq!(format_shares(-3, false), "-3s");
    assert_eq!(format_shares(0, true), "+0s");
    assert_eq!(format_shares(0, false), "0s");
}

#[test]
fn share_counts_truncate_toward_zero() {
    assert_eq!(Decimal::new(25, 1).to_i32(), 2);
    assert_eq!(Decimal::new(-25, 1).to_i32(), -2);
    assert_eq!(Decimal::from_int(12).to_i32(), 12);
}

#[test]
fn weight_permille_ties_round_away_from_zero() {
    // 1 / 800 = 0.125% rounds down to 0.1%.
    let w = get_weight(&Decimal::from_int(1), &Decimal::from_int(800));
    assert_eq!(format_weight(&w), "0.1%");
    // 1 / 400 = 0.25% is a tie and rounds away to 0.3%.
    let w = get_weight(&Decimal::from_int(1), &Decimal::from_int(400));
    assert_eq!(format_weight(&w), "0.3%");
    let w = get_weight(&Decimal::from_int(-1), &Decimal::from_int(400));
    assert_eq!(format_weight(&w), "-0.3%");
}

#[test]
fn cash_tie_crossing_a_thousand_regroups() {
    assert_eq!(format_cash("USD", &Decimal::new(-9995, 1)), "$-1,000");
    assert_eq!(format_cash("USD", &Decimal::new(9995, 1)), "$1,000");
}

#[test]
fn decimal_arithmetic_matches_plain_numbers() {
    let total = Decimal::from_int(10000);
    let reserve = Decimal::from_int(500);
    assert_eq!(total.minus(&reserve), Decimal::from_int(9500));
    let weight = Decimal::new(10, 1);
    assert_eq!(total.minus(&reserve).times(&weight), Decimal::from_int(9500));
    let half = Decimal::new(5, 1);
    assert_eq!(total.times(&half), Decimal::from_int(5000));
    assert_eq!(Decimal::from_int(-3).abs(), Decimal::from_int(3));
    assert!(Decimal::from_int(0).is_zero());
    assert!(!Decimal::new(1, 9).is_zero());
    assert!(Decimal::from_int(2).gt(&Decimal::from_int(1)));
}
