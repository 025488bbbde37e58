use portfolio_report::decimal::Decimal;
use portfolio_report::formatting::render_portfolio;
use portfolio_report::portfolio::{AssetAllocation, Holding, Portfolio, StockHolding};

const BOLD: &str = "\u{1b}[1m";
const GREEN: &str = "\u{1b}[32m";
const RED: &str = "\u{1b}[31m";
const BLUE: &str = "\u{1b}[34m";
const RESET: &str = "\u{1b}[0m";

fn stock(
    name: &str,
    weight_tenths: i64,
    current_value: i64,
    target_value: i64,
    current_shares: i64,
    target_shares: i64,
) -> AssetAllocation {
    AssetAllocation {
        full_name: name.to_string(),
        expected_weight: Decimal::new(weight_tenths, 1),
        current_value: Decimal::from_int(current_value),
        target_value: Decimal::from_int(target_value),
        buy_blocked: false,
        sell_blocked: false,
        holding: Holding::Stock(StockHolding {
            current_shares: Decimal::from_int(current_shares),
            target_shares: Decimal::from_int(target_shares),
        }),
    }
}

fn group(
    name: &str,
    weight_tenths: i64,
    current_value: i64,
    target_value: i64,
    children: Vec<AssetAllocation>,
) -> AssetAllocation {
    AssetAllocation {
        full_name: name.to_string(),
        expected_weight: Decimal::new(weight_tenths, 1),
        current_value: Decimal::from_int(current_value),
        target_value: Decimal::from_int(target_value),
        buy_blocked: false,
        sell_blocked: false,
        holding: Holding::Group(children),
    }
}

fn portfolio(currency: &str, total: i64, free: i64, reserve: i64, assets: Vec<AssetAllocation>) -> Portfolio {
    Portfolio {
        currency: currency.to_string(),
        assets,
        total_value: Decimal::from_int(total),
        free_assets: Decimal::from_int(free),
        min_free_assets: Decimal::from_int(reserve),
    }
}

#[test]
fn end_to_end_single_stock_report() {
    let p = portfolio("USD", 10000, 500, 500, vec![stock("Stock A", 10, 9000, 10000, 10, 12)]);
    let lines = render_portfolio(&p);
    assert_eq!(lines.len(), 4);

    let line = &lines[0];
    assert!(line.starts_with(&format!("\u{2022} {}Stock A{}", BOLD, RESET)));
    assert!(line.contains(" - 10s "));
    assert!(line.contains("94.7% ($9,000)"));
    assert!(line.contains(&format!("{}+2s ($1,000){}", GREEN, RESET)));
    assert!(line.contains("\u{2192} 105.3% ($10,000)"));
    assert!(line.contains("/ 100.0% ($9,500)"));

    assert_eq!(lines[1], "");
    assert_eq!(lines[2], format!("{}Total value{}: $10,000", BOLD, RESET));
    assert_eq!(lines[3], format!("{}Free assets{}: $500", BOLD, RESET));
}

#[test]
fn group_with_equal_values_shows_no_arrow_or_change() {
    let p = portfolio(
        "USD",
        1000,
        0,
        0,
        vec![group("Bonds", 10, 1000, 1000, vec![stock("Bond A", 10, 1000, 1000, 5, 5)])],
    );
    let lines = render_portfolio(&p);
    assert!(!lines[0].contains('\u{2192}'));
    assert!(!lines[0].contains(GREEN));
    assert!(!lines[0].contains(RED));
    assert!(lines[0].ends_with(':'));
}

#[test]
fn group_with_differing_values_shows_arrow_but_no_share_change() {
    let p = portfolio(
        "USD",
        1000,
        0,
        0,
        vec![group("Bonds", 10, 800, 1000, vec![stock("Bond A", 10, 800, 1000, 8, 10)])],
    );
    let lines = render_portfolio(&p);
    let group_line = &lines[0];
    assert!(group_line.contains("\u{2192} 100.0% ($1,000)"));
    assert!(!group_line.contains(GREEN));
    assert!(!group_line.contains(RED));
    let stock_line = &lines[1];
    assert!(stock_line.contains(&format!("{}+2s ($200){}", GREEN, RESET)));
}

#[test]
fn selling_shares_is_shown_in_red() {
    let p = portfolio("USD", 1000, 0, 0, vec![stock("Stock A", 10, 600, 300, 6, 3)]);
    let lines = render_portfolio(&p);
    assert!(lines[0].contains(&format!("{}-3s ($300){}", RED, RESET)));
    assert!(!lines[0].contains(GREEN));
}

#[test]
fn indentation_grows_two_spaces_per_level() {
    let p = portfolio(
        "USD",
        1000,
        0,
        0,
        vec![group(
            "World",
            10,
            1000,
            1000,
            vec![group("Europe", 5, 500, 500, vec![stock("Stock E", 10, 500, 500, 5, 5)])],
        )],
    );
    let lines = render_portfolio(&p);
    assert!(lines[0].starts_with("\u{2022} "));
    assert!(lines[1].starts_with("  \u{2022} "));
    assert!(lines[2].starts_with("    \u{2022} "));
}

#[test]
fn restriction_markers_are_shown_in_blue() {
    let mut asset = stock("Stock A", 10, 100, 100, 1, 1);
    asset.buy_blocked = true;
    asset.sell_blocked = true;
    let p = portfolio("USD", 100, 0, 0, vec![asset]);
    let lines = render_portfolio(&p);
    assert!(lines[0].contains(&format!("{}[buy blocked]{}", BLUE, RESET)));
    assert!(lines[0].contains(&format!("{}[sell blocked]{}", BLUE, RESET)));
}

#[test]
fn zero_expected_value_renders_infinite_weight() {
    // The whole portfolio is held back as reserve, so the denominator is zero.
    let p = portfolio("USD", 500, 500, 500, vec![stock("Stock A", 10, 100, 100, 1, 1)]);
    let lines = render_portfolio(&p);
    assert!(lines[0].contains("\u{221e} ($100)"));
}

#[test]
fn empty_portfolio_renders_only_summary() {
    let p = portfolio("RUB", 1500, 1500, 0, vec![]);
    let lines = render_portfolio(&p);
    assert_eq!(lines.len(), 3);
    assert_eq!(lines[0], "");
    assert_eq!(lines[1], format!("{}Total value{}: 1,500\u{20bd}", BOLD, RESET));
    assert_eq!(lines[2], format!("{}Free assets{}: 1,500\u{20bd}", BOLD, RESET));
}
