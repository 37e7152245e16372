use algorithms::higher_high_lower_low::high_low_swing;
use algorithms::pivot_high_low::Pivot;
use algorithms::strategy::{renko_support_resistance, should_buy};
use algorithms::support_resistance::{support_and_resistance, SupportAndResistance};

#[test]
fn end_to_end_pivots_to_lines() {
    // Pivots through two highs and two lows end on the latest of each:
    // support from the last low, resistance from the last high.
    let pivots = vec![
        Pivot::NoChange,
        Pivot::High(100),
        Pivot::NoChange,
        Pivot::Low(90),
        Pivot::NoChange,
        Pivot::High(120),
        Pivot::NoChange,
        Pivot::Low(80),
    ];
    let statuses = high_low_swing(&pivots);
    let got = support_and_resistance(&statuses);
    assert_eq!(got.support, Some(80));
    assert_eq!(got.resistance, Some(120));
}

#[test]
fn empty_status_sequence_has_no_lines() {
    let got = support_and_resistance(&vec![]);
    assert_eq!(got.support, None);
    assert_eq!(got.resistance, None);
}

#[test]
fn default_snapshot_has_no_lines() {
    let got = SupportAndResistance::default();
    assert_eq!(got.support, None);
    assert_eq!(got.resistance, None);
}

#[test]
fn pipeline_finds_resistance_over_bricks() {
    // Levels 0 -> 5 -> 2 -> 6 -> 1 with bricks of one price unit: the
    // first peak seeds the classifier, the second peak's pivot high at
    // a brick high of 6 becomes the resistance line, and no support line
    // is ever established because only one pivot low appears.
    let prices: Vec<i64> = vec![0, 5, 2, 6, 1];
    let got = renko_support_resistance(&prices, 1, 3);
    assert_eq!(got.support, None);
    assert_eq!(got.resistance, Some(6));
}

#[test]
fn pipeline_with_too_few_bricks_has_no_lines() {
    let prices: Vec<i64> = vec![10, 15, 12, 17, 13];
    // brick size 2 yields five bricks, fewer than a window of six
    let got = renko_support_resistance(&prices, 2, 6);
    assert_eq!(got.support, None);
    assert_eq!(got.resistance, None);
}

#[test]
fn buy_only_inside_one_atr_above_resistance() {
    // Breakout by less than one ATR: buy.
    assert!(should_buy(105, 100, 10));
    // At or below resistance: no trade.
    assert!(!should_buy(100, 100, 10));
    assert!(!should_buy(95, 100, 10));
    // Too far above resistance: the move is already gone.
    assert!(!should_buy(110, 100, 10));
    assert!(!should_buy(115, 100, 10));
}
