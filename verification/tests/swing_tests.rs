use algorithms::higher_high_lower_low::{high_low_swing, SwingStatus, SwingStatusIter, SwingType};
use algorithms::pivot_high_low::Pivot;

#[test]
fn high_low_swing_iter() {
    let pivots = vec![
        Pivot::NoChange,
        Pivot::High(100),
        Pivot::NoChange,
        Pivot::Low(90),
        Pivot::NoChange,
        Pivot::High(120),
        Pivot::NoChange,
        Pivot::Low(80),
        Pivot::NoChange,
        Pivot::Low(70),
        Pivot::High(110),
        Pivot::Low(60),
        Pivot::High(140),
        Pivot::Low(50),
        Pivot::High(130),
        Pivot::NoChange,
        Pivot::NoChange,
        Pivot::NoChange,
    ];

    let got = high_low_swing(&pivots);

    let expected = vec![
        // Pivot::NoChange
        SwingStatus {
            swing_type: SwingType::Hold,
            support: None,
            resistance: None,
        },
        // Pivot::High(100)
        SwingStatus {
            swing_type: SwingType::Hold,
            support: None,
            resistance: None,
        },
        // Pivot::NoChange
        SwingStatus {
            swing_type: SwingType::Hold,
            support: None,
            resistance: None,
        },
        // Pivot::Low(90)
        SwingStatus {
            swing_type: SwingType::Hold,
            support: None,
            resistance: None,
        },
        // Pivot::NoChange
        SwingStatus {
            swing_type: SwingType::Hold,
            support: None,
            resistance: None,
        },
        // Pivot::High(120), a higher high sets a resistance line
        SwingStatus {
            swing_type: SwingType::HigherHigh,
            support: None,
            resistance: Some(120),
        },
        // Pivot::NoChange
        SwingStatus {
            swing_type: SwingType::Hold,
            support: None,
            resistance: Some(120),
        },
        // Pivot::Low(80), a lower low sets the support line
        SwingStatus {
            swing_type: SwingType::LowerLow,
            support: Some(80),
            resistance: Some(120),
        },
        // Pivot::NoChange
        SwingStatus {
            swing_type: SwingType::Hold,
            support: Some(80),
            resistance: Some(120),
        },
        // Pivot::Low(70)
        SwingStatus {
            swing_type: SwingType::LowerLow,
            support: Some(70),
            resistance: Some(120),
        },
        // Pivot::High(110)
        SwingStatus {
            swing_type: SwingType::LowerHigh,
            support: Some(70),
            resistance: Some(110),
        },
        // Pivot::Low(60)
        SwingStatus {
            swing_type: SwingType::LowerLow,
            support: Some(60),
            resistance: Some(110),
        },
        // Pivot::High(140)
        SwingStatus {
            swing_type: SwingType::HigherHigh,
            support: Some(60),
            resistance: Some(140),
        },
        // Pivot::Low(50)
        SwingStatus {
            swing_type: SwingType::LowerLow,
            support: Some(50),
            resistance: Some(140),
        },
        // Pivot::High(130)
        SwingStatus {
            swing_type: SwingType::LowerHigh,
            support: Some(50),
            resistance: Some(130),
        },
        // Pivot::NoChange
        SwingStatus {
            swing_type: SwingType::Hold,
            support: Some(50),
            resistance: Some(130),
        },
        // Pivot::NoChange
        SwingStatus {
            swing_type: SwingType::Hold,
            support: Some(50),
            resistance: Some(130),
        },
        // Pivot::NoChange
        SwingStatus {
            swing_type: SwingType::Hold,
            support: Some(50),
            resistance: Some(130),
        },
    ];

    assert_eq!(got, expected);
}

fn create_swing_status_iter() -> SwingStatusIter {
    SwingStatusIter::new()
}

#[test]
fn check_hh_test() {
    let mut ssi = create_swing_status_iter();
    let pivot = Pivot::High(110);
    // With no previous it should return None
    assert_eq!(ssi.check_hh(&pivot), None);
    // Positive case
    ssi.prev_high = Some(100);
    assert_eq!(ssi.check_hh(&pivot), Some(SwingType::HigherHigh));
    // Other negative case
    let pivot = Pivot::High(90);
    assert_eq!(ssi.check_hh(&pivot), None);
}

#[test]
fn check_lh_test() {
    let mut ssi = create_swing_status_iter();
    let pivot = Pivot::High(90);
    // With no previous it should return None
    assert_eq!(ssi.check_lh(&pivot), None);
    // Positive case
    ssi.prev_high = Some(100);
    assert_eq!(ssi.check_lh(&pivot), Some(SwingType::LowerHigh));
    // Other negative case
    let pivot = Pivot::High(110);
    assert_eq!(ssi.check_lh(&pivot), None);
}

#[test]
fn check_ll_test() {
    let mut ssi = create_swing_status_iter();
    let pivot = Pivot::Low(80);
    // With no previous it should return None
    assert_eq!(ssi.check_ll(&pivot), None);
    // Positive case
    ssi.prev_low = Some(90);
    assert_eq!(ssi.check_ll(&pivot), Some(SwingType::LowerLow));
    // Other negative case
    let pivot = Pivot::Low(100);
    assert_eq!(ssi.check_ll(&pivot), None);
}

#[test]
fn check_hl_test() {
    let mut ssi = create_swing_status_iter();
    let pivot = Pivot::Low(100);
    // With no previous it should return None
    assert_eq!(ssi.check_hl(&pivot), None);
    // Positive case
    ssi.prev_low = Some(90);
    assert_eq!(ssi.check_hl(&pivot), Some(SwingType::HigherLow));
    // Other negative case
    let pivot = Pivot::Low(80);
    assert_eq!(ssi.check_hl(&pivot), None);
}

#[test]
fn check_hhhl_test() {
    let mut ssi = create_swing_status_iter();
    let pivot = Pivot::HighLow { high: 110, low: 95 };
    // With all previous values at None, it should return None
    assert_eq!(ssi.check_hhhl(&pivot), None);
    ssi.prev_high = Some(100);
    // With one previous value at None, it should return None
    assert_eq!(ssi.check_hhhl(&pivot), None);
    // With both set accordingly it should return Some
    ssi.prev_low = Some(90);
    assert_eq!(
        ssi.check_hhhl(&pivot),
        Some(SwingType::HigherHighAndHigherLow)
    );
    // With incorrect values it should go back to None
    let pivot = Pivot::HighLow { high: 90, low: 100 };
    assert_eq!(ssi.check_hhhl(&pivot), None);
}

#[test]
fn check_lhhl_test() {
    let mut ssi = create_swing_status_iter();
    let pivot = Pivot::HighLow { high: 95, low: 95 };
    // With all previous values at None, it should return None
    assert_eq!(ssi.check_lhhl(&pivot), None);
    ssi.prev_high = Some(100);
    // With one previous value at None, it should return None
    assert_eq!(ssi.check_lhhl(&pivot), None);
    // With both set accordingly it should return Some
    ssi.prev_low = Some(90);
    assert_eq!(
        ssi.check_lhhl(&pivot),
        Some(SwingType::LowerHighAndHigherLow)
    );
    // With incorrect values it should go back to None
    let pivot = Pivot::HighLow {
        high: 110,
        low: 100,
    };
    assert_eq!(ssi.check_lhhl(&pivot), None);
}

#[test]
fn check_lhll_test() {
    let mut ssi = create_swing_status_iter();
    let pivot = Pivot::HighLow { high: 95, low: 85 };
    // With all previous values at None, it should return None
    assert_eq!(ssi.check_lhll(&pivot), None);
    ssi.prev_high = Some(100);
    // With one previous value at None, it should return None
    assert_eq!(ssi.check_lhll(&pivot), None);
    // With both set accordingly it should return Some
    ssi.prev_low = Some(90);
    assert_eq!(
        ssi.check_lhll(&pivot),
        Some(SwingType::LowerHighAndLowerLow)
    );
    // With incorrect values it should go back to None
    let pivot = Pivot::HighLow {
        high: 110,
        low: 100,
    };
    assert_eq!(ssi.check_lhll(&pivot), None);
}

#[test]
fn check_hhll_test() {
    let mut ssi = create_swing_status_iter();
    // With all previous values at None, it should return None
    let pivot = Pivot::HighLow { high: 110, low: 80 };
    assert_eq!(ssi.check_hhll(&pivot), None);
    ssi.prev_high = Some(100);
    // With one previous value at None, it should return None
    assert_eq!(ssi.check_hhll(&pivot), None);
    // With both set accordingly it should return Some
    ssi.prev_low = Some(90);
    let pivot = Pivot::HighLow { high: 110, low: 80 };
    assert_eq!(
        ssi.check_hhll(&pivot),
        Some(SwingType::HigherHighAndLowerLow)
    );
    // With incorrect values it should go back to None
    let pivot = Pivot::HighLow { high: 90, low: 100 };
    assert_eq!(ssi.check_hhll(&pivot), None);
}

#[test]
fn tall_candle_with_only_a_remembered_high() {
    // A tall candle whose low is the first low ever seen: only its high
    // side has something to compare against, so it classifies as a plain
    // higher high; the low merely seeds the low memory without setting
    // support.
    let pivots = vec![Pivot::High(100), Pivot::HighLow { high: 110, low: 90 }];
    let got = high_low_swing(&pivots);
    assert_eq!(
        got[1],
        SwingStatus {
            swing_type: SwingType::HigherHigh,
            support: None,
            resistance: Some(110),
        }
    );
}

#[test]
fn rising_highs_hold_then_higher_highs() {
    // A strictly rising run of pivot highs: the first only seeds the
    // classifier; each later one is a higher high that moves the
    // resistance line, and support never appears.
    let pivots = vec![Pivot::High(100), Pivot::High(110), Pivot::High(125)];
    let got = high_low_swing(&pivots);
    let expected = vec![
        SwingStatus {
            swing_type: SwingType::Hold,
            support: None,
            resistance: None,
        },
        SwingStatus {
            swing_type: SwingType::HigherHigh,
            support: None,
            resistance: Some(110),
        },
        SwingStatus {
            swing_type: SwingType::HigherHigh,
            support: None,
            resistance: Some(125),
        },
    ];
    assert_eq!(got, expected);
}
