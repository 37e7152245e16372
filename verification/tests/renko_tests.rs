use algorithms::renko::{renko, RenkoCandle, RenkoDirection};
use algorithms::candle::PRICE_LIMIT;

#[test]
fn test_open() {
    let candle = RenkoCandle {
        level: 5,
        size: 2,
        direction: RenkoDirection::Up,
    };
    assert_eq!(candle.open(), 10);
}

#[test]
fn test_close() {
    let candle = RenkoCandle {
        level: 5,
        size: 2,
        direction: RenkoDirection::Up,
    };
    assert_eq!(candle.close(), 12);
    let candle = RenkoCandle {
        level: 5,
        size: 2,
        direction: RenkoDirection::Down,
    };
    assert_eq!(candle.close(), 8);
}

#[test]
fn test_high() {
    let candle = RenkoCandle {
        level: 5,
        size: 2,
        direction: RenkoDirection::Up,
    };
    assert_eq!(candle.high(), 12);
    let candle = RenkoCandle {
        level: 5,
        size: 2,
        direction: RenkoDirection::Down,
    };
    assert_eq!(candle.high(), 10);
}

#[test]
fn test_low() {
    let candle = RenkoCandle {
        level: 5,
        size: 2,
        direction: RenkoDirection::Up,
    };
    assert_eq!(candle.low(), 10);
    let candle = RenkoCandle {
        level: 5,
        size: 2,
        direction: RenkoDirection::Down,
    };
    assert_eq!(candle.low(), 8);
}

#[test]
fn test_renko_candles() {
    // The original run expressed in thousandths, so every price is an
    // integer while the level arithmetic stays the same.
    let prices: Vec<i64> = vec![
        10000, 15000, 12000, 17000, 13000, 13500, 13999, 12000, 12100, 11000, 10000, 11999, 11200,
    ];
    let expected = vec![
        // 10 -> 15
        RenkoCandle {
            level: 5,
            size: 2000,
            direction: RenkoDirection::Up,
        },
        RenkoCandle {
            level: 6,
            size: 2000,
            direction: RenkoDirection::Up,
        },
        RenkoCandle {
            level: 7,
            size: 2000,
            direction: RenkoDirection::Up,
        },
        RenkoCandle {
            level: 7,
            size: 2000,
            direction: RenkoDirection::Down,
        },
        // 13 - 11
        RenkoCandle {
            level: 6,
            size: 2000,
            direction: RenkoDirection::Down,
        },
        // All the rest ignored
    ];
    let got = renko(&prices, 2000);
    assert_eq!(expected, got);
}

#[test]
fn monotone_run_emits_consecutive_up_bricks() {
    // A price run rising through four full brick sizes: one Up brick per
    // level, levels increasing by one each time.
    let prices: Vec<i64> = vec![10, 12, 14, 16, 18];
    let got = renko(&prices, 2);
    let expected: Vec<RenkoCandle> = (5..9)
        .map(|level| RenkoCandle {
            level,
            size: 2,
            direction: RenkoDirection::Up,
        })
        .collect();
    assert_eq!(expected, got);
}

#[test]
fn single_reversal_is_swallowed() {
    // One down-step inside an up-run never shows in the output.
    let prices: Vec<i64> = vec![0, 4, 2, 8];
    let got = renko(&prices, 2);
    // The climb to level 2 emits bricks at levels 0 and 1; the lone
    // down-step back toward level 1 is swallowed, and so is the first
    // up-step of the resumed climb, which then emits levels 2 and 3.
    let expected: Vec<RenkoCandle> = (0..4)
        .map(|level| RenkoCandle {
            level,
            size: 2,
            direction: RenkoDirection::Up,
        })
        .collect();
    assert_eq!(expected, got);
}

#[test]
fn extreme_prices_reach_their_levels() {
    let prices: Vec<i64> = vec![PRICE_LIMIT - 2, PRICE_LIMIT];
    let got = renko(&prices, 1);
    assert_eq!(
        got,
        vec![
            RenkoCandle {
                level: PRICE_LIMIT - 2,
                size: 1,
                direction: RenkoDirection::Up,
            },
            RenkoCandle {
                level: PRICE_LIMIT - 1,
                size: 1,
                direction: RenkoDirection::Up,
            },
        ]
    );
}

#[test]
fn repeated_prices_emit_nothing() {
    let prices: Vec<i64> = vec![10, 10, 10, 10];
    let got = renko(&prices, 2);
    assert_eq!(got, vec![]);
}
