use algorithms::atr::{atr, average};
use algorithms::candle::Candle;
use algorithms::true_range::true_ranges;

fn test_data_1() -> Vec<Candle> {
    // high, low, open, close
    vec![
        Candle::new(10, 5, 8, 7),  // hl=5 hpc=None lpc=None tr=5
        Candle::new(12, 6, 9, 8),  // hl=6 hpc=5 lpc=1 tr=6
        Candle::new(8, 4, 7, 6),   // hl=4 hpc=0 lpc=2 tr=4
        Candle::new(9, 5, 8, 7),   // hl=4 hpc=3 lpc=1 tr=4
        Candle::new(11, 6, 9, 8),  // hl=5 hpc=4 lpc=2 tr=5
        Candle::new(7, 3, 6, 5),   // hl=5 hpc=1 lpc=2 tr=5
        Candle::new(8, 4, 7, 6),   // hl=4 hpc=4 lpc=1 tr=4
        Candle::new(10, 5, 8, 7),  // hl=5 hpc=4 lpc=1 tr=5
        Candle::new(12, 6, 9, 8),  // hl=6 hpc=5 lpc=1 tr=6
    ]
}

fn test_data_2() -> Vec<Candle> {
    vec![
        Candle::new(20, 10, 15, 12),
        Candle::new(15, 8, 12, 10),
        Candle::new(12, 6, 9, 8),
        Candle::new(18, 11, 14, 13),
        Candle::new(10, 5, 8, 7),
        Candle::new(14, 7, 11, 9),
        Candle::new(16, 9, 13, 11),
        Candle::new(13, 6, 10, 8),
        Candle::new(11, 4, 8, 7),
        Candle::new(19, 12, 16, 14),
    ]
}

fn test_data_3() -> Vec<Candle> {
    vec![
        Candle::new(11, 7, 8, 9),
        Candle::new(8, 5, 6, 7),
        Candle::new(9, 6, 7, 8),
        Candle::new(12, 8, 9, 10),
        Candle::new(10, 7, 8, 9),
        Candle::new(8, 5, 6, 7),
        Candle::new(9, 6, 7, 8),
        Candle::new(12, 8, 9, 10),
        Candle::new(11, 7, 8, 9),
        Candle::new(8, 5, 6, 7),
        Candle::new(9, 6, 7, 8),
        Candle::new(12, 8, 9, 10),
    ]
}

fn as_f32(sum: i128, count: usize) -> f32 {
    sum as f32 / count as f32
}

#[test]
fn test_average_non_empty() {
    let values: Vec<i64> = vec![1, 2, 3, 4, 5];
    let mean = average(&values).unwrap();
    assert_eq!(as_f32(mean.sum, mean.count), 3.0);
}

#[test]
fn test_average_empty() {
    let values: Vec<i64> = vec![];
    assert!(average(&values).is_none());
}

#[test]
fn test_atr_1() {
    // The first candle only seeds the previous close, so nine candles
    // yield eight true ranges.
    let candles = test_data_1();
    assert_eq!(vec![6, 4, 4, 5, 5, 4, 5, 6], true_ranges(&candles));
    let mean = atr(&candles).unwrap();
    assert_eq!(mean.sum, 39);
    assert_eq!(mean.count, 8);
    assert_eq!(as_f32(mean.sum, mean.count), 4.875);
}

#[test]
fn test_atr_2() {
    let candles = test_data_2();
    assert_eq!(vec![7, 6, 10, 8, 7, 7, 7, 7, 12], true_ranges(&candles));
    let mean = atr(&candles).unwrap();
    assert_eq!(mean.sum, 71);
    assert_eq!(mean.count, 9);
}

#[test]
fn test_atr_3() {
    let candles = test_data_3();
    assert_eq!(
        vec![4, 3, 4, 3, 4, 3, 4, 4, 4, 3, 4],
        true_ranges(&candles)
    );
    let mean = atr(&candles).unwrap();
    assert_eq!(mean.sum, 40);
    assert_eq!(mean.count, 11);
}

#[test]
fn test_atr_empty() {
    let candles: Vec<Candle> = vec![];
    assert!(atr(&candles).is_none());
}

#[test]
fn average_is_order_invariant() {
    // The mean only depends on which values went in, not their order.
    let a: Vec<i64> = vec![5, 1, 3, 3, 9];
    let b: Vec<i64> = vec![9, 3, 5, 3, 1];
    let ma = average(&a).unwrap();
    let mb = average(&b).unwrap();
    assert_eq!(ma.sum, mb.sum);
    assert_eq!(ma.count, mb.count);
}
