use marketdata::sma::simple_moving_average;

// Prices are scaled fixed-point: 100.0 is stored as 1_000_000.
fn scaled(prices: &[f64]) -> Vec<i64> {
    prices.iter().map(|p| (p * 10000.0).round() as i64).collect()
}

#[test]
fn sma_of_sample_series_period_3() {
    let prices = scaled(&[100.0, 101.5, 102.0, 103.0, 104.5]);
    let (sum, period) = simple_moving_average(&prices, 3).expect("enough history");
    assert_eq!(sum, 1_020_000 + 1_030_000 + 1_045_000);
    assert_eq!(period, 3);
    let mean = sum as f64 / (period as f64 * 10000.0);
    assert_eq!(mean, (102.0 + 103.0 + 104.5) / 3.0);
}

#[test]
fn sma_absent_when_series_shorter_than_period() {
    let prices = scaled(&[100.0, 101.5, 102.0, 103.0, 104.5]);
    assert_eq!(simple_moving_average(&prices, 10), None);
}

#[test]
fn sma_period_one_is_last_price() {
    let prices = scaled(&[100.0, 101.5, 102.0]);
    let (sum, period) = simple_moving_average(&prices, 1).unwrap();
    assert_eq!(sum, 1_020_000);
    assert_eq!(period, 1);
}

#[test]
fn sma_period_equal_to_length_uses_whole_series() {
    let prices = vec![10_000i64, 20_000, 30_000];
    let (sum, period) = simple_moving_average(&prices, 3).unwrap();
    assert_eq!(sum, 60_000);
    assert_eq!(period, 3);
}

#[test]
fn sma_of_empty_series_is_absent() {
    let prices: Vec<i64> = Vec::new();
    assert_eq!(simple_moving_average(&prices, 1), None);
}

#[test]
fn sma_handles_negative_prices() {
    let prices = vec![-10_000i64, 10_000, -10_000, 30_000];
    let (sum, period) = simple_moving_average(&prices, 2).unwrap();
    assert_eq!(sum, 20_000);
    assert_eq!(period, 2);
}
