use kand::helper::{check_bars_window, check_k_period, check_series, check_series_lengths_first};
use kand::ohlcv::{
    ad, adosc, cdl_doji, cdl_hammer, cdl_inverted_hammer, ecl, ema, macd, mfi, mom, sma,
};
use kand::types::MAType;
use kand::KandError;

#[test]
fn series_checks_in_their_order() {
    assert_eq!(check_series(0, &[0], 2), Err(KandError::InvalidData));
    assert_eq!(check_series(2, &[3], 2), Err(KandError::InsufficientData));
    assert_eq!(check_series(5, &[5, 4], 2), Err(KandError::LengthMismatch));
    assert_eq!(check_series(5, &[5, 5], 2), Ok(2));
    assert_eq!(check_series_lengths_first(2, &[3], 2), Err(KandError::LengthMismatch));
    assert_eq!(check_series_lengths_first(2, &[2], 2), Err(KandError::InsufficientData));
    assert_eq!(check_series_lengths_first(3, &[3], 2), Ok(2));
}

#[test]
fn sma_validation() {
    assert_eq!(sma::validate(5, &[5], 3), Ok(2));
    assert_eq!(sma::validate(5, &[5], 1), Err(KandError::InvalidParameter));
    assert_eq!(sma::validate(0, &[0], 3), Err(KandError::InvalidData));
    assert_eq!(sma::validate(2, &[3], 3), Err(KandError::LengthMismatch));
    assert_eq!(sma::validate(2, &[2], 3), Err(KandError::InsufficientData));
    assert_eq!(sma::validate_inc(3), Ok(()));
    assert_eq!(sma::validate_inc(1), Err(KandError::InvalidParameter));
}

#[test]
fn ema_validation() {
    assert_eq!(ema::validate(10, &[10], 3), Ok(2));
    assert_eq!(ema::validate(2, &[3], 3), Err(KandError::InsufficientData));
    assert_eq!(ema::validate(4, &[3], 3), Err(KandError::LengthMismatch));
    assert_eq!(ema::validate_inc(0), Err(KandError::InvalidParameter));
}

#[test]
fn macd_validation_needs_a_full_signal_period() {
    // Lookback of (2, 3, 2) is 3; four prices pass the data check but leave only one
    // price after the slow period, fewer than the signal period.
    assert_eq!(macd::validate(4, &[4, 4, 4], 2, 3, 2), Err(KandError::InsufficientData));
    assert_eq!(macd::validate(5, &[5, 5, 5], 2, 3, 2), Ok(3));
    assert_eq!(macd::validate(3, &[3, 3, 3], 2, 3, 2), Err(KandError::InsufficientData));
    assert_eq!(macd::validate(5, &[5, 4, 5], 2, 3, 2), Err(KandError::LengthMismatch));
    assert_eq!(macd::validate(0, &[0, 0, 0], 2, 3, 2), Err(KandError::InvalidData));
    assert_eq!(macd::validate(7, &[7, 7, 7], 3, 3, 2), Err(KandError::InvalidParameter));
    assert_eq!(macd::validate_inc(12, 26, 9), Ok(()));
    assert_eq!(macd::validate_inc(26, 12, 9), Err(KandError::InvalidParameter));
    assert_eq!(macd::validate_inc(1, 2, 1), Ok(()));
    assert_eq!(macd::validate_inc(0, 26, 9), Err(KandError::InvalidParameter));
    assert_eq!(macd::validate_inc(12, 26, 0), Err(KandError::InvalidParameter));
    assert_eq!(macd::validate(5, &[5, 5, 5], 1, 3, 2), Ok(3));
}

#[test]
fn candle_validation() {
    // Doji checks lengths before the percentages and accepts empty series.
    assert_eq!(cdl_doji::validate(0, &[0, 0, 0, 0], true), Ok(0));
    assert_eq!(cdl_doji::validate(3, &[3, 2, 3, 3], false), Err(KandError::LengthMismatch));
    assert_eq!(cdl_doji::validate(3, &[3, 3, 3, 3], false), Err(KandError::InvalidParameter));
    assert_eq!(cdl_doji::validate_inc(false), Err(KandError::InvalidParameter));
    assert_eq!(cdl_hammer::validate(25, &[25; 5], 14, true), Ok(13));
    assert_eq!(cdl_hammer::validate(25, &[25; 5], 14, false), Err(KandError::InvalidParameter));
    assert_eq!(cdl_hammer::validate(0, &[0; 5], 14, true), Err(KandError::InvalidData));
    assert_eq!(cdl_hammer::validate_inc(1, true), Err(KandError::InvalidParameter));
    // The inverted hammer has no empty-input check: an empty input is too short.
    assert_eq!(cdl_inverted_hammer::validate(0, &[0; 5], 14, true), Err(KandError::InsufficientData));
    assert_eq!(cdl_inverted_hammer::validate(15, &[15, 15, 14, 15, 15], 14, true), Err(KandError::LengthMismatch));
    assert_eq!(cdl_inverted_hammer::validate(15, &[15; 5], 14, false), Err(KandError::InvalidParameter));
    assert_eq!(cdl_inverted_hammer::validate_inc(14, true), Ok(()));
    assert_eq!(cdl_inverted_hammer::validate_inc(1, true), Err(KandError::InvalidParameter));
    assert_eq!(cdl_inverted_hammer::validate_inc(14, false), Err(KandError::InvalidParameter));
}

#[test]
fn other_validation_orders() {
    // MFI only needs as many bars as its lookback.
    assert_eq!(mfi::validate(14, &[14; 8], 14), Ok(14));
    assert_eq!(mfi::validate(13, &[13; 8], 14), Err(KandError::InsufficientData));
    // ECL needs two bars.
    assert_eq!(ecl::validate(1, &[1; 12]), Err(KandError::InvalidData));
    assert_eq!(ecl::validate(5, &[5; 12]), Ok(1));
    assert_eq!(ecl::validate(5, &[5, 5, 5, 5, 5, 5, 5, 5, 5, 5, 5, 4]), Err(KandError::LengthMismatch));
    // A/D has no lookback.
    assert_eq!(ad::validate(1, &[1, 1, 1, 1]), Ok(0));
    assert_eq!(ad::validate(0, &[0, 0, 0, 0]), Err(KandError::InvalidData));
    // MOM checks the output length before the data length.
    assert_eq!(mom::validate(2, &[3], 2), Err(KandError::LengthMismatch));
    assert_eq!(adosc::validate(10, &[10; 4], 3, 10, MAType::EMA), Ok(9));
    assert_eq!(adosc::validate(9, &[9; 4], 3, 10, MAType::EMA), Err(KandError::InsufficientData));
    assert_eq!(adosc::validate_inc(10, 3), Err(KandError::InvalidParameter));
}

#[test]
fn bars_window_checks() {
    // The documented example: array of 5 values, start index 4, window of 3 bars: 2..=4.
    assert_eq!(check_bars_window(5, 4, 3), Ok(2));
    // A window longer than the series is clipped at its start.
    assert_eq!(check_bars_window(5, 1, 3), Ok(0));
    assert_eq!(check_bars_window(0, 0, 1), Err(KandError::InvalidData));
    assert_eq!(check_bars_window(5, 5, 3), Err(KandError::InvalidData));
    assert_eq!(check_bars_window(5, 4, 0), Err(KandError::InvalidData));
    assert_eq!(check_k_period(0), Err(KandError::InvalidParameter));
    assert_eq!(check_k_period(1), Ok(()));
}

#[test]
fn saved_state_needs_a_stream() {
    assert_eq!(kand::helper::check_saved_streams(0), Err(KandError::InvalidData));
    assert_eq!(kand::helper::check_saved_streams(3), Ok(()));
}
