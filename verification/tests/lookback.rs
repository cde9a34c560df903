use kand::ohlcv::{
    ad, adosc, adr, adx, aroon, aroonosc, atr, bbands, bop, cci, cdl_doji, cdl_dragonfly_doji,
    cdl_gravestone_doji, cdl_hammer, cdl_inverted_hammer, cdl_long_shadow, dema, dx, ecl, ema,
    macd, medprice, mfi, midpoint, midprice, minus_di, minus_dm, mom, natr, obv, plus_dm, rma,
    roc, rocp, rocr, rocr100, rsi, sma, supertrend,
};
use kand::types::MAType;
use kand::KandError;

#[test]
fn lookback_documented_values() {
    assert_eq!(ad::lookback().unwrap(), 0);
    assert_eq!(adosc::lookback(3, 10, MAType::EMA).unwrap(), 9);
    assert_eq!(adr::lookback(14).unwrap(), 13);
    assert_eq!(adx::lookback(14).unwrap(), 27);
    assert_eq!(aroon::lookback(14).unwrap(), 14);
    assert_eq!(aroonosc::lookback(14).unwrap(), 14);
    assert_eq!(atr::lookback(14).unwrap(), 14);
    assert_eq!(bbands::lookback(20).unwrap(), 19);
    assert_eq!(bop::lookback().unwrap(), 0);
    assert_eq!(cci::lookback(14).unwrap(), 13);
    assert_eq!(cdl_doji::lookback().unwrap(), 0);
    assert_eq!(cdl_dragonfly_doji::lookback().unwrap(), 0);
    assert_eq!(cdl_gravestone_doji::lookback().unwrap(), 0);
    assert_eq!(cdl_hammer::lookback(14).unwrap(), 13);
    assert_eq!(cdl_inverted_hammer::lookback(14).unwrap(), 13);
    assert_eq!(cdl_long_shadow::lookback(14).unwrap(), 13);
    assert_eq!(dema::lookback(5).unwrap(), 8);
    assert_eq!(dx::lookback(14).unwrap(), 14);
    assert_eq!(ecl::lookback().unwrap(), 1);
    assert_eq!(ema::lookback(14).unwrap(), 13);
    assert_eq!(macd::lookback(12, 26, 9).unwrap(), 33);
    assert_eq!(medprice::lookback().unwrap(), 0);
    assert_eq!(mfi::lookback(14).unwrap(), 14);
    assert_eq!(midpoint::lookback(14).unwrap(), 13);
    assert_eq!(midprice::lookback(14).unwrap(), 13);
    assert_eq!(minus_di::lookback(14).unwrap(), 14);
    assert_eq!(minus_dm::lookback(14).unwrap(), 13);
    assert_eq!(mom::lookback(14).unwrap(), 14);
    assert_eq!(natr::lookback(14).unwrap(), 14);
    assert_eq!(obv::lookback().unwrap(), 0);
    assert_eq!(plus_dm::lookback(14).unwrap(), 13);
    assert_eq!(rma::lookback(14).unwrap(), 13);
    assert_eq!(roc::lookback(10).unwrap(), 10);
    assert_eq!(rocp::lookback(10).unwrap(), 10);
    assert_eq!(rocr::lookback(10).unwrap(), 10);
    assert_eq!(rocr100::lookback(10).unwrap(), 10);
    assert_eq!(rsi::lookback(14).unwrap(), 14);
    assert_eq!(sma::lookback(3).unwrap(), 2);
    assert_eq!(supertrend::lookback(10).unwrap(), 10);
}

#[test]
fn lookback_raw_values() {
    assert_eq!(ad::lookback_raw(), 0);
    assert_eq!(adosc::lookback_raw(3, 10, MAType::EMA), 9);
    assert_eq!(adr::lookback_raw(14), 13);
    assert_eq!(atr::lookback_raw(14), 14);
    assert_eq!(ecl::lookback_raw(), 1);
    assert_eq!(ema::lookback_raw(14), 13);
    assert_eq!(medprice::lookback_raw(), 0);
    assert_eq!(midpoint::lookback_raw(14), 13);
    assert_eq!(midprice::lookback_raw(14), 13);
    assert_eq!(mom::lookback_raw(5), 5);
    assert_eq!(natr::lookback_raw(14), 14);
    assert_eq!(rma::lookback_raw(14), 13);
    assert_eq!(roc::lookback_raw(5), 5);
    assert_eq!(rocp::lookback_raw(5), 5);
    assert_eq!(rocr::lookback_raw(5), 5);
    assert_eq!(rocr100::lookback_raw(5), 5);
    assert_eq!(supertrend::lookback_raw(7), 7);
}

#[test]
fn lookback_rejects_short_periods() {
    let e = Err(KandError::InvalidParameter);
    assert_eq!(adr::lookback(1), e);
    assert_eq!(adx::lookback(1), e);
    assert_eq!(aroon::lookback(0), e);
    assert_eq!(atr::lookback(1), e);
    assert_eq!(bbands::lookback(1), e);
    assert_eq!(cci::lookback(1), e);
    assert_eq!(cdl_hammer::lookback(1), e);
    assert_eq!(dema::lookback(1), e);
    assert_eq!(ema::lookback(1), e);
    assert_eq!(mfi::lookback(1), e);
    assert_eq!(rsi::lookback(1), e);
    assert_eq!(sma::lookback(1), e);
    assert_eq!(supertrend::lookback(1), e);
    assert_eq!(rocr::lookback(1), e);
    // Momentum and rate of change accept a period of one bar.
    assert_eq!(mom::lookback(0), e);
    assert_eq!(mom::lookback(1), Ok(1));
    assert_eq!(roc::lookback(0), e);
    assert_eq!(roc::lookback(1), Ok(1));
    assert_eq!(rocp::lookback(1), Ok(1));
}

#[test]
fn lookback_rejects_bad_period_pairs() {
    let e = Err(KandError::InvalidParameter);
    assert_eq!(adosc::lookback(10, 10, MAType::EMA), e);
    assert_eq!(adosc::lookback(11, 10, MAType::SMA), e);
    assert_eq!(adosc::lookback(1, 10, MAType::EMA), e);
    assert_eq!(macd::lookback(26, 12, 9), e);
    assert_eq!(macd::lookback(12, 12, 9), e);
    assert_eq!(macd::lookback(0, 26, 9), e);
    assert_eq!(macd::lookback(12, 0, 9), e);
    assert_eq!(macd::lookback(12, 26, 0), e);
    // A period of 1 is a valid period: its EMA has no warm-up.
    assert_eq!(macd::lookback(12, 26, 1), Ok(25));
    assert_eq!(macd::lookback(1, 26, 9), Ok(33));
    assert_eq!(macd::lookback(1, 3, 2), Ok(3));
    assert_eq!(macd::lookback(2, 3, 2), Ok(3));
}

#[test]
fn lookback_relations_between_indicators() {
    for p in 2..50usize {
        assert_eq!(bbands::lookback(p), sma::lookback(p));
        assert_eq!(supertrend::lookback(p), atr::lookback(p));
        assert_eq!(dema::lookback(p).unwrap(), 2 * ema::lookback(p).unwrap());
        assert_eq!(adx::lookback(p).unwrap(), 2 * p - 1);
        for s in (p + 1)..(p + 5) {
            assert_eq!(
                macd::lookback(p, s, 9).unwrap(),
                ema::lookback(s).unwrap() + ema::lookback(9).unwrap()
            );
        }
    }
}
