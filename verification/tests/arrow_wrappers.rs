//! The checks that decide the shape of the Arrow wrappers' outputs.
use arrow::array::{Array, Float64Array};
use kand::helper::arrow_macro::check_arrow_inputs;
use kand::ohlcv::{
    cdl_doji, cdl_dragonfly_doji, cdl_gravestone_doji, cdl_hammer, cdl_inverted_hammer,
    cdl_long_shadow, ecl, natr, supertrend,
};
use kand::KandError;

fn shape(arrays: &[&Float64Array]) -> (Vec<usize>, Vec<usize>) {
    (
        arrays.iter().map(|a| a.len()).collect(),
        arrays.iter().map(|a| a.null_count()).collect(),
    )
}

#[test]
fn test_cdl_doji_arrow() {
    let open_arrow = Float64Array::from(vec![10.0, 10.5, 10.2]);
    let high_arrow = Float64Array::from(vec![11.0, 11.2, 10.8]);
    let low_arrow = Float64Array::from(vec![9.8, 10.1, 9.9]);
    let close_arrow = Float64Array::from(vec![10.3, 10.4, 10.25]);

    let (lens, nulls) = shape(&[&open_arrow, &high_arrow, &low_arrow, &close_arrow]);
    let result_len = check_arrow_inputs(&lens, &nulls, cdl_doji::lookback()).unwrap();

    assert_eq!(result_len, 3);
}

#[test]
fn test_cdl_dragonfly_doji_arrow() {
    let open_arrow = Float64Array::from(vec![10.0, 10.5, 11.0]);
    let high_arrow = Float64Array::from(vec![10.1, 10.6, 11.1]);
    let low_arrow = Float64Array::from(vec![8.5, 9.0, 10.5]);
    let close_arrow = Float64Array::from(vec![10.05, 10.55, 11.05]);

    let (lens, nulls) = shape(&[&open_arrow, &high_arrow, &low_arrow, &close_arrow]);
    let result_len = check_arrow_inputs(&lens, &nulls, cdl_dragonfly_doji::lookback()).unwrap();

    assert_eq!(result_len, 3);
}

#[test]
fn test_cdl_gravestone_doji_arrow() {
    let open_arrow = Float64Array::from(vec![100.0, 101.0]);
    let high_arrow = Float64Array::from(vec![102.0, 103.0]);
    let low_arrow = Float64Array::from(vec![99.0, 98.0]);
    let close_arrow = Float64Array::from(vec![99.5, 98.5]);

    let (lens, nulls) = shape(&[&open_arrow, &high_arrow, &low_arrow, &close_arrow]);
    let result_len = check_arrow_inputs(&lens, &nulls, cdl_gravestone_doji::lookback()).unwrap();

    assert_eq!(result_len, 2);
}

#[test]
fn test_cdl_hammer_arrow() {
    let input_open = vec![
        97798.1, 96982.9, 97050.5, 97281.3, 97480.7, 98310.4, 98232.0, 98473.2, 98136.9,
        97912.7, 97759.0, 97516.4, 96913.4, 96738.1, 96999.0, 97472.5, 97368.3, 97140.0,
        97971.6, 97684.9, 96985.2, 97298.6, 97664.5, 97286.7, 97041.2,
    ];
    let input_high = vec![
        97833.9, 97420.1, 97562.1, 97550.0, 98371.8, 98667.2, 98594.9, 98523.7, 98216.5,
        97912.7, 97947.4, 97582.8, 97294.2, 97051.5, 97683.0, 97700.0, 97368.3, 97999.0,
        97985.8, 97897.9, 97608.8, 97755.5, 97748.0, 97570.0, 97167.0,
    ];
    let input_low = vec![
        96750.1, 96760.0, 96759.1, 96985.1, 97469.9, 97982.8, 98161.2, 98043.2, 97780.9,
        97618.2, 97481.4, 96880.4, 96520.0, 96576.3, 96948.1, 97131.8, 96029.6, 97023.7,
        97130.0, 96500.0, 96716.2, 97273.0, 97226.8, 96006.0, 95325.6,
    ];
    let input_close = vec![
        96977.5, 97050.5, 97281.2, 97480.7, 98310.3, 98232.0, 98473.2, 98136.8, 97912.7,
        97759.1, 97516.4, 96913.4, 96738.0, 96998.8, 97472.6, 97368.3, 97140.0, 97971.6,
        97684.9, 96985.3, 97298.6, 97664.5, 97287.8, 97041.2, 95591.8,
    ];

    let open_arrow = Float64Array::from(input_open);
    let high_arrow = Float64Array::from(input_high);
    let low_arrow = Float64Array::from(input_low);
    let close_arrow = Float64Array::from(input_close);

    let (lens, nulls) = shape(&[&open_arrow, &high_arrow, &low_arrow, &close_arrow]);
    let sig_len = check_arrow_inputs(&lens, &nulls, cdl_hammer::lookback(14)).unwrap();

    assert_eq!(sig_len, 25);
}

#[test]
fn test_cdl_inverted_hammer_arrow() {
    let input_open = vec![100.0, 101.0, 102.0, 103.0, 104.0, 105.0, 106.0, 107.0, 108.0, 109.0, 110.0, 111.0, 112.0, 113.0, 114.0];
    let input_high = vec![105.0, 106.0, 107.0, 108.0, 109.0, 110.0, 111.0, 112.0, 113.0, 114.0, 115.0, 116.0, 117.0, 118.0, 119.0];
    let input_low = vec![99.0, 100.0, 101.0, 102.0, 103.0, 104.0, 105.0, 106.0, 107.0, 108.0, 109.0, 110.0, 111.0, 112.0, 113.0];
    let input_close = vec![101.0, 102.0, 103.0, 104.0, 105.0, 106.0, 107.0, 108.0, 109.0, 110.0, 111.0, 112.0, 113.0, 114.0, 115.0];

    let open_arrow = Float64Array::from(input_open);
    let high_arrow = Float64Array::from(input_high);
    let low_arrow = Float64Array::from(input_low);
    let close_arrow = Float64Array::from(input_close);

    let (lens, nulls) = shape(&[&open_arrow, &high_arrow, &low_arrow, &close_arrow]);
    let sig_len = check_arrow_inputs(&lens, &nulls, cdl_inverted_hammer::lookback(14)).unwrap();

    assert_eq!(sig_len, 15);
}

#[test]
fn test_cdl_long_shadow_arrow() {
    let input_open = vec![
        96674.3, 96814.9, 96667.3, 96747.9, 96743.4, 96712.4, 96677.7, 96556.3, 96500.0,
        96442.8, 96229.7, 96152.2, 96145.7, 96233.1, 96140.1, 95505.0, 95575.1, 95585.2,
        95544.0, 95450.0, 95592.4, 95456.0, 95664.2, 95674.1, 95546.9,
    ];
    let input_high = vec![
        96911.0, 96831.2, 96754.9, 96875.7, 96793.9, 96725.7, 96802.4, 96646.6, 96526.0,
        96470.9, 96229.8, 96245.3, 96341.5, 96233.1, 96140.1, 95582.6, 95856.1, 95585.2,
        95702.4, 95729.2, 95633.3, 95720.6, 95698.2, 95682.9, 95794.6,
    ];
    let input_low = vec![
        96567.2, 96646.7, 96648.0, 96730.0, 96694.7, 96660.4, 96556.2, 96500.1, 96400.0,
        96200.0, 96100.0, 96073.6, 96130.4, 96045.6, 95400.0, 95200.1, 95544.8, 95400.7,
        95427.6, 95359.5, 95442.3, 95427.0, 95545.4, 95473.1, 95475.8,
    ];
    let input_close = vec![
        96814.9, 96667.4, 96747.9, 96743.4, 96712.5, 96677.7, 96556.2, 96500.1, 96442.7,
        96229.7, 96152.2, 96145.7, 96233.1, 96140.0, 95505.2, 95575.1, 95585.3, 95544.0,
        95450.1, 95592.5, 95456.0, 95664.2, 95674.1, 95547.0, 95679.4,
    ];

    let open_arrow = Float64Array::from(input_open);
    let high_arrow = Float64Array::from(input_high);
    let low_arrow = Float64Array::from(input_low);
    let close_arrow = Float64Array::from(input_close);

    let (lens, nulls) = shape(&[&open_arrow, &high_arrow, &low_arrow, &close_arrow]);
    let sig_len = check_arrow_inputs(&lens, &nulls, cdl_long_shadow::lookback(14)).unwrap();

    assert_eq!(sig_len, 25);
}

#[test]
fn test_ecl_arrow() {
    let input_high = vec![24.20, 24.07, 24.04, 23.87, 23.67];
    let input_low = vec![23.85, 23.72, 23.64, 23.37, 23.46];
    let input_close = vec![23.89, 23.95, 23.67, 23.78, 23.50];

    let high_arrow = Float64Array::from(input_high);
    let low_arrow = Float64Array::from(input_low);
    let close_arrow = Float64Array::from(input_close);

    let (lens, nulls) = shape(&[&high_arrow, &low_arrow, &close_arrow]);
    let len = check_arrow_inputs(&lens, &nulls, ecl::lookback()).unwrap();
    let lookback = ecl::lookback().unwrap();

    // All ten level arrays have the input length; their values before the lookback are
    // NaN and the computation starts at the lookback.
    assert_eq!(len, 5);
    assert!(0 < lookback);
    assert!(1 >= lookback);
}

#[test]
fn test_natr_arrow() {
    let input_high = vec![10.0, 12.0, 15.0, 14.0, 13.0];
    let input_low = vec![8.0, 9.0, 11.0, 10.0, 9.0];
    let input_close = vec![9.0, 11.0, 14.0, 12.0, 11.0];
    let period = 2;

    let high_arrow = Float64Array::from(input_high);
    let low_arrow = Float64Array::from(input_low);
    let close_arrow = Float64Array::from(input_close);

    let (lens, nulls) = shape(&[&high_arrow, &low_arrow, &close_arrow]);
    let len = check_arrow_inputs(&lens, &nulls, natr::lookback(period)).unwrap();
    let lookback = natr::lookback(period).unwrap();

    // The output has the input length; values 0 and 1 lie before the lookback (NaN),
    // value 2 is the first one computed.
    assert_eq!(len, 5);
    assert!(0 < lookback);
    assert!(1 < lookback);
    assert!(2 >= lookback);
}

#[test]
fn test_supertrend_arrow() {
    let input_high = vec![
        35266.0, 35247.5, 35235.7, 35190.8, 35182.0, 35258.0, 35262.9, 35281.5, 35256.0,
        35210.0, 35185.4, 35230.0, 35241.0, 35218.1, 35212.6, 35128.9, 35047.7, 35019.5,
        35078.8, 35085.0, 35034.1, 34984.4, 35010.8, 35047.1, 35091.4,
    ];
    let input_low = vec![
        35216.1, 35206.5, 35180.0, 35130.7, 35153.6, 35174.7, 35202.6, 35203.5, 35175.0,
        35166.0, 35170.9, 35154.1, 35186.0, 35143.9, 35080.1, 35021.1, 34950.1, 34966.0,
        35012.3, 35022.2, 34931.6, 34911.0, 34952.5, 34977.9, 35039.0,
    ];
    let input_close = vec![
        35216.1, 35221.4, 35190.7, 35170.0, 35181.5, 35254.6, 35202.8, 35251.9, 35197.6,
        35184.7, 35175.1, 35229.9, 35212.5, 35160.7, 35090.3, 35041.2, 34999.3, 35013.4,
        35069.0, 35024.6, 34939.5, 34952.6, 35000.0, 35041.8, 35080.0,
    ];

    let high_arrow = Float64Array::from(input_high);
    let low_arrow = Float64Array::from(input_low);
    let close_arrow = Float64Array::from(input_close);

    let opt_period = 10;

    let (lens, nulls) = shape(&[&high_arrow, &low_arrow, &close_arrow]);
    let len = check_arrow_inputs(&lens, &nulls, supertrend::lookback(opt_period)).unwrap();

    // Trend, supertrend, ATR, upper and lower bands all have the input length.
    assert_eq!(len, 25);
}

#[test]
fn arrow_checks_reject_bad_inputs() {
    let a = Float64Array::from(vec![1.0, 2.0, 3.0]);
    let b = Float64Array::from(vec![1.0, 2.0]);
    let c = Float64Array::from(vec![Some(1.0), None, Some(3.0)]);
    let (lens, nulls) = shape(&[&a, &b]);
    assert_eq!(check_arrow_inputs(&lens, &nulls, Ok(0)), Err(KandError::LengthMismatch));
    let (lens, nulls) = shape(&[&a, &c]);
    assert_eq!(check_arrow_inputs(&lens, &nulls, Ok(0)), Err(KandError::InvalidData));
    // The input checks come before the lookback.
    let (lens, nulls) = shape(&[&c, &b]);
    assert_eq!(check_arrow_inputs(&lens, &nulls, Err(KandError::InvalidParameter)), Err(KandError::InvalidData));
    let (lens, nulls) = shape(&[&a]);
    assert_eq!(check_arrow_inputs(&lens, &nulls, Err(KandError::InvalidParameter)), Err(KandError::InvalidParameter));
    assert_eq!(check_arrow_inputs(&lens, &nulls, Ok(3)), Err(KandError::InsufficientData));
    assert_eq!(check_arrow_inputs(&lens, &nulls, Ok(2)), Ok(3));
}
