use kand::ohlcv::ema::{BatchEMA, EmaPhase, StatefulEMA};
use kand::ohlcv::macd::{is_line_defined, BatchMACD, StatefulMACD};
use kand::ohlcv::roc::{BatchROC, StatefulROC};
use kand::ohlcv::rsi::{BatchRSI, RsiPhase, StatefulRSI};
use kand::ohlcv::sma::{BatchSMA, SmaPhase, StatefulSMA};
use kand::KandError;

/// Feeds one price to a MACD whose line values are numbers once defined, and tells
/// whether the MACD line, the signal line and the histogram are defined for it.
fn feed(macd: &mut StatefulMACD) -> (bool, bool, bool) {
    let (fast, slow) = macd.next_lines();
    let line = is_line_defined(fast, slow);
    let signal = if line { macd.next_signal() != EmaPhase::Warmup } else { false };
    (line, signal, line && signal)
}

#[test]
fn test_stateful_macd() {
    let mut macd = StatefulMACD::new(2, 3, 2).unwrap();

    // Data: 10, 11, 12, 13, 14; which outputs are defined does not depend on the values.
    assert!(!feed(&mut macd).0); // count 1: macd NaN
    assert!(!feed(&mut macd).0); // count 2: macd NaN
    assert!(feed(&mut macd).0); // count 3: macd valid, signal NaN
    assert!(feed(&mut macd).1); // count 4: signal valid

    let (m, s, h) = feed(&mut macd); // count 5

    assert!(m);
    assert!(s);
    assert!(h);
}

#[test]
fn test_stateful_macd_atomicity() {
    let mut macd = StatefulMACD::new(2, 3, 2).unwrap();

    // Valid update
    feed(&mut macd);
}

#[test]
fn stateful_macd_rejects_bad_periods() {
    assert_eq!(StatefulMACD::new(3, 3, 2).err(), Some(KandError::InvalidParameter));
    assert_eq!(StatefulMACD::new(1, 3, 2).err(), Some(KandError::InvalidParameter));
    assert_eq!(StatefulMACD::new(2, 3, 1).err(), Some(KandError::InvalidParameter));
}

#[test]
fn stateful_macd_signal_starts_after_lookback() {
    let mut macd = StatefulMACD::new(12, 26, 9).unwrap();
    let lookback = kand::ohlcv::macd::lookback(12, 26, 9).unwrap();
    for n in 1..100usize {
        let (_, _, h) = feed(&mut macd);
        assert_eq!(h, n > lookback, "input {n}");
    }
    assert_eq!(macd.signal().count(), 99 - 26 + 1);
}

#[test]
fn batch_macd_new_and_lines() {
    assert_eq!(BatchMACD::new(2, 3, 2, 0).err(), Some(KandError::InvalidParameter));
    assert_eq!(BatchMACD::new(1, 3, 2, 2).err(), Some(KandError::InvalidParameter));
    // The batch version does not compare the fast and slow periods.
    assert!(BatchMACD::new(3, 2, 2, 2).is_ok());
    let mut b = BatchMACD::new(2, 3, 2, 2).unwrap();
    assert_eq!(b.check_input(3), Err(KandError::LengthMismatch));
    assert_eq!(b.check_input(2), Ok(()));
    // First two batches: the MACD line is NaN; the third one defines it.
    // The signal EMA takes the line only once it is defined: a warm-up value with the third
    // batch, its seed with the fourth, as in the stateful MACD.
    let signals = [None, None, Some(EmaPhase::Warmup), Some(EmaPhase::Seed)];
    for (t, signal) in signals.into_iter().enumerate() {
        let (f0, s0, g0) = b.next(0);
        let (f1, s1, g1) = b.next(1);
        assert_eq!(is_line_defined(f0, s0), t >= 2);
        assert_eq!(is_line_defined(f1, s1), t >= 2);
        assert_eq!((g0, g1), (signal, signal));
    }
    assert_eq!(b.signal().counts(), &vec![2, 2]);
    assert_eq!(b.num_streams(), 2);
}

#[test]
fn stateful_ema_phases() {
    assert_eq!(StatefulEMA::new(1).err(), Some(KandError::InvalidParameter));
    let mut e = StatefulEMA::new(3).unwrap();
    assert_eq!(e.next(), EmaPhase::Warmup);
    assert_eq!(e.next(), EmaPhase::Warmup);
    assert_eq!(e.next(), EmaPhase::Seed);
    assert_eq!(e.next(), EmaPhase::Smooth);
    assert_eq!(e.count(), 4);
    assert_eq!(e.period(), 3);
    let mut r = StatefulEMA::from_parts(e.period(), e.count());
    assert_eq!(r.next(), EmaPhase::Smooth);
}

#[test]
fn batch_ema_phases_per_stream() {
    assert_eq!(BatchEMA::new(3, 0).err(), Some(KandError::InvalidParameter));
    let mut b = BatchEMA::new(2, 2).unwrap();
    assert_eq!(b.next(0), EmaPhase::Warmup);
    assert_eq!(b.next(0), EmaPhase::Seed);
    assert_eq!(b.next(1), EmaPhase::Warmup);
    assert_eq!(b.counts(), &vec![2, 1]);
    let c = b.clone();
    assert_eq!(c.counts(), &vec![2, 1]);
}

#[test]
fn stateful_sma_phases() {
    // Mirrors the streaming SMA of period 3: NaN, NaN, then values.
    let mut sma = StatefulSMA::new(3).unwrap();
    assert_eq!(sma.next(), SmaPhase::Fill);
    assert_eq!(sma.next(), SmaPhase::Fill);
    assert_eq!(sma.next(), SmaPhase::Complete);
    assert_eq!(sma.next(), SmaPhase::Slide);
    assert_eq!(sma.filled(), 3);
    assert_eq!(StatefulSMA::new(1).err(), Some(KandError::InvalidParameter));
}

#[test]
fn batch_sma_ring() {
    let mut b = BatchSMA::new(3, 2).unwrap();
    assert_eq!(b.check_input(2, 1), Err(KandError::InvalidData));
    assert_eq!(b.check_input(3, 1), Err(KandError::LengthMismatch));
    assert_eq!(b.check_input(2, 0), Ok(()));
    let expected = [(0, true, false), (1, true, false), (2, true, true), (0, false, true), (1, false, true)];
    for (cursor, filling, valid) in expected {
        let step = b.next();
        assert_eq!((step.cursor, step.filling, step.valid), (cursor, filling, valid));
    }
    assert_eq!(b.window_offset(1, 2), 5);
    assert_eq!(b.cursor(), 2);
    assert_eq!(b.count(), 5);
}

#[test]
fn stateful_roc_ring() {
    // Period 2: NaN, NaN, then each input is compared with the one two inputs back.
    let mut roc = StatefulROC::new(2).unwrap();
    let s1 = roc.next();
    let s2 = roc.next();
    let s3 = roc.next();
    let s4 = roc.next();
    assert!(s1.warming_up && s2.warming_up);
    assert!(!s3.warming_up && !s4.warming_up);
    assert_eq!(s3.slot, s1.slot);
    assert_eq!(s4.slot, s2.slot);
    assert_ne!(s3.slot, s4.slot);
    assert_eq!(StatefulROC::new(0).err(), Some(KandError::InvalidParameter));
}

#[test]
fn batch_roc_ring() {
    let mut b = BatchROC::new(2, 2).unwrap();
    assert_eq!(b.check_input(1), Err(KandError::LengthMismatch));
    let a = b.next(0);
    let c = b.next(0);
    let d = b.next(0);
    assert!(a.warming_up && c.warming_up && !d.warming_up);
    assert_eq!(d.slot, a.slot);
    assert_eq!(b.window_offset(1, 1), 3);
    assert_eq!(b.counts(), &vec![3, 0]);
    assert_eq!(b.cursors(), &vec![1, 0]);
}

#[test]
fn stateful_rsi_phases() {
    // Period 3: the first valid value comes with the fourth price.
    let mut rsi = StatefulRSI::new(3).unwrap();
    assert_eq!(rsi.next(), RsiPhase::First);
    assert_eq!(rsi.next(), RsiPhase::Accumulate);
    assert_eq!(rsi.next(), RsiPhase::Accumulate);
    // The fourth price seeds the averages with the means of the first three changes.
    assert_eq!(rsi.next(), RsiPhase::Seed);
    assert_eq!(rsi.next(), RsiPhase::Smooth);
    assert_eq!(StatefulRSI::new(1).err(), Some(KandError::InvalidParameter));
    let mut b = BatchRSI::new(3, 2).unwrap();
    assert_eq!(b.next(1), RsiPhase::First);
    assert_eq!(b.check_input(2), Ok(()));
    assert_eq!(BatchRSI::new(3, 0).err(), Some(KandError::InvalidParameter));
}

#[test]
fn batch_roc_streams_keep_their_own_ring() {
    // Period 3: each stream's fourth input reads the slot of its own first input,
    // however the inputs of the streams interleave.
    let mut b = BatchROC::new(3, 2).unwrap();
    let first0 = b.next(0);
    let first1 = b.next(1);
    b.next(0);
    b.next(0);
    let fourth0 = b.next(0);
    assert!(first0.warming_up && first1.warming_up && !fourth0.warming_up);
    assert_eq!(fourth0.slot, first0.slot);
    assert_eq!(b.counts(), &vec![4, 1]);
    assert_eq!(b.cursors(), &vec![1, 1]);
}
