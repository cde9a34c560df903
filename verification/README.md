# kand

Technical analysis indicators over OHLCV series.

## Layout

- `src/` is the verified library. Its contracts cover the integer side of every indicator:
  parameter checks, input length and data checks in their documented order, lookback
  periods, the warm-up schedules of the streaming and vectorized indicators (EMA, SMA,
  ROC, RSI, MACD), the ring buffers behind sliding windows, the checks of the Arrow
  wrappers, the block cache of the buffer pool and the encoding of candle signals.
- `app/` holds the price arithmetic on `f64`, the Arrow arrays and record batches, and the
  raw allocations of the buffer pool. Each indicator there asks `kand` for its checks,
  lookback and schedule, then computes the values.
- `tests/` runs the library on concrete inputs.
