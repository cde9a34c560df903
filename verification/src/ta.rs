pub mod ohlcv;
