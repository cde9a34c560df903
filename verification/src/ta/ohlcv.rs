pub mod ad;
pub mod adosc;
pub mod adr;
pub mod adx;
pub mod aroon;
pub mod aroonosc;
pub mod atr;
pub mod bbands;
pub mod bop;
pub mod cci;
pub mod cdl_doji;
pub mod cdl_dragonfly_doji;
pub mod cdl_gravestone_doji;
pub mod cdl_hammer;
pub mod cdl_inverted_hammer;
pub mod cdl_long_shadow;
pub mod dema;
pub mod dx;
pub mod ecl;
pub mod ema;
pub mod macd;
pub mod medprice;
pub mod mfi;
pub mod midpoint;
pub mod midprice;
pub mod minus_di;
pub mod minus_dm;
pub mod mom;
pub mod natr;
pub mod obv;
pub mod plus_dm;
pub mod rma;
pub mod roc;
pub mod rocp;
pub mod rocr;
pub mod rocr100;
pub mod rsi;
pub mod sma;
pub mod supertrend;
