//! A leveraged futures exchange for simulated trading.
//!
//! One account trades against an external top of book. Resting limit orders
//! are collateralised by their net exposure only (`limit_order_margin`),
//! orders are checked before they touch the account (`validator`), fills move
//! the position and the wallet (`execution_engine`, `account`), and the
//! `exchange` ties these together and liquidates an account that can no
//! longer carry its position. All amounts are fixed-point decimals (`decimal`).

pub mod account;
pub mod config;
pub mod currency;
pub mod decimal;
pub mod errors;
pub mod exchange;
pub mod execution_engine;
pub mod limit_order_margin;
pub mod market_state;
pub mod position;
pub mod types;
pub mod validator;

pub use account::Account;
pub use config::Config;
pub use currency::{BaseCurrency, MarginCurrency, QuoteCurrency};
pub use decimal::Dec;
pub use errors::{Error, OrderError};
pub use exchange::Exchange;
pub use execution_engine::ExecutionEngine;
pub use limit_order_margin::order_margin;
pub use market_state::MarketState;
pub use position::{Margin, Position};
pub use types::{FuturesType, Order, OrderType, Side};
pub use validator::Validator;
