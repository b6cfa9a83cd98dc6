//! Transaction cost analysis: a per-symbol cache of the latest quote, and the
//! metrics (execution speed, price improvement, spreads) derived for each fill
//! from the quote that prevailed when it executed.

pub mod error;
pub mod analyzer;
pub mod cache;
pub mod fixed;
pub mod metrics;
pub mod model;
pub mod settings;

pub use analyzer::{TcaMetric, TcaOutput, TransactionCostAnalyzer};
pub use cache::QuoteCache;
pub use error::TcaError;
pub use fixed::Fixed;
pub use metrics::{execution_speed, price_improvement, ExecutionSpeed, PriceImprovement};
pub use settings::SentrySettings;
pub use model::{BookLevel, Order, OrderEvent, OrderStatus, OrderUpdate, Quote, Side, TcaInput};
