pub mod codec;
pub mod cost;
pub mod error;
pub mod estimator;
pub mod payload;
pub mod samples;
pub mod sqlite;

pub use cost::{CostField, ExecutionCost};
pub use error::EstimatorError;
pub use estimator::PessimisticEstimator;
pub use payload::{get_estimate_key, TransactionPayload};
pub use samples::Samples;
