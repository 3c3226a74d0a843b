pub mod actuation;
pub mod args;
pub mod decision;
pub mod governors;
pub mod metrics;
pub mod numbers;
pub mod policy;
pub mod state;
pub mod telemetry;
pub mod text;
pub mod workload;
