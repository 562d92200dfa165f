//! Verified core of PerfMax, an AI-driven system performance tuner.
pub mod ai;
pub mod commands;
pub mod config;
pub mod discovery;
pub mod metrics;
pub mod model_manager;
pub mod optimizer;
pub mod paths;
pub mod server_manager;
pub mod state;
pub mod text;
pub mod ui;
