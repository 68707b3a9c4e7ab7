//! Host-telemetry agent core: metric readings, snapshots, the pull-format
//! exposition text, the push payload and the push scheduler, with every
//! function's behaviour stated as a contract and proved.

pub mod collectors;
pub mod config;
pub mod http_client;
pub mod metrics;
pub mod orchestrator;
pub mod scheduler;
pub mod snapshot;
pub mod text;
