//! Discovery and caching of Hegel projects: the scanner's rules, the durable
//! cache's plans, the response cache and the single-writer request worker,
//! each stated over mathematical models and proved.

pub mod api_types;
pub mod cli;
pub mod data_layer;
pub mod discovery;
pub mod discovery_mode;
pub mod http;
pub mod metrics;
pub mod sorting;
pub mod text;
pub mod timestamp;
