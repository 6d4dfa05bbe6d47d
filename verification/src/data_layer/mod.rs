//! Serving the projects: the response cache, the requests and the worker.

pub mod cache;
pub mod messages;
pub mod worker;

pub use cache::{CacheKey, ResponseCache};
pub use messages::{DataError, DataRequest};
pub use worker::{WorkerPool, WorkerPoolConfig};
