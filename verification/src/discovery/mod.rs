//! Finding projects on disk and keeping what was found.

pub mod api_types;
pub mod cache;
pub mod cache_manager;
pub mod config;
pub mod discover;
pub mod durability;
pub mod engine;
pub mod project;
pub mod state;
pub mod walker;

pub use api_types::{ProjectListItem, ProjectMetricsSummary};
pub use cache::{
    load_binary_cache, load_cache, refresh_all_projects, refresh_project, remove_from_cache,
    save_binary_cache, save_cache, ProjectIndexEntry,
};
pub use cache_manager::CacheManager;
pub use config::DiscoveryConfig;
pub use discover::discover_projects;
pub use engine::DiscoveryEngine;
pub use project::DiscoveredProject;
pub use state::load_state;
pub use walker::find_hegel_directories;
pub use crate::metrics::{ProjectStatistics, State, WorkflowState};
