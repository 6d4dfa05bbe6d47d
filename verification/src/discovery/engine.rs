//! The discovery engine: when the caches are read, when the disk is scanned,
//! and what is written back. The engine decides; the caller reads, scans and
//! writes, and hands back what it found.

use vstd::prelude::*;
use crate::discovery::cache::{
    load_cache, save_binary_cache, save_cache, save_plan, step_views, CacheError, CacheErrorView,
    CacheLoad, CacheOpView, CacheStep, CacheStepView, FileRead,
};
use crate::discovery::config::{
    config_problem, CacheProbe, ConfigError, ConfigErrorView, DiscoveryConfig, RootProbe,
};
use crate::discovery::project::{project_views, DiscoveredProject};

verus! {

/// Orchestrates project discovery with caching.
#[derive(Debug, Clone)]
pub struct DiscoveryEngine {
    config: DiscoveryConfig,
}

/// What the caller of the engine does next.
#[derive(Debug, Clone)]
pub enum EngineStep {
    /// Read the sharded cache and report with `sharded_loaded`.
    LoadSharded,
    /// Read the snapshot and report with `snapshot_loaded`.
    LoadSnapshot,
    /// Scan the roots and report with `scan_and_cache`.
    Scan,
    /// Take the steps of the plan in order, then answer with the projects.
    /// Where a required step fails, answer with its error.
    Persist { plan: Vec<CacheStep>, projects: Vec<DiscoveredProject> },
    /// Answer with the projects.
    Done(Vec<DiscoveredProject>),
    /// Answer with the error.
    Failed(CacheError),
}

/// The plan that keeps both formats of the cache in step with `ps`: the
/// sharded cache first, its index last, then the snapshot.
pub open spec fn persist_both_plan(ps: Seq<crate::discovery::project::DiscoveredProjectView>) -> Seq<
    CacheStepView,
> {
    save_plan(ps).push(CacheStepView { op: CacheOpView::WriteSnapshot, required: true })
}

impl DiscoveryEngine {
    /// An engine for a configuration that is valid, given what was found
    /// where its roots and its cache should be.
    pub fn new(config: DiscoveryConfig, probes: &Vec<RootProbe>, cache: &CacheProbe) -> (r: Result<
        DiscoveryEngine,
        ConfigError,
    >)
        ensures
            match config_problem(config, probes@, *cache) {
                None => r is Ok && r->Ok_0.config_spec() == config,
                Some(e) => r is Err && r->Err_0@ == e,
            },
    {
        match config.validate(probes, cache) {
            Err(e) => Err(e),
            Ok(_) => Ok(DiscoveryEngine { config }),
        }
    }

    /// The configuration of the engine.
    pub closed spec fn config_spec(&self) -> DiscoveryConfig {
        self.config
    }

    /// The configuration of the engine.
    pub fn config(&self) -> (c: &DiscoveryConfig)
        ensures
            *c == self.config_spec(),
    {
        &self.config
    }

    /// Starts a request for the projects. A forced refresh always scans;
    /// else the sharded cache is read first.
    pub fn get_projects(&self, force_refresh: bool) -> (step: EngineStep)
        ensures
            force_refresh ==> step is Scan,
            !force_refresh ==> step is LoadSharded,
    {
        if force_refresh {
            EngineStep::Scan
        } else {
            EngineStep::LoadSharded
        }
    }

    /// Goes on after the sharded cache was read: its records are the answer
    /// where it is there, the snapshot is read next where it is not, and an
    /// index that cannot be read is an error.
    pub fn sharded_loaded(&self, loaded: Result<Option<CacheLoad>, CacheError>) -> (step:
        EngineStep)
        ensures
            match loaded {
                Ok(Some(load)) => step is Done && step->Done_0 == load.projects,
                Ok(None) => step is LoadSnapshot,
                Err(e) => step is Failed && step->Failed_0 == e,
            },
    {
        match loaded {
            Ok(Some(load)) => EngineStep::Done(load.projects),
            Ok(None) => EngineStep::LoadSnapshot,
            Err(e) => EngineStep::Failed(e),
        }
    }

    /// Goes on after the snapshot was read: where it is there, its projects
    /// are the answer, and they are saved to the sharded cache on the way;
    /// where it is not, the roots are scanned; a snapshot that cannot be
    /// read is an error.
    pub fn snapshot_loaded(&self, read: FileRead<Vec<DiscoveredProject>>) -> (step: EngineStep)
        ensures
            match read {
                FileRead::Loaded(projects) => step is Persist && step->projects == projects
                    && step_views(step->plan@) == save_plan(project_views(projects@)),
                FileRead::Missing => step is Scan,
                FileRead::Corrupt(detail) => step is Failed && step->Failed_0
                    == CacheError::Corrupt(detail),
            },
    {
        match load_cache(read) {
            Ok(Some(projects)) => {
                let plan = save_binary_cache(&projects);
                EngineStep::Persist { plan, projects }
            },
            Ok(None) => EngineStep::Scan,
            Err(e) => EngineStep::Failed(e),
        }
    }

    /// Goes on after a scan: the projects found are saved to both formats of
    /// the cache, and are the answer.
    pub fn scan_and_cache(&self, projects: Vec<DiscoveredProject>) -> (step: EngineStep)
        ensures
            step is Persist,
            step->projects == projects,
            step_views(step->plan@) == persist_both_plan(project_views(projects@)),
    {
        let mut plan = save_binary_cache(&projects);
        plan.push(save_cache());
        assert(step_views(plan@) =~= persist_both_plan(project_views(projects@)));
        EngineStep::Persist { plan, projects }
    }
}

} // verus!
