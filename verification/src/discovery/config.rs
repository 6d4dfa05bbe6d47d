//! What a scan is configured with, and when a configuration is valid.

use vstd::prelude::*;
use vstd::string::*;
use crate::text::{decimal, decimal_digits, join_text, texts};

verus! {

/// Configuration for project discovery.
#[derive(Debug, Clone, PartialEq)]
pub struct DiscoveryConfig {
    /// Root directories to scan for projects.
    pub root_directories: Vec<String>,
    /// How deep below a root the scan goes.
    pub max_depth: usize,
    /// Directory names that the scan does not enter.
    pub exclusions: Vec<String>,
    /// Where the snapshot file lies.
    pub cache_location: String,
}

/// What was found where a root directory should be.
#[derive(Debug, Clone, PartialEq, Eq)]
pub enum RootProbe {
    /// Nothing is there.
    Missing,
    /// Something is there that is no directory.
    NotDirectory,
    /// A directory that cannot be listed.
    Unreadable,
    /// A directory that can be listed.
    Readable,
}

/// What was found where the cache is to be kept.
#[derive(Debug, Clone, PartialEq, Eq)]
pub enum CacheProbe {
    /// The cache location has no parent directory: nothing to check.
    NoParent,
    /// The parent directory is there, or could be made, and can be written.
    Writable,
    /// The parent directory, of that path, is not there and cannot be made.
    CannotCreate(String),
    /// The parent directory, of that path, cannot be written.
    NotWritable(String),
}

/// Why a configuration is refused.
#[derive(Debug, Clone, PartialEq, Eq)]
pub enum ConfigError {
    NoRoots,
    RootMissing(String),
    RootNotDirectory(String),
    RootUnreadable(String),
    InvalidMaxDepth(usize),
    CannotCreateCacheDir(String),
    CacheNotWritable(String),
}

/// A refusal as mathematical data.
pub enum ConfigErrorView {
    NoRoots,
    RootMissing(Seq<char>),
    RootNotDirectory(Seq<char>),
    RootUnreadable(Seq<char>),
    InvalidMaxDepth(usize),
    CannotCreateCacheDir(Seq<char>),
    CacheNotWritable(Seq<char>),
}

impl View for ConfigError {
    type V = ConfigErrorView;

    open spec fn view(&self) -> ConfigErrorView {
        match *self {
            ConfigError::NoRoots => ConfigErrorView::NoRoots,
            ConfigError::RootMissing(p) => ConfigErrorView::RootMissing(p@),
            ConfigError::RootNotDirectory(p) => ConfigErrorView::RootNotDirectory(p@),
            ConfigError::RootUnreadable(p) => ConfigErrorView::RootUnreadable(p@),
            ConfigError::InvalidMaxDepth(d) => ConfigErrorView::InvalidMaxDepth(d),
            ConfigError::CannotCreateCacheDir(p) => ConfigErrorView::CannotCreateCacheDir(p@),
            ConfigError::CacheNotWritable(p) => ConfigErrorView::CacheNotWritable(p@),
        }
    }
}

/// The text of a refusal.
pub open spec fn config_error_text(e: ConfigErrorView) -> Seq<char> {
    match e {
        ConfigErrorView::NoRoots => "At least one root directory must be provided"@,
        ConfigErrorView::RootMissing(p) => "Root directory does not exist: "@ + p,
        ConfigErrorView::RootNotDirectory(p) => "Root path is not a directory: "@ + p,
        ConfigErrorView::RootUnreadable(p) => "Root directory is not readable: "@ + p,
        ConfigErrorView::InvalidMaxDepth(d) => "Max depth must be at least 1, got "@
            + decimal_digits(d as nat),
        ConfigErrorView::CannotCreateCacheDir(p) => "Cannot create cache directory: "@ + p,
        ConfigErrorView::CacheNotWritable(p) => "Cache location not writable: "@ + p,
    }
}

impl ConfigError {
    /// The refusal as text.
    pub fn message(&self) -> (s: String)
        ensures
            s@ == config_error_text(self@),
    {
        match self {
            ConfigError::NoRoots => String::from_str("At least one root directory must be provided"),
            ConfigError::RootMissing(p) => join_text("Root directory does not exist: ", p.as_str()),
            ConfigError::RootNotDirectory(p) => join_text(
                "Root path is not a directory: ",
                p.as_str(),
            ),
            ConfigError::RootUnreadable(p) => join_text(
                "Root directory is not readable: ",
                p.as_str(),
            ),
            ConfigError::InvalidMaxDepth(d) => {
                let digits = decimal(*d as u128);
                join_text("Max depth must be at least 1, got ", digits.as_str())
            },
            ConfigError::CannotCreateCacheDir(p) => join_text(
                "Cannot create cache directory: ",
                p.as_str(),
            ),
            ConfigError::CacheNotWritable(p) => join_text(
                "Cache location not writable: ",
                p.as_str(),
            ),
        }
    }
}

/// What was found for the `i`-th root. A root that was not looked at counts
/// as missing.
pub open spec fn probe_at(probes: Seq<RootProbe>, i: int) -> RootProbe {
    if 0 <= i < probes.len() {
        probes[i]
    } else {
        RootProbe::Missing
    }
}

/// What is wrong with a root, given what was found there.
pub open spec fn root_problem(root: Seq<char>, probe: RootProbe) -> Option<ConfigErrorView> {
    match probe {
        RootProbe::Missing => Some(ConfigErrorView::RootMissing(root)),
        RootProbe::NotDirectory => Some(ConfigErrorView::RootNotDirectory(root)),
        RootProbe::Unreadable => Some(ConfigErrorView::RootUnreadable(root)),
        RootProbe::Readable => None,
    }
}

/// What is wrong with the first of the first `n` roots that has a problem.
pub open spec fn first_root_problem(roots: Seq<String>, probes: Seq<RootProbe>, n: int) -> Option<
    ConfigErrorView,
>
    decreases n,
{
    if n <= 0 {
        None
    } else {
        match first_root_problem(roots, probes, n - 1) {
            Some(e) => Some(e),
            None => root_problem(roots[n - 1]@, probe_at(probes, n - 1)),
        }
    }
}

/// What is wrong with the roots and the depth of a configuration: there must
/// be a root, every root must be a directory that can be listed, and the
/// depth must be at least 1. The first problem in that order counts.
pub open spec fn roots_problem(config: DiscoveryConfig, probes: Seq<RootProbe>) -> Option<
    ConfigErrorView,
> {
    if config.root_directories@.len() == 0 {
        Some(ConfigErrorView::NoRoots)
    } else {
        match first_root_problem(
            config.root_directories@,
            probes,
            config.root_directories@.len() as int,
        ) {
            Some(e) => Some(e),
            None => if config.max_depth < 1 {
                Some(ConfigErrorView::InvalidMaxDepth(config.max_depth))
            } else {
                None
            },
        }
    }
}

/// What is wrong with the place of the cache.
pub open spec fn cache_problem(probe: CacheProbe) -> Option<ConfigErrorView> {
    match probe {
        CacheProbe::CannotCreate(p) => Some(ConfigErrorView::CannotCreateCacheDir(p@)),
        CacheProbe::NotWritable(p) => Some(ConfigErrorView::CacheNotWritable(p@)),
        _ => None,
    }
}

/// What is wrong with a configuration: with its roots and depth first, then
/// with the place of its cache.
pub open spec fn config_problem(
    config: DiscoveryConfig,
    probes: Seq<RootProbe>,
    cache: CacheProbe,
) -> Option<ConfigErrorView> {
    match roots_problem(config, probes) {
        Some(e) => Some(e),
        None => cache_problem(cache),
    }
}

/// The view of a refusal, if there is one.
pub open spec fn refusal(r: Result<(), ConfigError>) -> Option<ConfigErrorView> {
    match r {
        Ok(_) => None,
        Err(e) => Some(e@),
    }
}

impl DiscoveryConfig {
    /// A configuration with the given values.
    pub fn new(
        root_directories: Vec<String>,
        max_depth: usize,
        exclusions: Vec<String>,
        cache_location: String,
    ) -> (c: DiscoveryConfig)
        ensures
            c == (DiscoveryConfig { root_directories, max_depth, exclusions, cache_location }),
    {
        DiscoveryConfig { root_directories, max_depth, exclusions, cache_location }
    }

    /// The usual configuration for one root: depth 10, and the directories
    /// of package managers, build output and version control left out.
    pub fn with_defaults(root: String, cache_location: String) -> (c: DiscoveryConfig)
        ensures
            c.root_directories@ == seq![root],
            c.max_depth == 10,
            texts(c.exclusions@) == seq!["node_modules"@, "target"@, ".git"@, "vendor"@],
            c.cache_location == cache_location,
    {
        let mut roots: Vec<String> = Vec::new();
        roots.push(root);
        let mut exclusions: Vec<String> = Vec::new();
        exclusions.push(String::from_str("node_modules"));
        exclusions.push(String::from_str("target"));
        exclusions.push(String::from_str(".git"));
        exclusions.push(String::from_str("vendor"));
        assert(texts(exclusions@) =~= seq!["node_modules"@, "target"@, ".git"@, "vendor"@]);
        assert(roots@ =~= seq![root]);
        DiscoveryConfig { root_directories: roots, max_depth: 10, exclusions, cache_location }
    }

    /// Checks the roots and the depth, given what was found where each root
    /// should be.
    pub fn validate_roots(&self, probes: &Vec<RootProbe>) -> (r: Result<(), ConfigError>)
        ensures
            refusal(r) == roots_problem(*self, probes@),
    {
        if self.root_directories.len() == 0 {
            return Err(ConfigError::NoRoots);
        }
        let mut i: usize = 0;
        while i < self.root_directories.len()
            invariant
                i <= self.root_directories.len(),
                self.root_directories.len() > 0,
                first_root_problem(self.root_directories@, probes@, i as int) is None,
            decreases self.root_directories.len() - i,
        {
            let root = &self.root_directories[i];
            let problem = if i < probes.len() {
                match &probes[i] {
                    RootProbe::Missing => Some(ConfigError::RootMissing(root.clone())),
                    RootProbe::NotDirectory => Some(ConfigError::RootNotDirectory(root.clone())),
                    RootProbe::Unreadable => Some(ConfigError::RootUnreadable(root.clone())),
                    RootProbe::Readable => None,
                }
            } else {
                Some(ConfigError::RootMissing(root.clone()))
            };
            match problem {
                Some(e) => {
                    proof {
                        assert(first_root_problem(self.root_directories@, probes@, i + 1) == Some(
                            e@,
                        ));
                        lemma_first_root_problem_stays(
                            self.root_directories@,
                            probes@,
                            i + 1,
                            self.root_directories@.len() as int,
                        );
                    }
                    return Err(e);
                },
                None => {},
            }
            i += 1;
        }
        if self.max_depth < 1 {
            return Err(ConfigError::InvalidMaxDepth(self.max_depth));
        }
        Ok(())
    }

    /// Checks the place of the cache, given what was found there.
    pub fn validate_cache(&self, cache: &CacheProbe) -> (r: Result<(), ConfigError>)
        ensures
            refusal(r) == cache_problem(*cache),
    {
        match cache {
            CacheProbe::CannotCreate(p) => Err(ConfigError::CannotCreateCacheDir(p.clone())),
            CacheProbe::NotWritable(p) => Err(ConfigError::CacheNotWritable(p.clone())),
            _ => Ok(()),
        }
    }

    /// Checks the configuration, given what was found where its roots and
    /// its cache should be.
    pub fn validate(&self, probes: &Vec<RootProbe>, cache: &CacheProbe) -> (r: Result<
        (),
        ConfigError,
    >)
        ensures
            refusal(r) == config_problem(*self, probes@, *cache),
    {
        match self.validate_roots(probes) {
            Err(e) => Err(e),
            Ok(_) => self.validate_cache(cache),
        }
    }
}

/// A first problem that was found stays the first when more roots are looked
/// at.
pub proof fn lemma_first_root_problem_stays(
    roots: Seq<String>,
    probes: Seq<RootProbe>,
    n: int,
    m: int,
)
    requires
        first_root_problem(roots, probes, n) is Some,
        n <= m,
    ensures
        first_root_problem(roots, probes, m) == first_root_problem(roots, probes, n),
    decreases m - n,
{
    if n < m {
        lemma_first_root_problem_stays(roots, probes, n, m - 1);
    }
}

} // verus!
