//! Saving the snapshot in the background: one save at a time, and none twice.

use vstd::prelude::*;
use crate::discovery::project::DiscoveredProject;

verus! {

/// Holds the list of projects that is waiting to be saved, if one is. While
/// a list is waiting, further lists are dropped; it is written when the
/// timer runs out.
#[derive(Debug, Clone)]
pub struct CacheManager {
    pending: Option<Vec<DiscoveredProject>>,
}

impl CacheManager {
    /// The list that is waiting to be saved.
    pub closed spec fn pending(&self) -> Option<Vec<DiscoveredProject>> {
        self.pending
    }

    /// A manager with nothing waiting.
    pub fn new() -> (m: CacheManager)
        ensures
            m.pending() is None,
    {
        CacheManager { pending: None }
    }

    /// Asks for the projects to be saved. They wait for the timer, unless a
    /// list is waiting already: then they are dropped.
    pub fn queue_save(&mut self, projects: Vec<DiscoveredProject>)
        ensures
            final(self).pending() == if old(self).pending() is Some {
                old(self).pending()
            } else {
                Some(projects)
            },
    {
        if self.pending.is_none() {
            self.pending = Some(projects);
        }
    }

    /// Whether the timer is to run: only while a list is waiting.
    pub fn is_waiting(&self) -> (r: bool)
        ensures
            r == self.pending() is Some,
    {
        self.pending.is_some()
    }

    /// The timer ran out: the list that was waiting is handed out to be
    /// written to the snapshot, and nothing is waiting any more.
    pub fn on_timeout(&mut self) -> (due: Option<Vec<DiscoveredProject>>)
        ensures
            due == old(self).pending(),
            final(self).pending() is None,
    {
        self.pending.take()
    }
}

} // verus!
