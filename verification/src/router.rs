//! The routing table: which deployment serves which host.

use vstd::prelude::*;
use vstd::hash_map::StringHashMap;
use crate::ident::{found_name, DeploymentId, Host};

verus! {

/// Deployment router which figures out which `DeploymentId` a `Host`
/// corresponds to.
///
/// Its view is the map from host names to deployment names. A host has at
/// most one deployment at any time; promoting a host replaces the one it had.
/// Nothing is ever removed.
///
/// A lookup borrows the router shared, so any number of lookups may run
/// together; a promotion borrows it exclusively. Tasks that share one router
/// keep it behind a reader/writer lock and take the lock for reading to look
/// up, for writing to promote.
pub struct Router {
    table: StringHashMap<DeploymentId>,
}

impl View for Router {
    type V = Map<Seq<char>, Seq<char>>;

    closed spec fn view(&self) -> Map<Seq<char>, Seq<char>> {
        self.table@.map_values(|id: DeploymentId| id@)
    }
}

impl Router {
    /// A router that knows no host.
    pub fn new() -> (router: Router)
        ensures
            router@ == Map::<Seq<char>, Seq<char>>::empty(),
    {
        Router { table: StringHashMap::new() }
    }

    /// Promotes a new `DeploymentId` to a given `Host`. Returns the old
    /// `DeploymentId` if the host had one.
    pub fn promote(&mut self, host: Host, id: DeploymentId) -> (previous: Option<DeploymentId>)
        ensures
            final(self)@ == old(self)@.insert(host@, id@),
            found_name(previous) == old(self)@.get(host@),
    {
        let previous = match self.table.get(host.as_str()) {
            Some(prior) => Some(prior.clone()),
            None => None,
        };
        self.table.insert(host.into_name(), id);
        previous
    }

    /// Gets a `DeploymentId` for a given `Host`. Returns `None` if the host
    /// was never promoted.
    pub fn id_for_host(&self, host: &Host) -> (found: Option<DeploymentId>)
        ensures
            found_name(found) == self@.get(host@),
    {
        match self.table.get(host.as_str()) {
            Some(id) => Some(id.clone()),
            None => None,
        }
    }
}

impl Default for Router {
    fn default() -> (router: Router)
        ensures
            router@ == Map::<Seq<char>, Seq<char>>::empty(),
    {
        Router::new()
    }
}

} // verus!
