//! The two identifiers the routing table relates: hosts and deployments.
//!
//! Both are opaque names. Their views are the characters of the name, and
//! equality is equality of names.

use vstd::prelude::*;

verus! {

/// Identifier of an inbound network target, such as a domain name.
///
/// Two hosts are the same routing key exactly when their names are equal.
#[derive(Debug, Hash)]
pub struct Host {
    name: String,
}

impl View for Host {
    type V = Seq<char>;

    closed spec fn view(&self) -> Seq<char> {
        self.name@
    }
}

impl Host {
    /// Names a host.
    pub fn new(name: &str) -> (host: Host)
        ensures
            host@ == name@,
    {
        Host { name: name.to_owned() }
    }

    /// The name this host was made from.
    pub fn as_str(&self) -> (name: &str)
        ensures
            name@ == self@,
    {
        self.name.as_str()
    }

    /// Gives up the host for its name, as the routing table stores it.
    pub(crate) fn into_name(self) -> (name: String)
        ensures
            name@ == self@,
    {
        self.name
    }
}

impl Clone for Host {
    fn clone(&self) -> (copy: Host)
        ensures
            copy == *self,
    {
        Host { name: self.name.clone() }
    }
}

impl PartialEq for Host {
    fn eq(&self, other: &Host) -> (same: bool) {
        self.name == other.name
    }
}

impl Eq for Host {}

impl vstd::std_specs::cmp::PartialEqSpecImpl for Host {
    open spec fn obeys_eq_spec() -> bool {
        true
    }

    open spec fn eq_spec(&self, other: &Host) -> bool {
        self@ == other@
    }
}

/// Identifier of one deployment of a backend service.
#[derive(Debug)]
pub struct DeploymentId {
    value: String,
}

impl View for DeploymentId {
    type V = Seq<char>;

    closed spec fn view(&self) -> Seq<char> {
        self.value@
    }
}

impl DeploymentId {
    /// Names a deployment.
    pub fn new(value: &str) -> (id: DeploymentId)
        ensures
            id@ == value@,
    {
        DeploymentId { value: value.to_owned() }
    }

    /// The name this identifier was made from.
    pub fn as_str(&self) -> (value: &str)
        ensures
            value@ == self@,
    {
        self.value.as_str()
    }
}

/// The name of the deployment that a lookup found, if it found one.
pub open spec fn found_name(found: Option<DeploymentId>) -> Option<Seq<char>> {
    match found {
        Some(id) => Some(id@),
        None => None,
    }
}

impl Clone for DeploymentId {
    fn clone(&self) -> (copy: DeploymentId)
        ensures
            copy == *self,
    {
        DeploymentId { value: self.value.clone() }
    }
}

impl PartialEq for DeploymentId {
    fn eq(&self, other: &DeploymentId) -> (same: bool) {
        self.value == other.value
    }
}

impl Eq for DeploymentId {}

impl vstd::std_specs::cmp::PartialEqSpecImpl for DeploymentId {
    open spec fn obeys_eq_spec() -> bool {
        true
    }

    open spec fn eq_spec(&self, other: &DeploymentId) -> bool {
        self@ == other@
    }
}

} // verus!
