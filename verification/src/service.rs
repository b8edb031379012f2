//! Services of an endpoint and the matching relation between an offer and a search.

use vstd::prelude::*;
use vstd::std_specs::cmp::PartialEqSpecImpl;

verus! {

/// One entry of an endpoint's service list.
#[derive(Debug, Eq, Hash)]
pub enum Service {
    /// The endpoint offers `kind`, reachable at its address on `port`.
    Host { kind: String, port: u16 },
    /// The endpoint wants to locate a host of `kind`.
    Search { kind: String },
}

/// Mathematical value of a [`Service`].
pub enum ServiceView {
    Host { kind: Seq<char>, port: u16 },
    Search { kind: Seq<char> },
}

impl View for Service {
    type V = ServiceView;

    open spec fn view(&self) -> ServiceView {
        match self {
            Service::Host { kind, port } => ServiceView::Host { kind: kind@, port: *port },
            Service::Search { kind } => ServiceView::Search { kind: kind@ },
        }
    }
}

impl ServiceView {
    /// The matching relation: `self` is an offer and `peer_service` a search for the
    /// same kind. Kinds are compared exactly, case included.
    pub open spec fn wanted_by(self, peer_service: ServiceView) -> bool {
        match (self, peer_service) {
            (ServiceView::Host { kind, .. }, ServiceView::Search { kind: wanted }) => kind == wanted,
            _ => false,
        }
    }
}

impl Service {
    /// Whether this service is an offer that `peer_service` searches for.
    pub fn wanted_by(&self, peer_service: &Service) -> (wanted: bool)
        ensures
            wanted == self@.wanted_by(peer_service@),
    {
        match (self, peer_service) {
            (Service::Host { kind, .. }, Service::Search { kind: peer_wanted_kind }) => {
                *kind == *peer_wanted_kind
            },
            _ => false,
        }
    }
}

impl Clone for Service {
    fn clone(&self) -> (copy: Service)
        ensures
            copy@ == self@,
    {
        match self {
            Service::Host { kind, port } => Service::Host { kind: kind.clone(), port: *port },
            Service::Search { kind } => Service::Search { kind: kind.clone() },
        }
    }
}

impl PartialEq for Service {
    fn eq(&self, other: &Service) -> (equal: bool) {
        match (self, other) {
            (Service::Host { kind, port }, Service::Host { kind: other_kind, port: other_port }) => {
                *kind == *other_kind && *port == *other_port
            },
            (Service::Search { kind }, Service::Search { kind: other_kind }) => *kind == *other_kind,
            _ => false,
        }
    }
}

impl PartialEqSpecImpl for Service {
    open spec fn obeys_eq_spec() -> bool {
        true
    }

    open spec fn eq_spec(&self, other: &Service) -> bool {
        self@ == other@
    }
}

} // verus!
