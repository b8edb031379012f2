//! Configuration of the local endpoint.

use crate::addr::IpAddress;
use crate::descriptor::{clone_services, service_views, Udis, UdisView};
use crate::error::UdisError;
use crate::service::{Service, ServiceView};
use vstd::prelude::*;

verus! {

/// A configuration in progress: the endpoint's name, the address it will announce, if
/// one was set, and the services declared so far.
///
/// No two hosted services of a builder share a kind, and no two share a port.
#[derive(Debug)]
pub struct Builder {
    name: String,
    addr: Option<IpAddress>,
    services: Vec<Service>,
}

/// Mathematical value of a [`Builder`].
pub struct BuilderView {
    pub name: Seq<char>,
    pub addr: Option<IpAddress>,
    pub services: Seq<ServiceView>,
}

/// Whether `services` already holds an offer of the kind `kind` or on the port `port`.
pub open spec fn hosts_kind_or_port(services: Seq<ServiceView>, kind: Seq<char>, port: u16) -> bool {
    exists|i: int|
        0 <= i < services.len() && (#[trigger] services[i] matches ServiceView::Host {
            kind: k,
            port: p,
        } && (k == kind || p == port))
}

/// Whether no two offers in `services` share a kind and no two share a port.
pub open spec fn hosts_unique(services: Seq<ServiceView>) -> bool {
    forall|i: int, j: int|
        0 <= i < j < services.len() && (#[trigger] services[i]) is Host && (
        #[trigger] services[j]) is Host ==> services[i]->Host_kind != services[j]->Host_kind
            && services[i]->port != services[j]->port
}

impl View for Builder {
    type V = BuilderView;

    closed spec fn view(&self) -> BuilderView {
        BuilderView { name: self.name@, addr: self.addr, services: service_views(self.services@) }
    }
}

impl Builder {
    #[verifier::type_invariant]
    spec fn well_formed(&self) -> bool {
        hosts_unique(service_views(self.services@))
    }

    /// A configuration of the endpoint `name`, with no address and no services yet.
    pub fn new(name: String) -> (builder: Builder)
        ensures
            builder@ == (BuilderView { name: name@, addr: None, services: Seq::empty() }),
    {
        let builder = Builder { name, addr: None, services: Vec::new() };
        assert(service_views(builder.services@) =~= Seq::empty());
        builder
    }

    /// Sets the address that the endpoint will be visible on. Without one, the address
    /// handed to [`Builder::build`] is used.
    pub fn addr(self, ip: IpAddress) -> (builder: Builder)
        ensures
            builder@ == (BuilderView { addr: Some(ip), ..self@ }),
    {
        proof {
            use_type_invariant(&self);
        }
        Builder { name: self.name, addr: Some(ip), services: self.services }
    }

    /// Declares that the endpoint hosts a service of `kind` on `port`.
    ///
    /// Fails with [`UdisError::DuplicateService`], and declares nothing, exactly when the
    /// kind or the port is already hosted on this endpoint.
    pub fn host(self, kind: String, port: u16) -> (result: Result<Builder, UdisError>)
        ensures
            match result {
                Ok(builder) => {
                    &&& !hosts_kind_or_port(self@.services, kind@, port)
                    &&& builder@ == (BuilderView {
                        services: self@.services.push(ServiceView::Host { kind: kind@, port }),
                        ..self@
                    })
                },
                Err(error) => {
                    &&& hosts_kind_or_port(self@.services, kind@, port)
                    &&& error matches UdisError::DuplicateService { kind: k, port: p }
                    &&& k@ == kind@
                    &&& p == port
                },
            },
    {
        proof {
            use_type_invariant(&self);
        }
        let ghost views = self@.services;
        let mut i: usize = 0;
        while i < self.services.len()
            invariant
                i <= self.services.len(),
                views == service_views(self.services@),
                forall|j: int|
                    0 <= j < i ==> !(#[trigger] views[j] matches ServiceView::Host {
                        kind: k,
                        port: p,
                    } && (k == kind@ || p == port)),
            decreases self.services.len() - i,
        {
            if let Service::Host { kind: k, port: p } = &self.services[i] {
                if *k == kind || *p == port {
                    assert(views[i as int] matches ServiceView::Host { kind: k, port: p } && (k
                        == kind@ || p == port));
                    return Err(UdisError::DuplicateService { kind, port });
                }
            }
            i += 1;
        }
        let mut services = self.services;
        services.push(Service::Host { kind, port });
        assert(service_views(services@) =~= views.push(ServiceView::Host { kind: kind@, port }));
        Ok(Builder { name: self.name, addr: self.addr, services })
    }

    /// Declares that the endpoint searches for a service of `kind`.
    pub fn search(self, kind: String) -> (builder: Builder)
        ensures
            builder@ == (BuilderView {
                services: self@.services.push(ServiceView::Search { kind: kind@ }),
                ..self@
            }),
    {
        proof {
            use_type_invariant(&self);
        }
        let ghost views = self@.services;
        let mut services = self.services;
        services.push(Service::Search { kind });
        assert(service_views(services@) =~= views.push(ServiceView::Search { kind: kind@ }));
        Builder { name: self.name, addr: self.addr, services }
    }

    /// The address that was set with [`Builder::addr`], if any.
    pub fn configured_addr(&self) -> (addr: Option<IpAddress>)
        ensures
            addr == self@.addr,
    {
        self.addr
    }

    /// Completes the configuration. The endpoint announces the address that was set, or
    /// `fallback` if none was.
    pub fn build(self, fallback: IpAddress) -> (udis: Udis)
        ensures
            udis@ == (UdisView {
                name: self@.name,
                addr: match self@.addr {
                    Some(addr) => addr,
                    None => fallback,
                },
                services: self@.services,
            }),
            hosts_unique(udis@.services),
    {
        proof {
            use_type_invariant(&self);
        }
        let addr = match self.addr {
            Some(addr) => addr,
            None => fallback,
        };
        Udis::build(self.name, addr, self.services)
    }
}

impl Clone for Builder {
    fn clone(&self) -> (copy: Builder)
        ensures
            copy@ == self@,
    {
        proof {
            use_type_invariant(self);
        }
        Builder {
            name: self.name.clone(),
            addr: self.addr,
            services: clone_services(&self.services),
        }
    }
}

} // verus!
