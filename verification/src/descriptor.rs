//! The endpoint descriptor that is announced on the wire, and the matches found in it.

use crate::addr::IpAddress;
use crate::builder::{Builder, BuilderView};
use crate::service::{Service, ServiceView};
use vstd::prelude::*;
use vstd::std_specs::cmp::PartialEqSpecImpl;

verus! {

/// An endpoint as it announces itself: its name, the address it is reachable at and
/// the services it hosts or searches for, in declaration order.
///
/// Two descriptors are the same endpoint only if all three agree, the order of the
/// services included.
#[derive(Debug, Eq, Hash)]
pub struct Udis {
    name: String,
    addr: IpAddress,
    services: Vec<Service>,
}

/// Mathematical value of a [`Udis`].
pub struct UdisView {
    pub name: Seq<char>,
    pub addr: IpAddress,
    pub services: Seq<ServiceView>,
}

/// A discovered service: a peer's offer that answers one of the local searches.
#[derive(Debug, Eq, Hash)]
pub struct ServiceInfo {
    /// The name of the endpoint hosting the service.
    pub name: String,
    /// The kind of service being hosted.
    pub kind: String,
    /// The address of the endpoint hosting the service.
    pub addr: IpAddress,
    /// The port the service is hosted on.
    pub port: u16,
}

/// Mathematical value of a [`ServiceInfo`].
pub struct ServiceInfoView {
    pub name: Seq<char>,
    pub kind: Seq<char>,
    pub addr: IpAddress,
    pub port: u16,
}

/// The values of a list of services, in order.
pub open spec fn service_views(services: Seq<Service>) -> Seq<ServiceView> {
    services.map_values(|s: Service| s@)
}

/// The values of a list of borrowed services, in order.
pub open spec fn borrowed_service_views(services: Seq<&Service>) -> Seq<ServiceView> {
    services.map_values(|s: &Service| s@)
}

/// The values of a list of discovered services, in order.
pub open spec fn info_views(infos: Seq<ServiceInfo>) -> Seq<ServiceInfoView> {
    infos.map_values(|i: ServiceInfo| i@)
}

/// Whether at least one entry of `peer_services` searches for the offer `service`.
pub open spec fn wanted_by_any(service: ServiceView, peer_services: Seq<ServiceView>) -> bool {
    exists|j: int|
        0 <= j < peer_services.len() && service.wanted_by(#[trigger] peer_services[j])
}

impl View for Udis {
    type V = UdisView;

    closed spec fn view(&self) -> UdisView {
        UdisView {
            name: self.name@,
            addr: self.addr,
            services: service_views(self.services@),
        }
    }
}

impl View for ServiceInfo {
    type V = ServiceInfoView;

    open spec fn view(&self) -> ServiceInfoView {
        ServiceInfoView { name: self.name@, kind: self.kind@, addr: self.addr, port: self.port }
    }
}

impl UdisView {
    /// The entries of `self` that are offers searched for by at least one entry of
    /// `peer`, in declaration order.
    pub open spec fn wanted_services(self, peer: UdisView) -> Seq<ServiceView> {
        self.services.filter(|s: ServiceView| wanted_by_any(s, peer.services))
    }

    /// The match that the offer `service` of this endpoint stands for.
    pub open spec fn info_of(self, service: ServiceView) -> ServiceInfoView {
        ServiceInfoView {
            name: self.name,
            kind: service->Host_kind,
            addr: self.addr,
            port: service->port,
        }
    }

    /// What a searcher `local` learns from this endpoint: one match for each of its
    /// offers that `local` searches for, in declaration order.
    pub open spec fn discoveries(self, local: UdisView) -> Seq<ServiceInfoView> {
        self.wanted_services(local).map_values(|s: ServiceView| self.info_of(s))
    }
}

/// An entry is among the wanted services of `host` exactly when it is an offer of
/// `host` and `searcher` searches for its kind.
pub proof fn lemma_wanted_iff_offered_and_searched(
    host: UdisView,
    searcher: UdisView,
    service: ServiceView,
)
    ensures
        host.wanted_services(searcher).contains(service) <==> (service is Host
            && host.services.contains(service) && searcher.services.contains(
            ServiceView::Search { kind: service->Host_kind },
        )),
{
    let pred = |s: ServiceView| wanted_by_any(s, searcher.services);
    let wanted = host.wanted_services(searcher);
    if wanted.contains(service) {
        let k = choose|k: int| 0 <= k < wanted.len() && wanted[k] == service;
        host.services.lemma_filter_pred(pred, k);
        host.services.lemma_filter_contains_rev(pred, service);
        let j = choose|j: int|
            0 <= j < searcher.services.len() && service.wanted_by(#[trigger] searcher.services[j]);
        assert(searcher.services[j] == ServiceView::Search { kind: service->Host_kind });
    }
    if service is Host && host.services.contains(service) && searcher.services.contains(
        ServiceView::Search { kind: service->Host_kind },
    ) {
        let i = choose|i: int| 0 <= i < host.services.len() && host.services[i] == service;
        let j = choose|j: int|
            0 <= j < searcher.services.len() && searcher.services[j] == (ServiceView::Search {
                kind: service->Host_kind,
            });
        assert(service.wanted_by(searcher.services[j]));
        host.services.lemma_filter_contains(pred, i);
    }
}

/// A service is found in `peer` exactly when it carries the name and the address of
/// `peer`, `peer` offers its kind on its port, and `local` searches for its kind.
pub proof fn lemma_found_iff_offered_and_searched(
    peer: UdisView,
    local: UdisView,
    info: ServiceInfoView,
)
    ensures
        peer.discoveries(local).contains(info) <==> (info.name == peer.name && info.addr
            == peer.addr && peer.services.contains(
            ServiceView::Host { kind: info.kind, port: info.port },
        ) && local.services.contains(ServiceView::Search { kind: info.kind })),
{
    let wanted = peer.wanted_services(local);
    let found = peer.discoveries(local);
    let offer = ServiceView::Host { kind: info.kind, port: info.port };
    lemma_wanted_iff_offered_and_searched(peer, local, offer);
    if found.contains(info) {
        let k = choose|k: int| 0 <= k < found.len() && found[k] == info;
        assert(wanted.contains(wanted[k]));
        lemma_wanted_iff_offered_and_searched(peer, local, wanted[k]);
        assert(wanted[k] == offer);
    }
    if info.name == peer.name && info.addr == peer.addr && wanted.contains(offer) {
        let k = choose|k: int| 0 <= k < wanted.len() && wanted[k] == offer;
        assert(found[k] == info);
    }
}

impl Udis {
    /// Starts the configuration of an endpoint that will announce itself as `name`.
    pub fn new(name: String) -> (builder: Builder)
        ensures
            builder@ == (BuilderView { name: name@, addr: None, services: Seq::empty() }),
    {
        Builder::new(name)
    }

    /// Puts a descriptor together from its parts.
    pub fn build(name: String, addr: IpAddress, services: Vec<Service>) -> (udis: Udis)
        ensures
            udis@ == (UdisView { name: name@, addr, services: service_views(services@) }),
    {
        Udis { name, addr, services }
    }

    /// The name that the endpoint announces.
    pub fn name(&self) -> (name: &String)
        ensures
            name@ == self@.name,
    {
        &self.name
    }

    /// The address that the endpoint is reachable at.
    pub fn addr(&self) -> (addr: IpAddress)
        ensures
            addr == self@.addr,
    {
        self.addr
    }

    /// The services of the endpoint, in declaration order.
    pub fn services(&self) -> (services: &Vec<Service>)
        ensures
            service_views(services@) == self@.services,
    {
        &self.services
    }

    /// Whether at least one entry of this endpoint searches for the offer `service`.
    pub fn wants(&self, service: &Service) -> (wanted: bool)
        ensures
            wanted == wanted_by_any(service@, self@.services),
    {
        let ghost views = self@.services;
        let mut i: usize = 0;
        while i < self.services.len()
            invariant
                i <= self.services.len(),
                views == service_views(self.services@),
                forall|j: int| 0 <= j < i ==> !service@.wanted_by(#[trigger] views[j]),
            decreases self.services.len() - i,
        {
            if service.wanted_by(&self.services[i]) {
                assert(service@.wanted_by(views[i as int]));
                return true;
            }
            i += 1;
        }
        false
    }

    /// The entries of this endpoint that are offers searched for by at least one entry
    /// of `peer`, in declaration order.
    ///
    /// Used both ways round: with the local endpoint as `self` to learn whether a peer is
    /// interested in it, and with the peer as `self` to learn what the local endpoint
    /// has found.
    pub fn get_wanted_services<'a>(&'a self, peer: &Udis) -> (wanted: Vec<&'a Service>)
        ensures
            borrowed_service_views(wanted@) == self@.wanted_services(peer@),
    {
        let ghost views = self@.services;
        let ghost pred = |s: ServiceView| wanted_by_any(s, peer@.services);
        let mut wanted: Vec<&'a Service> = Vec::new();
        let mut i: usize = 0;
        proof {
            reveal(Seq::filter);
            assert(views.take(0) =~= Seq::<ServiceView>::empty());
            assert(borrowed_service_views(wanted@) =~= views.take(0).filter(pred));
        }
        while i < self.services.len()
            invariant
                i <= self.services.len(),
                views == service_views(self.services@),
                pred == |s: ServiceView| wanted_by_any(s, peer@.services),
                borrowed_service_views(wanted@) == views.take(i as int).filter(pred),
            decreases self.services.len() - i,
        {
            let service = &self.services[i];
            let ghost before = wanted@;
            proof {
                views.lemma_take_succ_push(i as int);
                views.take(i as int).lemma_filter_push(views[i as int], pred);
            }
            if peer.wants(service) {
                wanted.push(service);
                assert(borrowed_service_views(wanted@) =~= borrowed_service_views(before).push(
                    service@,
                ));
            }
            i += 1;
        }
        assert(views.take(i as int) =~= views);
        wanted
    }

    /// What the searcher `local` learns from this endpoint: one match for each offer of
    /// this endpoint that `local` searches for, in declaration order.
    pub fn discoveries(&self, local: &Udis) -> (found: Vec<ServiceInfo>)
        ensures
            info_views(found@) == self@.discoveries(local@),
    {
        let wanted = self.get_wanted_services(local);
        let ghost offers = self@.wanted_services(local@);
        let ghost pred = |s: ServiceView| wanted_by_any(s, local@.services);
        let ghost info = |s: ServiceView| self@.info_of(s);
        let mut found: Vec<ServiceInfo> = Vec::new();
        let mut i: usize = 0;
        assert(offers.len() == wanted.len());
        while i < wanted.len()
            invariant
                i <= wanted.len(),
                offers == self@.services.filter(pred),
                offers == borrowed_service_views(wanted@),
                pred == |s: ServiceView| wanted_by_any(s, local@.services),
                info == |s: ServiceView| self@.info_of(s),
                info_views(found@) == offers.take(i as int).map_values(info),
            decreases wanted.len() - i,
        {
            let ghost before = found@;
            proof {
                self@.services.lemma_filter_pred(pred, i as int);
                assert(offers[i as int] == wanted[i as int]@);
                assert(offers[i as int] is Host);
            }
            // An entry that is no offer cannot have been selected; it is passed over.
            if let Service::Host { kind, port } = wanted[i] {
                let service_info = ServiceInfo {
                    name: self.name.clone(),
                    kind: kind.clone(),
                    addr: self.addr,
                    port: *port,
                };
                found.push(service_info);
                assert(info_views(found@) =~= info_views(before).push(info(offers[i as int])));
            }
            proof {
                assert(offers.take(i + 1) =~= offers.take(i as int).push(offers[i as int]));
                assert(offers.take(i + 1).map_values(info) =~= offers.take(i as int).map_values(
                    info,
                ).push(info(offers[i as int])));
            }
            i += 1;
        }
        assert(offers.take(i as int) =~= offers);
        found
    }
}

/// A copy of `services`, entry by entry.
pub(crate) fn clone_services(services: &Vec<Service>) -> (copy: Vec<Service>)
    ensures
        service_views(copy@) == service_views(services@),
{
    let mut copy: Vec<Service> = Vec::new();
    let mut i: usize = 0;
    while i < services.len()
        invariant
            i <= services.len(),
            copy.len() == i,
            forall|j: int| 0 <= j < i ==> (#[trigger] copy[j])@ == services[j]@,
        decreases services.len() - i,
    {
        copy.push(services[i].clone());
        i += 1;
    }
    assert(service_views(copy@) =~= service_views(services@));
    copy
}

impl Clone for Udis {
    fn clone(&self) -> (copy: Udis)
        ensures
            copy@ == self@,
    {
        Udis {
            name: self.name.clone(),
            addr: self.addr,
            services: clone_services(&self.services),
        }
    }
}

impl PartialEq for Udis {
    fn eq(&self, other: &Udis) -> (equal: bool) {
        if !(self.name == other.name) || self.addr != other.addr || self.services.len()
            != other.services.len() {
            assert(service_views(self.services@).len() == self.services.len());
            assert(service_views(other.services@).len() == other.services.len());
            return false;
        }
        let mut i: usize = 0;
        while i < self.services.len()
            invariant
                i <= self.services.len(),
                self.services.len() == other.services.len(),
                forall|j: int| 0 <= j < i ==> (#[trigger] self.services[j])@ == other.services[j]@,
            decreases self.services.len() - i,
        {
            if self.services[i] != other.services[i] {
                assert(service_views(self.services@)[i as int] == self.services[i as int]@);
                assert(service_views(other.services@)[i as int] == other.services[i as int]@);
                return false;
            }
            i += 1;
        }
        assert(service_views(self.services@) =~= service_views(other.services@));
        true
    }
}

impl PartialEqSpecImpl for Udis {
    open spec fn obeys_eq_spec() -> bool {
        true
    }

    open spec fn eq_spec(&self, other: &Udis) -> bool {
        self@ == other@
    }
}

impl Clone for ServiceInfo {
    fn clone(&self) -> (copy: ServiceInfo)
        ensures
            copy@ == self@,
    {
        ServiceInfo {
            name: self.name.clone(),
            kind: self.kind.clone(),
            addr: self.addr,
            port: self.port,
        }
    }
}

impl PartialEq for ServiceInfo {
    fn eq(&self, other: &ServiceInfo) -> (equal: bool) {
        self.name == other.name && self.kind == other.kind && self.addr == other.addr
            && self.port == other.port
    }
}

impl PartialEqSpecImpl for ServiceInfo {
    open spec fn obeys_eq_spec() -> bool {
        true
    }

    open spec fn eq_spec(&self, other: &ServiceInfo) -> bool {
        self@ == other@
    }
}

} // verus!
