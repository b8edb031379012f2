//! The discovery engine: what an endpoint does with each thing that happens to it.
//!
//! The engine owns the local descriptor and the peer registry and touches neither socket
//! nor channel. Its caller waits for the next command or datagram, hands it over as an
//! [`Event`], and carries out the [`Reaction`]: first the announcement, if one is asked
//! for, then the deliveries in order. A step that cannot be carried out is reported back
//! as an event of its own, and what was left of the reaction is dropped.

use crate::descriptor::{info_views, ServiceInfo, ServiceInfoView, Udis, UdisView};
use crate::error::UdisError;
use crate::registry::PeerRegistry;
use vstd::prelude::*;

verus! {

/// What the consumer can ask of a running engine.
#[derive(Debug, Clone, Copy, PartialEq, Eq, Structural)]
pub enum Cmd {
    /// Stop.
    Shutdown,
}

/// One thing that happened to the endpoint.
#[derive(Debug)]
pub enum Event {
    /// The consumer sent a command.
    Command(Cmd),
    /// The command channel was closed without a command to stop.
    CommandsClosed,
    /// A datagram arrived and decoded to this descriptor.
    Announcement(Udis),
    /// A datagram arrived that is no descriptor.
    Malformed(serde_json::Error),
    /// Nothing could be received this time.
    ReceiveFailed(std::io::Error),
    /// The transport could not be opened, or an announcement could not be sent.
    TransportFailed(std::io::Error),
    /// The local descriptor could not be encoded.
    EncodeFailed(serde_json::Error),
    /// A discovered service could not be delivered: the consumer is gone.
    OutputClosed(ServiceInfo),
}

/// Where the engine stands. It starts running, terminates once and stays terminated.
#[derive(Debug)]
pub enum Status {
    Running,
    /// Stopped, with the result to report: success after a shutdown, else the error
    /// that stopped it.
    Terminated(Result<(), UdisError>),
}

/// What the caller has to do after an event, in this order.
#[derive(Debug)]
pub struct Reaction {
    /// Send the local descriptor to the discovery group.
    pub announce: bool,
    /// Deliver these to the consumer, first to last.
    pub found: Vec<ServiceInfo>,
}

/// Mathematical value of a [`Reaction`].
pub struct ReactionView {
    pub announce: bool,
    pub found: Seq<ServiceInfoView>,
}

impl View for Reaction {
    type V = ReactionView;

    open spec fn view(&self) -> ReactionView {
        ReactionView { announce: self.announce, found: info_views(self.found@) }
    }
}

impl ReactionView {
    /// Nothing to send and nothing to deliver.
    pub open spec fn nothing() -> ReactionView {
        ReactionView { announce: false, found: Seq::empty() }
    }
}

/// The discovery engine of one endpoint.
#[derive(Debug)]
pub struct Engine {
    local: Udis,
    registry: PeerRegistry,
    status: Status,
}

/// Mathematical value of an [`Engine`].
pub struct EngineView {
    pub local: UdisView,
    pub peers: Set<UdisView>,
    pub status: Status,
}

impl View for Engine {
    type V = EngineView;

    closed spec fn view(&self) -> EngineView {
        EngineView { local: self.local@, peers: self.registry@, status: self.status }
    }
}

impl EngineView {
    /// The engine of the endpoint `local` as it starts: running, with no peer known.
    pub open spec fn initial(local: UdisView) -> EngineView {
        EngineView { local, peers: Set::empty(), status: Status::Running }
    }

    /// Whether `peer` is a descriptor that a running engine acts on: not its own, and
    /// not seen before.
    pub open spec fn is_novel(self, peer: UdisView) -> bool {
        peer != self.local && !self.peers.contains(peer)
    }

    /// This engine, stopped with `result`.
    pub open spec fn terminated(self, result: Result<(), UdisError>) -> EngineView {
        EngineView { status: Status::Terminated(result), ..self }
    }

    /// The engine after `event`.
    pub open spec fn step(self, event: Event) -> EngineView {
        match self.status {
            Status::Terminated(_) => self,
            Status::Running => match event {
                Event::Command(Cmd::Shutdown) => self.terminated(Ok(())),
                Event::CommandsClosed => self.terminated(Ok(())),
                Event::Announcement(peer) => if self.is_novel(peer@) {
                    EngineView { peers: self.peers.insert(peer@), ..self }
                } else {
                    self
                },
                Event::Malformed(cause) => self.terminated(
                    Err(UdisError::FailedToDeserialiseNotifyMsg(cause)),
                ),
                Event::ReceiveFailed(_) => self,
                Event::TransportFailed(cause) => self.terminated(Err(UdisError::IoError(cause))),
                Event::EncodeFailed(cause) => self.terminated(
                    Err(UdisError::FailedToSerialiseNotifyMsg(cause)),
                ),
                Event::OutputClosed(undelivered) => self.terminated(
                    Err(UdisError::FailedToSendServiceInfo(undelivered)),
                ),
            },
        }
    }

    /// What `event` asks of the caller.
    ///
    /// Only the first announcement of a peer asks for anything: an announcement of the
    /// local descriptor if the peer searches for something hosted here, and a delivery
    /// for each of the peer's offers that is searched for here.
    pub open spec fn reaction(self, event: Event) -> ReactionView {
        match (self.status, event) {
            (Status::Running, Event::Announcement(peer)) => if self.is_novel(peer@) {
                ReactionView {
                    announce: self.local.wanted_services(peer@).len() > 0,
                    found: peer@.discoveries(self.local),
                }
            } else {
                ReactionView::nothing()
            },
            _ => ReactionView::nothing(),
        }
    }
}

impl Engine {
    /// Starts the engine of the endpoint `local`. The first thing it asks for is the
    /// announcement of the local descriptor.
    pub fn start(local: Udis) -> (started: (Engine, Reaction))
        ensures
            started.0@ == EngineView::initial(local@),
            started.1@ == (ReactionView { announce: true, found: Seq::empty() }),
    {
        let engine = Engine { local, registry: PeerRegistry::new(), status: Status::Running };
        let reaction = Reaction { announce: true, found: Vec::new() };
        assert(info_views(reaction.found@) =~= Seq::empty());
        (engine, reaction)
    }

    /// The descriptor of the local endpoint.
    pub fn local(&self) -> (local: &Udis)
        ensures
            local@ == self@.local,
    {
        &self.local
    }

    /// The peers seen so far.
    pub fn registry(&self) -> (registry: &PeerRegistry)
        ensures
            registry@ == self@.peers,
    {
        &self.registry
    }

    /// Where the engine stands.
    pub fn status(&self) -> (status: &Status)
        ensures
            *status == self@.status,
    {
        &self.status
    }

    /// Whether the engine still takes events.
    pub fn is_running(&self) -> (running: bool)
        ensures
            running == (self@.status is Running),
    {
        match self.status {
            Status::Running => true,
            Status::Terminated(_) => false,
        }
    }

    /// Gives up the engine for its result: `None` while it is running, else what it
    /// terminated with.
    pub fn finish(self) -> (result: Option<Result<(), UdisError>>)
        ensures
            result == match self@.status {
                Status::Running => None::<Result<(), UdisError>>,
                Status::Terminated(outcome) => Some(outcome),
            },
    {
        match self.status {
            Status::Running => None,
            Status::Terminated(outcome) => Some(outcome),
        }
    }

    /// Takes `event` and says what the caller has to do.
    pub fn step(&mut self, event: Event) -> (reaction: Reaction)
        ensures
            final(self)@ == old(self)@.step(event),
            reaction@ == old(self)@.reaction(event),
    {
        let mut reaction = Reaction { announce: false, found: Vec::new() };
        assert(info_views(reaction.found@) =~= Seq::empty());
        if !self.is_running() {
            return reaction;
        }
        match event {
            Event::Command(Cmd::Shutdown) => {
                self.status = Status::Terminated(Ok(()));
            },
            Event::CommandsClosed => {
                self.status = Status::Terminated(Ok(()));
            },
            Event::Announcement(peer) => {
                // Our own announcement comes back to us from the group.
                if peer == self.local {
                    return reaction;
                }
                if self.registry.contains(&peer) {
                    return reaction;
                }
                let interested = self.local.get_wanted_services(&peer).len() > 0;
                let found = peer.discoveries(&self.local);
                self.registry.insert(peer);
                reaction = Reaction { announce: interested, found };
            },
            Event::Malformed(cause) => {
                self.status = Status::Terminated(
                    Err(UdisError::FailedToDeserialiseNotifyMsg(cause)),
                );
            },
            Event::ReceiveFailed(_) => {},
            Event::TransportFailed(cause) => {
                self.status = Status::Terminated(Err(UdisError::IoError(cause)));
            },
            Event::EncodeFailed(cause) => {
                self.status = Status::Terminated(
                    Err(UdisError::FailedToSerialiseNotifyMsg(cause)),
                );
            },
            Event::OutputClosed(undelivered) => {
                self.status = Status::Terminated(
                    Err(UdisError::FailedToSendServiceInfo(undelivered)),
                );
            },
        }
        reaction
    }
}

} // verus!
