//! Decentralised service discovery over multicast announcements.
//!
//! An endpoint either hosts named services or searches for them. This crate holds the
//! data model, the matching rules, the peer registry and the discovery engine as a
//! state machine that performs no I/O of its own: the caller owns the socket and the
//! channels, feeds the engine one event at a time and carries out what it asks for.

pub mod addr;
pub mod behaviour;
pub mod builder;
pub mod descriptor;
pub mod engine;
pub mod error;
pub mod net;
pub mod registry;
pub mod service;

pub use addr::IpAddress;
pub use builder::{Builder, BuilderView};
pub use engine::{Cmd, Engine, EngineView, Event, Reaction, ReactionView, Status};
pub use error::UdisError;
pub use registry::PeerRegistry;
pub use descriptor::{ServiceInfo, ServiceInfoView, Udis, UdisView};
pub use service::{Service, ServiceView};
