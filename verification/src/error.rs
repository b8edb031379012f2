//! Errors of an endpoint, from configuration to shutdown.

use crate::descriptor::ServiceInfo;
use vstd::prelude::*;

verus! {

/// `std::io::Error`, carried through unread.
#[verifier::external_type_specification]
#[verifier::external_body]
pub struct ExIoError(std::io::Error);

/// `std::fmt::Error`, carried through unread.
#[verifier::external_type_specification]
#[verifier::external_body]
pub struct ExFmtError(std::fmt::Error);

/// `std::sync::mpsc::RecvError`, carried through unread.
#[verifier::external_type_specification]
#[verifier::external_body]
pub struct ExRecvError(std::sync::mpsc::RecvError);

/// `serde_json::Error`, carried through unread.
#[verifier::external_type_specification]
#[verifier::external_body]
pub struct ExJsonError(serde_json::Error);

/// `local_ip_address::Error`, carried through unread.
#[verifier::external_type_specification]
#[verifier::external_body]
pub struct ExLocalAddrError(local_ip_address::Error);

/// `tokio::task::JoinError`, carried through unread.
#[verifier::external_type_specification]
#[verifier::external_body]
pub struct ExJoinError(tokio::task::JoinError);

/// What can go wrong while an endpoint is configured, runs or shuts down.
///
/// Causes that come from elsewhere are kept as they were reported.
#[derive(Debug)]
pub enum UdisError {
    /// Formatting a message failed.
    FmtError(std::fmt::Error),
    /// The transport could not be opened, or an announcement could not be sent.
    IoError(std::io::Error),
    /// The kind or the port is already hosted on this endpoint.
    DuplicateService { kind: String, port: u16 },
    /// The local IP address could not be determined.
    LocalAddrError(local_ip_address::Error),
    /// The background thread has already stopped.
    BackgroundThreadShutdown,
    /// No service information can arrive any more.
    ServiceInfoRecvError(std::sync::mpsc::RecvError),
    /// The local descriptor could not be encoded.
    FailedToSerialiseNotifyMsg(serde_json::Error),
    /// An inbound datagram could not be decoded.
    FailedToDeserialiseNotifyMsg(serde_json::Error),
    /// A discovered service could not be handed to the consumer of a blocking endpoint.
    FailedToSendServiceInfo(ServiceInfo),
    /// A discovered service could not be handed to the consumer of a task-based endpoint.
    FailedToSendServiceInfoTokio(ServiceInfo),
    /// The background thread could not be asked to stop, or did not end cleanly.
    FailedToShutdownUdisThread,
    /// The background task could not be asked to stop.
    FailedToShutdownUdisTask,
    /// The background task could not be joined.
    FailedToJoinUdisTask(tokio::task::JoinError),
    /// The background task has stopped and delivers nothing more.
    ServiceInfoChannelClosed,
}

} // verus!
