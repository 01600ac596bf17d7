//! Error kinds of the page transport.

use vstd::prelude::*;

verus! {

/// How a peer broke the page protocol.
#[derive(Debug, Clone, Copy, PartialEq, Eq, Structural)]
pub enum ProtocolViolation {
    /// The bytes end before the frame or the message does.
    Truncated,
    /// The frame announces a payload above the limit.
    FrameTooLarge,
    /// The payload is no message of the protocol.
    MalformedMessage,
    /// A page payload is not exactly one page long.
    WrongPageSize,
    /// The reply is of a kind that does not answer the request.
    UnexpectedResponse,
}

/// Why a verbs operation failed.
#[derive(Debug, Clone, Copy, PartialEq, Eq, Structural)]
pub enum RdmaFailure {
    /// The work request could not be posted.
    PostFailed,
    /// Polling the completion queue failed.
    PollFailed,
    /// A completion arrived with the given status, which is not success.
    CompletionStatus(u32),
    /// No device, or no registered page pool, is available.
    Unavailable,
    /// The system lists no device.
    NoDevices,
    /// No device has the name that was asked for.
    DeviceNotFound,
    /// The device could not be opened.
    OpenFailed,
    /// No protection domain could be allocated.
    PdAllocFailed,
    /// A completion queue could not be created.
    CqCreateFailed,
    /// The queue pair could not be created.
    QpCreateFailed,
    /// The device could not be queried.
    DeviceQueryFailed,
    /// The port could not be queried.
    PortQueryFailed,
    /// The memory region could not be registered.
    RegistrationFailed,
    /// The queue pair could not be taken to the state with the given number.
    TransitionFailed(u32),
}

/// Failure of a page transport operation.
#[derive(Debug, Clone, PartialEq, Eq)]
pub enum TransportError {
    /// The peer could not be reached; the text says why.
    ConnectionFailed(String),
    /// The peer broke the protocol.
    ProtocolError(ProtocolViolation),
    /// No completion within the time allowed.
    Timeout,
    /// No connection to the node has been set up.
    NodeNotConnected(u32),
    /// The node is not known at all.
    NodeNotFound(u32),
    /// A verbs operation failed.
    RdmaFailed(RdmaFailure),
    /// The peer answered with an error message of its own.
    Remote(String),
    /// The endpoint is of another kind of transport than this one.
    EndpointMismatch,
    /// No remote location is registered for the page at this address.
    PageNotRegistered(u64),
}


/// The stages of bringing a pager up, in their order.
#[derive(Debug, Clone, Copy, PartialEq, Eq, Structural)]
pub enum StartupStage {
    /// Opening the kernel's fault channel.
    OpenFaultChannel,
    /// Registering the guest range with the fault channel.
    RegisterRange,
    /// Bringing a transport up.
    InitTransport,
    /// Publishing the local endpoint to the coordinator.
    RegisterEndpoint,
    /// Fetching the peers' endpoints and connecting to them.
    ConnectPeers,
    /// Starting the fault worker.
    SpawnWorker,
}

/// Why a pager could not be started.
#[derive(Debug, Clone, Copy, PartialEq, Eq, Structural)]
pub enum SetupError {
    /// The guest range is not a whole number of pages or wraps the address
    /// space.
    InvalidRange,
    /// Neither backend came up.
    NoTransportAvailable,
    /// Every port of the listener range is taken.
    NoPortAvailable,
    /// Binding the listener failed for another reason than a taken port.
    ListenerFailed,
    /// A key of the coordinator's registry is no node id.
    InvalidNodeId,
    /// An entry of the coordinator's registry is no endpoint.
    InvalidEndpoint,
    /// Connecting to the peer with the given id failed.
    PeerConnectFailed(u32),
    /// The coordinator answered with the given status, which is not 2xx.
    CoordinatorStatus(u16),
    /// The given stage of the startup failed outside this library.
    StageFailed(StartupStage),
}

} // verus!
