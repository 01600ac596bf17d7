//! The TCP backend without its sockets: which port the listener takes, what
//! a server answers to a request, what a client makes of a reply, and the
//! table of connected peers.

use crate::endpoint::{EndpointView, TransportEndpoint};
use crate::error::{ProtocolViolation, SetupError, TransportError};
use crate::transport::{tier_of, Backend, TcpMemoryRegion, TransportTier};
use crate::wire::{
    decode_message, encode_framed_message, encodable, frame_bytes, lemma_framed_message_round_trip,
    lemma_message_len, message_bytes, parse_framed_message, parse_message, Message, MessageView,
    MAX_FRAME_LEN,
};
use crate::{zero_page, zeroed_page, PAGE_SIZE};
use std::collections::HashMap;
use vstd::prelude::*;
use vstd::string::StringExecFns;

verus! {

broadcast use vstd::std_specs::hash::group_hash_axioms;

/// First port that the listener tries.
pub const PORT_RANGE_START: u16 = 50051;

/// Last port that the listener tries.
pub const PORT_RANGE_END: u16 = 50100;

/// The port that the listener takes where nothing else holds it.
pub const DEFAULT_PORT: u16 = 50051;

/// How an attempt to bind the listener to one port ended.
#[derive(Debug, Clone, Copy, PartialEq, Eq, Structural)]
pub enum BindOutcome {
    /// The listener is bound.
    Bound,
    /// The port is taken.
    AddrInUse,
    /// Binding failed for another reason.
    Failed,
}

/// What to do next while looking for a listener port.
#[derive(Debug, Clone, Copy, PartialEq, Eq, Structural)]
pub enum BindStep {
    /// Try to bind this port.
    Try(u16),
    /// Listen on this port, which is bound.
    Listen(u16),
    /// Give up.
    Fail(SetupError),
}

/// The step that follows the attempt `previous`; the first step where there
/// was none. Ports are tried upwards from `PORT_RANGE_START`; a taken port
/// leads to the next one up to `PORT_RANGE_END`, any other failure ends the
/// search.
pub open spec fn bind_step_after(previous: Option<(u16, BindOutcome)>) -> BindStep {
    match previous {
        None => BindStep::Try(PORT_RANGE_START),
        Some((port, BindOutcome::Bound)) => BindStep::Listen(port),
        Some((port, BindOutcome::AddrInUse)) => if port < PORT_RANGE_END {
            BindStep::Try((port + 1) as u16)
        } else {
            BindStep::Fail(SetupError::NoPortAvailable)
        },
        Some((port, BindOutcome::Failed)) => BindStep::Fail(SetupError::ListenerFailed),
    }
}

/// Where the search ends when it is about to try `port` and exactly the
/// ports of `free` can be bound.
pub open spec fn bind_search(free: Set<u16>, port: u16) -> BindStep
    decreases PORT_RANGE_END - port,
{
    if free.contains(port) {
        bind_step_after(Some((port, BindOutcome::Bound)))
    } else if port < PORT_RANGE_END {
        bind_search(free, (port + 1) as u16)
    } else {
        bind_step_after(Some((port, BindOutcome::AddrInUse)))
    }
}

/// The step that follows the attempt `previous` in the search for a
/// listener port.
pub fn next_bind_attempt(previous: Option<(u16, BindOutcome)>) -> (step: BindStep)
    ensures
        step == bind_step_after(previous),
{
    match previous {
        None => BindStep::Try(PORT_RANGE_START),
        Some((port, outcome)) => match outcome {
            BindOutcome::Bound => BindStep::Listen(port),
            BindOutcome::AddrInUse => if port < PORT_RANGE_END {
                BindStep::Try(port + 1)
            } else {
                BindStep::Fail(SetupError::NoPortAvailable)
            },
            BindOutcome::Failed => BindStep::Fail(SetupError::ListenerFailed),
        },
    }
}

/// The search takes the first free port of the range, and gives up exactly
/// where the range holds none.
pub proof fn lemma_bind_search_takes_first_free(free: Set<u16>, port: u16)
    requires
        PORT_RANGE_START <= port <= PORT_RANGE_END,
    ensures
        match bind_search(free, port) {
            BindStep::Listen(taken) => port <= taken <= PORT_RANGE_END && free.contains(taken)
                && forall|p: u16| port <= p < taken ==> !free.contains(p),
            BindStep::Fail(e) => e == SetupError::NoPortAvailable && forall|p: u16|
                port <= p <= PORT_RANGE_END ==> !free.contains(p),
            BindStep::Try(_) => false,
        },
    decreases PORT_RANGE_END - port,
{
    if !free.contains(port) && port < PORT_RANGE_END {
        lemma_bind_search_takes_first_free(free, (port + 1) as u16);
    }
}

/// What a server answers to `request`: a page of zeros to a fetch, an
/// acknowledgement to a page that was sent, and to a ping a pong with the
/// same timestamp. Nothing else is a request.
pub open spec fn reply_to(request: MessageView) -> Option<MessageView> {
    match request {
        MessageView::FetchPage { gpa } => Some(MessageView::PageData { gpa, data: zero_page() }),
        MessageView::SendPage { gpa, data } => Some(MessageView::Ack),
        MessageView::Ping { timestamp } => Some(MessageView::Pong { timestamp }),
        _ => None,
    }
}

/// What a client that asked for a page makes of `response`.
pub open spec fn page_in(response: Message) -> Result<Vec<u8>, TransportError> {
    match response {
        Message::PageData { gpa, data } => if data@.len() == PAGE_SIZE {
            Ok(data)
        } else {
            Err(TransportError::ProtocolError(ProtocolViolation::WrongPageSize))
        },
        Message::Error { message } => Err(TransportError::Remote(message)),
        _ => Err(TransportError::ProtocolError(ProtocolViolation::UnexpectedResponse)),
    }
}

/// What a client that sent a page makes of `response`.
pub open spec fn ack_in(response: Message) -> Result<(), TransportError> {
    match response {
        Message::Ack => Ok(()),
        Message::Error { message } => Err(TransportError::Remote(message)),
        _ => Err(TransportError::ProtocolError(ProtocolViolation::UnexpectedResponse)),
    }
}

/// What a client that sent a ping makes of `response` after `elapsed_us`
/// microseconds: any pong counts.
pub open spec fn latency_in(response: MessageView, elapsed_us: u64) -> Result<
    u64,
    TransportError,
> {
    match response {
        MessageView::Pong { timestamp } => Ok(elapsed_us),
        _ => Err(TransportError::ProtocolError(ProtocolViolation::UnexpectedResponse)),
    }
}

/// What the handler of a connection does after a frame.
#[derive(Debug, Clone, PartialEq, Eq)]
pub enum ConnectionStep {
    /// Send this frame, then read on.
    Reply(Vec<u8>),
    /// Read on without an answer.
    Continue,
    /// Close the connection for this reason.
    Close(TransportError),
    /// The peer has closed the connection between two frames: end without
    /// an error.
    End,
}

/// What a read came to that was to bring `announced` bytes and brought
/// `read` before the stream ended; `between_frames` says whether the read
/// was for the header of a next frame. Nothing is decided while all bytes
/// are there. A stream that ends before the first byte of a next frame has
/// ended in order; one that ends anywhere else inside a frame is a
/// truncated frame.
pub open spec fn read_outcome(between_frames: bool, announced: usize, read: usize) -> Option<
    ConnectionStep,
> {
    if read >= announced {
        None
    } else if between_frames && read == 0 {
        Some(ConnectionStep::End)
    } else {
        Some(ConnectionStep::Close(TransportError::ProtocolError(ProtocolViolation::Truncated)))
    }
}

/// What the handler of a connection does after a read that was to bring
/// `announced` bytes and brought `read`: it goes on with the frame where
/// all bytes are there (`None`), ends where the peer closed the connection
/// between two frames, and closes with a protocol error where the stream
/// ended inside a frame.
pub fn handle_read(between_frames: bool, announced: usize, read: usize) -> (step: Option<
    ConnectionStep,
>)
    ensures
        step == read_outcome(between_frames, announced, read),
{
    if read >= announced {
        None
    } else if between_frames && read == 0 {
        Some(ConnectionStep::End)
    } else {
        Some(ConnectionStep::Close(TransportError::ProtocolError(ProtocolViolation::Truncated)))
    }
}

/// The answer of a server to `request`, if it is a request.
pub fn respond(request: &Message) -> (reply: Option<Message>)
    ensures
        match reply {
            Some(message) => reply_to(request@) == Some(message@),
            None => reply_to(request@) is None,
        },
{
    match request {
        Message::FetchPage { gpa } => Some(Message::PageData { gpa: *gpa, data: zeroed_page() }),
        Message::SendPage { gpa, data } => Some(Message::Ack),
        Message::Ping { timestamp } => Some(Message::Pong { timestamp: *timestamp }),
        _ => None,
    }
}

/// Every answer of a server fits a frame.
pub proof fn lemma_reply_fits_frame(request: MessageView)
    requires
        reply_to(request) is Some,
    ensures
        message_bytes(reply_to(request)->0).len() <= MAX_FRAME_LEN,
{
    lemma_message_len(reply_to(request)->0);
}

/// The frame of an answer is read back by the client as that answer.
pub proof fn lemma_reply_reaches_client(request: MessageView)
    requires
        reply_to(request) is Some,
    ensures
        parse_framed_message(frame_bytes(message_bytes(reply_to(request)->0))) == Ok::<
            MessageView,
            ProtocolViolation,
        >(reply_to(request)->0),
{
    let reply = reply_to(request)->0;
    lemma_reply_fits_frame(request);
    assert(encodable(reply)) by {
        assert(zero_page().len() == PAGE_SIZE);
    }
    lemma_framed_message_round_trip(reply, Seq::<u8>::empty());
    assert(frame_bytes(message_bytes(reply)) + Seq::<u8>::empty() =~= frame_bytes(
        message_bytes(reply),
    ));
}

/// A ping is answered with a pong that carries the same timestamp, and
/// that pong confirms the round trip to the client.
pub proof fn lemma_ping_echoed(timestamp: u64, elapsed_us: u64)
    ensures
        reply_to(MessageView::Ping { timestamp }) == Some(MessageView::Pong { timestamp }),
        latency_in(reply_to(MessageView::Ping { timestamp })->0, elapsed_us) == Ok::<
            u64,
            TransportError,
        >(elapsed_us),
{
}

/// A fetch is answered with exactly one page, for the address that was
/// asked for.
pub proof fn lemma_fetch_answered_with_one_page(gpa: u64)
    ensures
        reply_to(MessageView::FetchPage { gpa }) matches Some(
            MessageView::PageData { gpa: echoed, data },
        ) && echoed == gpa && data.len() == PAGE_SIZE,
{
}

/// What the handler of a connection does with the payload of one frame: a
/// payload that is no message closes the connection, a request is answered
/// with the frame of its reply, and any other message is passed over.
pub fn handle_frame(payload: &[u8]) -> (step: ConnectionStep)
    ensures
        match parse_message(payload@) {
            None => step == ConnectionStep::Close(
                TransportError::ProtocolError(ProtocolViolation::MalformedMessage),
            ),
            Some(request) => match reply_to(request) {
                None => step == ConnectionStep::Continue,
                Some(reply) => step matches ConnectionStep::Reply(frame) && frame@ == frame_bytes(
                    message_bytes(reply),
                ),
            },
        },
{
    match decode_message(payload) {
        Err(e) => ConnectionStep::Close(e),
        Ok(request) => match respond(&request) {
            None => ConnectionStep::Continue,
            Some(reply) => {
                proof {
                    lemma_reply_fits_frame(request@);
                }
                match encode_framed_message(&reply) {
                    Ok(frame) => ConnectionStep::Reply(frame),
                    Err(e) => ConnectionStep::Close(e),
                }
            },
        },
    }
}

/// The page in the reply to a fetch. A reply that carries anything but one
/// page is an error, as is every reply of another kind.
pub fn page_from_response(response: Message) -> (result: Result<Vec<u8>, TransportError>)
    ensures
        result == page_in(response),
        result matches Ok(data) ==> data@.len() == PAGE_SIZE,
{
    match response {
        Message::PageData { gpa, data } => if data.len() == PAGE_SIZE {
            Ok(data)
        } else {
            Err(TransportError::ProtocolError(ProtocolViolation::WrongPageSize))
        },
        Message::Error { message } => Err(TransportError::Remote(message)),
        _ => Err(TransportError::ProtocolError(ProtocolViolation::UnexpectedResponse)),
    }
}

/// Whether the reply to a page that was sent acknowledges it.
pub fn ack_from_response(response: Message) -> (result: Result<(), TransportError>)
    ensures
        result == ack_in(response),
{
    match response {
        Message::Ack => Ok(()),
        Message::Error { message } => Err(TransportError::Remote(message)),
        _ => Err(TransportError::ProtocolError(ProtocolViolation::UnexpectedResponse)),
    }
}

/// The round-trip latency that the reply to a ping confirms.
pub fn latency_from_response(response: &Message, elapsed_us: u64) -> (result: Result<
    u64,
    TransportError,
>)
    ensures
        result == latency_in(response@, elapsed_us),
{
    match response {
        Message::Pong { timestamp } => Ok(elapsed_us),
        _ => Err(TransportError::ProtocolError(ProtocolViolation::UnexpectedResponse)),
    }
}

/// The frame that asks for the page at `gpa`.
pub fn fetch_request(gpa: u64) -> (frame: Vec<u8>)
    ensures
        frame@ == frame_bytes(message_bytes(MessageView::FetchPage { gpa })),
{
    let request = Message::FetchPage { gpa };
    proof {
        lemma_message_len(request@);
    }
    match encode_framed_message(&request) {
        Ok(frame) => frame,
        Err(_) => Vec::new(),
    }
}

/// The frame of a ping that carries `timestamp`.
pub fn ping_request(timestamp: u64) -> (frame: Vec<u8>)
    ensures
        frame@ == frame_bytes(message_bytes(MessageView::Ping { timestamp })),
{
    let request = Message::Ping { timestamp };
    proof {
        lemma_message_len(request@);
    }
    match encode_framed_message(&request) {
        Ok(frame) => frame,
        Err(_) => Vec::new(),
    }
}

/// The frame that hands the page `data` at `gpa` over. Data that is not
/// exactly one page long is refused.
pub fn send_request(gpa: u64, data: &[u8]) -> (result: Result<Vec<u8>, TransportError>)
    ensures
        match result {
            Ok(frame) => data@.len() == PAGE_SIZE && frame@ == frame_bytes(
                message_bytes(MessageView::SendPage { gpa, data: data@ }),
            ),
            Err(e) => data@.len() != PAGE_SIZE && e == TransportError::ProtocolError(
                ProtocolViolation::WrongPageSize,
            ),
        },
{
    if data.len() != PAGE_SIZE {
        return Err(TransportError::ProtocolError(ProtocolViolation::WrongPageSize));
    }
    let mut copy: Vec<u8> = Vec::new();
    let mut i: usize = 0;
    while i < data.len()
        invariant
            i <= data.len(),
            copy@ == data@.subrange(0, i as int),
        decreases data.len() - i,
    {
        copy.push(data[i]);
        i = i + 1;
        assert(copy@ =~= data@.subrange(0, i as int));
    }
    assert(copy@ =~= data@);
    let request = Message::SendPage { gpa, data: copy };
    proof {
        lemma_message_len(request@);
    }
    encode_framed_message(&request)
}

/// The tier of a round trip of `latency_us` microseconds over TCP.
pub fn detect_tier(latency_us: u64) -> (tier: TransportTier)
    ensures
        tier == tier_of(Backend::Tcp, latency_us),
        tier != TransportTier::HighPerformance,
{
    TransportTier::classify(Backend::Tcp, latency_us)
}

/// The reason that is given for a host and port that are no socket
/// address: the text `Invalid socket address`.
pub open spec fn invalid_address_text() -> Seq<char> {
    "Invalid socket address"@
}

/// Where a TCP peer listens.
#[derive(Debug, Clone, PartialEq, Eq)]
pub struct PeerAddr {
    pub addr: String,
    pub port: u16,
}

/// The state of the TCP transport of one node: its listener port, the
/// peers it has connected, and the tier that it measured.
pub struct TcpTransport {
    local_node_id: u32,
    local_port: u16,
    peers: HashMap<u32, PeerAddr>,
    measured_tier: Option<TransportTier>,
}

impl TcpTransport {
    /// The id of this node.
    pub closed spec fn node(&self) -> u32 {
        self.local_node_id
    }

    /// The port of the listener.
    pub closed spec fn port(&self) -> u16 {
        self.local_port
    }

    /// Host and port of each connected peer.
    pub closed spec fn peers(&self) -> Map<u32, (Seq<char>, u16)> {
        self.peers@.map_values(|p: PeerAddr| (p.addr@, p.port))
    }

    /// The tier that was measured last, if any.
    pub closed spec fn measured(&self) -> Option<TransportTier> {
        self.measured_tier
    }

    /// The transport of node `local_node_id` whose listener is bound to
    /// `local_port`; no peer is connected and no tier measured.
    pub fn new(local_node_id: u32, local_port: u16) -> (transport: Self)
        ensures
            transport.node() == local_node_id,
            transport.port() == local_port,
            transport.peers() == Map::<u32, (Seq<char>, u16)>::empty(),
            transport.measured() is None,
    {
        let transport = TcpTransport {
            local_node_id,
            local_port,
            peers: HashMap::new(),
            measured_tier: None,
        };
        assert(transport.peers() =~= Map::<u32, (Seq<char>, u16)>::empty());
        transport
    }

    /// The endpoint to publish, given the host under which peers reach this
    /// node.
    pub fn local_endpoint(&self, host: String) -> (endpoint: TransportEndpoint)
        ensures
            endpoint@ == (EndpointView::Tcp { addr: host@, port: self.port() }),
    {
        TransportEndpoint::Tcp { addr: host, port: self.local_port }
    }

    /// Records the peer `remote_node_id` at `remote_endpoint`; `resolved`
    /// says whether host and port of the endpoint read as a socket address.
    /// An endpoint of another kind of transport is refused, as is one whose
    /// host and port are no socket address; either changes nothing.
    pub fn connect(
        &mut self,
        remote_node_id: u32,
        remote_endpoint: TransportEndpoint,
        resolved: bool,
    ) -> (result: Result<(), TransportError>)
        ensures
            final(self).node() == old(self).node(),
            final(self).port() == old(self).port(),
            final(self).measured() == old(self).measured(),
            match remote_endpoint@ {
                EndpointView::Tcp { addr, port } => if resolved {
                    result is Ok && final(self).peers() == old(self).peers().insert(
                        remote_node_id,
                        (addr, port),
                    )
                } else {
                    result matches Err(TransportError::ConnectionFailed(reason)) && reason@
                        == invalid_address_text() && final(self).peers() == old(self).peers()
                },
                EndpointView::Rdma { .. } => result == Err::<(), TransportError>(
                    TransportError::EndpointMismatch,
                ) && final(self).peers() == old(self).peers(),
            },
    {
        match remote_endpoint {
            TransportEndpoint::Tcp { addr, port } => {
                if !resolved {
                    return Err(
                        TransportError::ConnectionFailed(
                            String::from_str("Invalid socket address"),
                        ),
                    );
                }
                self.peers.insert(remote_node_id, PeerAddr { addr, port });
                assert(self.peers() =~= old(self).peers().insert(remote_node_id, (addr@, port)));
                Ok(())
            },
            TransportEndpoint::Rdma { .. } => Err(TransportError::EndpointMismatch),
        }
    }

    /// The handle for `length` bytes from `addr` on. TCP needs no
    /// registration: the handle covers that memory and has no keys.
    pub fn register_memory(&self, addr: u64, length: usize) -> (result: Result<
        TcpMemoryRegion,
        TransportError,
    >)
        ensures
            result == Ok::<TcpMemoryRegion, TransportError>(TcpMemoryRegion { addr, length }),
    {
        Ok(TcpMemoryRegion { addr, length })
    }

    /// Where the peer `remote_node_id` listens; an error for a node that
    /// has not been connected.
    pub fn peer(&self, remote_node_id: u32) -> (result: Result<PeerAddr, TransportError>)
        ensures
            match result {
                Ok(peer) => self.peers().contains_key(remote_node_id) && self.peers()[remote_node_id]
                    == (peer.addr@, peer.port),
                Err(e) => !self.peers().contains_key(remote_node_id) && e
                    == TransportError::NodeNotConnected(remote_node_id),
            },
    {
        match self.peers.get(&remote_node_id) {
            Some(peer) => Ok(PeerAddr { addr: peer.addr.clone(), port: peer.port }),
            None => Err(TransportError::NodeNotConnected(remote_node_id)),
        }
    }

    /// Records the latency of a round trip to a peer as this transport's
    /// tier.
    pub fn record_latency(&mut self, latency_us: u64)
        ensures
            final(self).node() == old(self).node(),
            final(self).port() == old(self).port(),
            final(self).peers() == old(self).peers(),
            final(self).measured() == Some(tier_of(Backend::Tcp, latency_us)),
    {
        self.measured_tier = Some(detect_tier(latency_us));
    }

    /// The tier that was measured last; `Standard` before any measurement.
    pub fn performance_tier(&self) -> (tier: TransportTier)
        ensures
            tier == match self.measured() {
                Some(measured) => measured,
                None => TransportTier::Standard,
            },
    {
        match self.measured_tier {
            Some(tier) => tier,
            None => TransportTier::Standard,
        }
    }
}

} // verus!
