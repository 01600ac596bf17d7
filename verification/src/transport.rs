//! The page transport capability, its performance tiers, and the manager
//! that the pager talks to.

use crate::endpoint::{EndpointView, TransportEndpoint};
use crate::error::{ProtocolViolation, SetupError, TransportError};
use crate::PAGE_SIZE;
use std::collections::HashMap;
use vstd::prelude::*;

verus! {

broadcast use vstd::std_specs::hash::group_hash_axioms;

/// Performance class of a transport, by round-trip latency.
#[derive(Debug, Clone, Copy, PartialEq, Eq, Structural)]
pub enum TransportTier {
    /// Below 100 µs (RDMA over InfiniBand).
    HighPerformance,
    /// Below 150 µs (RDMA over Ethernet).
    MediumPerformance,
    /// Below 500 µs (10 Gbps Ethernet with TCP).
    Standard,
    /// 500 µs and more (1 Gbps Ethernet with TCP).
    Basic,
}

/// The kinds of transport, in the order in which they are tried.
#[derive(Debug, Clone, Copy, PartialEq, Eq, Structural)]
pub enum Backend {
    Rdma,
    Tcp,
}

/// The latency, in microseconds, that a tier stands for.
pub open spec fn tier_latency_us(tier: TransportTier) -> u64 {
    match tier {
        TransportTier::HighPerformance => 50,
        TransportTier::MediumPerformance => 150,
        TransportTier::Standard => 350,
        TransportTier::Basic => 1000,
    }
}

/// The rank of a tier: 0 for the fastest.
pub open spec fn tier_rank(tier: TransportTier) -> int {
    match tier {
        TransportTier::HighPerformance => 0,
        TransportTier::MediumPerformance => 1,
        TransportTier::Standard => 2,
        TransportTier::Basic => 3,
    }
}

/// The tier of a measured round trip of `latency_us` microseconds over
/// `backend`. The fastest tier is for RDMA alone.
pub open spec fn tier_of(backend: Backend, latency_us: u64) -> TransportTier {
    if backend == Backend::Rdma && latency_us < 100 {
        TransportTier::HighPerformance
    } else if latency_us < 150 {
        TransportTier::MediumPerformance
    } else if latency_us < 500 {
        TransportTier::Standard
    } else {
        TransportTier::Basic
    }
}

/// The text `RDMA InfiniBand (Production)`.
pub open spec fn high_performance_text() -> Seq<char> {
    "RDMA InfiniBand (Production)"@
}

/// The text `RDMA over Ethernet (Prosumer)`.
pub open spec fn medium_performance_text() -> Seq<char> {
    "RDMA over Ethernet (Prosumer)"@
}

/// The text `10 Gbps Ethernet (Standard)`.
pub open spec fn standard_text() -> Seq<char> {
    "10 Gbps Ethernet (Standard)"@
}

/// The text `1 Gbps Ethernet (Development)`.
pub open spec fn basic_text() -> Seq<char> {
    "1 Gbps Ethernet (Development)"@
}

/// The description of a tier.
pub open spec fn tier_text(tier: TransportTier) -> Seq<char> {
    match tier {
        TransportTier::HighPerformance => high_performance_text(),
        TransportTier::MediumPerformance => medium_performance_text(),
        TransportTier::Standard => standard_text(),
        TransportTier::Basic => basic_text(),
    }
}

impl TransportTier {
    /// The latency that this tier stands for, in microseconds.
    pub fn expected_latency(&self) -> (micros: u64)
        ensures
            micros == tier_latency_us(*self),
    {
        match self {
            TransportTier::HighPerformance => 50,
            TransportTier::MediumPerformance => 150,
            TransportTier::Standard => 350,
            TransportTier::Basic => 1000,
        }
    }

    /// A short description of this tier.
    pub fn description(&self) -> (text: &'static str)
        ensures
            text@ == tier_text(*self),
    {
        match self {
            TransportTier::HighPerformance => "RDMA InfiniBand (Production)",
            TransportTier::MediumPerformance => "RDMA over Ethernet (Prosumer)",
            TransportTier::Standard => "10 Gbps Ethernet (Standard)",
            TransportTier::Basic => "1 Gbps Ethernet (Development)",
        }
    }

    /// The tier of a measured round trip of `latency_us` microseconds over
    /// `backend`.
    pub fn classify(backend: Backend, latency_us: u64) -> (tier: TransportTier)
        ensures
            tier == tier_of(backend, latency_us),
    {
        if matches!(backend, Backend::Rdma) && latency_us < 100 {
            TransportTier::HighPerformance
        } else if latency_us < 150 {
            TransportTier::MediumPerformance
        } else if latency_us < 500 {
            TransportTier::Standard
        } else {
            TransportTier::Basic
        }
    }
}

/// A faster tier stands for a lower latency.
pub proof fn lemma_tier_latency_ordered(a: TransportTier, b: TransportTier)
    ensures
        tier_rank(a) < tier_rank(b) <==> tier_latency_us(a) < tier_latency_us(b),
{
}

/// A lower measured latency never gives a slower tier.
pub proof fn lemma_tier_monotone(backend: Backend, fast: u64, slow: u64)
    requires
        fast <= slow,
    ensures
        tier_rank(tier_of(backend, fast)) <= tier_rank(tier_of(backend, slow)),
        backend == Backend::Tcp ==> tier_of(backend, fast) != TransportTier::HighPerformance,
{
}


/// Handle of a memory region that a transport has registered.
pub trait MemoryRegion: Send + Sync {
    /// The memory that the region covers: its start address and its length
    /// in bytes.
    spec fn covers(&self) -> (u64, usize);

    /// Key for local scatter-gather entries.
    fn lkey(&self) -> u32;

    /// Key that peers present for one-sided reads and writes.
    fn rkey(&self) -> u32;

    /// Start address of the region.
    fn addr(&self) -> (addr: u64)
        ensures
            addr == self.covers().0,
    ;

    /// Length of the region in bytes.
    fn length(&self) -> (length: usize)
        ensures
            length == self.covers().1,
    ;
}

/// Region of a transport that needs no registration: both keys are 0.
#[derive(Debug, Clone, Copy, PartialEq, Eq, Structural)]
pub struct TcpMemoryRegion {
    pub addr: u64,
    pub length: usize,
}

impl MemoryRegion for TcpMemoryRegion {
    open spec fn covers(&self) -> (u64, usize) {
        (self.addr, self.length)
    }

    fn lkey(&self) -> (key: u32)
        ensures
            key == 0,
    {
        0
    }

    fn rkey(&self) -> (key: u32)
        ensures
            key == 0,
    {
        0
    }

    fn addr(&self) -> (addr: u64)
        ensures
            addr == self.addr,
    {
        self.addr
    }

    fn length(&self) -> (length: usize)
        ensures
            length == self.length,
    {
        self.length
    }
}

/// A way to move pages between nodes. What an implementation answers is its
/// own affair, and each kind of answer has a predicate that says which
/// answers the implementation gives to which question; an implementation
/// that says nothing of a predicate leaves every answer open. Callers hold
/// every answer to the protocol themselves.
pub trait PageTransport: Send + Sync {
    /// Handle that `register_memory` returns.
    type Region: MemoryRegion;

    /// Whether `result` is an answer of this transport to a fetch of the
    /// page at `gpa` from the node `remote_node_id`.
    open spec fn fetch_answer(
        &self,
        gpa: u64,
        remote_node_id: u32,
        result: Result<Vec<u8>, TransportError>,
    ) -> bool {
        true
    }

    /// Whether `result` is an answer of this transport to sending `data` as
    /// the page at `gpa` to the node `remote_node_id`.
    open spec fn send_answer(
        &self,
        gpa: u64,
        data: Seq<u8>,
        remote_node_id: u32,
        result: Result<(), TransportError>,
    ) -> bool {
        true
    }

    /// Whether this transport publishes `endpoint` as its own.
    open spec fn endpoint_answer(&self, endpoint: EndpointView) -> bool {
        true
    }

    /// Whether connecting this transport to the node `remote_node_id` at
    /// `remote_endpoint` may end with `result` and leave the transport as
    /// `after`.
    open spec fn connect_answer(
        &self,
        remote_node_id: u32,
        remote_endpoint: EndpointView,
        result: Result<(), TransportError>,
        after: &Self,
    ) -> bool {
        true
    }

    /// Whether this transport reports `tier` for itself.
    open spec fn tier_answer(&self, tier: TransportTier) -> bool {
        true
    }

    /// Whether `result` is an answer of this transport to measuring the
    /// latency to the node `remote_node_id`.
    open spec fn latency_answer(&self, remote_node_id: u32, result: Result<u64, TransportError>) -> bool {
        true
    }

    /// Fetches the page at guest physical address `gpa` from the node that
    /// owns it.
    fn fetch_page(&self, gpa: u64, remote_node_id: u32) -> (result: Result<
        Vec<u8>,
        TransportError,
    >)
        ensures
            self.fetch_answer(gpa, remote_node_id, result),
    ;

    /// Sends the page at `gpa` to a node.
    fn send_page(&self, gpa: u64, data: &[u8], remote_node_id: u32) -> (result: Result<
        (),
        TransportError,
    >)
        ensures
            self.send_answer(gpa, data@, remote_node_id, result),
    ;

    /// Registers `length` bytes from `addr` on for transfers. A region that
    /// comes back covers exactly that memory.
    fn register_memory(&self, addr: u64, length: usize) -> (result: Result<
        Self::Region,
        TransportError,
    >)
        ensures
            result matches Ok(region) ==> region.covers() == (addr, length),
    ;

    /// The endpoint that peers need to reach this node.
    fn local_endpoint(&self) -> (endpoint: TransportEndpoint)
        ensures
            self.endpoint_answer(endpoint@),
    ;

    /// Connects to a peer.
    fn connect(&mut self, remote_node_id: u32, remote_endpoint: TransportEndpoint) -> (result:
        Result<(), TransportError>)
        ensures
            old(self).connect_answer(remote_node_id, remote_endpoint@, result, &*final(self)),
    ;

    /// The tier that the transport reports for itself.
    fn performance_tier(&self) -> (tier: TransportTier)
        ensures
            self.tier_answer(tier),
    ;

    /// Round-trip latency to a peer, in microseconds.
    fn measure_latency(&self, remote_node_id: u32) -> (result: Result<u64, TransportError>)
        ensures
            self.latency_answer(remote_node_id, result),
    ;
}

/// What a fetch is worth: the page where exactly one page came back, the
/// transport's error where it failed, and a protocol error for any other
/// length.
pub open spec fn checked_page(fetched: Result<Vec<u8>, TransportError>) -> Result<
    Vec<u8>,
    TransportError,
> {
    match fetched {
        Ok(data) => if data@.len() == PAGE_SIZE {
            Ok(data)
        } else {
            Err(TransportError::ProtocolError(ProtocolViolation::WrongPageSize))
        },
        Err(e) => Err(e),
    }
}

/// Holding to the protocol what has been held to it already changes
/// nothing.
pub proof fn lemma_checked_page_settled(fetched: Result<Vec<u8>, TransportError>)
    ensures
        checked_page(checked_page(fetched)) == checked_page(fetched),
{
}

/// Holds a fetch result to the protocol: a page has exactly `PAGE_SIZE`
/// bytes.
pub fn check_page(fetched: Result<Vec<u8>, TransportError>) -> (result: Result<
    Vec<u8>,
    TransportError,
>)
    ensures
        result == checked_page(fetched),
        result matches Ok(data) ==> data@.len() == PAGE_SIZE,
{
    match fetched {
        Ok(data) => if data.len() == PAGE_SIZE {
            Ok(data)
        } else {
            Err(TransportError::ProtocolError(ProtocolViolation::WrongPageSize))
        },
        Err(e) => Err(e),
    }
}

/// The peers after connecting to `node` at `endpoint` ended with
/// `connected`: the peer is recorded where it was connected, and nothing
/// changes where it was not.
pub open spec fn peers_after_connect(
    peers: Map<u32, EndpointView>,
    node: u32,
    endpoint: EndpointView,
    connected: Result<(), TransportError>,
) -> Map<u32, EndpointView> {
    if connected is Ok {
        peers.insert(node, endpoint)
    } else {
        peers
    }
}

/// The tier after a measurement over `backend` ended with `latency`: the
/// tier of a latency that was measured, and the tier as it was where the
/// measurement failed.
pub open spec fn tier_after_measurement(
    measured: Option<TransportTier>,
    backend: Backend,
    latency: Result<u64, TransportError>,
) -> Option<TransportTier> {
    match latency {
        Ok(latency_us) => Some(tier_of(backend, latency_us)),
        Err(_) => measured,
    }
}

/// The one interface to page transport, whatever the backend.
pub struct TransportManager<T: PageTransport> {
    local_node_id: u32,
    backend: Backend,
    transport: T,
    peer_endpoints: HashMap<u32, TransportEndpoint>,
    measured_tier: Option<TransportTier>,
}

impl<T: PageTransport> TransportManager<T> {
    /// The id of this node.
    pub closed spec fn node(&self) -> u32 {
        self.local_node_id
    }

    /// The kind of transport that was chosen at startup.
    pub closed spec fn kind(&self) -> Backend {
        self.backend
    }

    /// The endpoint of each peer that has been connected.
    pub closed spec fn peers(&self) -> Map<u32, EndpointView> {
        self.peer_endpoints@.map_values(|e: TransportEndpoint| e@)
    }

    /// The tier of the latency that was measured at the last connect, if
    /// any measurement succeeded.
    pub closed spec fn measured(&self) -> Option<TransportTier> {
        self.measured_tier
    }

    /// The transport that the manager speaks through.
    pub closed spec fn carrier(&self) -> T {
        self.transport
    }

    /// A manager for node `local_node_id` over `transport`, which is of kind
    /// `backend`; no peer is connected.
    pub fn new(local_node_id: u32, backend: Backend, transport: T) -> (manager: Self)
        ensures
            manager.node() == local_node_id,
            manager.kind() == backend,
            manager.peers() == Map::<u32, EndpointView>::empty(),
            manager.measured() is None,
            manager.carrier() == transport,
    {
        let manager = TransportManager {
            local_node_id,
            backend,
            transport,
            peer_endpoints: HashMap::new(),
            measured_tier: None,
        };
        assert(manager.peers() =~= Map::<u32, EndpointView>::empty());
        manager
    }

    /// The id of this node.
    pub fn local_node_id(&self) -> (id: u32)
        ensures
            id == self.node(),
    {
        self.local_node_id
    }

    /// The kind of transport that was chosen at startup.
    pub fn backend(&self) -> (backend: Backend)
        ensures
            backend == self.kind(),
    {
        self.backend
    }

    /// The transport that this manager speaks through.
    pub fn transport(&self) -> (transport: &T)
        ensures
            *transport == self.carrier(),
    {
        &self.transport
    }

    /// The endpoint to share with peers: what the transport publishes as
    /// its own.
    pub fn local_endpoint(&self) -> (endpoint: TransportEndpoint)
        ensures
            self.carrier().endpoint_answer(endpoint@),
    {
        self.transport.local_endpoint()
    }

    /// Whether `remote_node_id` has been connected.
    pub fn is_connected(&self, remote_node_id: u32) -> (connected: bool)
        ensures
            connected == self.peers().contains_key(remote_node_id),
    {
        self.peer_endpoints.contains_key(&remote_node_id)
    }

    /// Takes note of how connecting to the peer `remote_node_id` at
    /// `endpoint` ended: a peer that was connected is recorded with its
    /// endpoint, and a failed connect changes nothing. The outcome is handed
    /// on as it came.
    pub fn record_connection(
        &mut self,
        remote_node_id: u32,
        endpoint: TransportEndpoint,
        connected: Result<(), TransportError>,
    ) -> (result: Result<(), TransportError>)
        ensures
            result == connected,
            final(self).peers() == peers_after_connect(
                old(self).peers(),
                remote_node_id,
                endpoint@,
                connected,
            ),
            final(self).node() == old(self).node(),
            final(self).kind() == old(self).kind(),
            final(self).measured() == old(self).measured(),
            final(self).carrier() == old(self).carrier(),
    {
        match connected {
            Err(e) => Err(e),
            Ok(done) => {
                self.peer_endpoints.insert(remote_node_id, endpoint);
                assert(self.peers() =~= old(self).peers().insert(remote_node_id, endpoint@));
                Ok(done)
            },
        }
    }

    /// Takes note of how measuring the latency to a peer ended: a measured
    /// latency sets the tier, and a failed measurement leaves it as it was.
    pub fn record_latency(&mut self, latency: Result<u64, TransportError>)
        ensures
            final(self).measured() == tier_after_measurement(
                old(self).measured(),
                old(self).kind(),
                latency,
            ),
            final(self).peers() == old(self).peers(),
            final(self).node() == old(self).node(),
            final(self).kind() == old(self).kind(),
            final(self).carrier() == old(self).carrier(),
    {
        match latency {
            Ok(latency_us) => {
                self.measured_tier = Some(TransportTier::classify(self.backend, latency_us));
            },
            Err(_) => {},
        }
    }

    /// Connects to a peer and, where that succeeds, records its endpoint and
    /// measures the latency to it. The transport is asked to connect to
    /// `remote_node_id` at a copy of `endpoint`, and its answer is the
    /// result. A failed connect leaves peers and tier as they were. After a
    /// connect that succeeded the peer is recorded, the transport is asked
    /// for the latency to it, and its answer sets the tier where it is a
    /// latency.
    pub fn connect_peer(&mut self, remote_node_id: u32, endpoint: TransportEndpoint) -> (result:
        Result<(), TransportError>)
        ensures
            final(self).node() == old(self).node(),
            final(self).kind() == old(self).kind(),
            old(self).carrier().connect_answer(
                remote_node_id,
                endpoint@,
                result,
                &final(self).carrier(),
            ),
            final(self).peers() == peers_after_connect(
                old(self).peers(),
                remote_node_id,
                endpoint@,
                result,
            ),
            result is Err ==> final(self).measured() == old(self).measured(),
            result is Ok ==> exists|latency: Result<u64, TransportError>|
                #![trigger final(self).carrier().latency_answer(remote_node_id, latency)]
                final(self).carrier().latency_answer(remote_node_id, latency)
                    && final(self).measured() == tier_after_measurement(
                    old(self).measured(),
                    old(self).kind(),
                    latency,
                ),
    {
        let handed = endpoint.duplicate();
        let connected = self.transport.connect(remote_node_id, handed);
        match self.record_connection(remote_node_id, endpoint, connected) {
            Err(e) => Err(e),
            Ok(done) => {
                let latency = self.transport.measure_latency(remote_node_id);
                self.record_latency(latency);
                assert(self.carrier().latency_answer(remote_node_id, latency));
                Ok(done)
            },
        }
    }

    /// Fetches the page at `gpa` from `remote_node_id`: asks the transport
    /// for exactly that page of exactly that node and holds its answer to
    /// the protocol with `check_page`. Whatever the transport answers, a
    /// page that is not exactly `PAGE_SIZE` bytes long is a protocol error.
    pub fn fetch_page(&self, gpa: u64, remote_node_id: u32) -> (result: Result<
        Vec<u8>,
        TransportError,
    >)
        ensures
            result matches Ok(data) ==> data@.len() == PAGE_SIZE,
            exists|fetched: Result<Vec<u8>, TransportError>|
                #![trigger checked_page(fetched)]
                self.carrier().fetch_answer(gpa, remote_node_id, fetched) && result
                    == checked_page(fetched),
    {
        let fetched = self.transport.fetch_page(gpa, remote_node_id);
        let result = check_page(fetched);
        assert(self.carrier().fetch_answer(gpa, remote_node_id, fetched) && result
            == checked_page(fetched));
        result
    }

    /// Sends the page at `gpa` to `remote_node_id`. Data that is not exactly
    /// one page long is refused before the transport sees it; one page is
    /// handed to the transport with that address and that node, and the
    /// result is the transport's answer.
    pub fn send_page(&self, gpa: u64, data: &[u8], remote_node_id: u32) -> (result: Result<
        (),
        TransportError,
    >)
        ensures
            data@.len() != PAGE_SIZE ==> result == Err::<(), TransportError>(
                TransportError::ProtocolError(ProtocolViolation::WrongPageSize),
            ),
            data@.len() == PAGE_SIZE ==> self.carrier().send_answer(
                gpa,
                data@,
                remote_node_id,
                result,
            ),
    {
        if data.len() != PAGE_SIZE {
            return Err(TransportError::ProtocolError(ProtocolViolation::WrongPageSize));
        }
        self.transport.send_page(gpa, data, remote_node_id)
    }

    /// The tier of the latency measured at the last connect or, before any
    /// measurement, the tier that the transport reports for itself.
    pub fn performance_tier(&self) -> (tier: TransportTier)
        ensures
            match self.measured() {
                Some(measured) => tier == measured,
                None => self.carrier().tier_answer(tier),
            },
    {
        match self.measured_tier {
            Some(tier) => tier,
            None => self.transport.performance_tier(),
        }
    }

    /// Registers `length` bytes from `addr` on with the transport. Whether
    /// that succeeds is the transport's affair; a region that comes back
    /// covers exactly the memory that was asked for.
    pub fn register_memory(&self, addr: u64, length: usize) -> (result: Result<
        T::Region,
        TransportError,
    >)
        ensures
            result matches Ok(region) ==> region.covers() == (addr, length),
    {
        self.transport.register_memory(addr, length)
    }
}


/// How the attempt to bring one backend up ended.
#[derive(Debug, Clone, Copy, PartialEq, Eq, Structural)]
pub struct Attempt {
    pub backend: Backend,
    pub ready: bool,
}

/// What to do next while a transport is chosen.
#[derive(Debug, Clone, Copy, PartialEq, Eq, Structural)]
pub enum SelectionStep {
    /// Try to bring this backend up.
    Try(Backend),
    /// Use this backend, which is up.
    Use(Backend),
    /// Give up.
    Fail(SetupError),
}

/// The step that follows the attempt `previous`; the first step where there
/// was none. RDMA is tried first and TCP only where RDMA did not come up;
/// the first backend that is up is used.
pub open spec fn selection_after(previous: Option<Attempt>) -> SelectionStep {
    match previous {
        None => SelectionStep::Try(Backend::Rdma),
        Some(attempt) => if attempt.ready {
            SelectionStep::Use(attempt.backend)
        } else {
            match attempt.backend {
                Backend::Rdma => SelectionStep::Try(Backend::Tcp),
                Backend::Tcp => SelectionStep::Fail(SetupError::NoTransportAvailable),
            }
        },
    }
}

/// The backend that is chosen where RDMA comes up exactly if `rdma_ready`
/// and TCP exactly if `tcp_ready`.
pub open spec fn selected_backend(rdma_ready: bool, tcp_ready: bool) -> Result<
    Backend,
    SetupError,
> {
    if rdma_ready {
        Ok(Backend::Rdma)
    } else if tcp_ready {
        Ok(Backend::Tcp)
    } else {
        Err(SetupError::NoTransportAvailable)
    }
}

/// The step that follows the attempt `previous` in the choice of a
/// transport.
pub fn create_transport(previous: Option<Attempt>) -> (step: SelectionStep)
    ensures
        step == selection_after(previous),
{
    match previous {
        None => SelectionStep::Try(Backend::Rdma),
        Some(attempt) => if attempt.ready {
            SelectionStep::Use(attempt.backend)
        } else {
            match attempt.backend {
                Backend::Rdma => SelectionStep::Try(Backend::Tcp),
                Backend::Tcp => SelectionStep::Fail(SetupError::NoTransportAvailable),
            }
        },
    }
}

/// Following the steps from the start leads to the first backend that
/// comes up, RDMA before TCP, and TCP is not tried where RDMA is up.
pub proof fn lemma_selection_order(rdma_ready: bool, tcp_ready: bool)
    ensures
        selection_after(None) == SelectionStep::Try(Backend::Rdma),
        rdma_ready ==> selection_after(Some(Attempt { backend: Backend::Rdma, ready: true }))
            == SelectionStep::Use(Backend::Rdma),
        !rdma_ready ==> selection_after(Some(Attempt { backend: Backend::Rdma, ready: false }))
            == SelectionStep::Try(Backend::Tcp),
        !rdma_ready ==> match selected_backend(rdma_ready, tcp_ready) {
            Ok(backend) => selection_after(Some(Attempt { backend: Backend::Tcp, ready: tcp_ready }))
                == SelectionStep::Use(backend),
            Err(e) => selection_after(Some(Attempt { backend: Backend::Tcp, ready: tcp_ready }))
                == SelectionStep::Fail(e),
        },
        rdma_ready ==> selected_backend(rdma_ready, tcp_ready) == Ok::<Backend, SetupError>(
            Backend::Rdma,
        ),
{
}

} // verus!
