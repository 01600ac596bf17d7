//! A transport for development without RDMA hardware: connections are
//! only recorded, every page that is fetched is a page of zeros, and a page
//! that is sent is dropped.

use crate::endpoint::{EndpointView, TransportEndpoint};
use crate::error::TransportError;
use crate::transport::{PageTransport, TcpMemoryRegion, TransportTier};
use crate::{zero_page, zeroed_page};
use std::collections::HashMap;
use vstd::prelude::*;
use vstd::string::StringExecFns;

verus! {

broadcast use vstd::std_specs::hash::group_hash_axioms;

/// Address of a node for cluster communication.
#[derive(Debug, Clone, PartialEq, Eq)]
pub struct NodeAddr {
    pub node_id: u32,
    pub ip: String,
    pub port: u16,
}

/// A recorded connection to a node. No queue pair stands behind it:
/// `connected` is never set.
#[derive(Debug, Clone, Copy, PartialEq, Eq, Structural)]
pub struct RdmaConnection {
    pub remote_node: u32,
    pub connected: bool,
}

impl RdmaConnection {
    /// Records a connection to node `node_id` at `addr`.
    pub fn connect(node_id: u32, addr: &str) -> (result: Result<Self, TransportError>)
        ensures
            result == Ok::<Self, TransportError>(
                RdmaConnection { remote_node: node_id, connected: false },
            ),
    {
        Ok(RdmaConnection { remote_node: node_id, connected: false })
    }

    /// Reads the page at `remote_addr` into `buf`: fills it with zeros.
    pub fn rdma_read(&self, remote_addr: u64, buf: &mut Vec<u8>) -> (result: Result<
        (),
        TransportError,
    >)
        ensures
            result is Ok,
            final(buf)@ == Seq::new(old(buf)@.len(), |i: int| 0u8),
    {
        let len = buf.len();
        let mut i: usize = 0;
        while i < len
            invariant
                i <= len,
                buf@.len() == len,
                len == old(buf)@.len(),
                forall|j: int| 0 <= j < i ==> buf@[j] == 0u8,
            decreases len - i,
        {
            buf[i] = 0u8;
            i = i + 1;
        }
        assert(buf@ =~= Seq::new(old(buf)@.len(), |i: int| 0u8));
        Ok(())
    }

    /// Writes `buf` to `remote_addr`: drops it.
    pub fn rdma_write(&self, remote_addr: u64, buf: &[u8]) -> (result: Result<(), TransportError>)
        ensures
            result is Ok,
    {
        Ok(())
    }
}

/// Transport manager over recorded connections.
pub struct TransportManager {
    local_node: u32,
    connections: HashMap<u32, RdmaConnection>,
}

impl View for TransportManager {
    type V = Map<u32, RdmaConnection>;

    closed spec fn view(&self) -> Map<u32, RdmaConnection> {
        self.connections@
    }
}

impl TransportManager {
    /// The id of this node.
    pub closed spec fn node(&self) -> u32 {
        self.local_node
    }

    /// A manager for node `local_node` without connections.
    pub fn new(local_node: u32) -> (manager: Self)
        ensures
            manager@ == Map::<u32, RdmaConnection>::empty(),
            manager.node() == local_node,
    {
        TransportManager { local_node, connections: HashMap::new() }
    }

    /// The id of this node.
    pub fn local_node(&self) -> (id: u32)
        ensures
            id == self.node(),
    {
        self.local_node
    }

    /// The number of nodes that are connected.
    pub fn connection_count(&self) -> (count: usize)
        ensures
            count == self@.dom().len(),
    {
        self.connections.len()
    }

    /// Records a connection to node `node_id` at `addr`.
    pub fn connect_node(&mut self, node_id: u32, addr: &str) -> (result: Result<(), TransportError>)
        ensures
            result is Ok,
            final(self).node() == old(self).node(),
            final(self)@ == old(self)@.insert(
                node_id,
                RdmaConnection { remote_node: node_id, connected: false },
            ),
    {
        match RdmaConnection::connect(node_id, addr) {
            Err(e) => Err(e),
            Ok(conn) => {
                self.connections.insert(node_id, conn);
                Ok(())
            },
        }
    }

    /// Fetches the page at `gpa` from node `node_id`: a page of zeros from
    /// a node that is connected, an error from any other.
    pub fn fetch_page(&self, node_id: u32, gpa: u64) -> (result: Result<Vec<u8>, TransportError>)
        ensures
            match result {
                Ok(page) => self@.contains_key(node_id) && page@ == zero_page(),
                Err(e) => !self@.contains_key(node_id) && e == TransportError::NodeNotConnected(
                    node_id,
                ),
            },
    {
        match self.connections.get(&node_id) {
            None => Err(TransportError::NodeNotConnected(node_id)),
            Some(conn) => {
                let mut page_buf = zeroed_page();
                match conn.rdma_read(gpa, &mut page_buf) {
                    Err(e) => Err(e),
                    Ok(_) => {
                        assert(page_buf@ =~= zero_page());
                        Ok(page_buf)
                    },
                }
            },
        }
    }

    /// Sends the page `data` at `gpa` to node `node_id`: succeeds for a node
    /// that is connected, fails for any other.
    pub fn send_page(&self, node_id: u32, gpa: u64, data: &[u8]) -> (result: Result<
        (),
        TransportError,
    >)
        ensures
            match result {
                Ok(_) => self@.contains_key(node_id),
                Err(e) => !self@.contains_key(node_id) && e == TransportError::NodeNotConnected(
                    node_id,
                ),
            },
    {
        match self.connections.get(&node_id) {
            None => Err(TransportError::NodeNotConnected(node_id)),
            Some(conn) => conn.rdma_write(gpa, data),
        }
    }
}

/// The host that the fallback transport publishes: `127.0.0.1`. No
/// listener stands behind it, so the port of its endpoint is 0.
pub open spec fn loopback_host() -> Seq<char> {
    seq!['1', '2', '7', '.', '0', '.', '0', '.', '1']
}

/// The recorded connections as a page transport.
pub struct FallbackTransport {
    manager: TransportManager,
}

impl View for FallbackTransport {
    type V = Map<u32, RdmaConnection>;

    closed spec fn view(&self) -> Map<u32, RdmaConnection> {
        self.manager@
    }
}

impl FallbackTransport {
    /// A transport for node `local_node` without connections.
    pub fn new(local_node: u32) -> (transport: Self)
        ensures
            transport@ == Map::<u32, RdmaConnection>::empty(),
    {
        FallbackTransport { manager: TransportManager::new(local_node) }
    }
}

impl PageTransport for FallbackTransport {
    type Region = TcpMemoryRegion;

    open spec fn fetch_answer(
        &self,
        gpa: u64,
        remote_node_id: u32,
        result: Result<Vec<u8>, TransportError>,
    ) -> bool {
        match result {
            Ok(page) => self@.contains_key(remote_node_id) && page@ == zero_page(),
            Err(e) => !self@.contains_key(remote_node_id) && e == TransportError::NodeNotConnected(
                remote_node_id,
            ),
        }
    }

    open spec fn send_answer(
        &self,
        gpa: u64,
        data: Seq<u8>,
        remote_node_id: u32,
        result: Result<(), TransportError>,
    ) -> bool {
        match result {
            Ok(_) => self@.contains_key(remote_node_id),
            Err(e) => !self@.contains_key(remote_node_id) && e == TransportError::NodeNotConnected(
                remote_node_id,
            ),
        }
    }

    open spec fn endpoint_answer(&self, endpoint: EndpointView) -> bool {
        endpoint == (EndpointView::Tcp { addr: loopback_host(), port: 0 })
    }

    open spec fn connect_answer(
        &self,
        remote_node_id: u32,
        remote_endpoint: EndpointView,
        result: Result<(), TransportError>,
        after: &Self,
    ) -> bool {
        match remote_endpoint {
            EndpointView::Tcp { addr, port } => result is Ok && after@ == self@.insert(
                remote_node_id,
                RdmaConnection { remote_node: remote_node_id, connected: false },
            ),
            EndpointView::Rdma { .. } => result == Err::<(), TransportError>(
                TransportError::EndpointMismatch,
            ) && after@ == self@,
        }
    }

    open spec fn tier_answer(&self, tier: TransportTier) -> bool {
        tier == TransportTier::Basic
    }

    open spec fn latency_answer(&self, remote_node_id: u32, result: Result<u64, TransportError>) -> bool {
        match result {
            Ok(latency_us) => self@.contains_key(remote_node_id) && latency_us == 0,
            Err(e) => !self@.contains_key(remote_node_id) && e == TransportError::NodeNotConnected(
                remote_node_id,
            ),
        }
    }

    fn fetch_page(&self, gpa: u64, remote_node_id: u32) -> (result: Result<Vec<u8>, TransportError>)
    {
        self.manager.fetch_page(remote_node_id, gpa)
    }

    fn send_page(&self, gpa: u64, data: &[u8], remote_node_id: u32) -> (result: Result<
        (),
        TransportError,
    >)
    {
        self.manager.send_page(remote_node_id, gpa, data)
    }

    fn register_memory(&self, addr: u64, length: usize) -> (result: Result<
        TcpMemoryRegion,
        TransportError,
    >)
        ensures
            result == Ok::<TcpMemoryRegion, TransportError>(TcpMemoryRegion { addr, length }),
    {
        Ok(TcpMemoryRegion { addr, length })
    }

    fn local_endpoint(&self) -> (endpoint: TransportEndpoint)
    {
        proof {
            reveal_strlit("127.0.0.1");
        }
        let host = String::from_str("127.0.0.1");
        assert(host@ =~= loopback_host());
        TransportEndpoint::Tcp { addr: host, port: 0 }
    }

    /// Records the peer `remote_node_id`. The transport publishes a TCP
    /// endpoint, so it connects to TCP endpoints alone: an endpoint of the
    /// other kind is refused and changes nothing.
    fn connect(&mut self, remote_node_id: u32, remote_endpoint: TransportEndpoint) -> (result:
        Result<(), TransportError>)
    {
        match remote_endpoint {
            TransportEndpoint::Tcp { addr, port } => self.manager.connect_node(
                remote_node_id,
                addr.as_str(),
            ),
            TransportEndpoint::Rdma { .. } => Err(TransportError::EndpointMismatch),
        }
    }

    fn performance_tier(&self) -> (tier: TransportTier)
    {
        TransportTier::Basic
    }

    fn measure_latency(&self, remote_node_id: u32) -> (result: Result<u64, TransportError>)
    {
        if self.manager.connections.contains_key(&remote_node_id) {
            Ok(0)
        } else {
            Err(TransportError::NodeNotConnected(remote_node_id))
        }
    }
}

} // verus!
