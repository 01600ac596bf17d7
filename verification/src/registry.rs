//! The RDMA transport manager with a registry of remote pages: where each
//! guest page lives on its owner, which peers have a connection, and the
//! work request that a fetch or a send comes to.

use crate::endpoint::QpEndpoint;
use crate::error::{ProtocolViolation, RdmaFailure, TransportError};
use crate::rdma::{
    ibv_wr_opcode, read_request, work_request, write_request, RdmaConnection, RdmaDevice,
    RdmaMemoryRegion, WorkRequest, WrIdCounter, POOL_PAGES,
};
use crate::PAGE_SIZE;
use std::collections::HashMap;
use vstd::prelude::*;

verus! {

broadcast use vstd::std_specs::hash::group_hash_axioms;

/// Size of the page pool in bytes.
pub const POOL_SIZE: usize = 4194304;

/// Where a guest page lives on its owner.
#[derive(Debug, Clone, Copy, PartialEq, Eq, Structural)]
pub struct RemotePageInfo {
    pub node_id: u32,
    pub addr: u64,
    pub rkey: u32,
}

/// Figures of the connection to one node.
#[derive(Debug, Clone, Copy, PartialEq, Eq, Structural)]
pub struct ConnectionStats {
    pub node_id: u32,
    pub active: bool,
    pub operations_count: u64,
    pub bytes_transferred: u64,
}

/// The state of a manager as a mathematical value.
pub struct ManagerView {
    /// Id of this node.
    pub local_node_id: u32,
    /// The name of the device, where one is open.
    pub device: Option<Seq<char>>,
    /// The registered page pool, if there is one.
    pub pool: Option<RdmaMemoryRegion>,
    /// The connection to each node that has one.
    pub connections: Map<u32, RdmaConnection>,
    /// The remote location of each registered page.
    pub remote_pages: Map<u64, RemotePageInfo>,
    /// The id of the next work request.
    pub next_wr_id: u64,
}

/// Transport manager for cluster-wide RDMA operations.
pub struct TransportManager {
    local_node_id: u32,
    device: Option<RdmaDevice>,
    page_pool_mr: Option<RdmaMemoryRegion>,
    connections: HashMap<u32, RdmaConnection>,
    remote_pages: HashMap<u64, RemotePageInfo>,
    wr_ids: WrIdCounter,
}

impl View for TransportManager {
    type V = ManagerView;

    closed spec fn view(&self) -> ManagerView {
        ManagerView {
            local_node_id: self.local_node_id,
            device: match self.device {
                Some(device) => Some(device.name_text()),
                None => None,
            },
            pool: self.page_pool_mr,
            connections: self.connections@,
            remote_pages: self.remote_pages@,
            next_wr_id: self.wr_ids@,
        }
    }
}

/// The read that fetches the page at `gpa`, or why there is none: the page
/// must be registered, its owner connected and the page pool registered,
/// and these are looked at in this order.
pub open spec fn fetch_plan(v: ManagerView, gpa: u64) -> Result<WorkRequest, TransportError> {
    if !v.remote_pages.contains_key(gpa) {
        Err(TransportError::PageNotRegistered(gpa))
    } else if !v.connections.contains_key(v.remote_pages[gpa].node_id) {
        Err(TransportError::NodeNotFound(v.remote_pages[gpa].node_id))
    } else if v.pool is None {
        Err(TransportError::RdmaFailed(RdmaFailure::Unavailable))
    } else {
        Ok(
            work_request(
                ibv_wr_opcode::IBV_WR_RDMA_READ,
                v.next_wr_id,
                v.pool->0,
                0,
                v.remote_pages[gpa].addr,
                v.remote_pages[gpa].rkey,
                PAGE_SIZE,
            ),
        )
    }
}

/// The write that sends `len` bytes as the page at `gpa` to `node_id`, or
/// why there is none: the data must be one page, the node connected and the
/// page pool registered, and these are looked at in this order. The page is
/// written to `gpa` under the remote key 0.
pub open spec fn send_plan(v: ManagerView, node_id: u32, gpa: u64, len: usize) -> Result<
    WorkRequest,
    TransportError,
> {
    if len != PAGE_SIZE {
        Err(TransportError::ProtocolError(ProtocolViolation::WrongPageSize))
    } else if !v.connections.contains_key(node_id) {
        Err(TransportError::NodeNotFound(node_id))
    } else if v.pool is None {
        Err(TransportError::RdmaFailed(RdmaFailure::Unavailable))
    } else {
        Ok(
            work_request(
                ibv_wr_opcode::IBV_WR_RDMA_WRITE,
                v.next_wr_id,
                v.pool->0,
                0,
                gpa,
                0,
                PAGE_SIZE,
            ),
        )
    }
}

/// The id of the work request that follows the one with the id `id`.
pub open spec fn wr_id_after(id: u64) -> u64 {
    if id == u64::MAX {
        0
    } else {
        (id + 1) as u64
    }
}

impl TransportManager {
    /// A manager for node `local_node_id`. `device` is the device where one
    /// could be opened, and `page_pool` the registration of the page pool
    /// where it succeeded; without a device there is no pool.
    pub fn new(
        local_node_id: u32,
        device: Option<RdmaDevice>,
        page_pool: Option<RdmaMemoryRegion>,
    ) -> (manager: Self)
        ensures
            manager@ == (ManagerView {
                local_node_id,
                device: match device {
                    Some(opened) => Some(opened.name_text()),
                    None => None,
                },
                pool: if device is Some {
                    page_pool
                } else {
                    None
                },
                connections: Map::<u32, RdmaConnection>::empty(),
                remote_pages: Map::<u64, RemotePageInfo>::empty(),
                next_wr_id: 1,
            }),
    {
        let page_pool_mr = match &device {
            Some(_) => page_pool,
            None => None,
        };
        let manager = TransportManager {
            local_node_id,
            device,
            page_pool_mr,
            connections: HashMap::new(),
            remote_pages: HashMap::new(),
            wr_ids: WrIdCounter::new(),
        };
        manager
    }

    /// Keeps the connection `connection`, whose queue pair has just been
    /// created, for the peer `remote_node_id` and says the endpoint to hand
    /// to that peer. Without a device nothing is kept.
    pub fn get_local_endpoint(&mut self, remote_node_id: u32, connection: RdmaConnection) -> (result:
        Result<QpEndpoint, TransportError>)
        ensures
            match result {
                Ok(endpoint) => old(self)@.device is Some && endpoint == connection.local()
                    && final(self)@ == (ManagerView {
                    connections: old(self)@.connections.insert(remote_node_id, connection),
                    ..old(self)@
                }),
                Err(e) => old(self)@.device is None && e == TransportError::RdmaFailed(
                    RdmaFailure::Unavailable,
                ) && final(self)@ == old(self)@,
            },
    {
        if self.device.is_none() {
            return Err(TransportError::RdmaFailed(RdmaFailure::Unavailable));
        }
        let endpoint = *connection.local_endpoint();
        self.connections.insert(remote_node_id, connection);
        Ok(endpoint)
    }

    /// Whether a connection to `remote_node_id` has to be set up before
    /// `connect_node`: it has where there is a device and no connection to
    /// that node yet.
    pub fn needs_connection(&self, remote_node_id: u32) -> (needed: bool)
        ensures
            needed == (self@.device is Some && !self@.connections.contains_key(remote_node_id)),
    {
        self.device.is_some() && !self.connections.contains_key(&remote_node_id)
    }

    /// Keeps the connection `connection` to the peer `remote_node_id`. A
    /// node that has a connection already keeps the one it has; without a
    /// device nothing is kept.
    pub fn connect_node(&mut self, remote_node_id: u32, connection: RdmaConnection) -> (result:
        Result<(), TransportError>)
        ensures
            match result {
                Ok(_) => old(self)@.device is Some && final(self)@ == (ManagerView {
                    connections: if old(self)@.connections.contains_key(remote_node_id) {
                        old(self)@.connections
                    } else {
                        old(self)@.connections.insert(remote_node_id, connection)
                    },
                    ..old(self)@
                }),
                Err(e) => old(self)@.device is None && e == TransportError::RdmaFailed(
                    RdmaFailure::Unavailable,
                ) && final(self)@ == old(self)@,
            },
    {
        if self.device.is_none() {
            return Err(TransportError::RdmaFailed(RdmaFailure::Unavailable));
        }
        if self.connections.contains_key(&remote_node_id) {
            return Ok(());
        }
        self.connections.insert(remote_node_id, connection);
        Ok(())
    }

    /// Registers where the page at `gpa` lives.
    pub fn register_remote_page(&mut self, gpa: u64, page_info: RemotePageInfo)
        ensures
            final(self)@ == (ManagerView {
                remote_pages: old(self)@.remote_pages.insert(gpa, page_info),
                ..old(self)@
            }),
    {
        self.remote_pages.insert(gpa, page_info);
    }

    /// Where the page at `gpa` lives, if that is registered.
    pub fn remote_page(&self, gpa: u64) -> (info: Option<RemotePageInfo>)
        ensures
            info == if self@.remote_pages.contains_key(gpa) {
                Some(self@.remote_pages[gpa])
            } else {
                None
            },
    {
        match self.remote_pages.get(&gpa) {
            Some(info) => Some(*info),
            None => None,
        }
    }

    /// The read that fetches the page at `gpa` into the start of the page
    /// pool, under a fresh work request id; or why the page cannot be
    /// fetched, and then no id is used.
    pub fn fetch_page(&mut self, gpa: u64) -> (result: Result<WorkRequest, TransportError>)
        ensures
            result == fetch_plan(old(self)@, gpa),
            final(self)@ == (ManagerView {
                next_wr_id: if result is Ok {
                    wr_id_after(old(self)@.next_wr_id)
                } else {
                    old(self)@.next_wr_id
                },
                ..old(self)@
            }),
    {
        let page_info = match self.remote_pages.get(&gpa) {
            None => {
                return Err(TransportError::PageNotRegistered(gpa));
            },
            Some(info) => *info,
        };
        if !self.connections.contains_key(&page_info.node_id) {
            return Err(TransportError::NodeNotFound(page_info.node_id));
        }
        let mr = match self.page_pool_mr {
            None => {
                return Err(TransportError::RdmaFailed(RdmaFailure::Unavailable));
            },
            Some(mr) => mr,
        };
        let wr_id = self.wr_ids.generate_wr_id();
        Ok(read_request(wr_id, &mr, 0, page_info.addr, page_info.rkey, PAGE_SIZE))
    }

    /// The write that sends the page at `gpa`, `len` bytes long and copied
    /// to the start of the page pool, to `node_id`, under a fresh work
    /// request id; or why the page cannot be sent, and then no id is used.
    pub fn send_page(&mut self, node_id: u32, gpa: u64, len: usize) -> (result: Result<
        WorkRequest,
        TransportError,
    >)
        ensures
            result == send_plan(old(self)@, node_id, gpa, len),
            final(self)@ == (ManagerView {
                next_wr_id: if result is Ok {
                    wr_id_after(old(self)@.next_wr_id)
                } else {
                    old(self)@.next_wr_id
                },
                ..old(self)@
            }),
    {
        if len != PAGE_SIZE {
            return Err(TransportError::ProtocolError(ProtocolViolation::WrongPageSize));
        }
        if !self.connections.contains_key(&node_id) {
            return Err(TransportError::NodeNotFound(node_id));
        }
        let mr = match self.page_pool_mr {
            None => {
                return Err(TransportError::RdmaFailed(RdmaFailure::Unavailable));
            },
            Some(mr) => mr,
        };
        let wr_id = self.wr_ids.generate_wr_id();
        Ok(write_request(wr_id, &mr, 0, gpa, 0, PAGE_SIZE))
    }

    /// The figures of the connection to `node_id`. Operations and bytes are
    /// not counted: both figures are 0.
    pub fn get_connection_stats(&self, node_id: u32) -> (result: Result<
        ConnectionStats,
        TransportError,
    >)
        ensures
            result == Ok::<ConnectionStats, TransportError>(
                ConnectionStats {
                    node_id,
                    active: self@.connections.contains_key(node_id),
                    operations_count: 0,
                    bytes_transferred: 0,
                },
            ),
    {
        Ok(
            ConnectionStats {
                node_id,
                active: self.connections.contains_key(&node_id),
                operations_count: 0,
                bytes_transferred: 0,
            },
        )
    }

    /// Drops the connection to `node_id`; an error where there is none.
    pub fn disconnect_node(&mut self, node_id: u32) -> (result: Result<(), TransportError>)
        ensures
            match result {
                Ok(_) => old(self)@.connections.contains_key(node_id) && final(self)@
                    == (ManagerView {
                    connections: old(self)@.connections.remove(node_id),
                    ..old(self)@
                }),
                Err(e) => !old(self)@.connections.contains_key(node_id) && e
                    == TransportError::NodeNotFound(node_id) && final(self)@ == old(self)@,
            },
    {
        match self.connections.remove(&node_id) {
            Some(_) => Ok(()),
            None => {
                assert(self@.connections =~= old(self)@.connections);
                Err(TransportError::NodeNotFound(node_id))
            },
        }
    }

    /// Whether a device is open.
    pub fn is_rdma_available(&self) -> (available: bool)
        ensures
            available == (self@.device is Some),
    {
        self.device.is_some()
    }
}

/// The page pool holds `POOL_PAGES` pages.
pub proof fn lemma_pool_size()
    ensures
        POOL_SIZE == PAGE_SIZE * POOL_PAGES,
{
}

/// Work request ids are handed out once each: until the count starts over
/// the id that follows is the next number.
pub proof fn lemma_wr_ids_ascend(id: u64)
    ensures
        id < u64::MAX ==> wr_id_after(id) == id + 1,
        wr_id_after(id) != id,
{
}

} // verus!
