//! The verbs backend without the device: the values that are handed to the
//! verbs calls, the order of those calls, and what is made of their
//! results. This module holds the numbers of the verbs interface; the
//! device and the connection have a module each.

use vstd::prelude::*;

pub mod connection;
pub mod device;

pub use connection::{
    create_action, create_next, fresh_psn, initial_psn, local_endpoint, poll_send_completion,
    post_result, qp_init_attr, qp_to_init, qp_to_rtr, qp_to_rts, read_request, release_order,
    work_request, write_request, AddressHandle, Completion, ConnectionResource, CreateAction, CreateState,
    PollStep, QpAttr, QpInitAttr, QpTransition, RdmaConnection, ScatterGather, WorkRequest,
    WrIdCounter, POLL_BUDGET_NS, POLL_PAUSE_US, PSN_LIMIT,
};
pub use device::{
    close_order, DeviceAttributes, DeviceResource, OpenAction, OpenState, PortAttributes, RdmaDevice,
    RdmaMemoryRegion,
};

verus! {

/// Access flag: the region may be written locally.
pub const IBV_ACCESS_LOCAL_WRITE: u32 = 1;

/// Access flag: peers may write the region.
pub const IBV_ACCESS_REMOTE_WRITE: u32 = 2;

/// Access flag: peers may read the region.
pub const IBV_ACCESS_REMOTE_READ: u32 = 4;

/// The access flags of every registered region and every queue pair:
/// local write, remote read and remote write.
pub const PAGE_ACCESS_FLAGS: u32 = 7;

/// The page access flags are the three single flags together.
pub proof fn lemma_page_access_flags()
    ensures
        PAGE_ACCESS_FLAGS == IBV_ACCESS_LOCAL_WRITE | IBV_ACCESS_REMOTE_READ
            | IBV_ACCESS_REMOTE_WRITE,
{
    assert(7u32 == 1u32 | 4u32 | 2u32) by (bit_vector);
}

/// Depth of each of the two completion queues of a connection.
pub const CQ_DEPTH: u32 = 256;

/// Number of pages in the page pool.
pub const POOL_PAGES: usize = 1024;

/// The one port that is used.
pub const PORT_NUM: u8 = 1;

/// Hop limit of packets with a global route.
pub const HOP_LIMIT: u8 = 64;

/// Largest inline payload of a send.
pub const MAX_INLINE_DATA: u32 = 64;

/// Attribute mask bits of a queue pair modification. They are distinct
/// bits, so a sum of different ones is their union.
pub const IBV_QP_STATE: i32 = 1;

pub const IBV_QP_PKEY_INDEX: i32 = 2;

pub const IBV_QP_PORT: i32 = 4;

pub const IBV_QP_ACCESS_FLAGS: i32 = 8;

pub const IBV_QP_AV: i32 = 16;

pub const IBV_QP_PATH_MTU: i32 = 32;

pub const IBV_QP_DEST_QPN: i32 = 64;

pub const IBV_QP_RQ_PSN: i32 = 128;

pub const IBV_QP_MAX_DEST_RD_ATOMIC: i32 = 256;

pub const IBV_QP_MIN_RNR_TIMER: i32 = 512;

pub const IBV_QP_TIMEOUT: i32 = 1024;

pub const IBV_QP_RETRY_CNT: i32 = 2048;

pub const IBV_QP_RNR_RETRY: i32 = 4096;

pub const IBV_QP_SQ_PSN: i32 = 8192;

pub const IBV_QP_MAX_QP_RD_ATOMIC: i32 = 16384;

/// Send flag: the work request produces a completion.
pub const IBV_SEND_SIGNALED: u32 = 2;

/// Transport type of a queue pair.
#[allow(non_camel_case_types)]
#[derive(Debug, Clone, Copy, PartialEq, Eq, Structural)]
pub enum ibv_qp_type {
    /// Reliable connection.
    IBV_QPT_RC,
}

/// State of a queue pair.
#[allow(non_camel_case_types)]
#[derive(Debug, Clone, Copy, PartialEq, Eq, Structural)]
pub enum ibv_qp_state {
    IBV_QPS_RESET,
    IBV_QPS_INIT,
    IBV_QPS_RTR,
    IBV_QPS_RTS,
}

/// Path MTU of a queue pair.
#[allow(non_camel_case_types)]
#[derive(Debug, Clone, Copy, PartialEq, Eq, Structural)]
pub enum ibv_mtu {
    /// 4096 bytes.
    IBV_MTU_4096,
}

/// Operation of a work request.
#[allow(non_camel_case_types)]
#[derive(Debug, Clone, Copy, PartialEq, Eq, Structural)]
pub enum ibv_wr_opcode {
    IBV_WR_RDMA_READ,
    IBV_WR_RDMA_WRITE,
}

/// Status of a work completion.
#[allow(non_camel_case_types)]
#[derive(Debug, Clone, Copy, PartialEq, Eq, Structural)]
pub enum ibv_wc_status {
    IBV_WC_SUCCESS,
}

/// Attribute mask of a queue pair modification.
#[allow(non_camel_case_types)]
#[derive(Debug, Clone, Copy, PartialEq, Eq, Structural)]
pub struct ibv_qp_attr_mask(pub i32);

/// Flags of a send work request.
#[allow(non_camel_case_types)]
#[derive(Debug, Clone, Copy, PartialEq, Eq, Structural)]
pub struct ibv_send_flags(pub u32);

impl ibv_qp_type {
    /// The number that the verbs interface uses for this type.
    pub fn value(&self) -> (v: u32)
        ensures
            v == 2,
    {
        2
    }
}

/// The number that the verbs interface uses for a queue pair state.
pub open spec fn qp_state_value(state: ibv_qp_state) -> u32 {
    match state {
        ibv_qp_state::IBV_QPS_RESET => 0,
        ibv_qp_state::IBV_QPS_INIT => 1,
        ibv_qp_state::IBV_QPS_RTR => 2,
        ibv_qp_state::IBV_QPS_RTS => 3,
    }
}

impl ibv_qp_state {
    /// The number that the verbs interface uses for this state.
    pub fn value(&self) -> (v: u32)
        ensures
            v == qp_state_value(*self),
    {
        match self {
            ibv_qp_state::IBV_QPS_RESET => 0,
            ibv_qp_state::IBV_QPS_INIT => 1,
            ibv_qp_state::IBV_QPS_RTR => 2,
            ibv_qp_state::IBV_QPS_RTS => 3,
        }
    }
}

impl ibv_mtu {
    /// The number that the verbs interface uses for this MTU.
    pub fn value(&self) -> (v: u32)
        ensures
            v == 5,
    {
        5
    }

    /// The MTU in bytes.
    pub fn bytes(&self) -> (n: u32)
        ensures
            n == 4096,
    {
        4096
    }
}

/// The number that the verbs interface uses for an operation.
pub open spec fn opcode_value(opcode: ibv_wr_opcode) -> u32 {
    match opcode {
        ibv_wr_opcode::IBV_WR_RDMA_READ => 2,
        ibv_wr_opcode::IBV_WR_RDMA_WRITE => 3,
    }
}

impl ibv_wr_opcode {
    /// The number that the verbs interface uses for this operation.
    pub fn value(&self) -> (v: u32)
        ensures
            v == opcode_value(*self),
    {
        match self {
            ibv_wr_opcode::IBV_WR_RDMA_READ => 2,
            ibv_wr_opcode::IBV_WR_RDMA_WRITE => 3,
        }
    }
}

impl ibv_wc_status {
    /// The number that the verbs interface uses for this status.
    pub fn value(&self) -> (v: u32)
        ensures
            v == 0,
    {
        0
    }
}

} // verus!
