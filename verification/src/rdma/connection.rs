//! The reliable connection to one peer: the attributes of its queue pair
//! on the way from RESET to RTS, its work requests, the wait for their
//! completion, and its setup without leaking what was created on the way.

use crate::endpoint::QpEndpoint;
use crate::error::{RdmaFailure, TransportError};
use crate::rdma::device::{PortAttributes, RdmaMemoryRegion};
use crate::rdma::{
    ibv_mtu, ibv_qp_attr_mask, ibv_qp_state, ibv_qp_type, ibv_send_flags, ibv_wr_opcode,
    qp_state_value, HOP_LIMIT, IBV_QP_ACCESS_FLAGS, IBV_QP_AV, IBV_QP_DEST_QPN,
    IBV_QP_MAX_DEST_RD_ATOMIC, IBV_QP_MAX_QP_RD_ATOMIC, IBV_QP_MIN_RNR_TIMER, IBV_QP_PATH_MTU,
    IBV_QP_PKEY_INDEX, IBV_QP_PORT, IBV_QP_RETRY_CNT, IBV_QP_RNR_RETRY, IBV_QP_RQ_PSN,
    IBV_QP_SQ_PSN, IBV_QP_STATE, IBV_QP_TIMEOUT, IBV_SEND_SIGNALED, MAX_INLINE_DATA,
    PAGE_ACCESS_FLAGS, PORT_NUM,
};
use vstd::prelude::*;

verus! {

/// Capabilities asked of a new queue pair.
#[derive(Debug, Clone, Copy, PartialEq, Eq, Structural)]
pub struct QpInitAttr {
    pub qp_type: ibv_qp_type,
    pub max_send_wr: u32,
    pub max_recv_wr: u32,
    pub max_send_sge: u32,
    pub max_recv_sge: u32,
    pub max_inline_data: u32,
}

/// The capabilities of a reliable-connection queue pair whose completion
/// queues are `cq_depth` deep: as many outstanding work requests in either
/// direction, each with one scatter-gather entry.
pub fn qp_init_attr(cq_depth: u32) -> (attr: QpInitAttr)
    ensures
        attr == (QpInitAttr {
            qp_type: ibv_qp_type::IBV_QPT_RC,
            max_send_wr: cq_depth,
            max_recv_wr: cq_depth,
            max_send_sge: 1,
            max_recv_sge: 1,
            max_inline_data: MAX_INLINE_DATA,
        }),
{
    QpInitAttr {
        qp_type: ibv_qp_type::IBV_QPT_RC,
        max_send_wr: cq_depth,
        max_recv_wr: cq_depth,
        max_send_sge: 1,
        max_recv_sge: 1,
        max_inline_data: MAX_INLINE_DATA,
    }
}

/// Where packets of a queue pair are sent.
#[derive(Debug, Clone, Copy, PartialEq, Eq)]
pub struct AddressHandle {
    pub dlid: u16,
    pub sl: u8,
    pub src_path_bits: u8,
    pub port_num: u8,
    pub is_global: bool,
    pub dgid: [u8; 16],
    pub sgid_index: u8,
    pub hop_limit: u8,
}

/// The attributes of a queue pair that a modification may set. A field
/// counts only where the mask of the modification names it.
#[derive(Debug, Clone, Copy, PartialEq, Eq)]
pub struct QpAttr {
    pub qp_state: ibv_qp_state,
    pub pkey_index: u16,
    pub port_num: u8,
    pub qp_access_flags: u32,
    pub path_mtu: ibv_mtu,
    pub dest_qp_num: u32,
    pub rq_psn: u32,
    pub sq_psn: u32,
    pub max_dest_rd_atomic: u8,
    pub max_rd_atomic: u8,
    pub min_rnr_timer: u8,
    pub timeout: u8,
    pub retry_cnt: u8,
    pub rnr_retry: u8,
    pub ah_attr: AddressHandle,
}

/// One modification of a queue pair: the attributes and the mask that says
/// which of them are set.
#[derive(Debug, Clone, Copy, PartialEq, Eq)]
pub struct QpTransition {
    pub attr: QpAttr,
    pub mask: ibv_qp_attr_mask,
}

/// A global identifier of zeros.
pub open spec fn zero_gid() -> Seq<u8> {
    Seq::new(16, |i: int| 0u8)
}

/// The mask of the modification that takes a queue pair to INIT.
pub open spec fn init_mask() -> int {
    IBV_QP_STATE + IBV_QP_PKEY_INDEX + IBV_QP_PORT + IBV_QP_ACCESS_FLAGS
}

/// The mask of the modification that takes a queue pair to RTR.
pub open spec fn rtr_mask() -> int {
    IBV_QP_STATE + IBV_QP_AV + IBV_QP_PATH_MTU + IBV_QP_DEST_QPN + IBV_QP_RQ_PSN
        + IBV_QP_MAX_DEST_RD_ATOMIC + IBV_QP_MIN_RNR_TIMER
}

/// The mask of the modification that takes a queue pair to RTS.
pub open spec fn rts_mask() -> int {
    IBV_QP_STATE + IBV_QP_TIMEOUT + IBV_QP_RETRY_CNT + IBV_QP_RNR_RETRY + IBV_QP_SQ_PSN
        + IBV_QP_MAX_QP_RD_ATOMIC
}

/// Attributes with every field zero, in state `state`.
fn blank(state: ibv_qp_state) -> (attr: QpAttr)
    ensures
        attr.qp_state == state,
        attr.pkey_index == 0,
        attr.port_num == 0,
        attr.qp_access_flags == 0,
        attr.path_mtu == ibv_mtu::IBV_MTU_4096,
        attr.dest_qp_num == 0,
        attr.rq_psn == 0,
        attr.sq_psn == 0,
        attr.max_dest_rd_atomic == 0,
        attr.max_rd_atomic == 0,
        attr.min_rnr_timer == 0,
        attr.timeout == 0,
        attr.retry_cnt == 0,
        attr.rnr_retry == 0,
        attr.ah_attr.dlid == 0,
        attr.ah_attr.sl == 0,
        attr.ah_attr.src_path_bits == 0,
        attr.ah_attr.port_num == 0,
        !attr.ah_attr.is_global,
        attr.ah_attr.dgid@ == zero_gid(),
        attr.ah_attr.sgid_index == 0,
        attr.ah_attr.hop_limit == 0,
{
    let dgid: [u8; 16] = [0u8; 16];
    assert(dgid@ =~= zero_gid());
    QpAttr {
        qp_state: state,
        pkey_index: 0,
        port_num: 0,
        qp_access_flags: 0,
        path_mtu: ibv_mtu::IBV_MTU_4096,
        dest_qp_num: 0,
        rq_psn: 0,
        sq_psn: 0,
        max_dest_rd_atomic: 0,
        max_rd_atomic: 0,
        min_rnr_timer: 0,
        timeout: 0,
        retry_cnt: 0,
        rnr_retry: 0,
        ah_attr: AddressHandle {
            dlid: 0,
            sl: 0,
            src_path_bits: 0,
            port_num: 0,
            is_global: false,
            dgid,
            sgid_index: 0,
            hop_limit: 0,
        },
    }
}

/// Whether `gid` holds a byte that is not zero.
fn gid_is_set(gid: &[u8; 16]) -> (set: bool)
    ensures
        set == (gid@ != zero_gid()),
{
    let mut i: usize = 0;
    while i < 16
        invariant
            i <= 16,
            forall|j: int| 0 <= j < i ==> gid@[j] == 0u8,
        decreases 16 - i,
    {
        if gid[i] != 0 {
            assert(zero_gid()[i as int] == 0u8);
            return true;
        }
        i = i + 1;
    }
    assert(gid@ =~= zero_gid());
    false
}

/// The modification RESET → INIT: port 1, partition key index 0, and the
/// access flags local write, remote read and remote write.
pub fn qp_to_init() -> (transition: QpTransition)
    ensures
        transition.mask.0 == init_mask(),
        transition.attr.qp_state == ibv_qp_state::IBV_QPS_INIT,
        transition.attr.pkey_index == 0,
        transition.attr.port_num == PORT_NUM,
        transition.attr.qp_access_flags == PAGE_ACCESS_FLAGS,
{
    let mut attr = blank(ibv_qp_state::IBV_QPS_INIT);
    attr.pkey_index = 0;
    attr.port_num = PORT_NUM;
    attr.qp_access_flags = PAGE_ACCESS_FLAGS;
    let mask: i32 = IBV_QP_STATE + IBV_QP_PKEY_INDEX + IBV_QP_PORT + IBV_QP_ACCESS_FLAGS;
    QpTransition { attr, mask: ibv_qp_attr_mask(mask) }
}

/// The modification INIT → RTR towards the peer `remote_ep`: path MTU 4096,
/// the peer's queue pair number and packet sequence number, one outstanding
/// read at the destination, RNR timer 12, and the peer's local id on
/// port 1. The route is global, with hop limit 64, exactly where the peer
/// has a global identifier that is not all zeros.
pub fn qp_to_rtr(remote_ep: &QpEndpoint) -> (transition: QpTransition)
    ensures
        transition.mask.0 == rtr_mask(),
        transition.attr.qp_state == ibv_qp_state::IBV_QPS_RTR,
        transition.attr.path_mtu == ibv_mtu::IBV_MTU_4096,
        transition.attr.dest_qp_num == remote_ep.qpn,
        transition.attr.rq_psn == remote_ep.psn,
        transition.attr.max_dest_rd_atomic == 1,
        transition.attr.min_rnr_timer == 12,
        transition.attr.ah_attr.dlid == remote_ep.lid,
        transition.attr.ah_attr.sl == 0,
        transition.attr.ah_attr.src_path_bits == 0,
        transition.attr.ah_attr.port_num == PORT_NUM,
        transition.attr.ah_attr.is_global == (remote_ep.gid@ != zero_gid()),
        transition.attr.ah_attr.dgid@ == remote_ep.gid@,
        transition.attr.ah_attr.sgid_index == 0,
        transition.attr.ah_attr.hop_limit == if remote_ep.gid@ != zero_gid() {
            HOP_LIMIT
        } else {
            0
        },
{
    let mut attr = blank(ibv_qp_state::IBV_QPS_RTR);
    attr.path_mtu = ibv_mtu::IBV_MTU_4096;
    attr.dest_qp_num = remote_ep.qpn;
    attr.rq_psn = remote_ep.psn;
    attr.max_dest_rd_atomic = 1;
    attr.min_rnr_timer = 12;
    let mut ah = attr.ah_attr;
    ah.dlid = remote_ep.lid;
    ah.sl = 0;
    ah.src_path_bits = 0;
    ah.port_num = PORT_NUM;
    if gid_is_set(&remote_ep.gid) {
        ah.is_global = true;
        ah.dgid = remote_ep.gid;
        ah.sgid_index = 0;
        ah.hop_limit = HOP_LIMIT;
    }
    attr.ah_attr = ah;
    let mask: i32 = IBV_QP_STATE + IBV_QP_AV + IBV_QP_PATH_MTU + IBV_QP_DEST_QPN + IBV_QP_RQ_PSN
        + IBV_QP_MAX_DEST_RD_ATOMIC + IBV_QP_MIN_RNR_TIMER;
    QpTransition { attr, mask: ibv_qp_attr_mask(mask) }
}

/// The modification RTR → RTS for a queue pair whose own initial packet
/// sequence number is `local_psn`: timeout 14, seven retries, seven RNR
/// retries, and one outstanding read.
pub fn qp_to_rts(local_psn: u32) -> (transition: QpTransition)
    ensures
        transition.mask.0 == rts_mask(),
        transition.attr.qp_state == ibv_qp_state::IBV_QPS_RTS,
        transition.attr.sq_psn == local_psn,
        transition.attr.timeout == 14,
        transition.attr.retry_cnt == 7,
        transition.attr.rnr_retry == 7,
        transition.attr.max_rd_atomic == 1,
{
    let mut attr = blank(ibv_qp_state::IBV_QPS_RTS);
    attr.sq_psn = local_psn;
    attr.timeout = 14;
    attr.retry_cnt = 7;
    attr.rnr_retry = 7;
    attr.max_rd_atomic = 1;
    let mask: i32 = IBV_QP_STATE + IBV_QP_TIMEOUT + IBV_QP_RETRY_CNT + IBV_QP_RNR_RETRY
        + IBV_QP_SQ_PSN + IBV_QP_MAX_QP_RD_ATOMIC;
    QpTransition { attr, mask: ibv_qp_attr_mask(mask) }
}


/// Number of values that a packet sequence number can take: it has 24 bits.
pub const PSN_LIMIT: u32 = 16777216;

/// A random number from `rand::random`, which draws from the generator of
/// the calling thread. Nothing is known of it.
#[verifier::external_body]
fn random_u32() -> u32 {
    rand::random::<u32>()
}

/// The packet sequence number for the random number `random`: its lower 24
/// bits.
pub open spec fn psn_of(random: u32) -> u32 {
    random & 0xffffff
}

/// The packet sequence number for the random number `random`.
pub fn initial_psn(random: u32) -> (psn: u32)
    ensures
        psn == psn_of(random),
        psn < PSN_LIMIT,
{
    let psn: u32 = random & 0xffffff;
    assert(random & 0xffffff < 16777216) by (bit_vector);
    psn
}

/// A packet sequence number holds its 24 bits: numbers below the limit are
/// taken as they are.
pub proof fn lemma_psn_range(random: u32)
    ensures
        psn_of(random) < PSN_LIMIT,
        random < PSN_LIMIT ==> psn_of(random) == random,
{
    assert(random & 0xffffff < 16777216) by (bit_vector);
    assert(random < 16777216 ==> random & 0xffffff == random) by (bit_vector);
}

/// A fresh random packet sequence number of 24 bits.
pub fn fresh_psn() -> (psn: u32)
    ensures
        psn < PSN_LIMIT,
{
    initial_psn(random_u32())
}

/// The endpoint of a new queue pair number `qpn` on the port `port`, with
/// the packet sequence number `psn`.
pub fn local_endpoint(qpn: u32, port: &PortAttributes, psn: u32) -> (endpoint: QpEndpoint)
    ensures
        endpoint.qpn == qpn,
        endpoint.lid == port.lid,
        endpoint.gid == port.gid,
        endpoint.psn == psn,
{
    QpEndpoint { qpn, lid: port.lid, gid: port.gid, psn }
}

/// Source of work request ids: each id is handed out once, in ascending
/// order from 1.
#[derive(Debug)]
pub struct WrIdCounter {
    next: u64,
}

impl View for WrIdCounter {
    type V = u64;

    closed spec fn view(&self) -> u64 {
        self.next
    }
}

impl WrIdCounter {
    /// A counter whose first id is 1.
    pub fn new() -> (counter: Self)
        ensures
            counter@ == 1,
    {
        WrIdCounter { next: 1 }
    }

    /// The next id. After `u64::MAX` the count starts over at 0.
    pub fn generate_wr_id(&mut self) -> (id: u64)
        ensures
            id == old(self)@,
            final(self)@ == if old(self)@ == u64::MAX {
                0
            } else {
                (old(self)@ + 1) as u64
            },
    {
        let id = self.next;
        self.next = if id == u64::MAX {
            0
        } else {
            id + 1
        };
        id
    }
}

/// One scatter-gather entry: `length` bytes of local memory from `addr` on,
/// under the local key `lkey`.
#[derive(Debug, Clone, Copy, PartialEq, Eq, Structural)]
pub struct ScatterGather {
    pub addr: u64,
    pub length: u32,
    pub lkey: u32,
}

/// A one-sided work request.
#[derive(Debug, Clone, Copy, PartialEq, Eq, Structural)]
pub struct WorkRequest {
    pub wr_id: u64,
    pub sge: ScatterGather,
    pub num_sge: i32,
    pub opcode: ibv_wr_opcode,
    pub send_flags: ibv_send_flags,
    pub remote_addr: u64,
    pub rkey: u32,
}

/// The signaled work request with the id `wr_id` that moves `length` bytes
/// between offset `local_offset` of the region `local_mr` and `remote_addr`
/// under `remote_rkey`, in the direction that `opcode` says.
pub open spec fn work_request(
    opcode: ibv_wr_opcode,
    wr_id: u64,
    local_mr: RdmaMemoryRegion,
    local_offset: usize,
    remote_addr: u64,
    remote_rkey: u32,
    length: usize,
) -> WorkRequest {
    WorkRequest {
        wr_id,
        sge: ScatterGather {
            addr: (local_mr.addr + local_offset) as u64,
            length: length as u32,
            lkey: local_mr.lkey,
        },
        num_sge: 1,
        opcode,
        send_flags: ibv_send_flags(IBV_SEND_SIGNALED),
        remote_addr,
        rkey: remote_rkey,
    }
}

/// The work request that reads `length` bytes at `remote_addr` into the
/// region `local_mr` at `local_offset`.
pub fn read_request(
    wr_id: u64,
    local_mr: &RdmaMemoryRegion,
    local_offset: usize,
    remote_addr: u64,
    remote_rkey: u32,
    length: usize,
) -> (request: WorkRequest)
    requires
        local_mr.addr + local_offset <= u64::MAX,
        length <= u32::MAX,
    ensures
        request == work_request(
            ibv_wr_opcode::IBV_WR_RDMA_READ,
            wr_id,
            *local_mr,
            local_offset,
            remote_addr,
            remote_rkey,
            length,
        ),
{
    WorkRequest {
        wr_id,
        sge: ScatterGather {
            addr: local_mr.addr + local_offset as u64,
            length: length as u32,
            lkey: local_mr.lkey,
        },
        num_sge: 1,
        opcode: ibv_wr_opcode::IBV_WR_RDMA_READ,
        send_flags: ibv_send_flags(IBV_SEND_SIGNALED),
        remote_addr,
        rkey: remote_rkey,
    }
}

/// The work request that writes `length` bytes of the region `local_mr` at
/// `local_offset` to `remote_addr`.
pub fn write_request(
    wr_id: u64,
    local_mr: &RdmaMemoryRegion,
    local_offset: usize,
    remote_addr: u64,
    remote_rkey: u32,
    length: usize,
) -> (request: WorkRequest)
    requires
        local_mr.addr + local_offset <= u64::MAX,
        length <= u32::MAX,
    ensures
        request == work_request(
            ibv_wr_opcode::IBV_WR_RDMA_WRITE,
            wr_id,
            *local_mr,
            local_offset,
            remote_addr,
            remote_rkey,
            length,
        ),
{
    WorkRequest {
        wr_id,
        sge: ScatterGather {
            addr: local_mr.addr + local_offset as u64,
            length: length as u32,
            lkey: local_mr.lkey,
        },
        num_sge: 1,
        opcode: ibv_wr_opcode::IBV_WR_RDMA_WRITE,
        send_flags: ibv_send_flags(IBV_SEND_SIGNALED),
        remote_addr,
        rkey: remote_rkey,
    }
}

/// What posting a work request came to: the status that the post returned
/// is 0 on success.
pub fn post_result(status: i32) -> (result: Result<(), TransportError>)
    ensures
        status == 0 ==> result is Ok,
        status != 0 ==> result == Err::<(), TransportError>(
            TransportError::RdmaFailed(RdmaFailure::PostFailed),
        ),
{
    if status != 0 {
        Err(TransportError::RdmaFailed(RdmaFailure::PostFailed))
    } else {
        Ok(())
    }
}

/// Time allowed for a completion to arrive: 5 seconds, in nanoseconds.
pub const POLL_BUDGET_NS: u128 = 5000000000;

/// Pause between two polls, in microseconds.
pub const POLL_PAUSE_US: u64 = 1;

/// A work completion.
#[derive(Debug, Clone, Copy, PartialEq, Eq, Structural)]
pub struct Completion {
    pub wr_id: u64,
    pub status: u32,
}

/// What to do after one poll of the send completion queue.
#[derive(Debug, Clone, PartialEq, Eq)]
pub enum PollStep {
    /// The awaited completion has arrived with success.
    Completed,
    /// Pause, then poll again.
    Retry,
    /// Give up.
    Fail(TransportError),
}

/// What follows a poll that returned `polled` (negative on error, else the
/// number of completions, of which `completion` is the first) while waiting
/// for the work request `expected_wr_id` since `elapsed_ns` nanoseconds.
/// The completion of the awaited work request ends the wait: with success,
/// or with its status where that is another one. A completion of another
/// work request belongs to another caller and is discarded, whatever its
/// status: the wait goes on as if nothing had arrived, until the budget is
/// used up.
pub open spec fn poll_outcome(
    polled: i32,
    completion: Completion,
    expected_wr_id: u64,
    elapsed_ns: u128,
) -> PollStep {
    if polled < 0 {
        PollStep::Fail(TransportError::RdmaFailed(RdmaFailure::PollFailed))
    } else if polled > 0 && completion.wr_id == expected_wr_id {
        if completion.status == 0 {
            PollStep::Completed
        } else {
            PollStep::Fail(
                TransportError::RdmaFailed(RdmaFailure::CompletionStatus(completion.status)),
            )
        }
    } else if elapsed_ns > POLL_BUDGET_NS {
        PollStep::Fail(TransportError::Timeout)
    } else {
        PollStep::Retry
    }
}

/// What to do after one poll of the send completion queue.
pub fn poll_send_completion(
    polled: i32,
    completion: Completion,
    expected_wr_id: u64,
    elapsed_ns: u128,
) -> (step: PollStep)
    ensures
        step == poll_outcome(polled, completion, expected_wr_id, elapsed_ns),
{
    if polled < 0 {
        return PollStep::Fail(TransportError::RdmaFailed(RdmaFailure::PollFailed));
    }
    if polled > 0 && completion.wr_id == expected_wr_id {
        if completion.status == 0 {
            return PollStep::Completed;
        }
        return PollStep::Fail(
            TransportError::RdmaFailed(RdmaFailure::CompletionStatus(completion.status)),
        );
    }
    if elapsed_ns > POLL_BUDGET_NS {
        PollStep::Fail(TransportError::Timeout)
    } else {
        PollStep::Retry
    }
}

/// A wait ends with success only on a successful completion of the awaited
/// work request, and with a completion status only on another status of
/// that work request. A completion of another work request counts as
/// nothing: within the budget the wait goes on, and behind it the wait
/// times out.
pub proof fn lemma_poll_outcome(
    polled: i32,
    completion: Completion,
    expected_wr_id: u64,
    elapsed_ns: u128,
)
    ensures
        poll_outcome(polled, completion, expected_wr_id, elapsed_ns) == PollStep::Completed <==> (
        polled > 0 && completion.status == 0 && completion.wr_id == expected_wr_id),
        polled == 0 && elapsed_ns <= POLL_BUDGET_NS ==> poll_outcome(
            polled,
            completion,
            expected_wr_id,
            elapsed_ns,
        ) == PollStep::Retry,
        polled >= 0 && elapsed_ns > POLL_BUDGET_NS ==> poll_outcome(
            polled,
            completion,
            expected_wr_id,
            elapsed_ns,
        ) != PollStep::Retry,
        polled > 0 && completion.wr_id == expected_wr_id && completion.status != 0 ==> poll_outcome(
            polled,
            completion,
            expected_wr_id,
            elapsed_ns,
        ) == PollStep::Fail(
            TransportError::RdmaFailed(RdmaFailure::CompletionStatus(completion.status)),
        ),
        polled > 0 && completion.wr_id != expected_wr_id ==> poll_outcome(
            polled,
            completion,
            expected_wr_id,
            elapsed_ns,
        ) == poll_outcome(0, completion, expected_wr_id, elapsed_ns) && poll_outcome(
            polled,
            completion,
            expected_wr_id,
            elapsed_ns,
        ) == if elapsed_ns > POLL_BUDGET_NS {
            PollStep::Fail(TransportError::Timeout)
        } else {
            PollStep::Retry
        },
{
}

/// The state that follows `state` on the way RESET → INIT → RTR → RTS;
/// none behind RTS.
pub open spec fn state_after(state: ibv_qp_state) -> Option<ibv_qp_state> {
    match state {
        ibv_qp_state::IBV_QPS_RESET => Some(ibv_qp_state::IBV_QPS_INIT),
        ibv_qp_state::IBV_QPS_INIT => Some(ibv_qp_state::IBV_QPS_RTR),
        ibv_qp_state::IBV_QPS_RTR => Some(ibv_qp_state::IBV_QPS_RTS),
        ibv_qp_state::IBV_QPS_RTS => None,
    }
}

/// A queue pair reaches RTS from RESET in three modifications, through
/// INIT and RTR and through nothing else.
pub proof fn lemma_connect_order()
    ensures
        state_after(ibv_qp_state::IBV_QPS_RESET) == Some(ibv_qp_state::IBV_QPS_INIT),
        state_after(ibv_qp_state::IBV_QPS_INIT) == Some(ibv_qp_state::IBV_QPS_RTR),
        state_after(ibv_qp_state::IBV_QPS_RTR) == Some(ibv_qp_state::IBV_QPS_RTS),
        state_after(ibv_qp_state::IBV_QPS_RTS) is None,
        forall|state: ibv_qp_state|
            #[trigger] state_after(state) is Some ==> qp_state_value(state_after(state)->0)
                == qp_state_value(state) + 1,
{
}


/// A reliable connection to one peer: the endpoint of its queue pair, the
/// peer once it is known, and the state that the queue pair has reached.
#[derive(Debug)]
pub struct RdmaConnection {
    local_endpoint: QpEndpoint,
    remote_endpoint: Option<QpEndpoint>,
    remote_node_id: u32,
    state: ibv_qp_state,
}

impl RdmaConnection {
    /// The endpoint of the queue pair of this connection.
    pub closed spec fn local(&self) -> QpEndpoint {
        self.local_endpoint
    }

    /// The endpoint of the peer, once `connect` has been called.
    pub closed spec fn remote(&self) -> Option<QpEndpoint> {
        self.remote_endpoint
    }

    /// The state that the queue pair has reached.
    pub closed spec fn qp_state(&self) -> ibv_qp_state {
        self.state
    }

    /// Id of the peer; 0 until a peer is known.
    pub closed spec fn peer_id(&self) -> u32 {
        self.remote_node_id
    }

    /// The connection of a new queue pair with the number `qpn` on the port
    /// `port`: in state RESET, without a peer, and with a fresh random
    /// initial packet sequence number of 24 bits.
    pub fn create(qpn: u32, port: &PortAttributes) -> (connection: Self)
        ensures
            connection.local().qpn == qpn,
            connection.local().lid == port.lid,
            connection.local().gid == port.gid,
            connection.local().psn < PSN_LIMIT,
            connection.remote() is None,
            connection.peer_id() == 0,
            connection.qp_state() == ibv_qp_state::IBV_QPS_RESET,
    {
        Self::with_random(qpn, port, random_u32())
    }

    /// The connection of a new queue pair with the number `qpn` on the port
    /// `port`, whose initial packet sequence number is made of the random
    /// number `random`: its lower 24 bits.
    pub fn with_random(qpn: u32, port: &PortAttributes, random: u32) -> (connection: Self)
        ensures
            connection.local().qpn == qpn,
            connection.local().lid == port.lid,
            connection.local().gid == port.gid,
            connection.local().psn == psn_of(random),
            connection.local().psn < PSN_LIMIT,
            connection.remote() is None,
            connection.peer_id() == 0,
            connection.qp_state() == ibv_qp_state::IBV_QPS_RESET,
    {
        RdmaConnection {
            local_endpoint: local_endpoint(qpn, port, initial_psn(random)),
            remote_endpoint: None,
            remote_node_id: 0,
            state: ibv_qp_state::IBV_QPS_RESET,
        }
    }

    /// The endpoint to hand to the peer.
    pub fn local_endpoint(&self) -> (endpoint: &QpEndpoint)
        ensures
            *endpoint == self.local(),
    {
        &self.local_endpoint
    }

    /// Id of the peer; 0 until a peer is known.
    pub fn remote_node_id(&self) -> (id: u32)
        ensures
            id == self.peer_id(),
    {
        self.remote_node_id
    }

    /// The state that the queue pair has reached.
    pub fn state(&self) -> (state: ibv_qp_state)
        ensures
            state == self.qp_state(),
    {
        self.state
    }

    /// Whether the queue pair is ready to send.
    pub fn is_connected(&self) -> (connected: bool)
        ensures
            connected == (self.qp_state() == ibv_qp_state::IBV_QPS_RTS),
    {
        matches!(self.state, ibv_qp_state::IBV_QPS_RTS)
    }

    /// The modification that takes the queue pair one state further towards
    /// RTS; none where it is there or where no peer is known.
    pub fn next_transition(&self) -> (step: Option<QpTransition>)
        ensures
            match step {
                Some(transition) => self.remote() is Some && state_after(self.qp_state()) == Some(
                    transition.attr.qp_state,
                ) && transition.mask.0 == match self.qp_state() {
                    ibv_qp_state::IBV_QPS_RESET => init_mask(),
                    ibv_qp_state::IBV_QPS_INIT => rtr_mask(),
                    _ => rts_mask(),
                },
                None => self.remote() is None || self.qp_state() == ibv_qp_state::IBV_QPS_RTS,
            },
            self.qp_state() == ibv_qp_state::IBV_QPS_INIT && self.remote() is Some ==> step->0.attr.dest_qp_num
                == self.remote()->0.qpn && step->0.attr.rq_psn == self.remote()->0.psn
                && step->0.attr.ah_attr.dlid == self.remote()->0.lid,
            self.qp_state() == ibv_qp_state::IBV_QPS_RTR && self.remote() is Some ==> step->0.attr.sq_psn
                == self.local().psn,
    {
        match &self.remote_endpoint {
            None => None,
            Some(remote_ep) => match self.state {
                ibv_qp_state::IBV_QPS_RESET => Some(qp_to_init()),
                ibv_qp_state::IBV_QPS_INIT => Some(qp_to_rtr(remote_ep)),
                ibv_qp_state::IBV_QPS_RTR => Some(qp_to_rts(self.local_endpoint.psn)),
                ibv_qp_state::IBV_QPS_RTS => None,
            },
        }
    }

    /// Starts connecting to the peer `remote_node_id` at `remote_ep`:
    /// records the peer and says the first modification of the queue pair.
    /// For a queue pair that is ready to send already there is none.
    pub fn connect(&mut self, remote_node_id: u32, remote_ep: QpEndpoint) -> (step: Option<
        QpTransition,
    >)
        ensures
            final(self).local() == old(self).local(),
            final(self).qp_state() == old(self).qp_state(),
            final(self).remote() == Some(remote_ep),
            final(self).peer_id() == remote_node_id,
            match step {
                Some(transition) => state_after(old(self).qp_state()) == Some(
                    transition.attr.qp_state,
                ),
                None => old(self).qp_state() == ibv_qp_state::IBV_QPS_RTS,
            },
    {
        self.remote_node_id = remote_node_id;
        self.remote_endpoint = Some(remote_ep);
        self.next_transition()
    }

    /// Takes note of the status that the modification `next_transition`
    /// returned (0 on success). On success the queue pair is in the next
    /// state, and the result says the modification that follows, or none
    /// where the queue pair is ready to send. A failed modification leaves
    /// the state as it was. Where no modification was due, because no peer
    /// is known or the queue pair is ready to send, nothing changes and
    /// none follows.
    pub fn advance(&mut self, status: i32) -> (result: Result<Option<QpTransition>, TransportError>)
        ensures
            final(self).local() == old(self).local(),
            final(self).remote() == old(self).remote(),
            final(self).peer_id() == old(self).peer_id(),
            old(self).remote() is None || old(self).qp_state() == ibv_qp_state::IBV_QPS_RTS ==> result
                == Ok::<Option<QpTransition>, TransportError>(None) && final(self).qp_state()
                == old(self).qp_state(),
            old(self).remote() is Some && old(self).qp_state() != ibv_qp_state::IBV_QPS_RTS
                ==> match result {
                Ok(step) => status == 0 && Some(final(self).qp_state()) == state_after(
                    old(self).qp_state(),
                ) && (step is None <==> final(self).qp_state() == ibv_qp_state::IBV_QPS_RTS) && (
                step matches Some(transition) ==> state_after(final(self).qp_state()) == Some(
                    transition.attr.qp_state,
                )),
                Err(e) => status != 0 && final(self).qp_state() == old(self).qp_state() && e
                    == TransportError::RdmaFailed(
                    RdmaFailure::TransitionFailed(
                        qp_state_value(state_after(old(self).qp_state())->0),
                    ),
                ),
            },
    {
        if self.remote_endpoint.is_none() {
            return Ok(None);
        }
        let target = match self.state {
            ibv_qp_state::IBV_QPS_RESET => ibv_qp_state::IBV_QPS_INIT,
            ibv_qp_state::IBV_QPS_INIT => ibv_qp_state::IBV_QPS_RTR,
            ibv_qp_state::IBV_QPS_RTR => ibv_qp_state::IBV_QPS_RTS,
            ibv_qp_state::IBV_QPS_RTS => {
                return Ok(None);
            },
        };
        if status != 0 {
            return Err(TransportError::RdmaFailed(RdmaFailure::TransitionFailed(target.value())));
        }
        self.state = target;
        Ok(self.next_transition())
    }

    /// The work request with the id `wr_id` that reads `length` bytes at
    /// `remote_addr` into the region `local_mr` at `local_offset`.
    pub fn rdma_read(
        &self,
        wr_id: u64,
        local_mr: &RdmaMemoryRegion,
        local_offset: usize,
        remote_addr: u64,
        remote_rkey: u32,
        length: usize,
    ) -> (request: WorkRequest)
        requires
            local_mr.addr + local_offset <= u64::MAX,
            length <= u32::MAX,
        ensures
            request == work_request(
                ibv_wr_opcode::IBV_WR_RDMA_READ,
                wr_id,
                *local_mr,
                local_offset,
                remote_addr,
                remote_rkey,
                length,
            ),
    {
        read_request(wr_id, local_mr, local_offset, remote_addr, remote_rkey, length)
    }

    /// The work request with the id `wr_id` that writes `length` bytes of
    /// the region `local_mr` at `local_offset` to `remote_addr`.
    pub fn rdma_write(
        &self,
        wr_id: u64,
        local_mr: &RdmaMemoryRegion,
        local_offset: usize,
        remote_addr: u64,
        remote_rkey: u32,
        length: usize,
    ) -> (request: WorkRequest)
        requires
            local_mr.addr + local_offset <= u64::MAX,
            length <= u32::MAX,
        ensures
            request == work_request(
                ibv_wr_opcode::IBV_WR_RDMA_WRITE,
                wr_id,
                *local_mr,
                local_offset,
                remote_addr,
                remote_rkey,
                length,
            ),
    {
        write_request(wr_id, local_mr, local_offset, remote_addr, remote_rkey, length)
    }
}


/// What a connection holds of the device.
#[derive(Debug, Clone, Copy, PartialEq, Eq, Structural)]
pub enum ConnectionResource {
    SendCq,
    RecvCq,
    QueuePair,
}

/// Where the setup of a connection stands.
#[derive(Debug, Clone, Copy, PartialEq, Eq, Structural)]
pub enum CreateState {
    /// Nothing is held yet.
    Start,
    /// The send completion queue is held.
    HaveSendCq,
    /// Both completion queues are held.
    HaveCqs,
    /// Both completion queues and the queue pair are held.
    HaveQp,
    /// Everything is held and the port is known.
    Ready,
    /// Setup has failed; the queue pair is the next to be destroyed.
    DropQp(RdmaFailure),
    /// Setup has failed; the send completion queue is the next to be
    /// destroyed, and the receive queue follows where it is held.
    DropSendCq { recv_held: bool, failure: RdmaFailure },
    /// Setup has failed; the receive completion queue is left to destroy.
    DropRecvCq(RdmaFailure),
    /// Setup has failed and nothing is held any more.
    Failed(RdmaFailure),
}

/// What to do next in the setup of a connection.
#[derive(Debug, Clone, Copy, PartialEq, Eq, Structural)]
pub enum CreateAction {
    /// Create the send or the receive completion queue, of the given depth.
    CreateCq(ConnectionResource, u32),
    /// Create the queue pair with these capabilities.
    CreateQp(QpInitAttr),
    /// Query port 1 for its identifiers.
    QueryPort(u8),
    /// Destroy what was created.
    Destroy(ConnectionResource),
    /// The connection is set up.
    Finish,
    /// Report the failure.
    GiveUp(RdmaFailure),
}

/// What a connection holds in each state of its setup.
pub open spec fn held_in(state: CreateState) -> Set<ConnectionResource> {
    match state {
        CreateState::Start => set![],
        CreateState::HaveSendCq => set![ConnectionResource::SendCq],
        CreateState::HaveCqs => set![ConnectionResource::SendCq, ConnectionResource::RecvCq],
        CreateState::HaveQp => set![
            ConnectionResource::SendCq,
            ConnectionResource::RecvCq,
            ConnectionResource::QueuePair,
        ],
        CreateState::Ready => set![
            ConnectionResource::SendCq,
            ConnectionResource::RecvCq,
            ConnectionResource::QueuePair,
        ],
        CreateState::DropQp(_) => set![
            ConnectionResource::SendCq,
            ConnectionResource::RecvCq,
            ConnectionResource::QueuePair,
        ],
        CreateState::DropSendCq { recv_held, failure } => if recv_held {
            set![ConnectionResource::SendCq, ConnectionResource::RecvCq]
        } else {
            set![ConnectionResource::SendCq]
        },
        CreateState::DropRecvCq(_) => set![ConnectionResource::RecvCq],
        CreateState::Failed(_) => set![],
    }
}

/// The action that the setup calls for in `state`, with completion queues
/// of depth `cq_depth`.
pub open spec fn create_action_in(state: CreateState, cq_depth: u32) -> CreateAction {
    match state {
        CreateState::Start => CreateAction::CreateCq(ConnectionResource::SendCq, cq_depth),
        CreateState::HaveSendCq => CreateAction::CreateCq(ConnectionResource::RecvCq, cq_depth),
        CreateState::HaveCqs => CreateAction::CreateQp(
            QpInitAttr {
                qp_type: ibv_qp_type::IBV_QPT_RC,
                max_send_wr: cq_depth,
                max_recv_wr: cq_depth,
                max_send_sge: 1,
                max_recv_sge: 1,
                max_inline_data: MAX_INLINE_DATA,
            },
        ),
        CreateState::HaveQp => CreateAction::QueryPort(PORT_NUM),
        CreateState::Ready => CreateAction::Finish,
        CreateState::DropQp(_) => CreateAction::Destroy(ConnectionResource::QueuePair),
        CreateState::DropSendCq { recv_held, failure } => CreateAction::Destroy(
            ConnectionResource::SendCq,
        ),
        CreateState::DropRecvCq(_) => CreateAction::Destroy(ConnectionResource::RecvCq),
        CreateState::Failed(failure) => CreateAction::GiveUp(failure),
    }
}

/// The state after the action of `state` has been carried out; `ok` says
/// whether it succeeded. Destroying always counts as done.
pub open spec fn create_state_after(state: CreateState, ok: bool) -> CreateState {
    match state {
        CreateState::Start => if ok {
            CreateState::HaveSendCq
        } else {
            CreateState::Failed(RdmaFailure::CqCreateFailed)
        },
        CreateState::HaveSendCq => if ok {
            CreateState::HaveCqs
        } else {
            CreateState::DropSendCq { recv_held: false, failure: RdmaFailure::CqCreateFailed }
        },
        CreateState::HaveCqs => if ok {
            CreateState::HaveQp
        } else {
            CreateState::DropSendCq { recv_held: true, failure: RdmaFailure::QpCreateFailed }
        },
        CreateState::HaveQp => if ok {
            CreateState::Ready
        } else {
            CreateState::DropQp(RdmaFailure::PortQueryFailed)
        },
        CreateState::Ready => CreateState::Ready,
        CreateState::DropQp(failure) => CreateState::DropSendCq { recv_held: true, failure },
        CreateState::DropSendCq { recv_held, failure } => if recv_held {
            CreateState::DropRecvCq(failure)
        } else {
            CreateState::Failed(failure)
        },
        CreateState::DropRecvCq(failure) => CreateState::Failed(failure),
        CreateState::Failed(failure) => CreateState::Failed(failure),
    }
}

/// The number of actions that are left at most until the setup has ended.
pub open spec fn create_steps_left(state: CreateState) -> nat {
    match state {
        CreateState::Start => 7,
        CreateState::HaveSendCq => 6,
        CreateState::HaveCqs => 5,
        CreateState::HaveQp => 4,
        CreateState::DropQp(_) => 3,
        CreateState::DropSendCq { recv_held, failure } => 2,
        CreateState::DropRecvCq(_) => 1,
        CreateState::Ready => 0,
        CreateState::Failed(_) => 0,
    }
}

/// The action that the setup of a connection calls for in `state`.
pub fn create_action(state: CreateState, cq_depth: u32) -> (action: CreateAction)
    ensures
        action == create_action_in(state, cq_depth),
{
    match state {
        CreateState::Start => CreateAction::CreateCq(ConnectionResource::SendCq, cq_depth),
        CreateState::HaveSendCq => CreateAction::CreateCq(ConnectionResource::RecvCq, cq_depth),
        CreateState::HaveCqs => CreateAction::CreateQp(qp_init_attr(cq_depth)),
        CreateState::HaveQp => CreateAction::QueryPort(PORT_NUM),
        CreateState::Ready => CreateAction::Finish,
        CreateState::DropQp(_) => CreateAction::Destroy(ConnectionResource::QueuePair),
        CreateState::DropSendCq { recv_held, failure } => CreateAction::Destroy(
            ConnectionResource::SendCq,
        ),
        CreateState::DropRecvCq(_) => CreateAction::Destroy(ConnectionResource::RecvCq),
        CreateState::Failed(failure) => CreateAction::GiveUp(failure),
    }
}

/// The state of the setup after the action of `state` has been carried
/// out with the outcome `ok`.
pub fn create_next(state: CreateState, ok: bool) -> (next: CreateState)
    ensures
        next == create_state_after(state, ok),
{
    match state {
        CreateState::Start => if ok {
            CreateState::HaveSendCq
        } else {
            CreateState::Failed(RdmaFailure::CqCreateFailed)
        },
        CreateState::HaveSendCq => if ok {
            CreateState::HaveCqs
        } else {
            CreateState::DropSendCq { recv_held: false, failure: RdmaFailure::CqCreateFailed }
        },
        CreateState::HaveCqs => if ok {
            CreateState::HaveQp
        } else {
            CreateState::DropSendCq { recv_held: true, failure: RdmaFailure::QpCreateFailed }
        },
        CreateState::HaveQp => if ok {
            CreateState::Ready
        } else {
            CreateState::DropQp(RdmaFailure::PortQueryFailed)
        },
        CreateState::Ready => CreateState::Ready,
        CreateState::DropQp(failure) => CreateState::DropSendCq { recv_held: true, failure },
        CreateState::DropSendCq { recv_held, failure } => if recv_held {
            CreateState::DropRecvCq(failure)
        } else {
            CreateState::Failed(failure)
        },
        CreateState::DropRecvCq(failure) => CreateState::Failed(failure),
        CreateState::Failed(failure) => CreateState::Failed(failure),
    }
}

/// The setup of a connection leaks nothing: a creation that succeeds adds
/// what it created to what is held, a creation that fails adds nothing,
/// only what is held is destroyed, and the setup ends either with
/// everything held or with nothing.
pub proof fn lemma_create_keeps_account(state: CreateState, ok: bool, cq_depth: u32)
    ensures
        match create_action_in(state, cq_depth) {
            CreateAction::CreateCq(queue, _) => !held_in(state).contains(queue) && held_in(
                create_state_after(state, ok),
            ) == if ok {
                held_in(state).insert(queue)
            } else {
                held_in(state)
            },
            CreateAction::CreateQp(_) => !held_in(state).contains(ConnectionResource::QueuePair)
                && held_in(create_state_after(state, ok)) == if ok {
                held_in(state).insert(ConnectionResource::QueuePair)
            } else {
                held_in(state)
            },
            CreateAction::Destroy(resource) => held_in(state).contains(resource) && held_in(
                create_state_after(state, ok),
            ) == held_in(state).remove(resource),
            CreateAction::QueryPort(_) => held_in(create_state_after(state, ok)) == held_in(state),
            CreateAction::Finish => held_in(state) == set![
                ConnectionResource::SendCq,
                ConnectionResource::RecvCq,
                ConnectionResource::QueuePair,
            ],
            CreateAction::GiveUp(_) => held_in(state) == Set::<ConnectionResource>::empty(),
        },
{
    let next = create_state_after(state, ok);
    match state {
        CreateState::Start => {
            assert(held_in(next) =~= if ok {
                held_in(state).insert(ConnectionResource::SendCq)
            } else {
                held_in(state)
            });
        },
        CreateState::HaveSendCq => {
            assert(held_in(next) =~= if ok {
                held_in(state).insert(ConnectionResource::RecvCq)
            } else {
                held_in(state)
            });
        },
        CreateState::HaveCqs => {
            assert(held_in(next) =~= if ok {
                held_in(state).insert(ConnectionResource::QueuePair)
            } else {
                held_in(state)
            });
        },
        CreateState::HaveQp => {
            assert(held_in(next) =~= held_in(state));
        },
        CreateState::Ready => {},
        CreateState::DropQp(_) => {
            assert(held_in(next) =~= held_in(state).remove(ConnectionResource::QueuePair));
        },
        CreateState::DropSendCq { recv_held, failure } => {
            assert(held_in(next) =~= held_in(state).remove(ConnectionResource::SendCq));
        },
        CreateState::DropRecvCq(_) => {
            assert(held_in(next) =~= held_in(state).remove(ConnectionResource::RecvCq));
        },
        CreateState::Failed(_) => {
            assert(held_in(state) =~= Set::<ConnectionResource>::empty());
        },
    }
}

/// The order in which what a connection holds is destroyed.
pub open spec fn release_sequence() -> Seq<ConnectionResource> {
    seq![ConnectionResource::QueuePair, ConnectionResource::SendCq, ConnectionResource::RecvCq]
}

/// The order in which what a connection holds is destroyed when the
/// connection is given up: the queue pair first, then the send and the
/// receive completion queue.
pub fn release_order() -> (order: [ConnectionResource; 3])
    ensures
        order@ == release_sequence(),
{
    let order = [
        ConnectionResource::QueuePair,
        ConnectionResource::SendCq,
        ConnectionResource::RecvCq,
    ];
    assert(order@ =~= release_sequence());
    order
}

/// A setup that fails with everything created destroys it in the order in
/// which a connection is given up, and then holds nothing.
pub proof fn lemma_release_order(failure: RdmaFailure, cq_depth: u32)
    ensures
        ({
            let first = CreateState::DropQp(failure);
            let second = create_state_after(first, true);
            let third = create_state_after(second, true);
            &&& create_action_in(first, cq_depth) == CreateAction::Destroy(release_sequence()[0])
            &&& create_action_in(second, cq_depth) == CreateAction::Destroy(release_sequence()[1])
            &&& create_action_in(third, cq_depth) == CreateAction::Destroy(release_sequence()[2])
            &&& create_state_after(third, true) == CreateState::Failed(failure)
        }),
{
}

/// The setup of a connection ends: every action but the last brings the
/// end nearer, and at the end the state stays.
pub proof fn lemma_create_ends(state: CreateState, ok: bool)
    ensures
        create_steps_left(state) > 0 ==> create_steps_left(create_state_after(state, ok))
            < create_steps_left(state),
        create_steps_left(state) == 0 ==> create_state_after(state, ok) == state,
        create_steps_left(state) == 0 <==> (state is Ready || state is Failed),
{
}

} // verus!
