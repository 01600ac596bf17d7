use pager::error::{ProtocolViolation, RdmaFailure, TransportError};
use pager::rdma::{
    ibv_wr_opcode, OpenState, PortAttributes, RdmaConnection, RdmaDevice, RdmaMemoryRegion,
};
use pager::registry::{ConnectionStats, RemotePageInfo, TransportManager, POOL_SIZE};
use pager::PAGE_SIZE;

fn device() -> Option<RdmaDevice> {
    RdmaDevice::open("mlx5_0", OpenState::Ready).unwrap().ok()
}

fn pool() -> Option<RdmaMemoryRegion> {
    Some(RdmaMemoryRegion { addr: 0x4000_0000, length: POOL_SIZE, lkey: 0x51, rkey: 0x52 })
}

fn connection(qpn: u32) -> RdmaConnection {
    RdmaConnection::with_random(qpn, &PortAttributes { state: 4, lid: 1, gid: [9; 16] }, 5)
}

#[test]
fn lib_rdma_only_test_page_size_constant() {
    assert_eq!(PAGE_SIZE, 4096);
}

#[test]
fn test_transport_manager_creation_stub() {
    // Should work without RDMA device
    let mgr = TransportManager::new(0, None, None);
    assert!(!mgr.is_rdma_available());
}

#[test]
fn test_remote_page_registration() {
    let mut mgr = TransportManager::new(0, None, None);

    let page_info = RemotePageInfo {
        node_id: 1,
        addr: 0x1000,
        rkey: 12345,
    };

    mgr.register_remote_page(0x1000, page_info.clone());

    // Verify registration
    let stored = mgr.remote_page(0x1000);
    assert!(stored.is_some());
    let stored = stored.unwrap();
    assert_eq!(stored.node_id, 1);
    assert_eq!(stored.addr, 0x1000);
}

#[test]
fn pool_holds_1024_pages() {
    assert_eq!(POOL_SIZE, 1024 * PAGE_SIZE);
}

#[test]
fn without_a_device_there_is_no_pool_and_no_connection() {
    let mut mgr = TransportManager::new(0, None, pool());
    assert!(!mgr.is_rdma_available());
    let unavailable = TransportError::RdmaFailed(RdmaFailure::Unavailable);
    assert_eq!(mgr.get_local_endpoint(1, connection(7)), Err(unavailable.clone()));
    assert_eq!(mgr.connect_node(1, connection(7)), Err(unavailable));
    assert!(!mgr.needs_connection(1));
    assert_eq!(
        mgr.get_connection_stats(1),
        Ok(ConnectionStats { node_id: 1, active: false, operations_count: 0, bytes_transferred: 0 })
    );
}

#[test]
fn fetch_checks_page_then_connection_then_pool() {
    let mut mgr = TransportManager::new(0, device(), None);
    assert!(mgr.is_rdma_available());
    assert_eq!(mgr.fetch_page(0x1000), Err(TransportError::PageNotRegistered(0x1000)));
    mgr.register_remote_page(0x1000, RemotePageInfo { node_id: 3, addr: 0xaa000, rkey: 0x99 });
    assert_eq!(mgr.fetch_page(0x1000), Err(TransportError::NodeNotFound(3)));
    assert_eq!(mgr.fetch_page(0x2000), Err(TransportError::PageNotRegistered(0x2000)));
    assert!(mgr.needs_connection(3));
    assert_eq!(mgr.connect_node(3, connection(7)), Ok(()));
    assert!(!mgr.needs_connection(3));
    // no pool was registered
    assert_eq!(
        mgr.fetch_page(0x1000),
        Err(TransportError::RdmaFailed(RdmaFailure::Unavailable))
    );
}

#[test]
fn fetch_reads_the_registered_location_into_the_pool() {
    let mut mgr = TransportManager::new(0, device(), pool());
    mgr.register_remote_page(0x1000, RemotePageInfo { node_id: 3, addr: 0xaa000, rkey: 0x99 });
    let endpoint = mgr.get_local_endpoint(3, connection(7)).unwrap();
    assert_eq!(endpoint.qpn, 7);
    assert_eq!(endpoint.psn, 5);

    let request = mgr.fetch_page(0x1000).unwrap();
    assert_eq!(request.wr_id, 1);
    assert_eq!(request.opcode, ibv_wr_opcode::IBV_WR_RDMA_READ);
    assert_eq!(request.sge.addr, 0x4000_0000);
    assert_eq!(request.sge.length, 4096);
    assert_eq!(request.sge.lkey, 0x51);
    assert_eq!(request.remote_addr, 0xaa000);
    assert_eq!(request.rkey, 0x99);
    // a failed plan uses no id
    assert!(mgr.fetch_page(0x5000).is_err());
    assert_eq!(mgr.fetch_page(0x1000).unwrap().wr_id, 2);
}

#[test]
fn send_checks_length_then_connection_then_pool() {
    let mut mgr = TransportManager::new(0, device(), pool());
    assert_eq!(
        mgr.send_page(3, 0x1000, 100),
        Err(TransportError::ProtocolError(ProtocolViolation::WrongPageSize))
    );
    assert_eq!(mgr.send_page(3, 0x1000, 4096), Err(TransportError::NodeNotFound(3)));
    mgr.connect_node(3, connection(7)).unwrap();
    let request = mgr.send_page(3, 0x1000, 4096).unwrap();
    assert_eq!(request.opcode, ibv_wr_opcode::IBV_WR_RDMA_WRITE);
    assert_eq!(request.wr_id, 1);
    assert_eq!(request.remote_addr, 0x1000);
    assert_eq!(request.rkey, 0);
    assert_eq!(request.sge.addr, 0x4000_0000);
    assert_eq!(request.sge.length, 4096);

    let mut no_pool = TransportManager::new(0, device(), None);
    no_pool.connect_node(3, connection(7)).unwrap();
    assert_eq!(
        no_pool.send_page(3, 0x1000, 4096),
        Err(TransportError::RdmaFailed(RdmaFailure::Unavailable))
    );
}

#[test]
fn connections_are_kept_and_dropped() {
    let mut mgr = TransportManager::new(0, device(), pool());
    assert_eq!(mgr.disconnect_node(4), Err(TransportError::NodeNotFound(4)));
    mgr.connect_node(4, connection(7)).unwrap();
    // a second connect keeps the first connection
    mgr.connect_node(4, connection(8)).unwrap();
    assert_eq!(
        mgr.get_connection_stats(4),
        Ok(ConnectionStats { node_id: 4, active: true, operations_count: 0, bytes_transferred: 0 })
    );
    assert_eq!(mgr.disconnect_node(4), Ok(()));
    assert_eq!(mgr.disconnect_node(4), Err(TransportError::NodeNotFound(4)));
    assert_eq!(mgr.get_connection_stats(4).unwrap().active, false);
}

#[test]
fn remote_pages_are_overwritten_by_later_registrations() {
    let mut mgr = TransportManager::new(0, None, None);
    assert_eq!(mgr.remote_page(0x1000), None);
    mgr.register_remote_page(0x1000, RemotePageInfo { node_id: 1, addr: 1, rkey: 1 });
    mgr.register_remote_page(0x1000, RemotePageInfo { node_id: 2, addr: 2, rkey: 2 });
    assert_eq!(mgr.remote_page(0x1000), Some(RemotePageInfo { node_id: 2, addr: 2, rkey: 2 }));
}
