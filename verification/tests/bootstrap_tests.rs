use pager::bootstrap::{
    discover_and_connect_peers, endpoints_url, node_key, registration_result, registration_url,
    start_pager, RegistryEntry, StartupStep, COORDINATOR_TIMEOUT_SECS,
};
use pager::endpoint::{CoordinatorEndpoint, TransportEndpoint};
use pager::error::{SetupError, StartupStage, TransportError};
use pager::fallback::FallbackTransport;
use pager::transport::{Backend, PageTransport, TcpMemoryRegion, TransportManager, TransportTier};

fn tcp_entry(node_id: &str, addr: &str, port: u16) -> RegistryEntry {
    let endpoint = TransportEndpoint::Tcp { addr: String::from(addr), port };
    RegistryEntry {
        node_id: String::from(node_id),
        endpoint: CoordinatorEndpoint::from_transport_endpoint(&endpoint),
    }
}

/// Runs the startup; `fail_at` names the stage that fails.
fn run_startup(fail_at: Option<StartupStage>) -> (StartupStep, Vec<StartupStage>) {
    let mut stages = Vec::new();
    let mut previous = None;
    loop {
        match start_pager(previous) {
            StartupStep::Run(stage) => {
                stages.push(stage);
                let outcome = if fail_at == Some(stage) {
                    Err(SetupError::StageFailed(stage))
                } else {
                    Ok(())
                };
                previous = Some((stage, outcome));
            }
            step => return (step, stages),
        }
    }
}

#[test]
fn startup_runs_the_stages_in_order() {
    let (step, stages) = run_startup(None);
    assert_eq!(step, StartupStep::Running);
    assert_eq!(
        stages,
        vec![
            StartupStage::OpenFaultChannel,
            StartupStage::RegisterRange,
            StartupStage::InitTransport,
            StartupStage::RegisterEndpoint,
            StartupStage::ConnectPeers,
            StartupStage::SpawnWorker,
        ]
    );
}

#[test]
fn failed_startup_leaves_no_worker_behind() {
    for stage in [
        StartupStage::OpenFaultChannel,
        StartupStage::RegisterRange,
        StartupStage::InitTransport,
        StartupStage::RegisterEndpoint,
        StartupStage::ConnectPeers,
    ] {
        let (step, stages) = run_startup(Some(stage));
        assert_eq!(step, StartupStep::Fail(SetupError::StageFailed(stage)));
        assert_eq!(stages.last(), Some(&stage));
        assert!(!stages.contains(&StartupStage::SpawnWorker));
    }
    assert_eq!(
        start_pager(Some((StartupStage::ConnectPeers, Err(SetupError::PeerConnectFailed(2))))),
        StartupStep::Fail(SetupError::PeerConnectFailed(2))
    );
}

#[test]
fn coordinator_status() {
    assert_eq!(registration_result(200), Ok(()));
    assert_eq!(registration_result(204), Ok(()));
    assert_eq!(registration_result(299), Ok(()));
    assert_eq!(registration_result(199), Err(SetupError::CoordinatorStatus(199)));
    assert_eq!(registration_result(300), Err(SetupError::CoordinatorStatus(300)));
    assert_eq!(registration_result(404), Err(SetupError::CoordinatorStatus(404)));
    assert_eq!(registration_result(500), Err(SetupError::CoordinatorStatus(500)));
}

#[test]
fn peers_are_connected_and_the_local_node_is_skipped() {
    let mut manager = TransportManager::new(1, Backend::Tcp, FallbackTransport::new(1));
    let entries = vec![
        tcp_entry("0", "10.0.0.10", 50051),
        tcp_entry("1", "10.0.0.11", 50051),
        tcp_entry("+2", "10.0.0.12", 50052),
        tcp_entry("0003", "10.0.0.13", 50053),
    ];
    assert_eq!(discover_and_connect_peers(&mut manager, 1, &entries), Ok(()));
    assert!(manager.is_connected(0));
    assert!(!manager.is_connected(1));
    assert!(manager.is_connected(2));
    assert!(manager.is_connected(3));
}

#[test]
fn entry_of_the_local_node_is_not_looked_into() {
    let mut manager = TransportManager::new(5, Backend::Tcp, FallbackTransport::new(5));
    let mut own = tcp_entry("5", "10.0.0.15", 50051);
    own.endpoint.transport_type = String::from("carrier pigeon");
    assert_eq!(discover_and_connect_peers(&mut manager, 5, &vec![own]), Ok(()));
    assert!(!manager.is_connected(5));
    assert_eq!(discover_and_connect_peers(&mut manager, 5, &Vec::new()), Ok(()));
}

#[test]
fn bad_node_ids_end_the_run() {
    for key in ["", "+", "-1", "1 ", " 1", "one", "4294967296", "1.0", "0x10", "\u{0661}"] {
        let mut manager = TransportManager::new(1, Backend::Tcp, FallbackTransport::new(1));
        let entries = vec![
            tcp_entry("7", "10.0.0.17", 50051),
            tcp_entry(key, "10.0.0.12", 50052),
            tcp_entry("8", "10.0.0.18", 50051),
        ];
        assert_eq!(
            discover_and_connect_peers(&mut manager, 1, &entries),
            Err(SetupError::InvalidNodeId)
        );
        // the peers before the bad entry stay connected, those behind it are not reached
        assert!(manager.is_connected(7));
        assert!(!manager.is_connected(8));
    }
    let mut manager = TransportManager::new(1, Backend::Tcp, FallbackTransport::new(1));
    let entries = vec![tcp_entry("4294967295", "10.0.0.12", 50052)];
    assert_eq!(discover_and_connect_peers(&mut manager, 1, &entries), Ok(()));
    assert!(manager.is_connected(u32::MAX));
}

#[test]
fn bad_endpoint_ends_the_run() {
    let mut manager = TransportManager::new(1, Backend::Tcp, FallbackTransport::new(1));
    let mut broken = tcp_entry("2", "10.0.0.12", 50052);
    broken.endpoint.tcp_port = None;
    let entries = vec![broken, tcp_entry("3", "10.0.0.13", 50053)];
    assert_eq!(
        discover_and_connect_peers(&mut manager, 1, &entries),
        Err(SetupError::InvalidEndpoint)
    );
    assert!(!manager.is_connected(2));
    assert!(!manager.is_connected(3));
}

/// A transport that refuses every connection.
struct Refusing;

impl PageTransport for Refusing {
    type Region = TcpMemoryRegion;

    fn fetch_page(&self, _gpa: u64, remote_node_id: u32) -> Result<Vec<u8>, TransportError> {
        Err(TransportError::NodeNotConnected(remote_node_id))
    }

    fn send_page(&self, _gpa: u64, _data: &[u8], remote_node_id: u32) -> Result<(), TransportError> {
        Err(TransportError::NodeNotConnected(remote_node_id))
    }

    fn register_memory(&self, addr: u64, length: usize) -> Result<TcpMemoryRegion, TransportError> {
        Ok(TcpMemoryRegion { addr, length })
    }

    fn local_endpoint(&self) -> TransportEndpoint {
        TransportEndpoint::Tcp { addr: String::from("127.0.0.1"), port: 1 }
    }

    fn connect(&mut self, _remote_node_id: u32, _remote_endpoint: TransportEndpoint) -> Result<(), TransportError> {
        Err(TransportError::ConnectionFailed(String::from("refused")))
    }

    fn performance_tier(&self) -> TransportTier {
        TransportTier::Basic
    }

    fn measure_latency(&self, remote_node_id: u32) -> Result<u64, TransportError> {
        Err(TransportError::NodeNotConnected(remote_node_id))
    }
}

#[test]
fn failed_connect_names_the_peer() {
    let mut manager = TransportManager::new(1, Backend::Tcp, Refusing);
    let entries = vec![tcp_entry("1", "10.0.0.11", 50051), tcp_entry("9", "10.0.0.19", 50051)];
    assert_eq!(
        discover_and_connect_peers(&mut manager, 1, &entries),
        Err(SetupError::PeerConnectFailed(9))
    );
    assert!(!manager.is_connected(9));
}

#[test]
fn coordinator_addresses() {
    assert_eq!(COORDINATOR_TIMEOUT_SECS, 5);
    assert_eq!(
        registration_url("http://localhost:8000", 3),
        "http://localhost:8000/nodes/3/endpoint"
    );
    assert_eq!(
        registration_url("http://10.0.0.1:8000", 4294967295),
        "http://10.0.0.1:8000/nodes/4294967295/endpoint"
    );
    assert_eq!(registration_url("", 0), "/nodes/0/endpoint");
    assert_eq!(endpoints_url("http://localhost:8000"), "http://localhost:8000/endpoints");
}

#[test]
fn node_keys_are_decimal_and_read_back() {
    assert_eq!(node_key(0), "0");
    assert_eq!(node_key(9), "9");
    assert_eq!(node_key(10), "10");
    assert_eq!(node_key(1203), "1203");
    assert_eq!(node_key(u32::MAX), "4294967295");
    for id in [0u32, 1, 7, 10, 99, 100, 65535, 1_000_000, u32::MAX] {
        let mut manager = TransportManager::new(u32::MAX - 1, Backend::Tcp, FallbackTransport::new(0));
        let key = node_key(id);
        assert_eq!(key, id.to_string());
        let entries = vec![tcp_entry(&key, "10.0.0.1", 50051)];
        assert_eq!(discover_and_connect_peers(&mut manager, u32::MAX - 1, &entries), Ok(()));
        assert!(manager.is_connected(id));
    }
}
