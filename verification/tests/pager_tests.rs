use pager::directory::PageOwner;
use pager::endpoint::TransportEndpoint;
use pager::error::{ProtocolViolation, SetupError, TransportError};
use pager::pager::{ChannelRead, Event, FaultPlan, Installation, Pager, WorkerStep};
use pager::transport::{Backend, PageTransport, TcpMemoryRegion, TransportManager, TransportTier};
use pager::PAGE_SIZE;
use std::sync::Mutex;

const BASE: u64 = 0x7f00_0000_0000;

/// A transport that answers every fetch with the same result and records
/// the fetches.
struct Recording {
    answer: Result<Vec<u8>, TransportError>,
    fetches: Mutex<Vec<(u64, u32)>>,
}

impl Recording {
    fn fetches(&self) -> Vec<(u64, u32)> {
        self.fetches.lock().unwrap().clone()
    }
}

/// A manager over a transport that answers every fetch with `answer`.
fn manager_answering(answer: Result<Vec<u8>, TransportError>) -> TransportManager<Recording> {
    TransportManager::new(0, Backend::Tcp, Recording { answer, fetches: Mutex::new(Vec::new()) })
}

impl PageTransport for Recording {
    type Region = TcpMemoryRegion;

    fn fetch_page(&self, gpa: u64, remote_node_id: u32) -> Result<Vec<u8>, TransportError> {
        self.fetches.lock().unwrap().push((gpa, remote_node_id));
        self.answer.clone()
    }

    fn send_page(&self, _gpa: u64, _data: &[u8], _remote_node_id: u32) -> Result<(), TransportError> {
        Ok(())
    }

    fn register_memory(&self, addr: u64, length: usize) -> Result<TcpMemoryRegion, TransportError> {
        Ok(TcpMemoryRegion { addr, length })
    }

    fn local_endpoint(&self) -> TransportEndpoint {
        TransportEndpoint::Tcp { addr: String::from("127.0.0.1"), port: 50051 }
    }

    fn connect(&mut self, _remote_node_id: u32, _remote_endpoint: TransportEndpoint) -> Result<(), TransportError> {
        Ok(())
    }

    fn performance_tier(&self) -> TransportTier {
        TransportTier::Standard
    }

    fn measure_latency(&self, _remote_node_id: u32) -> Result<u64, TransportError> {
        Ok(1)
    }
}

/// The guest memory as the installations leave it.
fn install(memory: &mut Vec<u8>, installation: &Installation) {
    let offset = (installation.addr - BASE) as usize;
    assert_eq!(installation.data.len(), PAGE_SIZE);
    memory[offset..offset + PAGE_SIZE].copy_from_slice(&installation.data);
}

fn page_pattern(seed: u8) -> Vec<u8> {
    (0..PAGE_SIZE).map(|i| seed.wrapping_add((i % 253) as u8)).collect()
}

#[test]
fn new_pager_is_empty() {
    let pager = Pager::new(BASE, 4 * PAGE_SIZE, 3, 8).unwrap();
    assert_eq!(pager.base(), BASE);
    assert_eq!(pager.len(), 4 * PAGE_SIZE);
    assert_eq!(pager.node_id(), 3);
    assert_eq!(pager.total_nodes(), 8);
    assert_eq!(pager.directory().page_count(), 0);
    assert_eq!(pager.directory().local_node(), 3);
    let stats = pager.get_stats();
    assert_eq!(stats.local_faults, 0);
    assert_eq!(stats.remote_faults, 0);
    assert!(stats.fault_service_time_us.is_empty());
}

#[test]
fn range_must_be_whole_pages_within_the_address_space() {
    assert!(matches!(Pager::new(BASE, 4095, 0, 1), Err(SetupError::InvalidRange)));
    assert!(matches!(Pager::new(BASE, PAGE_SIZE + 1, 0, 1), Err(SetupError::InvalidRange)));
    assert!(matches!(Pager::new(u64::MAX - 4095, 2 * PAGE_SIZE, 0, 1), Err(SetupError::InvalidRange)));
    assert!(matches!(Pager::new(u64::MAX - 4095, PAGE_SIZE, 0, 1), Err(SetupError::InvalidRange)));
    assert!(Pager::new(u64::MAX - 4096, PAGE_SIZE, 0, 1).is_ok());
    assert!(Pager::new(BASE, 0, 0, 1).is_ok());
}

#[test]
fn first_and_last_byte_resolve_to_first_and_last_page() {
    let len = 16 * PAGE_SIZE;
    let pager = Pager::new(BASE, len, 0, 2).unwrap();
    assert_eq!(pager.plan_fault(BASE), FaultPlan::ZeroFill { page: 0 });
    assert_eq!(
        pager.plan_fault(BASE + len as u64 - 1),
        FaultPlan::ZeroFill { page: (len / 4096 - 1) as u64 }
    );
    assert_eq!(pager.plan_fault(BASE + 4095), FaultPlan::ZeroFill { page: 0 });
    assert_eq!(pager.plan_fault(BASE + 4096), FaultPlan::ZeroFill { page: 1 });
    // outside the range
    assert_eq!(pager.plan_fault(BASE - 1), FaultPlan::Drop);
    assert_eq!(pager.plan_fault(BASE + len as u64), FaultPlan::Drop);
    assert_eq!(pager.plan_fault(0), FaultPlan::Drop);
    assert_eq!(pager.plan_fault(u64::MAX), FaultPlan::Drop);
}

#[test]
fn fault_outside_the_range_is_dropped() {
    let transport = manager_answering(Ok(page_pattern(1)));
    let mut pager = Pager::new(BASE, 4 * PAGE_SIZE, 0, 2).unwrap();
    assert_eq!(pager.handle_pagefault(&transport, BASE + 4 * 4096), None);
    assert_eq!(pager.handle_pagefault(&transport, BASE - 4096), None);
    assert_eq!(pager.directory().page_count(), 0);
    let stats = pager.get_stats();
    assert_eq!((stats.local_faults, stats.remote_faults), (0, 0));
    assert!(transport.transport().fetches().is_empty());
}

#[test]
fn local_first_touch() {
    let transport = manager_answering(Err(TransportError::Timeout));
    let mut pager = Pager::new(BASE, 16 * 1024, 0, 2).unwrap();
    let mut memory = vec![0xccu8; 16 * 1024];
    for fault in [BASE, BASE + 4096, BASE + 8192, BASE + 12288] {
        let installation = pager.handle_pagefault(&transport, fault).unwrap();
        assert_eq!(installation.addr, fault);
        assert_eq!(installation.failure, None);
        install(&mut memory, &installation);
    }
    for page in 0..4 {
        assert_eq!(pager.directory().get_owner(page), PageOwner::Local);
    }
    assert_eq!(pager.directory().get_owner(4), PageOwner::Unknown);
    assert_eq!(pager.directory().page_count(), 4);
    let stats = pager.get_stats();
    assert_eq!(stats.local_faults, 4);
    assert_eq!(stats.remote_faults, 0);
    // subsequent reads see all zeros
    assert!(memory.iter().all(|&b| b == 0));
    assert!(transport.transport().fetches().is_empty());
}

#[test]
fn remote_fetch() {
    let reply = page_pattern(0x40);
    let transport = manager_answering(Ok(reply.clone()));
    let mut pager = Pager::new(BASE, 8 * PAGE_SIZE, 0, 2).unwrap();
    pager.set_owner(5, PageOwner::Remote(1));
    let fault = BASE + 5 * 4096;
    assert_eq!(pager.plan_fault(fault), FaultPlan::Fetch { page: 5, node: 1 });

    let installation = pager.handle_pagefault(&transport, fault).unwrap();
    // the transport was asked once, for this address and this node
    assert_eq!(transport.transport().fetches(), vec![(BASE + 5 * 4096, 1)]);
    // the page installed is the reply
    assert_eq!(installation.addr, fault);
    assert_eq!(installation.data, reply);
    assert_eq!(installation.failure, None);
    let stats = pager.get_stats();
    assert_eq!(stats.remote_faults, 1);
    assert_eq!(stats.local_faults, 0);
    assert_eq!(pager.directory().get_owner(5), PageOwner::Remote(1));
}

#[test]
fn mixed_pattern() {
    let transport = manager_answering(Ok(page_pattern(9)));
    let mut pager = Pager::new(BASE, 4 * PAGE_SIZE, 0, 2).unwrap();
    pager.set_owner(0, PageOwner::Remote(1));
    pager.set_owner(2, PageOwner::Remote(1));
    for page in 0..4u64 {
        assert!(pager.handle_pagefault(&transport, BASE + page * 4096).is_some());
    }
    assert_eq!(pager.directory().get_owner(0), PageOwner::Remote(1));
    assert_eq!(pager.directory().get_owner(1), PageOwner::Local);
    assert_eq!(pager.directory().get_owner(2), PageOwner::Remote(1));
    assert_eq!(pager.directory().get_owner(3), PageOwner::Local);
    let stats = pager.get_stats();
    assert_eq!(stats.local_faults, 2);
    assert_eq!(stats.remote_faults, 2);
    assert_eq!(transport.transport().fetches(), vec![(BASE, 1), (BASE + 2 * 4096, 1)]);
}

#[test]
fn transport_failure_recovery() {
    let transport = manager_answering(Err(TransportError::ConnectionFailed(String::from("reset"))));
    let mut pager = Pager::new(BASE, 8 * PAGE_SIZE, 0, 2).unwrap();
    pager.set_owner(7, PageOwner::Remote(1));
    let installation = pager.handle_pagefault(&transport, BASE + 7 * 4096).unwrap();
    // a page of zeros is installed, and the error is handed back for the log
    assert_eq!(installation.data, vec![0u8; PAGE_SIZE]);
    assert_eq!(
        installation.failure,
        Some(TransportError::ConnectionFailed(String::from("reset")))
    );
    assert_eq!(pager.get_stats().remote_faults, 1);
    // the pager goes on servicing faults
    let next = pager.handle_pagefault(&transport, BASE).unwrap();
    assert_eq!(next.failure, None);
    assert_eq!(pager.get_stats().local_faults, 1);
}

#[test]
fn fetched_payload_of_wrong_length_is_an_error_not_a_partial_install() {
    for len in [0usize, 1, 4095, 4097, 8192] {
        let transport = manager_answering(Ok(vec![0xeeu8; len]));
        let mut pager = Pager::new(BASE, 8 * PAGE_SIZE, 0, 2).unwrap();
        pager.set_owner(3, PageOwner::Remote(2));
        let installation = pager.handle_pagefault(&transport, BASE + 3 * 4096 + 17).unwrap();
        assert_eq!(installation.addr, BASE + 3 * 4096);
        assert_eq!(installation.data, vec![0u8; PAGE_SIZE]);
        assert_eq!(
            installation.failure,
            Some(TransportError::ProtocolError(ProtocolViolation::WrongPageSize))
        );
        assert_eq!(pager.get_stats().remote_faults, 1);
        assert_eq!(transport.transport().fetches(), vec![(BASE + 3 * 4096 + 17, 2)]);
    }
}

#[test]
fn install_fetched_for_each_kind_of_result() {
    let page = page_pattern(3);
    let installation = Pager::install_fetched(0x5000, Ok(page.clone()));
    assert_eq!(installation, Installation { addr: 0x5000, data: page, failure: None });
    let installation = Pager::install_fetched(0x5000, Ok(vec![1, 2, 3]));
    assert_eq!(
        installation,
        Installation {
            addr: 0x5000,
            data: vec![0u8; 4096],
            failure: Some(TransportError::ProtocolError(ProtocolViolation::WrongPageSize)),
        }
    );
    let installation = Pager::install_fetched(0x6000, Err(TransportError::NodeNotConnected(4)));
    assert_eq!(
        installation,
        Installation {
            addr: 0x6000,
            data: vec![0u8; 4096],
            failure: Some(TransportError::NodeNotConnected(4)),
        }
    );
    assert_eq!(
        Pager::resolve_with_zeros(0x7000),
        Installation { addr: 0x7000, data: vec![0u8; 4096], failure: None }
    );
}

#[test]
fn second_fault_on_a_local_page_is_counted_and_zero_filled() {
    let transport = manager_answering(Ok(page_pattern(1)));
    let mut pager = Pager::new(BASE, 4 * PAGE_SIZE, 0, 2).unwrap();
    assert!(pager.handle_pagefault(&transport, BASE + 4096).is_some());
    let again = pager.handle_pagefault(&transport, BASE + 4096 + 100).unwrap();
    assert_eq!(again.addr, BASE + 4096);
    assert_eq!(again.data, vec![0u8; 4096]);
    assert_eq!(pager.get_stats().local_faults, 2);
    assert_eq!(pager.directory().page_count(), 1);
}

#[test]
fn n_distinct_faults_against_an_unknown_directory() {
    let transport = manager_answering(Err(TransportError::Timeout));
    let pages = 64usize;
    let mut pager = Pager::new(BASE, pages * PAGE_SIZE, 0, 2).unwrap();
    let touched: Vec<u64> = (0..pages as u64).filter(|p| p % 3 != 1).collect();
    for page in touched.iter().rev() {
        assert!(pager.handle_pagefault(&transport, BASE + page * 4096 + page).is_some());
    }
    let stats = pager.get_stats();
    assert_eq!(stats.local_faults, touched.len() as u64);
    assert_eq!(stats.remote_faults, 0);
    assert_eq!(pager.directory().page_count(), touched.len());
    for page in 0..pages as u64 {
        let expected = if page % 3 != 1 { PageOwner::Local } else { PageOwner::Unknown };
        assert_eq!(pager.directory().get_owner(page), expected);
    }
}

#[test]
fn only_page_faults_are_serviced() {
    let transport = manager_answering(Ok(page_pattern(1)));
    let mut pager = Pager::new(BASE, 4 * PAGE_SIZE, 0, 2).unwrap();
    for event in [Event::Fork, Event::Remap, Event::Remove, Event::Unmap] {
        assert_eq!(pager.handle_event(&transport, event), None);
    }
    assert_eq!(pager.directory().page_count(), 0);
    assert_eq!(pager.get_stats().local_faults, 0);
    let installation = pager.handle_event(&transport, Event::PageFault { addr: BASE + 4096 }).unwrap();
    assert_eq!(installation.addr, BASE + 4096);
    assert_eq!(pager.get_stats().local_faults, 1);
    assert_eq!(pager.handle_event(&transport, Event::PageFault { addr: 1 }), None);
}

#[test]
fn service_times_are_recorded_in_order() {
    let mut pager = Pager::new(BASE, 4 * PAGE_SIZE, 0, 2).unwrap();
    for elapsed in [10, 20, 30, 40, 50] {
        pager.record_service_time(elapsed);
    }
    let stats = pager.get_stats();
    assert_eq!(stats.fault_service_time_us, vec![10, 20, 30, 40, 50]);
    assert_eq!(stats.median_latency_us(), Some(30));
    for elapsed in 1..=100 {
        pager.record_service_time(elapsed);
    }
    assert!(pager.get_stats().p99_latency_us().unwrap() >= 99);
}

#[test]
fn worker_ends_only_on_shutdown_or_a_closed_channel() {
    let fault = Event::PageFault { addr: BASE };
    assert_eq!(Pager::handle_faults(false, ChannelRead::Event(fault)), WorkerStep::Service(fault));
    assert_eq!(
        Pager::handle_faults(false, ChannelRead::Event(Event::Fork)),
        WorkerStep::Service(Event::Fork)
    );
    assert_eq!(Pager::handle_faults(false, ChannelRead::Empty), WorkerStep::Continue);
    assert_eq!(Pager::handle_faults(false, ChannelRead::TransientError), WorkerStep::Continue);
    assert_eq!(Pager::handle_faults(false, ChannelRead::Closed), WorkerStep::Exit);
    for read in [
        ChannelRead::Event(fault),
        ChannelRead::Empty,
        ChannelRead::TransientError,
        ChannelRead::Closed,
    ] {
        assert_eq!(Pager::handle_faults(true, read), WorkerStep::Exit);
    }
}

#[test]
fn service_time_is_kept_for_page_faults_alone() {
    let mut pager = Pager::new(BASE, 4 * PAGE_SIZE, 0, 2).unwrap();
    pager.record_event_time(Event::Fork, 11);
    pager.record_event_time(Event::PageFault { addr: BASE }, 12);
    pager.record_event_time(Event::Remap, 13);
    pager.record_event_time(Event::Remove, 14);
    pager.record_event_time(Event::Unmap, 15);
    // a fault outside the range was handled too, by dropping it
    pager.record_event_time(Event::PageFault { addr: 0 }, 16);
    assert_eq!(pager.get_stats().fault_service_time_us, vec![12, 16]);
}
