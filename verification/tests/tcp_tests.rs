use pager::endpoint::TransportEndpoint;
use pager::error::{ProtocolViolation, SetupError, TransportError};
use pager::tcp::{
    ack_from_response, detect_tier, fetch_request, handle_frame, handle_read,
    latency_from_response,
    next_bind_attempt, page_from_response, ping_request, respond, send_request, BindOutcome,
    BindStep, ConnectionStep, PeerAddr, TcpTransport, DEFAULT_PORT, PORT_RANGE_END,
    PORT_RANGE_START,
};
use pager::transport::{MemoryRegion, TcpMemoryRegion, TransportTier};
use pager::wire::{decode_framed_message, encode_message, Message};
use pager::PAGE_SIZE;

/// Runs the search for a listener port where exactly the ports for which
/// `free` holds can be bound.
fn search<F: Fn(u16) -> bool>(free: F) -> (BindStep, Vec<u16>) {
    let mut tried = Vec::new();
    let mut previous = None;
    loop {
        match next_bind_attempt(previous) {
            BindStep::Try(port) => {
                tried.push(port);
                let outcome = if free(port) { BindOutcome::Bound } else { BindOutcome::AddrInUse };
                previous = Some((port, outcome));
            }
            step => return (step, tried),
        }
    }
}

#[test]
fn test_tcp_transport_creation() {
    let (step, _) = search(|_| true);
    let transport = match step {
        BindStep::Listen(port) => Ok(TcpTransport::new(1, port)),
        _ => Err(step),
    };
    assert!(transport.is_ok());
}

#[test]
fn tcp_test_memory_registration() {
    let transport = TcpTransport::new(1, 50051);
    let mut buffer = vec![0u8; PAGE_SIZE];
    let mr = transport.register_memory(buffer.as_mut_ptr() as u64, PAGE_SIZE);
    assert!(mr.is_ok());
}

#[test]
fn listener_takes_the_first_free_port() {
    assert_eq!((PORT_RANGE_START, PORT_RANGE_END, DEFAULT_PORT), (50051, 50100, 50051));
    assert_eq!(search(|_| true), (BindStep::Listen(50051), vec![50051]));
    assert_eq!(
        search(|port| port >= 50054),
        (BindStep::Listen(50054), vec![50051, 50052, 50053, 50054])
    );
    let (step, tried) = search(|port| port == 50100);
    assert_eq!(step, BindStep::Listen(50100));
    assert_eq!(tried.len(), 50);
}

#[test]
fn listener_gives_up_when_the_range_is_taken() {
    let (step, tried) = search(|port| port > 50100);
    assert_eq!(step, BindStep::Fail(SetupError::NoPortAvailable));
    assert_eq!(tried, (50051..=50100).collect::<Vec<u16>>());
}

#[test]
fn listener_stops_on_any_other_bind_failure() {
    assert_eq!(next_bind_attempt(None), BindStep::Try(50051));
    assert_eq!(
        next_bind_attempt(Some((50060, BindOutcome::Failed))),
        BindStep::Fail(SetupError::ListenerFailed)
    );
    assert_eq!(next_bind_attempt(Some((50060, BindOutcome::AddrInUse))), BindStep::Try(50061));
    assert_eq!(next_bind_attempt(Some((50099, BindOutcome::AddrInUse))), BindStep::Try(50100));
    assert_eq!(
        next_bind_attempt(Some((50100, BindOutcome::AddrInUse))),
        BindStep::Fail(SetupError::NoPortAvailable)
    );
    assert_eq!(
        next_bind_attempt(Some((u16::MAX, BindOutcome::AddrInUse))),
        BindStep::Fail(SetupError::NoPortAvailable)
    );
    assert_eq!(next_bind_attempt(Some((50077, BindOutcome::Bound))), BindStep::Listen(50077));
}

#[test]
fn server_answers_requests() {
    assert_eq!(
        respond(&Message::FetchPage { gpa: 0x9000 }),
        Some(Message::PageData { gpa: 0x9000, data: vec![0u8; 4096] })
    );
    assert_eq!(
        respond(&Message::SendPage { gpa: 0x9000, data: vec![1u8; 4096] }),
        Some(Message::Ack)
    );
    assert_eq!(
        respond(&Message::Ping { timestamp: 123456789 }),
        Some(Message::Pong { timestamp: 123456789 })
    );
    assert_eq!(respond(&Message::Ack), None);
    assert_eq!(respond(&Message::Pong { timestamp: 1 }), None);
    assert_eq!(respond(&Message::PageData { gpa: 1, data: vec![] }), None);
    assert_eq!(respond(&Message::Error { message: String::from("x") }), None);
}

#[test]
fn handler_replies_with_a_frame() {
    let request = encode_message(&Message::Ping { timestamp: 77 });
    match handle_frame(&request) {
        ConnectionStep::Reply(frame) => {
            assert_eq!(decode_framed_message(&frame), Ok(Message::Pong { timestamp: 77 }));
        }
        other => panic!("unexpected step {:?}", other),
    }
    assert_eq!(handle_frame(&encode_message(&Message::Ack)), ConnectionStep::Continue);
    assert_eq!(
        handle_frame(&[1, 2, 3]),
        ConnectionStep::Close(TransportError::ProtocolError(ProtocolViolation::MalformedMessage))
    );
}

#[test]
fn tcp_ping_round_trip() {
    // node A asks, node B answers; the frames travel through memory
    let mut a = TcpTransport::new(1, 50051);
    let b = TcpTransport::new(2, 50052);
    let b_endpoint = b.local_endpoint(String::from("10.0.0.2"));
    assert_eq!(a.connect(2, b_endpoint, true), Ok(()));
    assert_eq!(a.peer(2), Ok(PeerAddr { addr: String::from("10.0.0.2"), port: 50052 }));

    let exchange = |frame: Vec<u8>| -> Message {
        let request = decode_framed_message(&frame).unwrap();
        let reply = match handle_frame(&encode_message(&request)) {
            ConnectionStep::Reply(reply) => reply,
            other => panic!("unexpected step {:?}", other),
        };
        decode_framed_message(&reply).unwrap()
    };

    let pong = exchange(ping_request(42));
    assert_eq!(pong, Message::Pong { timestamp: 42 });
    let d = latency_from_response(&pong, 180).unwrap();
    assert!(d > 0);
    a.record_latency(d);
    assert_eq!(a.performance_tier(), TransportTier::Standard);

    // a subsequent fetch on A returns 4096 bytes
    let page = page_from_response(exchange(fetch_request(0x1000))).unwrap();
    assert_eq!(page.len(), 4096);

    let sent = exchange(send_request(0x1000, &[7u8; 4096]).unwrap());
    assert_eq!(ack_from_response(sent), Ok(()));
}

#[test]
fn client_reads_a_page_from_the_reply() {
    assert_eq!(
        page_from_response(Message::PageData { gpa: 1, data: vec![3u8; 4096] }),
        Ok(vec![3u8; 4096])
    );
    let wrong = TransportError::ProtocolError(ProtocolViolation::WrongPageSize);
    assert_eq!(page_from_response(Message::PageData { gpa: 1, data: vec![3u8; 4095] }), Err(wrong.clone()));
    assert_eq!(page_from_response(Message::PageData { gpa: 1, data: vec![] }), Err(wrong));
    assert_eq!(
        page_from_response(Message::Error { message: String::from("no such page") }),
        Err(TransportError::Remote(String::from("no such page")))
    );
    let unexpected = TransportError::ProtocolError(ProtocolViolation::UnexpectedResponse);
    assert_eq!(page_from_response(Message::Ack), Err(unexpected.clone()));
    assert_eq!(page_from_response(Message::Pong { timestamp: 1 }), Err(unexpected));
}

#[test]
fn client_reads_ack_and_pong() {
    let unexpected = TransportError::ProtocolError(ProtocolViolation::UnexpectedResponse);
    assert_eq!(ack_from_response(Message::Ack), Ok(()));
    assert_eq!(
        ack_from_response(Message::Error { message: String::from("full") }),
        Err(TransportError::Remote(String::from("full")))
    );
    assert_eq!(ack_from_response(Message::Pong { timestamp: 1 }), Err(unexpected.clone()));
    // any pong confirms the round trip, whatever timestamp it carries
    assert_eq!(latency_from_response(&Message::Pong { timestamp: 999 }, 250), Ok(250));
    assert_eq!(latency_from_response(&Message::Ack, 250), Err(unexpected.clone()));
    assert_eq!(
        latency_from_response(&Message::Error { message: String::from("x") }, 250),
        Err(unexpected)
    );
}

#[test]
fn request_frames() {
    assert_eq!(
        fetch_request(0x0102),
        vec![0, 0, 0, 12, 0, 0, 0, 0, 2, 1, 0, 0, 0, 0, 0, 0]
    );
    assert_eq!(
        ping_request(3),
        vec![0, 0, 0, 12, 4, 0, 0, 0, 3, 0, 0, 0, 0, 0, 0, 0]
    );
    let frame = send_request(5, &[9u8; 4096]).unwrap();
    assert_eq!(
        decode_framed_message(&frame),
        Ok(Message::SendPage { gpa: 5, data: vec![9u8; 4096] })
    );
    assert_eq!(
        send_request(5, &[9u8; 10]),
        Err(TransportError::ProtocolError(ProtocolViolation::WrongPageSize))
    );
}

#[test]
fn tcp_tiers() {
    assert_eq!(detect_tier(0), TransportTier::MediumPerformance);
    assert_eq!(detect_tier(149), TransportTier::MediumPerformance);
    assert_eq!(detect_tier(150), TransportTier::Standard);
    assert_eq!(detect_tier(499), TransportTier::Standard);
    assert_eq!(detect_tier(500), TransportTier::Basic);
    assert_eq!(detect_tier(2000), TransportTier::Basic);
}

#[test]
fn peers_are_kept_by_node() {
    let mut transport = TcpTransport::new(1, 50051);
    assert_eq!(transport.performance_tier(), TransportTier::Standard);
    assert_eq!(transport.peer(2), Err(TransportError::NodeNotConnected(2)));
    let endpoint = TransportEndpoint::Tcp { addr: String::from("192.168.1.100"), port: 50051 };
    assert_eq!(transport.connect(2, endpoint, true), Ok(()));
    let endpoint = TransportEndpoint::Tcp { addr: String::from("192.168.1.101"), port: 50052 };
    assert_eq!(transport.connect(2, endpoint, true), Ok(()));
    assert_eq!(transport.peer(2), Ok(PeerAddr { addr: String::from("192.168.1.101"), port: 50052 }));
    assert_eq!(transport.peer(3), Err(TransportError::NodeNotConnected(3)));
    transport.record_latency(900);
    assert_eq!(transport.performance_tier(), TransportTier::Basic);
    assert_eq!(
        transport.local_endpoint(String::from("10.0.0.1")),
        TransportEndpoint::Tcp { addr: String::from("10.0.0.1"), port: 50051 }
    );
}

#[test]
fn tcp_transport_refuses_an_rdma_endpoint() {
    let mut transport = TcpTransport::new(1, 50051);
    let endpoint = TransportEndpoint::Rdma { qpn: 1, lid: 1, gid: [0; 16], psn: 1 };
    assert_eq!(transport.connect(2, endpoint, true), Err(TransportError::EndpointMismatch));
    assert_eq!(transport.peer(2), Err(TransportError::NodeNotConnected(2)));
}

#[test]
fn tcp_transport_refuses_a_host_that_is_no_address() {
    let mut transport = TcpTransport::new(1, 50051);
    let known = TransportEndpoint::Tcp { addr: String::from("10.0.0.2"), port: 50051 };
    assert_eq!(transport.connect(2, known, true), Ok(()));

    let endpoint = TransportEndpoint::Tcp { addr: String::from("not an address"), port: 50051 };
    assert_eq!(
        transport.connect(3, endpoint, false),
        Err(TransportError::ConnectionFailed(String::from("Invalid socket address")))
    );
    assert_eq!(transport.peer(3), Err(TransportError::NodeNotConnected(3)));
    // an older entry stays as it was
    let endpoint = TransportEndpoint::Tcp { addr: String::from("nowhere"), port: 1 };
    assert!(transport.connect(2, endpoint, false).is_err());
    assert_eq!(transport.peer(2), Ok(PeerAddr { addr: String::from("10.0.0.2"), port: 50051 }));
    // the kind of endpoint is looked at first
    let rdma = TransportEndpoint::Rdma { qpn: 1, lid: 1, gid: [0; 16], psn: 1 };
    assert_eq!(transport.connect(4, rdma, false), Err(TransportError::EndpointMismatch));
}

#[test]
fn tcp_region_needs_no_registration() {
    let transport = TcpTransport::new(1, 50051);
    let region = transport.register_memory(0x5000, 8192).unwrap();
    assert_eq!(region, TcpMemoryRegion { addr: 0x5000, length: 8192 });
    assert_eq!((region.lkey(), region.rkey()), (0, 0));
    assert_eq!((region.addr(), region.length()), (0x5000, 8192));
}

#[test]
fn stream_that_ends_inside_a_frame_is_a_protocol_error() {
    let truncated =
        Some(ConnectionStep::Close(TransportError::ProtocolError(ProtocolViolation::Truncated)));
    // the header of a next frame
    assert_eq!(handle_read(true, 4, 4), None);
    assert_eq!(handle_read(true, 4, 0), Some(ConnectionStep::End));
    assert_eq!(handle_read(true, 4, 1), truncated);
    assert_eq!(handle_read(true, 4, 3), truncated);
    // the payload
    assert_eq!(handle_read(false, 4116, 4116), None);
    assert_eq!(handle_read(false, 4116, 0), truncated);
    assert_eq!(handle_read(false, 4116, 4115), truncated);
    assert_eq!(handle_read(false, 0, 0), None);
    // a reply that never starts is no orderly end
    assert_eq!(handle_read(false, 4, 0), truncated);
}
