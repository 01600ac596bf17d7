use pager::endpoint::{
    CoordinatorEndpoint, EndpointError, EndpointField, QpEndpoint, TransportEndpoint,
};

fn blank(kind: &str) -> CoordinatorEndpoint {
    CoordinatorEndpoint {
        transport_type: String::from(kind),
        tcp_addr: None,
        tcp_port: None,
        rdma_qpn: None,
        rdma_lid: None,
        rdma_gid: None,
        rdma_psn: None,
    }
}

fn rdma_entry(gid: &str) -> CoordinatorEndpoint {
    let mut entry = blank("rdma");
    entry.rdma_qpn = Some(17);
    entry.rdma_lid = Some(3);
    entry.rdma_gid = Some(String::from(gid));
    entry.rdma_psn = Some(0x123456);
    entry
}

const GID: [u8; 16] = [
    0xfe, 0x80, 0, 0, 0, 0, 0, 0, 0x02, 0x1a, 0x2b, 0xff, 0xfe, 0x3c, 0x4d, 0x5e,
];

#[test]
fn tcp_entry_becomes_tcp_endpoint() {
    let mut entry = blank("tcp");
    entry.tcp_addr = Some(String::from("192.168.1.100"));
    entry.tcp_port = Some(50051);
    assert_eq!(
        entry.to_transport_endpoint(),
        Ok(TransportEndpoint::Tcp { addr: String::from("192.168.1.100"), port: 50051 })
    );
}

#[test]
fn tcp_entry_ignores_rdma_fields() {
    let mut entry = rdma_entry("not hex at all");
    entry.transport_type = String::from("tcp");
    entry.tcp_addr = Some(String::from("host"));
    entry.tcp_port = Some(1);
    assert_eq!(
        entry.to_transport_endpoint(),
        Ok(TransportEndpoint::Tcp { addr: String::from("host"), port: 1 })
    );
}

#[test]
fn missing_fields_are_reported_in_order() {
    let entry = blank("tcp");
    assert_eq!(
        entry.to_transport_endpoint(),
        Err(EndpointError::MissingField(EndpointField::TcpAddr))
    );
    let mut entry = blank("tcp");
    entry.tcp_addr = Some(String::from("h"));
    assert_eq!(
        entry.to_transport_endpoint(),
        Err(EndpointError::MissingField(EndpointField::TcpPort))
    );

    let mut entry = blank("rdma");
    assert_eq!(
        entry.to_transport_endpoint(),
        Err(EndpointError::MissingField(EndpointField::RdmaQpn))
    );
    entry.rdma_qpn = Some(1);
    assert_eq!(
        entry.to_transport_endpoint(),
        Err(EndpointError::MissingField(EndpointField::RdmaLid))
    );
    entry.rdma_lid = Some(1);
    assert_eq!(
        entry.to_transport_endpoint(),
        Err(EndpointError::MissingField(EndpointField::RdmaGid))
    );
    entry.rdma_gid = Some(String::from("zz"));
    assert_eq!(
        entry.to_transport_endpoint(),
        Err(EndpointError::MissingField(EndpointField::RdmaPsn))
    );
    entry.rdma_psn = Some(1);
    assert_eq!(entry.to_transport_endpoint(), Err(EndpointError::InvalidGid));
}

#[test]
fn unknown_transport_type_is_refused() {
    assert_eq!(blank("udp").to_transport_endpoint(), Err(EndpointError::UnknownTransport));
    assert_eq!(blank("").to_transport_endpoint(), Err(EndpointError::UnknownTransport));
    assert_eq!(blank("TCP").to_transport_endpoint(), Err(EndpointError::UnknownTransport));
    assert_eq!(blank("tcp ").to_transport_endpoint(), Err(EndpointError::UnknownTransport));
}

#[test]
fn rdma_gid_is_hex_with_or_without_prefix() {
    let expected = TransportEndpoint::Rdma { qpn: 17, lid: 3, gid: GID, psn: 0x123456 };
    assert_eq!(
        rdma_entry("0xfe80000000000000021a2bfffe3c4d5e").to_transport_endpoint(),
        Ok(expected.clone())
    );
    assert_eq!(
        rdma_entry("fe80000000000000021a2bfffe3c4d5e").to_transport_endpoint(),
        Ok(expected.clone())
    );
    assert_eq!(
        rdma_entry("0xFE80000000000000021A2BFFFE3C4D5E").to_transport_endpoint(),
        Ok(expected.clone())
    );
    // every leading 0x is stripped
    assert_eq!(
        rdma_entry("0x0xfe80000000000000021a2bfffe3c4d5e").to_transport_endpoint(),
        Ok(expected)
    );
}

#[test]
fn rdma_gid_must_be_16_bytes_of_hex() {
    assert_eq!(rdma_entry("0x").to_transport_endpoint(), Err(EndpointError::GidLength(0)));
    assert_eq!(rdma_entry("0xfe80").to_transport_endpoint(), Err(EndpointError::GidLength(2)));
    assert_eq!(
        rdma_entry("0xfe80000000000000021a2bfffe3c4d5e00").to_transport_endpoint(),
        Err(EndpointError::GidLength(17))
    );
    // odd number of digits
    assert_eq!(
        rdma_entry("0xfe80000000000000021a2bfffe3c4d5").to_transport_endpoint(),
        Err(EndpointError::InvalidGid)
    );
    // a character that is no digit
    assert_eq!(
        rdma_entry("0xfe80000000000000021a2bfffe3c4d5g").to_transport_endpoint(),
        Err(EndpointError::InvalidGid)
    );
    // an upper-case prefix is no prefix
    assert_eq!(
        rdma_entry("0Xfe80000000000000021a2bfffe3c4d5e").to_transport_endpoint(),
        Err(EndpointError::InvalidGid)
    );
    assert_eq!(
        rdma_entry("fe80000000000000021a2bfffe3c4d\u{00e9}").to_transport_endpoint(),
        Err(EndpointError::InvalidGid)
    );
}

#[test]
fn registry_form_of_rdma_endpoint() {
    let endpoint = TransportEndpoint::Rdma { qpn: 17, lid: 3, gid: GID, psn: 0x123456 };
    let entry = CoordinatorEndpoint::from_transport_endpoint(&endpoint);
    assert_eq!(entry.transport_type, "rdma");
    assert_eq!(entry.rdma_gid, Some(String::from("0xfe80000000000000021a2bfffe3c4d5e")));
    assert_eq!(entry.rdma_qpn, Some(17));
    assert_eq!(entry.rdma_lid, Some(3));
    assert_eq!(entry.rdma_psn, Some(0x123456));
    assert_eq!(entry.tcp_addr, None);
    assert_eq!(entry.tcp_port, None);
    assert_eq!(entry.to_transport_endpoint(), Ok(endpoint));
}

#[test]
fn registry_form_of_tcp_endpoint() {
    let endpoint = TransportEndpoint::Tcp { addr: String::from("10.0.0.2"), port: 50077 };
    let entry = CoordinatorEndpoint::from_transport_endpoint(&endpoint);
    assert_eq!(entry.transport_type, "tcp");
    assert_eq!(entry.tcp_addr, Some(String::from("10.0.0.2")));
    assert_eq!(entry.tcp_port, Some(50077));
    assert_eq!(entry.rdma_qpn, None);
    assert_eq!(entry.rdma_lid, None);
    assert_eq!(entry.rdma_gid, None);
    assert_eq!(entry.rdma_psn, None);
    assert_eq!(entry.to_transport_endpoint(), Ok(endpoint));
}

#[test]
fn registry_round_trip_for_many_gids() {
    for seed in 0u32..64 {
        let mut gid = [0u8; 16];
        for (i, byte) in gid.iter_mut().enumerate() {
            *byte = (seed.wrapping_mul(2654435761).rotate_left(i as u32) >> 3) as u8;
        }
        let endpoint = TransportEndpoint::Rdma { qpn: seed, lid: seed as u16, gid, psn: seed };
        let entry = CoordinatorEndpoint::from_transport_endpoint(&endpoint);
        assert_eq!(entry.rdma_gid.as_ref().unwrap().len(), 34);
        assert_eq!(entry.to_transport_endpoint(), Ok(endpoint));
    }
}

#[test]
fn duplicate_is_an_equal_endpoint() {
    let tcp = TransportEndpoint::Tcp { addr: String::from("a"), port: 2 };
    assert_eq!(tcp.duplicate(), tcp);
    let rdma = TransportEndpoint::Rdma { qpn: 1, lid: 2, gid: GID, psn: 3 };
    assert_eq!(rdma.duplicate(), rdma);
}

#[test]
fn queue_pair_endpoint_as_transport_endpoint() {
    let qp = QpEndpoint { qpn: 5, lid: 6, gid: GID, psn: 7 };
    assert_eq!(
        qp.to_transport_endpoint(),
        TransportEndpoint::Rdma { qpn: 5, lid: 6, gid: GID, psn: 7 }
    );
}
