//! Transport endpoints: the address information that nodes exchange through
//! the coordinator, and its flat form in the coordinator's registry.

use vstd::prelude::*;
use vstd::string::StringExecFns;

verus! {

/// Length in bytes of an RDMA global identifier.
pub const GID_LEN: usize = 16;

/// Address information of a node, by kind of transport.
#[derive(Debug, Clone, PartialEq, Eq)]
pub enum TransportEndpoint {
    /// TCP endpoint: host and port.
    Tcp { addr: String, port: u16 },
    /// RDMA endpoint: queue pair number, local id, global id and initial
    /// packet sequence number (24 bits).
    Rdma { qpn: u32, lid: u16, gid: [u8; 16], psn: u32 },
}

/// An endpoint as a mathematical value.
pub enum EndpointView {
    Tcp { addr: Seq<char>, port: u16 },
    Rdma { qpn: u32, lid: u16, gid: Seq<u8>, psn: u32 },
}

impl View for TransportEndpoint {
    type V = EndpointView;

    open spec fn view(&self) -> EndpointView {
        match *self {
            TransportEndpoint::Tcp { addr, port } => EndpointView::Tcp { addr: addr@, port },
            TransportEndpoint::Rdma { qpn, lid, gid, psn } => EndpointView::Rdma {
                qpn,
                lid,
                gid: gid@,
                psn,
            },
        }
    }
}

/// Endpoint of a reliable-connection queue pair.
#[derive(Debug, Clone, Copy, PartialEq, Eq)]
pub struct QpEndpoint {
    /// Queue pair number.
    pub qpn: u32,
    /// Local identifier of the port.
    pub lid: u16,
    /// Global identifier of the port.
    pub gid: [u8; 16],
    /// Initial packet sequence number.
    pub psn: u32,
}

/// An endpoint as the coordinator stores it: the kind of transport as a
/// text, and one optional field for each part of either kind.
#[derive(Debug, Clone, PartialEq, Eq)]
pub struct CoordinatorEndpoint {
    pub transport_type: String,
    pub tcp_addr: Option<String>,
    pub tcp_port: Option<u16>,
    pub rdma_qpn: Option<u32>,
    pub rdma_lid: Option<u16>,
    pub rdma_gid: Option<String>,
    pub rdma_psn: Option<u32>,
}

/// A field of [`CoordinatorEndpoint`].
#[derive(Debug, Clone, Copy, PartialEq, Eq, Structural)]
pub enum EndpointField {
    TcpAddr,
    TcpPort,
    RdmaQpn,
    RdmaLid,
    RdmaGid,
    RdmaPsn,
}

/// Why a coordinator entry is no endpoint.
#[derive(Debug, Clone, Copy, PartialEq, Eq, Structural)]
pub enum EndpointError {
    /// A field that the kind of transport needs is absent.
    MissingField(EndpointField),
    /// The global identifier is no hexadecimal text.
    InvalidGid,
    /// The global identifier has the given number of bytes, not 16.
    GidLength(usize),
    /// The kind of transport is neither `tcp` nor `rdma`.
    UnknownTransport,
}

/// The text `tcp`.
pub open spec fn tcp_kind() -> Seq<char> {
    seq!['t', 'c', 'p']
}

/// The text `rdma`.
pub open spec fn rdma_kind() -> Seq<char> {
    seq!['r', 'd', 'm', 'a']
}

/// The text `0x`.
pub open spec fn hex_prefix() -> Seq<char> {
    seq!['0', 'x']
}

/// Whether `c` is a hexadecimal digit, of either case.
pub open spec fn is_hex_digit(c: char) -> bool {
    ('0' <= c && c <= '9') || ('a' <= c && c <= 'f') || ('A' <= c && c <= 'F')
}

/// The value of the hexadecimal digit `c`.
pub open spec fn hex_digit_value(c: char) -> int {
    if '0' <= c && c <= '9' {
        c as int - '0' as int
    } else if 'a' <= c && c <= 'f' {
        c as int - 'a' as int + 10
    } else {
        c as int - 'A' as int + 10
    }
}

/// The lower-case hexadecimal digit of value `n`.
pub open spec fn hex_digit(n: int) -> char {
    if n < 10 {
        ('0' as int + n) as char
    } else {
        ('a' as int + n - 10) as char
    }
}

/// Whether `s` spells bytes in hexadecimal: two digits for each byte.
pub open spec fn is_hex_text(s: Seq<char>) -> bool {
    s.len() % 2 == 0 && forall|i: int| 0 <= i < s.len() ==> is_hex_digit(#[trigger] s[i])
}

/// The bytes that the hexadecimal text `s` spells.
pub open spec fn hex_decoded(s: Seq<char>) -> Seq<u8> {
    Seq::new(
        s.len() / 2,
        |i: int| (16 * hex_digit_value(s[2 * i]) + hex_digit_value(s[2 * i + 1])) as u8,
    )
}

/// The lower-case hexadecimal text of `b`.
pub open spec fn hex_encoded(b: Seq<u8>) -> Seq<char> {
    Seq::new(
        2 * b.len(),
        |i: int|
            if i % 2 == 0 {
                hex_digit(b[i / 2] as int / 16)
            } else {
                hex_digit(b[i / 2] as int % 16)
            },
    )
}

/// `s` without every `0x` that it starts with.
pub open spec fn without_hex_prefix(s: Seq<char>) -> Seq<char>
    decreases s.len(),
{
    if s.len() >= 2 && s[0] == '0' && s[1] == 'x' {
        without_hex_prefix(s.skip(2))
    } else {
        s
    }
}

/// The error type of `hex::decode`.
#[verifier::external_type_specification]
#[verifier::external_body]
pub struct ExFromHexError(hex::FromHexError);

/// Decodes hexadecimal text with `hex::decode`. That function reads the
/// text byte by byte: it fails on an odd number of bytes and on any byte
/// that is no hexadecimal digit of either case, and else yields one byte for
/// each two digits, the first digit being the upper half.
#[verifier::external_body]
fn hex_decode(text: &str) -> (result: Result<Vec<u8>, hex::FromHexError>)
    ensures
        match result {
            Ok(bytes) => is_hex_text(text@) && bytes@ == hex_decoded(text@),
            Err(_) => !is_hex_text(text@),
        },
{
    hex::decode(text)
}

/// Encodes bytes with `hex::encode`, which writes each byte as two
/// lower-case hexadecimal digits, the upper half first.
#[verifier::external_body]
fn hex_encode(bytes: &[u8]) -> (text: String)
    ensures
        text@ == hex_encoded(bytes@),
{
    hex::encode(bytes)
}

/// Strips leading `0x` with `str::trim_start_matches` of the standard
/// library, which removes the pattern from the start of the text as often as
/// it stands there.
#[verifier::external_body]
fn trim_hex_prefix<'a>(text: &'a str) -> (rest: &'a str)
    ensures
        rest@ == without_hex_prefix(text@),
{
    text.trim_start_matches("0x")
}

/// The global identifier that the registry text `text` spells: the bytes of
/// its hexadecimal digits behind any leading `0x`, which must be 16.
pub open spec fn parse_gid(text: Seq<char>) -> Result<Seq<u8>, EndpointError> {
    let digits = without_hex_prefix(text);
    if !is_hex_text(digits) {
        Err(EndpointError::InvalidGid)
    } else if hex_decoded(digits).len() != GID_LEN {
        Err(EndpointError::GidLength(hex_decoded(digits).len() as usize))
    } else {
        Ok(hex_decoded(digits))
    }
}

/// The registry text of the global identifier `gid`: `0x` and its bytes in
/// lower-case hexadecimal.
pub open spec fn gid_text(gid: Seq<u8>) -> Seq<char> {
    hex_prefix() + hex_encoded(gid)
}

/// The endpoint that a coordinator entry describes. The fields are looked
/// for in the order of their declaration, and the first that is absent is
/// reported; fields of the other kind of transport are not looked at.
pub open spec fn resolve_endpoint(entry: CoordinatorEndpoint) -> Result<
    EndpointView,
    EndpointError,
> {
    if entry.transport_type@ == tcp_kind() {
        if entry.tcp_addr is None {
            Err(EndpointError::MissingField(EndpointField::TcpAddr))
        } else if entry.tcp_port is None {
            Err(EndpointError::MissingField(EndpointField::TcpPort))
        } else {
            Ok(EndpointView::Tcp { addr: entry.tcp_addr->0@, port: entry.tcp_port->0 })
        }
    } else if entry.transport_type@ == rdma_kind() {
        if entry.rdma_qpn is None {
            Err(EndpointError::MissingField(EndpointField::RdmaQpn))
        } else if entry.rdma_lid is None {
            Err(EndpointError::MissingField(EndpointField::RdmaLid))
        } else if entry.rdma_gid is None {
            Err(EndpointError::MissingField(EndpointField::RdmaGid))
        } else if entry.rdma_psn is None {
            Err(EndpointError::MissingField(EndpointField::RdmaPsn))
        } else {
            match parse_gid(entry.rdma_gid->0@) {
                Err(e) => Err(e),
                Ok(gid) => Ok(
                    EndpointView::Rdma {
                        qpn: entry.rdma_qpn->0,
                        lid: entry.rdma_lid->0,
                        gid,
                        psn: entry.rdma_psn->0,
                    },
                ),
            }
        }
    } else {
        Err(EndpointError::UnknownTransport)
    }
}

/// Whether `entry` is the registry form of the endpoint `e`: the kind, the
/// fields of that kind, and nothing else.
pub open spec fn is_registry_form(entry: CoordinatorEndpoint, e: EndpointView) -> bool {
    match e {
        EndpointView::Tcp { addr, port } => {
            &&& entry.transport_type@ == tcp_kind()
            &&& entry.tcp_addr matches Some(a) && a@ == addr
            &&& entry.tcp_port == Some(port)
            &&& entry.rdma_qpn is None
            &&& entry.rdma_lid is None
            &&& entry.rdma_gid is None
            &&& entry.rdma_psn is None
        },
        EndpointView::Rdma { qpn, lid, gid, psn } => {
            &&& entry.transport_type@ == rdma_kind()
            &&& entry.tcp_addr is None
            &&& entry.tcp_port is None
            &&& entry.rdma_qpn == Some(qpn)
            &&& entry.rdma_lid == Some(lid)
            &&& entry.rdma_gid matches Some(g) && g@ == gid_text(gid)
            &&& entry.rdma_psn == Some(psn)
        },
    }
}

/// The two digits of a byte spell that byte.
pub proof fn lemma_hex_digit_round_trip(n: int)
    requires
        0 <= n < 16,
    ensures
        is_hex_digit(hex_digit(n)),
        hex_digit_value(hex_digit(n)) == n,
        hex_digit(n) != 'x',
{
}

/// Hexadecimal text of bytes is read back as those bytes.
pub proof fn lemma_hex_round_trip(b: Seq<u8>)
    ensures
        is_hex_text(hex_encoded(b)),
        hex_decoded(hex_encoded(b)) == b,
{
    let text = hex_encoded(b);
    assert forall|i: int| 0 <= i < text.len() implies is_hex_digit(#[trigger] text[i]) by {
        lemma_hex_digit_round_trip(b[i / 2] as int / 16);
        lemma_hex_digit_round_trip(b[i / 2] as int % 16);
    }
    assert forall|i: int| 0 <= i < b.len() implies #[trigger] hex_decoded(text)[i] == b[i] by {
        lemma_hex_digit_round_trip(b[i] as int / 16);
        lemma_hex_digit_round_trip(b[i] as int % 16);
        assert(text[2 * i] == hex_digit(b[i] as int / 16));
        assert(text[2 * i + 1] == hex_digit(b[i] as int % 16));
    }
    assert(hex_decoded(text) =~= b);
}

/// The registry text of a 16-byte global identifier is read back as that
/// identifier.
pub proof fn lemma_gid_round_trip(gid: Seq<u8>)
    requires
        gid.len() == GID_LEN,
    ensures
        parse_gid(gid_text(gid)) == Ok::<Seq<u8>, EndpointError>(gid),
{
    let text = gid_text(gid);
    let digits = hex_encoded(gid);
    lemma_hex_round_trip(gid);
    assert(text.skip(2) =~= digits);
    lemma_hex_digit_round_trip(gid[0] as int % 16);
    assert(digits[1] == hex_digit(gid[0] as int % 16));
    assert(without_hex_prefix(digits) == digits);
    assert(without_hex_prefix(text) == digits);
}

/// An endpoint is read back from its registry form.
pub proof fn lemma_registry_round_trip(entry: CoordinatorEndpoint, e: EndpointView)
    requires
        is_registry_form(entry, e),
        e matches EndpointView::Rdma { gid, .. } ==> gid.len() == GID_LEN,
    ensures
        resolve_endpoint(entry) == Ok::<EndpointView, EndpointError>(e),
{
    match e {
        EndpointView::Tcp { addr, port } => {},
        EndpointView::Rdma { qpn, lid, gid, psn } => {
            assert(!(rdma_kind() =~= tcp_kind()));
            lemma_gid_round_trip(gid);
        },
    }
}

/// The first 16 bytes of `bytes` as a global identifier.
fn gid_from_bytes(bytes: &Vec<u8>) -> (gid: [u8; 16])
    requires
        bytes@.len() == GID_LEN,
    ensures
        gid@ == bytes@,
{
    let mut gid: [u8; 16] = [0u8; 16];
    let mut i: usize = 0;
    while i < 16
        invariant
            i <= 16,
            bytes@.len() == 16,
            forall|j: int| 0 <= j < i ==> gid@[j] == bytes@[j],
        decreases 16 - i,
    {
        gid[i] = bytes[i];
        i = i + 1;
    }
    assert(gid@ =~= bytes@);
    gid
}

impl CoordinatorEndpoint {
    /// The endpoint that this registry entry describes.
    pub fn to_transport_endpoint(&self) -> (result: Result<TransportEndpoint, EndpointError>)
        ensures
            match result {
                Ok(endpoint) => resolve_endpoint(*self) == Ok::<EndpointView, EndpointError>(
                    endpoint@,
                ),
                Err(e) => resolve_endpoint(*self) == Err::<EndpointView, EndpointError>(e),
            },
    {
        proof {
            reveal_strlit("tcp");
            reveal_strlit("rdma");
        }
        let tcp = String::from_str("tcp");
        let rdma = String::from_str("rdma");
        assert(tcp@ =~= tcp_kind());
        assert(rdma@ =~= rdma_kind());
        if self.transport_type == tcp {
            match &self.tcp_addr {
                None => Err(EndpointError::MissingField(EndpointField::TcpAddr)),
                Some(addr) => match self.tcp_port {
                    None => Err(EndpointError::MissingField(EndpointField::TcpPort)),
                    Some(port) => Ok(TransportEndpoint::Tcp { addr: addr.clone(), port }),
                },
            }
        } else if self.transport_type == rdma {
            let qpn = match self.rdma_qpn {
                None => { return Err(EndpointError::MissingField(EndpointField::RdmaQpn)); },
                Some(qpn) => qpn,
            };
            let lid = match self.rdma_lid {
                None => { return Err(EndpointError::MissingField(EndpointField::RdmaLid)); },
                Some(lid) => lid,
            };
            let gid_text = match &self.rdma_gid {
                None => { return Err(EndpointError::MissingField(EndpointField::RdmaGid)); },
                Some(text) => text,
            };
            let psn = match self.rdma_psn {
                None => { return Err(EndpointError::MissingField(EndpointField::RdmaPsn)); },
                Some(psn) => psn,
            };
            let digits = trim_hex_prefix(gid_text.as_str());
            match hex_decode(digits) {
                Err(_) => Err(EndpointError::InvalidGid),
                Ok(bytes) => {
                    if bytes.len() != GID_LEN {
                        Err(EndpointError::GidLength(bytes.len()))
                    } else {
                        let gid = gid_from_bytes(&bytes);
                        Ok(TransportEndpoint::Rdma { qpn, lid, gid, psn })
                    }
                },
            }
        } else {
            Err(EndpointError::UnknownTransport)
        }
    }

    /// The registry entry for `endpoint`.
    pub fn from_transport_endpoint(endpoint: &TransportEndpoint) -> (entry: Self)
        ensures
            is_registry_form(entry, endpoint@),
            resolve_endpoint(entry) == Ok::<EndpointView, EndpointError>(endpoint@),
    {
        proof {
            reveal_strlit("tcp");
            reveal_strlit("rdma");
            reveal_strlit("0x");
        }
        let entry = match endpoint {
            TransportEndpoint::Tcp { addr, port } => {
                let kind = String::from_str("tcp");
                assert(kind@ =~= tcp_kind());
                CoordinatorEndpoint {
                    transport_type: kind,
                    tcp_addr: Some(addr.clone()),
                    tcp_port: Some(*port),
                    rdma_qpn: None,
                    rdma_lid: None,
                    rdma_gid: None,
                    rdma_psn: None,
                }
            },
            TransportEndpoint::Rdma { qpn, lid, gid, psn } => {
                let kind = String::from_str("rdma");
                assert(kind@ =~= rdma_kind());
                let digits = hex_encode(gid.as_slice());
                let prefix = String::from_str("0x");
                assert(prefix@ =~= hex_prefix());
                let text = prefix.concat(digits.as_str());
                CoordinatorEndpoint {
                    transport_type: kind,
                    tcp_addr: None,
                    tcp_port: None,
                    rdma_qpn: Some(*qpn),
                    rdma_lid: Some(*lid),
                    rdma_gid: Some(text),
                    rdma_psn: Some(*psn),
                }
            },
        };
        proof {
            lemma_registry_round_trip(entry, endpoint@);
        }
        entry
    }
}

impl TransportEndpoint {
    /// A copy of this endpoint.
    pub fn duplicate(&self) -> (copy: Self)
        ensures
            copy@ == self@,
    {
        match self {
            TransportEndpoint::Tcp { addr, port } => TransportEndpoint::Tcp {
                addr: addr.clone(),
                port: *port,
            },
            TransportEndpoint::Rdma { qpn, lid, gid, psn } => TransportEndpoint::Rdma {
                qpn: *qpn,
                lid: *lid,
                gid: *gid,
                psn: *psn,
            },
        }
    }
}

impl QpEndpoint {
    /// This queue pair endpoint as a transport endpoint.
    pub fn to_transport_endpoint(&self) -> (endpoint: TransportEndpoint)
        ensures
            endpoint@ == (EndpointView::Rdma {
                qpn: self.qpn,
                lid: self.lid,
                gid: self.gid@,
                psn: self.psn,
            }),
    {
        TransportEndpoint::Rdma { qpn: self.qpn, lid: self.lid, gid: self.gid, psn: self.psn }
    }
}

} // verus!
