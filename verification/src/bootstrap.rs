//! Bringing a pager up: the order of the stages, and the connections to
//! the peers that the coordinator's registry names.

use crate::endpoint::{resolve_endpoint, CoordinatorEndpoint, EndpointView};
use crate::error::{SetupError, StartupStage};
use crate::transport::{PageTransport, TransportManager};
use vstd::prelude::*;
use vstd::string::StringExecFns;

verus! {

/// What to do next while a pager is brought up.
#[derive(Debug, Clone, Copy, PartialEq, Eq, Structural)]
pub enum StartupStep {
    /// Carry out this stage.
    Run(StartupStage),
    /// Every stage is done: the worker runs.
    Running,
    /// Give up; no worker has been started.
    Fail(SetupError),
}

/// The stage that follows `stage`; none behind the last.
pub open spec fn stage_after(stage: StartupStage) -> Option<StartupStage> {
    match stage {
        StartupStage::OpenFaultChannel => Some(StartupStage::RegisterRange),
        StartupStage::RegisterRange => Some(StartupStage::InitTransport),
        StartupStage::InitTransport => Some(StartupStage::RegisterEndpoint),
        StartupStage::RegisterEndpoint => Some(StartupStage::ConnectPeers),
        StartupStage::ConnectPeers => Some(StartupStage::SpawnWorker),
        StartupStage::SpawnWorker => None,
    }
}

/// The position of a stage in the order of the startup.
pub open spec fn stage_rank(stage: StartupStage) -> int {
    match stage {
        StartupStage::OpenFaultChannel => 0,
        StartupStage::RegisterRange => 1,
        StartupStage::InitTransport => 2,
        StartupStage::RegisterEndpoint => 3,
        StartupStage::ConnectPeers => 4,
        StartupStage::SpawnWorker => 5,
    }
}

/// The step that follows the stage `previous`, which ended with `outcome`;
/// the first step where no stage has run. A stage that fails ends the
/// startup with its error.
pub open spec fn startup_after(previous: Option<(StartupStage, Result<(), SetupError>)>) -> StartupStep {
    match previous {
        None => StartupStep::Run(StartupStage::OpenFaultChannel),
        Some((stage, Err(e))) => StartupStep::Fail(e),
        Some((stage, Ok(_))) => match stage_after(stage) {
            Some(next) => StartupStep::Run(next),
            None => StartupStep::Running,
        },
    }
}

/// The step that follows the stage `previous` in the startup of a pager.
pub fn start_pager(previous: Option<(StartupStage, Result<(), SetupError>)>) -> (step: StartupStep)
    ensures
        step == startup_after(previous),
{
    match previous {
        None => StartupStep::Run(StartupStage::OpenFaultChannel),
        Some((stage, outcome)) => match outcome {
            Err(e) => StartupStep::Fail(e),
            Ok(_) => match stage {
                StartupStage::OpenFaultChannel => StartupStep::Run(StartupStage::RegisterRange),
                StartupStage::RegisterRange => StartupStep::Run(StartupStage::InitTransport),
                StartupStage::InitTransport => StartupStep::Run(StartupStage::RegisterEndpoint),
                StartupStage::RegisterEndpoint => StartupStep::Run(StartupStage::ConnectPeers),
                StartupStage::ConnectPeers => StartupStep::Run(StartupStage::SpawnWorker),
                StartupStage::SpawnWorker => StartupStep::Running,
            },
        },
    }
}

/// The worker is started last, and only after every other stage has
/// succeeded: a failure leaves no worker behind.
pub proof fn lemma_worker_spawned_last(stage: StartupStage, outcome: Result<(), SetupError>)
    ensures
        startup_after(Some((stage, outcome))) == StartupStep::Run(StartupStage::SpawnWorker) <==> (
        stage == StartupStage::ConnectPeers && outcome is Ok),
        startup_after(Some((stage, outcome))) matches StartupStep::Run(next) ==> stage_rank(next)
            == stage_rank(stage) + 1,
        outcome is Err ==> startup_after(Some((stage, outcome))) == StartupStep::Fail(
            outcome->Err_0,
        ),
        startup_after(Some((stage, outcome))) == StartupStep::Running <==> (stage
            == StartupStage::SpawnWorker && outcome is Ok),
{
}

/// What the coordinator's answer to the registration of an endpoint comes
/// to: any status from 200 to 299 is success.
pub fn registration_result(status: u16) -> (result: Result<(), SetupError>)
    ensures
        200 <= status < 300 ==> result is Ok,
        !(200 <= status < 300) ==> result == Err::<(), SetupError>(
            SetupError::CoordinatorStatus(status),
        ),
{
    if 200 <= status && status < 300 {
        Ok(())
    } else {
        Err(SetupError::CoordinatorStatus(status))
    }
}

/// Whether `c` is a decimal digit.
pub open spec fn is_digit(c: char) -> bool {
    '0' <= c && c <= '9'
}

/// The number that the decimal digits `digits` spell.
pub open spec fn decimal_value(digits: Seq<char>) -> nat
    decreases digits.len(),
{
    if digits.len() == 0 {
        0
    } else {
        10 * decimal_value(digits.drop_last()) + (digits.last() as nat - '0' as nat) as nat
    }
}

/// The node id that `text` spells: decimal digits, with or without a `+`
/// before them, whose value fits 32 bits.
pub open spec fn node_id_in(text: Seq<char>) -> Option<u32> {
    let digits = if text.len() > 0 && text[0] == '+' {
        text.skip(1)
    } else {
        text
    };
    if digits.len() > 0 && (forall|i: int| 0 <= i < digits.len() ==> is_digit(#[trigger] digits[i]))
        && decimal_value(digits) <= u32::MAX {
        Some(decimal_value(digits) as u32)
    } else {
        None
    }
}

/// Reads a node id with `str::parse::<u32>` of the standard library, which
/// takes decimal digits with an optional `+` before them and fails on
/// anything else, on an empty text and on a value above `u32::MAX`.
#[verifier::external_body]
fn parse_node_id(text: &str) -> (id: Option<u32>)
    ensures
        id == node_id_in(text@),
{
    match text.parse::<u32>() {
        Ok(id) => Some(id),
        Err(_) => None,
    }
}

/// One entry of the coordinator's registry: the key and the endpoint.
#[derive(Debug, Clone, PartialEq, Eq)]
pub struct RegistryEntry {
    pub node_id: String,
    pub endpoint: CoordinatorEndpoint,
}

/// What is wrong with a registry entry, if anything: its key is no node id,
/// or it stands for another node and is no endpoint. The entry of the
/// local node is not looked into.
pub open spec fn entry_error(local_node_id: u32, entry: RegistryEntry) -> Option<SetupError> {
    match node_id_in(entry.node_id@) {
        None => Some(SetupError::InvalidNodeId),
        Some(id) => if id == local_node_id {
            None
        } else if resolve_endpoint(entry.endpoint) is Err {
            Some(SetupError::InvalidEndpoint)
        } else {
            None
        },
    }
}

/// The peer that a registry entry names, with its endpoint; none for the
/// entry of the local node.
pub open spec fn entry_peer(local_node_id: u32, entry: RegistryEntry) -> Option<
    (u32, EndpointView),
> {
    match node_id_in(entry.node_id@) {
        Some(id) => if id != local_node_id && resolve_endpoint(entry.endpoint) is Ok {
            Some((id, resolve_endpoint(entry.endpoint)->Ok_0))
        } else {
            None
        },
        None => None,
    }
}

/// The peers of `peers` with those that the first `count` entries name.
pub open spec fn peers_after(
    peers: Map<u32, EndpointView>,
    local_node_id: u32,
    entries: Seq<RegistryEntry>,
    count: int,
) -> Map<u32, EndpointView>
    decreases count,
{
    if count <= 0 {
        peers
    } else {
        let before = peers_after(peers, local_node_id, entries, count - 1);
        match entry_peer(local_node_id, entries[count - 1]) {
            Some((id, endpoint)) => before.insert(id, endpoint),
            None => before,
        }
    }
}

/// Connects `manager` to every peer that `entries` names, in their order,
/// and passes over the entry of the local node. The first entry that is
/// wrong, or whose peer cannot be connected, ends the run with its error;
/// the peers before it stay connected.
pub fn discover_and_connect_peers<T: PageTransport>(
    manager: &mut TransportManager<T>,
    local_node_id: u32,
    entries: &Vec<RegistryEntry>,
) -> (result: Result<(), SetupError>)
    ensures
        final(manager).node() == old(manager).node(),
        final(manager).kind() == old(manager).kind(),
        match result {
            Ok(_) => final(manager).peers() == peers_after(
                old(manager).peers(),
                local_node_id,
                entries@,
                entries@.len() as int,
            ) && forall|i: int|
                0 <= i < entries@.len() ==> entry_error(local_node_id, #[trigger] entries@[i])
                    is None,
            Err(e) => exists|i: int|
                0 <= i < entries@.len() && final(manager).peers() == peers_after(
                    old(manager).peers(),
                    local_node_id,
                    entries@,
                    i,
                ) && (forall|j: int|
                    0 <= j < i ==> entry_error(local_node_id, #[trigger] entries@[j]) is None) && (
                entry_error(local_node_id, #[trigger] entries@[i]) == Some(e) || (entry_peer(
                    local_node_id,
                    entries@[i],
                ) matches Some((id, _)) && e == SetupError::PeerConnectFailed(id))),
        },
        (forall|i: int|
            0 <= i < entries@.len() ==> node_id_in((#[trigger] entries@[i]).node_id@) == Some(
                local_node_id,
            )) ==> result is Ok,
{
    let mut i: usize = 0;
    while i < entries.len()
        invariant
            i <= entries.len(),
            manager.node() == old(manager).node(),
            manager.kind() == old(manager).kind(),
            manager.peers() == peers_after(old(manager).peers(), local_node_id, entries@, i as int),
            forall|j: int| 0 <= j < i ==> entry_error(local_node_id, #[trigger] entries@[j]) is None,
        decreases entries.len() - i,
    {
        let entry = &entries[i];
        let peer_node_id = match parse_node_id(entry.node_id.as_str()) {
            None => {
                return Err(SetupError::InvalidNodeId);
            },
            Some(id) => id,
        };
        if peer_node_id != local_node_id {
            let endpoint = match entry.endpoint.to_transport_endpoint() {
                Err(_) => {
                    return Err(SetupError::InvalidEndpoint);
                },
                Ok(endpoint) => endpoint,
            };
            match manager.connect_peer(peer_node_id, endpoint) {
                Err(_) => {
                    return Err(SetupError::PeerConnectFailed(peer_node_id));
                },
                Ok(_) => {},
            }
        }
        i = i + 1;
    }
    Ok(())
}


/// Seconds that a call to the coordinator may take.
pub const COORDINATOR_TIMEOUT_SECS: u64 = 5;

/// The decimal digit of value `d`.
pub open spec fn digit_char(d: int) -> char {
    ('0' as int + d) as char
}

/// The decimal digits of `n`, without leading zeros.
pub open spec fn decimal_text(n: nat) -> Seq<char>
    decreases n,
{
    if n < 10 {
        seq![digit_char(n as int)]
    } else {
        decimal_text(n / 10).push(digit_char((n % 10) as int))
    }
}

/// The text `/nodes/`.
pub open spec fn nodes_path() -> Seq<char> {
    seq!['/', 'n', 'o', 'd', 'e', 's', '/']
}

/// The text `/endpoint`.
pub open spec fn endpoint_suffix() -> Seq<char> {
    seq!['/', 'e', 'n', 'd', 'p', 'o', 'i', 'n', 't']
}

/// The text `/endpoints`.
pub open spec fn endpoints_path() -> Seq<char> {
    seq!['/', 'e', 'n', 'd', 'p', 'o', 'i', 'n', 't', 's']
}

/// The address under which node `node_id` publishes its endpoint at the
/// coordinator `coordinator_url`.
pub open spec fn registration_address(coordinator_url: Seq<char>, node_id: u32) -> Seq<char> {
    coordinator_url + nodes_path() + decimal_text(node_id as nat) + endpoint_suffix()
}

/// The address of the registry of the coordinator `coordinator_url`.
pub open spec fn registry_address(coordinator_url: Seq<char>) -> Seq<char> {
    coordinator_url + endpoints_path()
}

/// The digits of a number spell that number.
pub proof fn lemma_decimal_text(n: nat)
    ensures
        decimal_text(n).len() > 0,
        forall|i: int| 0 <= i < decimal_text(n).len() ==> is_digit(#[trigger] decimal_text(n)[i]),
        decimal_value(decimal_text(n)) == n,
    decreases n,
{
    if n < 10 {
        let text = decimal_text(n);
        assert(text.drop_last() =~= Seq::<char>::empty());
        assert(decimal_value(text.drop_last()) == 0);
        assert(text.last() == digit_char(n as int));
    } else {
        lemma_decimal_text(n / 10);
        let front = decimal_text(n / 10);
        let text = decimal_text(n);
        assert(text.drop_last() =~= front);
        assert(text.last() == digit_char((n % 10) as int));
        assert forall|i: int| 0 <= i < text.len() implies is_digit(#[trigger] text[i]) by {
            if i < front.len() {
                assert(text[i] == front[i]);
            }
        }
    }
}

/// The registry key of a node is read back as that node.
pub proof fn lemma_node_id_round_trip(node_id: u32)
    ensures
        node_id_in(decimal_text(node_id as nat)) == Some(node_id),
{
    lemma_decimal_text(node_id as nat);
    let text = decimal_text(node_id as nat);
    assert(is_digit(text[0]));
}

/// The text of one decimal digit.
fn digit_text(d: u32) -> (text: &'static str)
    requires
        d < 10,
    ensures
        text@ == seq![digit_char(d as int)],
{
    proof {
        reveal_strlit("0");
        reveal_strlit("1");
        reveal_strlit("2");
        reveal_strlit("3");
        reveal_strlit("4");
        reveal_strlit("5");
        reveal_strlit("6");
        reveal_strlit("7");
        reveal_strlit("8");
        reveal_strlit("9");
    }
    let text = if d == 0 {
        "0"
    } else if d == 1 {
        "1"
    } else if d == 2 {
        "2"
    } else if d == 3 {
        "3"
    } else if d == 4 {
        "4"
    } else if d == 5 {
        "5"
    } else if d == 6 {
        "6"
    } else if d == 7 {
        "7"
    } else if d == 8 {
        "8"
    } else {
        "9"
    };
    assert(text@ =~= seq![digit_char(d as int)]);
    text
}

/// The registry key of node `node_id`: its id in decimal digits.
pub fn node_key(node_id: u32) -> (key: String)
    ensures
        key@ == decimal_text(node_id as nat),
        node_id_in(key@) == Some(node_id),
    decreases node_id,
{
    proof {
        lemma_node_id_round_trip(node_id);
    }
    if node_id < 10 {
        String::from_str(digit_text(node_id))
    } else {
        let front = node_key(node_id / 10);
        let key = front.concat(digit_text(node_id % 10));
        assert(key@ =~= decimal_text(node_id as nat));
        key
    }
}

/// The address under which node `node_id` publishes its endpoint at the
/// coordinator `coordinator_url`.
pub fn registration_url(coordinator_url: &str, node_id: u32) -> (url: String)
    ensures
        url@ == registration_address(coordinator_url@, node_id),
{
    proof {
        reveal_strlit("/nodes/");
        reveal_strlit("/endpoint");
    }
    let key = node_key(node_id);
    let url = String::from_str(coordinator_url).concat("/nodes/").concat(key.as_str()).concat(
        "/endpoint",
    );
    assert("/nodes/"@ =~= nodes_path());
    assert("/endpoint"@ =~= endpoint_suffix());
    url
}

/// The address of the registry of the coordinator `coordinator_url`.
pub fn endpoints_url(coordinator_url: &str) -> (url: String)
    ensures
        url@ == registry_address(coordinator_url@),
{
    proof {
        reveal_strlit("/endpoints");
    }
    let url = String::from_str(coordinator_url).concat("/endpoints");
    assert("/endpoints"@ =~= endpoints_path());
    url
}

} // verus!
