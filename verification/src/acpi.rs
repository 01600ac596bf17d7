//! The NUMA topology of the cluster as the ACPI tables of the guest
//! describe it.

use vstd::prelude::*;

verus! {

/// Relative distance of a node to itself.
pub const LOCAL_DISTANCE: u32 = 10;

/// Relative distance to a node for which none is configured.
pub const DEFAULT_REMOTE_DISTANCE: u32 = 20;

/// CPUs, memory and distances of one node.
#[derive(Debug, Clone, PartialEq, Eq)]
pub struct NodeConfig {
    pub node_id: u32,
    /// First CPU of this node.
    pub cpu_start: u32,
    /// Number of CPUs of this node.
    pub cpu_count: u32,
    /// Start of the memory of this node, in bytes.
    pub mem_start: u64,
    /// Size of the memory of this node, in bytes.
    pub mem_size: u64,
    /// Distance to each node, by position.
    pub latencies: Vec<u32>,
}

/// The nodes of the cluster.
#[derive(Debug, Clone, PartialEq, Eq)]
pub struct ClusterTopology {
    pub nodes: Vec<NodeConfig>,
}

/// Why no table could be generated.
#[derive(Debug, Clone, Copy, PartialEq, Eq, Structural)]
pub enum AcpiError {
    /// The CPUs or the memory of the node at this position wrap their
    /// number range.
    RangeOverflow(usize),
}

/// The distance from node `i` to node `j`: `LOCAL_DISTANCE` to itself, else
/// what node `i` has configured for position `j`, and
/// `DEFAULT_REMOTE_DISTANCE` where it has nothing configured.
pub open spec fn distance(topology: ClusterTopology, i: int, j: int) -> u32 {
    if i == j {
        LOCAL_DISTANCE
    } else if 0 <= j < topology.nodes@[i].latencies@.len() {
        topology.nodes@[i].latencies@[j]
    } else {
        DEFAULT_REMOTE_DISTANCE
    }
}

/// Whether the CPUs and the memory of every node stay within their number
/// ranges.
pub open spec fn ranges_fit(topology: ClusterTopology) -> bool {
    forall|i: int|
        0 <= i < topology.nodes@.len() ==> node_fits(#[trigger] topology.nodes@[i])
}

/// Whether the CPUs and the memory of `node` stay within their number
/// ranges.
pub open spec fn node_fits(node: NodeConfig) -> bool {
    node.cpu_start + node.cpu_count <= u32::MAX && node.mem_start + node.mem_size <= u64::MAX
}

/// The distance from node `i` to node `j` of `topology`.
pub fn slit_distance(topology: &ClusterTopology, i: usize, j: usize) -> (d: u32)
    requires
        i < topology.nodes@.len(),
    ensures
        d == distance(*topology, i as int, j as int),
{
    if i == j {
        LOCAL_DISTANCE
    } else {
        let latencies = &topology.nodes[i].latencies;
        if j < latencies.len() {
            latencies[j]
        } else {
            DEFAULT_REMOTE_DISTANCE
        }
    }
}

/// The matrix of distances between the nodes of `topology`, row by row.
pub fn slit_matrix(topology: &ClusterTopology) -> (matrix: Vec<Vec<u32>>)
    ensures
        matrix@.len() == topology.nodes@.len(),
        forall|i: int|
            0 <= i < matrix@.len() ==> (#[trigger] matrix@[i])@.len() == topology.nodes@.len(),
        forall|i: int, j: int|
            0 <= i < matrix@.len() && 0 <= j < matrix@.len() ==> #[trigger] matrix@[i]@[j]
                == distance(*topology, i, j),
{
    let n = topology.nodes.len();
    let mut matrix: Vec<Vec<u32>> = Vec::new();
    let mut i: usize = 0;
    while i < n
        invariant
            i <= n,
            n == topology.nodes@.len(),
            matrix@.len() == i,
            forall|r: int| 0 <= r < i ==> (#[trigger] matrix@[r])@.len() == n,
            forall|r: int, c: int|
                0 <= r < i && 0 <= c < n ==> #[trigger] matrix@[r]@[c] == distance(
                    *topology,
                    r,
                    c,
                ),
        decreases n - i,
    {
        let mut row: Vec<u32> = Vec::new();
        let mut j: usize = 0;
        while j < n
            invariant
                j <= n,
                i < n,
                n == topology.nodes@.len(),
                row@.len() == j,
                forall|c: int| 0 <= c < j ==> row@[c] == distance(*topology, i as int, c),
            decreases n - j,
        {
            row.push(slit_distance(topology, i, j));
            j = j + 1;
        }
        matrix.push(row);
        i = i + 1;
    }
    matrix
}

/// The resource affinity table of `topology`. Its affinity structures are
/// not emitted yet: the table is empty. A node whose CPUs or memory wrap
/// their number range is refused.
pub fn generate_srat(topology: &ClusterTopology) -> (result: Result<Vec<u8>, AcpiError>)
    ensures
        match result {
            Ok(table) => ranges_fit(*topology) && table@.len() == 0,
            Err(AcpiError::RangeOverflow(i)) => i < topology.nodes@.len() && !node_fits(
                topology.nodes@[i as int],
            ) && forall|k: int| 0 <= k < i ==> node_fits(#[trigger] topology.nodes@[k]),
        },
{
    let srat_data: Vec<u8> = Vec::new();
    let mut i: usize = 0;
    while i < topology.nodes.len()
        invariant
            i <= topology.nodes@.len(),
            forall|k: int| 0 <= k < i ==> node_fits(#[trigger] topology.nodes@[k]),
        decreases topology.nodes.len() - i,
    {
        let node = &topology.nodes[i];
        if node.cpu_count > u32::MAX - node.cpu_start || node.mem_size > u64::MAX
            - node.mem_start {
            return Err(AcpiError::RangeOverflow(i));
        }
        i = i + 1;
    }
    Ok(srat_data)
}

/// The locality information table of `topology`. Its matrix is not emitted
/// yet: the table is empty.
pub fn generate_slit(topology: &ClusterTopology) -> (result: Result<Vec<u8>, AcpiError>)
    ensures
        result matches Ok(table) && table@.len() == 0,
{
    let _matrix = slit_matrix(topology);
    Ok(Vec::new())
}

/// The memory attribute table of `topology`: empty.
pub fn generate_hmat(topology: &ClusterTopology) -> (result: Result<Vec<u8>, AcpiError>)
    ensures
        result matches Ok(table) && table@.len() == 0,
{
    Ok(Vec::new())
}

/// Generates the three tables of `topology`; fails where one of them does.
pub fn generate_acpi_tables(topology: &ClusterTopology) -> (result: Result<(), AcpiError>)
    ensures
        result is Ok <==> ranges_fit(*topology),
        result matches Err(AcpiError::RangeOverflow(i)) ==> i < topology.nodes@.len()
            && !node_fits(topology.nodes@[i as int]) && forall|k: int|
            0 <= k < i ==> node_fits(#[trigger] topology.nodes@[k]),
{
    match generate_srat(topology) {
        Err(e) => {
            return Err(e);
        },
        Ok(_) => {},
    }
    match generate_slit(topology) {
        Err(e) => {
            return Err(e);
        },
        Ok(_) => {},
    }
    match generate_hmat(topology) {
        Err(e) => Err(e),
        Ok(_) => Ok(()),
    }
}

} // verus!
