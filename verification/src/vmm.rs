//! Configuration of the virtual machine monitor that hosts a pager.

use vstd::prelude::*;

verus! {

/// Configuration of the monitor.
#[derive(Debug, Clone, Copy, PartialEq, Eq, Structural)]
pub struct VmmConfig {
    /// Guest physical memory size in bytes.
    pub mem_size: usize,
    /// Number of vCPUs.
    pub num_vcpus: u32,
    /// Node id in the cluster (0 for a single node).
    pub node_id: u32,
    /// Total nodes in the cluster.
    pub total_nodes: u32,
}

impl Default for VmmConfig {
    /// One node with two vCPUs and 1 GiB of memory.
    fn default() -> (config: Self)
        ensures
            config == (VmmConfig { mem_size: 1073741824, num_vcpus: 2, node_id: 0, total_nodes: 1 }),
    {
        VmmConfig { mem_size: 1073741824, num_vcpus: 2, node_id: 0, total_nodes: 1 }
    }
}

} // verus!
