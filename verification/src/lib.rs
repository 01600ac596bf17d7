//! Distributed-memory pager core: page ownership directory, fault
//! servicing decisions, fault statistics and the page transport protocol.

use vstd::prelude::*;

pub mod acpi;
pub mod bootstrap;
pub mod directory;
pub mod endpoint;
pub mod error;
pub mod fallback;
pub mod pager;
pub mod rdma;
pub mod registry;
pub mod stats;
pub mod tcp;
pub mod transport;
pub mod vmm;
pub mod wire;

verus! {

/// Size in bytes of one guest page, the unit of ownership and transfer.
pub const PAGE_SIZE: usize = 4096;

/// A page of zeros.
pub open spec fn zero_page() -> Seq<u8> {
    Seq::new(PAGE_SIZE as nat, |i: int| 0u8)
}

/// A page of zeros.
pub fn zeroed_page() -> (page: Vec<u8>)
    ensures
        page@ == zero_page(),
{
    let mut page: Vec<u8> = Vec::new();
    let mut i: usize = 0;
    while i < PAGE_SIZE
        invariant
            i <= PAGE_SIZE,
            page@.len() == i,
            forall|j: int| 0 <= j < i ==> page@[j] == 0u8,
        decreases PAGE_SIZE - i,
    {
        page.push(0u8);
        i = i + 1;
    }
    assert(page@ =~= zero_page());
    page
}

} // verus!
