//! The pager: for each fault on the guest range it decides from the page
//! directory how the page is resolved, keeps the directory and the fault
//! statistics, and hands back what is to be installed.

use crate::directory::{claimed, assigned, owner_in, PageDirectory, PageOwner};
use crate::error::{SetupError, TransportError};
use crate::stats::PagerStats;
use crate::transport::{
    check_page, checked_page, lemma_checked_page_settled, PageTransport, TransportManager,
};
use crate::{zero_page, zeroed_page, PAGE_SIZE};
use vstd::prelude::*;

verus! {

/// An event of the kernel's fault channel.
#[derive(Debug, Clone, Copy, PartialEq, Eq, Structural)]
pub enum Event {
    /// A missing page was touched at `addr`.
    PageFault { addr: u64 },
    /// The faulting process forked.
    Fork,
    /// A registered range was remapped.
    Remap,
    /// A registered range was removed.
    Remove,
    /// A registered range was unmapped.
    Unmap,
}

/// How a fault is resolved.
#[derive(Debug, Clone, Copy, PartialEq, Eq, Structural)]
pub enum FaultPlan {
    /// The address lies outside the guest range: nothing is installed.
    Drop,
    /// The page is this node's, by an earlier claim or by first touch: a
    /// page of zeros is installed.
    ZeroFill { page: u64 },
    /// The page is owned by `node`: it is fetched from there.
    Fetch { page: u64, node: u32 },
}

/// One page to install into the guest range.
#[derive(Debug, Clone, PartialEq, Eq)]
pub struct Installation {
    /// Start address of the page.
    pub addr: u64,
    /// The `PAGE_SIZE` bytes of the page.
    pub data: Vec<u8>,
    /// Why the page could not be fetched, where zeros stand in for it.
    pub failure: Option<TransportError>,
}

/// The state of a pager as a mathematical value.
pub struct PagerView {
    /// Start of the guest range.
    pub base: u64,
    /// Length of the guest range in bytes.
    pub len: usize,
    /// Id of this node.
    pub node_id: u32,
    /// Number of nodes in the cluster.
    pub total_nodes: u32,
    /// Owner of each page that has an entry.
    pub directory: Map<u64, PageOwner>,
    /// Faults resolved locally.
    pub local_faults: nat,
    /// Faults resolved by a remote fetch.
    pub remote_faults: nat,
    /// Service time of each fault, in microseconds.
    pub service_times: Seq<u64>,
}

/// Whether `[base, base + len)` is a guest range: a whole number of pages
/// that does not wrap the address space.
pub open spec fn valid_range(base: u64, len: usize) -> bool {
    len % PAGE_SIZE == 0 && base + len <= u64::MAX
}

/// The number of the page that holds `addr`, for an address in the range.
pub open spec fn page_of(base: u64, len: usize, addr: u64) -> Option<u64> {
    if base <= addr && addr - base < len {
        Some(((addr - base) / PAGE_SIZE as int) as u64)
    } else {
        None
    }
}

/// The start address of page number `page`.
pub open spec fn page_start(base: u64, page: u64) -> int {
    base + page * PAGE_SIZE
}

/// How the pager in state `v` resolves a fault at `addr`.
pub open spec fn plan_for(v: PagerView, addr: u64) -> FaultPlan {
    match page_of(v.base, v.len, addr) {
        None => FaultPlan::Drop,
        Some(page) => match owner_in(v.directory, page) {
            PageOwner::Remote(node) => FaultPlan::Fetch { page, node },
            _ => FaultPlan::ZeroFill { page },
        },
    }
}

/// The state after the fault at `addr` has been serviced. It does not depend
/// on what a fetch brings back: a failed fetch counts as a remote fault too.
pub open spec fn after_fault(v: PagerView, addr: u64) -> PagerView {
    match plan_for(v, addr) {
        FaultPlan::Drop => v,
        FaultPlan::ZeroFill { page } => PagerView {
            directory: claimed(v.directory, page),
            local_faults: v.local_faults + 1,
            ..v
        },
        FaultPlan::Fetch { page, node } => PagerView { remote_faults: v.remote_faults + 1, ..v },
    }
}

/// The state after the faults at `addrs` have been serviced in order.
pub open spec fn after_faults(v: PagerView, addrs: Seq<u64>) -> PagerView
    decreases addrs.len(),
{
    if addrs.len() == 0 {
        v
    } else {
        after_fault(after_faults(v, addrs.drop_last()), addrs.last())
    }
}

/// The pages that the faults at `addrs` touch.
pub open spec fn pages_of(base: u64, len: usize, addrs: Seq<u64>) -> Set<u64> {
    Set::new(
        |page: u64| exists|i: int| 0 <= i < addrs.len() && page_of(base, len, addrs[i]) == Some(page),
    )
}

/// The bytes that are installed for a fetch result: the page that came
/// back, or zeros where the fetch failed or brought anything but one page.
pub open spec fn installed_data(fetched: Result<Vec<u8>, TransportError>) -> Seq<u8> {
    match checked_page(fetched) {
        Ok(data) => data@,
        Err(_) => zero_page(),
    }
}

/// The failure that a fetch result stands for, if any.
pub open spec fn fetch_failure(fetched: Result<Vec<u8>, TransportError>) -> Option<
    TransportError,
> {
    match checked_page(fetched) {
        Ok(_) => None,
        Err(e) => Some(e),
    }
}

/// Whether `result` is what servicing a fault at `addr` in state `v` hands
/// back when remote pages are fetched through `transport`: nothing for a
/// fault outside the range; a page of zeros at the start of the faulting
/// page where the page is this node's; and where the page is a remote
/// node's, what `install_fetched` makes of an answer of the transport to a
/// fetch of the fault address from that node.
pub open spec fn resolves<T: PageTransport>(
    v: PagerView,
    transport: T,
    addr: u64,
    result: Option<Installation>,
) -> bool {
    match plan_for(v, addr) {
        FaultPlan::Drop => result is None,
        FaultPlan::ZeroFill { page } => result matches Some(installation) && installation.addr
            == page_start(v.base, page) && installation.data@ == zero_page()
            && installation.failure is None,
        FaultPlan::Fetch { page, node } => result matches Some(installation) && installation.addr
            == page_start(v.base, page) && fetched_from(transport, addr, node, installation),
    }
}

/// Whether `installation` holds what `install_fetched` makes of an answer of
/// `transport` to a fetch of the page at `gpa` from `node`: the page that
/// came back, or zeros and the failure.
pub open spec fn fetched_from<T: PageTransport>(
    transport: T,
    gpa: u64,
    node: u32,
    installation: Installation,
) -> bool {
    &&& installation.data@.len() == PAGE_SIZE
    &&& installation.failure is Some ==> installation.data@ == zero_page()
    &&& exists|fetched: Result<Vec<u8>, TransportError>|
        #![trigger installed_data(fetched)]
        transport.fetch_answer(gpa, node, fetched) && installation.data@ == installed_data(
            fetched,
        ) && installation.failure == fetch_failure(fetched)
}

/// What reading the fault channel came to.
#[derive(Debug, Clone, Copy, PartialEq, Eq, Structural)]
pub enum ChannelRead {
    /// An event was read.
    Event(Event),
    /// Nothing was there to read.
    Empty,
    /// The read failed, and may succeed when it is tried again.
    TransientError,
    /// The channel is closed or broken for good.
    Closed,
}

/// What the fault worker does next.
#[derive(Debug, Clone, Copy, PartialEq, Eq, Structural)]
pub enum WorkerStep {
    /// Handle this event, then read on.
    Service(Event),
    /// Read on.
    Continue,
    /// Release the channel and the transport, and end.
    Exit,
}

/// What the worker does after a read of the fault channel: it ends where
/// shutdown was asked for or the channel is gone, and only then.
pub open spec fn worker_step(shutdown: bool, read: ChannelRead) -> WorkerStep {
    if shutdown {
        WorkerStep::Exit
    } else {
        match read {
            ChannelRead::Event(event) => WorkerStep::Service(event),
            ChannelRead::Empty => WorkerStep::Continue,
            ChannelRead::TransientError => WorkerStep::Continue,
            ChannelRead::Closed => WorkerStep::Exit,
        }
    }
}

/// The pager of one guest range.
pub struct Pager {
    base: u64,
    len: usize,
    directory: PageDirectory,
    stats: PagerStats,
    node_id: u32,
    total_nodes: u32,
}

impl View for Pager {
    type V = PagerView;

    closed spec fn view(&self) -> PagerView {
        PagerView {
            base: self.base,
            len: self.len,
            node_id: self.node_id,
            total_nodes: self.total_nodes,
            directory: self.directory@,
            local_faults: self.stats.local_faults as nat,
            remote_faults: self.stats.remote_faults as nat,
            service_times: self.stats.fault_service_time_us@,
        }
    }
}

impl Pager {
    /// A pager for the guest range `[base, base + len)` on node `node_id` of
    /// `total_nodes`, with an empty directory and no fault counted. A range
    /// that is no whole number of pages, or that wraps the address space, is
    /// refused.
    pub fn new(base: u64, len: usize, node_id: u32, total_nodes: u32) -> (result: Result<
        Self,
        SetupError,
    >)
        ensures
            match result {
                Ok(pager) => valid_range(base, len) && pager@ == (PagerView {
                    base,
                    len,
                    node_id,
                    total_nodes,
                    directory: Map::<u64, PageOwner>::empty(),
                    local_faults: 0,
                    remote_faults: 0,
                    service_times: Seq::<u64>::empty(),
                }),
                Err(e) => !valid_range(base, len) && e == SetupError::InvalidRange,
            },
    {
        if len % PAGE_SIZE != 0 {
            return Err(SetupError::InvalidRange);
        }
        if len as u64 > u64::MAX - base {
            return Err(SetupError::InvalidRange);
        }
        Ok(
            Pager {
                base,
                len,
                directory: PageDirectory::new(node_id),
                stats: PagerStats::new(),
                node_id,
                total_nodes,
            },
        )
    }

    /// How a fault at `fault_addr` would be resolved now.
    pub fn plan_fault(&self, fault_addr: u64) -> (plan: FaultPlan)
        ensures
            plan == plan_for(self@, fault_addr),
    {
        if fault_addr < self.base {
            return FaultPlan::Drop;
        }
        let offset: u64 = fault_addr - self.base;
        if offset >= self.len as u64 {
            return FaultPlan::Drop;
        }
        let page: u64 = offset / (PAGE_SIZE as u64);
        match self.directory.get_owner(page) {
            PageOwner::Remote(node) => FaultPlan::Fetch { page, node },
            _ => FaultPlan::ZeroFill { page },
        }
    }

    /// The page of zeros to install at `page_addr`.
    pub fn resolve_with_zeros(page_addr: u64) -> (installation: Installation)
        ensures
            installation.addr == page_addr,
            installation.data@ == zero_page(),
            installation.failure is None,
    {
        Installation { addr: page_addr, data: zeroed_page(), failure: None }
    }

    /// What to install at `page_addr` for the fetch result `fetched`: the
    /// page that came back or, where the fetch failed or brought anything
    /// but one page, zeros together with the failure.
    pub fn install_fetched(page_addr: u64, fetched: Result<Vec<u8>, TransportError>) -> (installation:
        Installation)
        ensures
            installation.addr == page_addr,
            installation.data@ == installed_data(fetched),
            installation.failure == fetch_failure(fetched),
            installation.data@.len() == PAGE_SIZE,
    {
        match check_page(fetched) {
            Ok(data) => Installation { addr: page_addr, data, failure: None },
            Err(e) => Installation { addr: page_addr, data: zeroed_page(), failure: Some(e) },
        }
    }

    /// Fetches the page that holds `fault_addr` from `remote_node` and says
    /// what to install at `page_addr`: the transport is asked for the page at
    /// the fault address from that node, and `install_fetched` settles what
    /// its answer comes to. Whatever the transport answers, one page is
    /// installed: zeros where there is a failure.
    pub fn fetch_remote_page<T: PageTransport>(
        transport: &TransportManager<T>,
        fault_addr: u64,
        page_addr: u64,
        remote_node: u32,
    ) -> (installation: Installation)
        ensures
            installation.addr == page_addr,
            fetched_from(transport.carrier(), fault_addr, remote_node, installation),
    {
        let answer = transport.fetch_page(fault_addr, remote_node);
        let installation = Self::install_fetched(page_addr, answer);
        proof {
            let fetched = choose|fetched: Result<Vec<u8>, TransportError>|
                #![trigger checked_page(fetched)]
                transport.carrier().fetch_answer(fault_addr, remote_node, fetched) && answer
                    == checked_page(fetched);
            lemma_checked_page_settled(fetched);
            assert(installation.data@ == installed_data(fetched) && installation.failure
                == fetch_failure(fetched));
        }
        installation
    }

    /// Services one page fault: looks the page up, claims it on first touch
    /// or fetches it from its owner, counts the fault, and says what to
    /// install. A fault outside the guest range changes nothing and installs
    /// nothing.
    pub fn handle_pagefault<T: PageTransport>(
        &mut self,
        transport: &TransportManager<T>,
        fault_addr: u64,
    ) -> (result: Option<Installation>)
        requires
            old(self)@.local_faults < u64::MAX,
            old(self)@.remote_faults < u64::MAX,
        ensures
            final(self)@ == after_fault(old(self)@, fault_addr),
            resolves(old(self)@, transport.carrier(), fault_addr, result),
    {
        match self.plan_fault(fault_addr) {
            FaultPlan::Drop => None,
            FaultPlan::ZeroFill { page } => {
                let page_addr: u64 = self.base + page * (PAGE_SIZE as u64);
                let owner = self.directory.get_owner(page);
                if !matches!(owner, PageOwner::Local) {
                    self.directory.claim_page(page);
                }
                self.stats.local_faults = self.stats.local_faults + 1;
                assert(self.directory@ =~= claimed(old(self).directory@, page));
                Some(Self::resolve_with_zeros(page_addr))
            },
            FaultPlan::Fetch { page, node } => {
                let page_addr: u64 = self.base + page * (PAGE_SIZE as u64);
                let installation = Self::fetch_remote_page(transport, fault_addr, page_addr, node);
                self.stats.remote_faults = self.stats.remote_faults + 1;
                Some(installation)
            },
        }
    }

    /// What the fault worker does after a read of the fault channel, given
    /// whether shutdown has been asked for.
    pub fn handle_faults(shutdown: bool, read: ChannelRead) -> (step: WorkerStep)
        ensures
            step == worker_step(shutdown, read),
    {
        if shutdown {
            return WorkerStep::Exit;
        }
        match read {
            ChannelRead::Event(event) => WorkerStep::Service(event),
            ChannelRead::Empty => WorkerStep::Continue,
            ChannelRead::TransientError => WorkerStep::Continue,
            ChannelRead::Closed => WorkerStep::Exit,
        }
    }

    /// Handles one event of the fault channel. Only page faults are
    /// serviced; every other event leaves the pager as it was.
    pub fn handle_event<T: PageTransport>(
        &mut self,
        transport: &TransportManager<T>,
        event: Event,
    ) -> (result: Option<Installation>)
        requires
            old(self)@.local_faults < u64::MAX,
            old(self)@.remote_faults < u64::MAX,
        ensures
            match event {
                Event::PageFault { addr } => final(self)@ == after_fault(old(self)@, addr)
                    && resolves(old(self)@, transport.carrier(), addr, result),
                _ => final(self)@ == old(self)@ && result is None,
            },
    {
        match event {
            Event::PageFault { addr } => self.handle_pagefault(transport, addr),
            _ => None,
        }
    }

    /// Records the time that servicing one fault took, in microseconds.
    pub fn record_service_time(&mut self, elapsed_us: u64)
        ensures
            final(self)@ == (PagerView {
                service_times: old(self)@.service_times.push(elapsed_us),
                ..old(self)@
            }),
    {
        self.stats.fault_service_time_us.push(elapsed_us);
    }

    /// Records the time that handling `event` took, in microseconds: the
    /// service time of a page fault is kept, and the time of any other event
    /// is not.
    pub fn record_event_time(&mut self, event: Event, elapsed_us: u64)
        ensures
            final(self)@ == match event {
                Event::PageFault { addr } => PagerView {
                    service_times: old(self)@.service_times.push(elapsed_us),
                    ..old(self)@
                },
                _ => old(self)@,
            },
    {
        match event {
            Event::PageFault { addr } => self.record_service_time(elapsed_us),
            _ => {},
        }
    }

    /// Sets the owner of a page explicitly, as a migration would.
    pub fn set_owner(&mut self, page_num: u64, owner: PageOwner)
        ensures
            final(self)@ == (PagerView {
                directory: assigned(old(self)@.directory, page_num, owner),
                ..old(self)@
            }),
    {
        self.directory.set_owner(page_num, owner);
    }

    /// A snapshot of the fault statistics.
    pub fn get_stats(&self) -> (stats: PagerStats)
        ensures
            stats.local_faults == self@.local_faults,
            stats.remote_faults == self@.remote_faults,
            stats.fault_service_time_us@ == self@.service_times,
    {
        self.stats.snapshot()
    }

    /// The page directory.
    pub fn directory(&self) -> (directory: &PageDirectory)
        ensures
            directory@ == self@.directory,
    {
        &self.directory
    }

    /// Start of the guest range.
    pub fn base(&self) -> (base: u64)
        ensures
            base == self@.base,
    {
        self.base
    }

    /// Length of the guest range in bytes.
    pub fn len(&self) -> (len: usize)
        ensures
            len == self@.len,
    {
        self.len
    }

    /// Id of this node.
    pub fn node_id(&self) -> (id: u32)
        ensures
            id == self@.node_id,
    {
        self.node_id
    }

    /// Number of nodes in the cluster.
    pub fn total_nodes(&self) -> (n: u32)
        ensures
            n == self@.total_nodes,
    {
        self.total_nodes
    }
}


/// Whether no page of `m` is owned by a remote node.
pub open spec fn no_remote_owner(m: Map<u64, PageOwner>) -> bool {
    forall|page: u64| !(#[trigger] owner_in(m, page) is Remote)
}

/// Whether every address of `addrs` lies in the guest range.
pub open spec fn all_in_range(base: u64, len: usize, addrs: Seq<u64>) -> bool {
    forall|i: int| 0 <= i < addrs.len() ==> #[trigger] page_of(base, len, addrs[i]) is Some
}

/// Whether no two addresses of `addrs` lie on the same page.
pub open spec fn on_distinct_pages(base: u64, len: usize, addrs: Seq<u64>) -> bool {
    forall|i: int, j: int|
        0 <= i < j < addrs.len() ==> #[trigger] page_of(base, len, addrs[i]) != #[trigger] page_of(
            base,
            len,
            addrs[j],
        )
}

/// The first byte of a guest range lies on page 0 and its last byte on page
/// `len / PAGE_SIZE - 1`; the byte behind the range lies on no page.
pub proof fn lemma_range_boundaries(base: u64, len: usize)
    requires
        valid_range(base, len),
        len > 0,
    ensures
        page_of(base, len, base) == Some(0u64),
        page_of(base, len, (base + len - 1) as u64) == Some((len / PAGE_SIZE - 1) as u64),
        forall|addr: u64| addr < base || addr >= base + len ==> page_of(base, len, addr) is None,
{
    assert(len >= PAGE_SIZE);
    assert((len - 1) / (PAGE_SIZE as int) == len / PAGE_SIZE - 1);
}

/// Every address of the range lies on a page of the range, and that page
/// starts at or before the address and ends behind it.
pub proof fn lemma_page_of_in_range(base: u64, len: usize, addr: u64)
    requires
        valid_range(base, len),
        base <= addr,
        addr - base < len,
    ensures
        page_of(base, len, addr) matches Some(page) && page < len / PAGE_SIZE && page_start(
            base,
            page,
        ) <= addr < page_start(base, page) + PAGE_SIZE,
{
}

/// A fault is counted once: locally or remotely where it lies in the range,
/// and not at all where it does not. It never changes the owner of a page
/// that this node or a remote node owns, and no page but the faulting one
/// changes owner.
pub proof fn lemma_fault_effect(v: PagerView, addr: u64)
    ensures
        after_fault(v, addr).base == v.base,
        after_fault(v, addr).len == v.len,
        after_fault(v, addr).service_times == v.service_times,
        page_of(v.base, v.len, addr) is None ==> after_fault(v, addr) == v,
        page_of(v.base, v.len, addr) is Some ==> after_fault(v, addr).local_faults + after_fault(
            v,
            addr,
        ).remote_faults == v.local_faults + v.remote_faults + 1,
        forall|page: u64|
            owner_in(v.directory, page) is Remote || owner_in(v.directory, page) is Local
                ==> #[trigger] owner_in(after_fault(v, addr).directory, page) == owner_in(
                v.directory,
                page,
            ),
        forall|page: u64|
            page_of(v.base, v.len, addr) != Some(page) ==> #[trigger] owner_in(
                after_fault(v, addr).directory,
                page,
            ) == owner_in(v.directory, page),
{
}

/// Faults against a directory without remote owners are all local: each is
/// counted as a local fault, none as a remote one, and afterwards exactly
/// the pages that were touched have become `Local` beside what the directory
/// held before.
pub proof fn lemma_local_fault_sequence(v: PagerView, addrs: Seq<u64>)
    requires
        no_remote_owner(v.directory),
        all_in_range(v.base, v.len, addrs),
    ensures
        after_faults(v, addrs).base == v.base,
        after_faults(v, addrs).len == v.len,
        after_faults(v, addrs).local_faults == v.local_faults + addrs.len(),
        after_faults(v, addrs).remote_faults == v.remote_faults,
        no_remote_owner(after_faults(v, addrs).directory),
        after_faults(v, addrs).directory.dom() == v.directory.dom().union(
            pages_of(v.base, v.len, addrs),
        ),
        forall|page: u64|
            #![trigger owner_in(after_faults(v, addrs).directory, page)]
            owner_in(after_faults(v, addrs).directory, page) == if pages_of(
                v.base,
                v.len,
                addrs,
            ).contains(page) {
                PageOwner::Local
            } else {
                owner_in(v.directory, page)
            },
    decreases addrs.len(),
{
    let after = after_faults(v, addrs);
    let pages = pages_of(v.base, v.len, addrs);
    if addrs.len() == 0 {
        assert(pages =~= Set::<u64>::empty());
        assert(after.directory.dom() =~= v.directory.dom().union(pages));
    } else {
        let front = addrs.drop_last();
        let last = addrs.last();
        let before = after_faults(v, front);
        let front_pages = pages_of(v.base, v.len, front);
        assert forall|i: int| 0 <= i < front.len() implies #[trigger] page_of(
            v.base,
            v.len,
            front[i],
        ) is Some by {
            assert(front[i] == addrs[i]);
        }
        lemma_local_fault_sequence(v, front);
        assert(page_of(v.base, v.len, addrs[addrs.len() - 1]) is Some);
        let touched = page_of(v.base, v.len, last)->0;
        assert(!(owner_in(before.directory, touched) is Remote));
        assert(after.directory == claimed(before.directory, touched));
        assert forall|page: u64| pages.contains(page) <==> (front_pages.contains(page) || page
            == touched) by {
            if pages.contains(page) {
                let i = choose|i: int|
                    0 <= i < addrs.len() && page_of(v.base, v.len, addrs[i]) == Some(page);
                if i < front.len() {
                    assert(front[i] == addrs[i]);
                }
            }
            if front_pages.contains(page) {
                let i = choose|i: int|
                    0 <= i < front.len() && page_of(v.base, v.len, front[i]) == Some(page);
                assert(addrs[i] == front[i]);
            }
            if page == touched {
                assert(page_of(v.base, v.len, addrs[addrs.len() - 1]) == Some(page));
            }
        }
        assert(after.directory.dom() =~= v.directory.dom().union(pages));
        assert forall|page: u64|
            #![trigger owner_in(after.directory, page)]
            owner_in(after.directory, page) == if pages.contains(page) {
                PageOwner::Local
            } else {
                owner_in(v.directory, page)
            } by {
            if page != touched {
                assert(owner_in(after.directory, page) == owner_in(before.directory, page));
            }
        }
        assert forall|page: u64| !(#[trigger] owner_in(after.directory, page) is Remote) by {
            if page != touched {
                assert(owner_in(after.directory, page) == owner_in(before.directory, page));
            }
        }
    }
}

/// The pages that faults on distinct pages touch are as many as the faults.
pub proof fn lemma_distinct_pages_count(base: u64, len: usize, addrs: Seq<u64>)
    requires
        all_in_range(base, len, addrs),
        on_distinct_pages(base, len, addrs),
    ensures
        pages_of(base, len, addrs).finite(),
        pages_of(base, len, addrs).len() == addrs.len(),
    decreases addrs.len(),
{
    let pages = pages_of(base, len, addrs);
    if addrs.len() == 0 {
        assert(pages =~= Set::<u64>::empty());
    } else {
        let front = addrs.drop_last();
        let last = addrs.last();
        let front_pages = pages_of(base, len, front);
        assert forall|i: int| 0 <= i < front.len() implies #[trigger] page_of(
            base,
            len,
            front[i],
        ) is Some by {
            assert(front[i] == addrs[i]);
        }
        assert forall|i: int, j: int| 0 <= i < j < front.len() implies #[trigger] page_of(
            base,
            len,
            front[i],
        ) != #[trigger] page_of(base, len, front[j]) by {
            assert(front[i] == addrs[i]);
            assert(front[j] == addrs[j]);
        }
        lemma_distinct_pages_count(base, len, front);
        assert(page_of(base, len, addrs[addrs.len() - 1]) is Some);
        let touched = page_of(base, len, last)->0;
        if front_pages.contains(touched) {
            let i = choose|i: int|
                0 <= i < front.len() && page_of(base, len, front[i]) == Some(touched);
            assert(front[i] == addrs[i]);
            assert(page_of(base, len, addrs[i]) != page_of(base, len, addrs[addrs.len() - 1]));
        }
        assert forall|page: u64| pages.contains(page) <==> (front_pages.contains(page) || page
            == touched) by {
            if pages.contains(page) {
                let i = choose|i: int|
                    0 <= i < addrs.len() && page_of(base, len, addrs[i]) == Some(page);
                if i < front.len() {
                    assert(front[i] == addrs[i]);
                }
            }
            if front_pages.contains(page) {
                let i = choose|i: int|
                    0 <= i < front.len() && page_of(base, len, front[i]) == Some(page);
                assert(addrs[i] == front[i]);
            }
            if page == touched {
                assert(page_of(base, len, addrs[addrs.len() - 1]) == Some(page));
            }
        }
        assert(pages =~= front_pages.insert(touched));
    }
}

/// Against a directory in which every page is `Unknown`, after faults on N
/// distinct pages of the range the pager has counted N local faults and no
/// remote one, and its directory holds exactly those N pages, all `Local`.
pub proof fn lemma_first_touch_sequence(v: PagerView, addrs: Seq<u64>)
    requires
        v.directory == Map::<u64, PageOwner>::empty(),
        v.local_faults == 0,
        v.remote_faults == 0,
        all_in_range(v.base, v.len, addrs),
        on_distinct_pages(v.base, v.len, addrs),
    ensures
        after_faults(v, addrs).local_faults == addrs.len(),
        after_faults(v, addrs).remote_faults == 0,
        after_faults(v, addrs).directory.dom() == pages_of(v.base, v.len, addrs),
        after_faults(v, addrs).directory.dom().len() == addrs.len(),
        forall|page: u64|
            #![trigger owner_in(after_faults(v, addrs).directory, page)]
            owner_in(after_faults(v, addrs).directory, page) == if pages_of(
                v.base,
                v.len,
                addrs,
            ).contains(page) {
                PageOwner::Local
            } else {
                PageOwner::Unknown
            },
{
    lemma_local_fault_sequence(v, addrs);
    lemma_distinct_pages_count(v.base, v.len, addrs);
    let pages = pages_of(v.base, v.len, addrs);
    assert(v.directory.dom().union(pages) =~= pages);
}


/// The worker never ends on a transient error or an empty read: it ends
/// only on shutdown or where the channel is gone.
pub proof fn lemma_worker_exits_only_on_shutdown(shutdown: bool, read: ChannelRead)
    ensures
        worker_step(shutdown, read) == WorkerStep::Exit <==> (shutdown || read
            == ChannelRead::Closed),
{
}

} // verus!
