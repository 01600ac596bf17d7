//! Cluster-wide page ownership directory.
//!
//! The directory maps a guest page number to the node that holds the
//! authoritative bytes of that page. A page without an entry counts as
//! [`PageOwner::Unknown`].

use std::collections::HashMap;
use vstd::prelude::*;

verus! {

broadcast use vstd::std_specs::hash::group_hash_axioms;

/// Who holds the authoritative bytes of a guest page.
#[derive(Debug, Clone, Copy, PartialEq, Eq, Structural)]
pub enum PageOwner {
    /// This node owns the page.
    Local,
    /// The node with the given id owns the page.
    Remote(u32),
    /// Nobody has touched the page yet.
    Unknown,
}

/// The owner that the map `m` records for `page`: its entry, or `Unknown`
/// where it has none.
pub open spec fn owner_in(m: Map<u64, PageOwner>, page: u64) -> PageOwner {
    if m.contains_key(page) {
        m[page]
    } else {
        PageOwner::Unknown
    }
}

/// The map after a first-touch claim of `page`.
pub open spec fn claimed(m: Map<u64, PageOwner>, page: u64) -> Map<u64, PageOwner> {
    m.insert(page, PageOwner::Local)
}

/// The map after `page` has been given to `owner`.
pub open spec fn assigned(m: Map<u64, PageOwner>, page: u64, owner: PageOwner) -> Map<
    u64,
    PageOwner,
> {
    m.insert(page, owner)
}

/// One operation on a directory, as a value that laws can quantify over.
pub enum DirectoryOp {
    /// `get_owner(page)`
    Lookup(u64),
    /// `claim_page(page)`
    Claim(u64),
    /// `set_owner(page, owner)`
    SetOwner(u64, PageOwner),
}

/// The map after one operation.
pub open spec fn apply_op(m: Map<u64, PageOwner>, op: DirectoryOp) -> Map<u64, PageOwner> {
    match op {
        DirectoryOp::Lookup(_) => m,
        DirectoryOp::Claim(page) => claimed(m, page),
        DirectoryOp::SetOwner(page, owner) => assigned(m, page, owner),
    }
}

/// The map after a sequence of operations, applied first to last.
pub open spec fn apply_ops(m: Map<u64, PageOwner>, ops: Seq<DirectoryOp>) -> Map<u64, PageOwner>
    decreases ops.len(),
{
    if ops.len() == 0 {
        m
    } else {
        apply_op(apply_ops(m, ops.drop_last()), ops.last())
    }
}

/// The pages that the operations in `ops` claim.
pub open spec fn claimed_pages(ops: Seq<DirectoryOp>) -> Set<u64> {
    Set::new(|page: u64| exists|i: int| 0 <= i < ops.len() && ops[i] == DirectoryOp::Claim(page))
}

/// Whether every operation in `ops` is a lookup or a claim.
pub open spec fn only_lookups_and_claims(ops: Seq<DirectoryOp>) -> bool {
    forall|i: int| 0 <= i < ops.len() ==> !(#[trigger] ops[i] is SetOwner)
}

/// Whether `op` sets the owner of `page` explicitly.
pub open spec fn sets_owner_of(op: DirectoryOp, page: u64) -> bool {
    op matches DirectoryOp::SetOwner(p, _) && p == page
}

/// Whether no operation in `ops` sets the owner of `page` explicitly.
pub open spec fn never_sets_owner_of(ops: Seq<DirectoryOp>, page: u64) -> bool {
    forall|i: int| 0 <= i < ops.len() ==> !sets_owner_of(#[trigger] ops[i], page)
}

/// Page directory tracking ownership across the cluster.
pub struct PageDirectory {
    ownership: HashMap<u64, PageOwner>,
    local_node: u32,
}

impl View for PageDirectory {
    type V = Map<u64, PageOwner>;

    closed spec fn view(&self) -> Map<u64, PageOwner> {
        self.ownership@
    }
}

impl PageDirectory {
    /// The id of the node that this directory belongs to.
    pub closed spec fn node(&self) -> u32 {
        self.local_node
    }

    /// An empty directory for node `local_node`: every page is `Unknown`.
    pub fn new(local_node: u32) -> (dir: Self)
        ensures
            dir@ == Map::<u64, PageOwner>::empty(),
            dir.node() == local_node,
    {
        Self { ownership: HashMap::new(), local_node }
    }

    /// The id of the node that this directory belongs to.
    pub fn local_node(&self) -> (id: u32)
        ensures
            id == self.node(),
    {
        self.local_node
    }

    /// The owner of `page_num`; `Unknown` for a page that has no entry.
    pub fn get_owner(&self, page_num: u64) -> (owner: PageOwner)
        ensures
            owner == owner_in(self@, page_num),
            !self@.contains_key(page_num) ==> owner == PageOwner::Unknown,
    {
        match self.ownership.get(&page_num) {
            Some(owner) => *owner,
            None => PageOwner::Unknown,
        }
    }

    /// Claims `page_num` for this node (first touch). Claiming a page that is
    /// already `Local` changes nothing; a `Remote` entry is overwritten.
    pub fn claim_page(&mut self, page_num: u64)
        ensures
            final(self)@ == claimed(old(self)@, page_num),
            final(self).node() == old(self).node(),
    {
        self.ownership.insert(page_num, PageOwner::Local);
    }

    /// Sets the owner of `page_num` explicitly.
    pub fn set_owner(&mut self, page_num: u64, owner: PageOwner)
        ensures
            final(self)@ == assigned(old(self)@, page_num, owner),
            final(self).node() == old(self).node(),
    {
        self.ownership.insert(page_num, owner);
    }

    /// The number of pages that have an entry.
    pub fn page_count(&self) -> (count: usize)
        ensures
            self@.dom().finite(),
            count == self@.dom().len(),
    {
        self.ownership.len()
    }
}

/// A lookup leaves the directory as it was, and a page without an entry is
/// `Unknown`.
pub proof fn lemma_lookup_of_absent_page(m: Map<u64, PageOwner>, page: u64)
    requires
        !m.contains_key(page),
    ensures
        owner_in(m, page) == PageOwner::Unknown,
        apply_op(m, DirectoryOp::Lookup(page)) == m,
        apply_op(m, DirectoryOp::Lookup(page)).dom().len() == m.dom().len(),
{
}

/// Claiming a page twice is the same as claiming it once.
pub proof fn lemma_claim_idempotent(m: Map<u64, PageOwner>, page: u64)
    ensures
        claimed(claimed(m, page), page) == claimed(m, page),
        owner_in(m, page) == PageOwner::Local ==> claimed(m, page) == m,
{
    assert(claimed(claimed(m, page), page) =~= claimed(m, page));
    if owner_in(m, page) == PageOwner::Local {
        assert(claimed(m, page) =~= m);
    }
}

/// After `claim_page(page)` the page stays `Local` through every sequence of
/// operations that holds no explicit `set_owner` of that page.
pub proof fn lemma_claim_holds_until_set_owner(
    m: Map<u64, PageOwner>,
    page: u64,
    ops: Seq<DirectoryOp>,
)
    requires
        never_sets_owner_of(ops, page),
    ensures
        owner_in(apply_ops(claimed(m, page), ops), page) == PageOwner::Local,
    decreases ops.len(),
{
    if ops.len() > 0 {
        let front = ops.drop_last();
        assert forall|i: int| 0 <= i < front.len() implies !sets_owner_of(
            #[trigger] front[i],
            page,
        ) by {
            assert(front[i] == ops[i]);
        }
        lemma_claim_holds_until_set_owner(m, page, front);
        let last = ops[ops.len() - 1];
        assert(!sets_owner_of(last, page));
    }
}

/// Lookups and claims leave every entry in place and add exactly the claimed
/// pages.
pub proof fn lemma_claims_extend_domain(m: Map<u64, PageOwner>, ops: Seq<DirectoryOp>)
    requires
        only_lookups_and_claims(ops),
    ensures
        apply_ops(m, ops).dom() == m.dom().union(claimed_pages(ops)),
    decreases ops.len(),
{
    if ops.len() == 0 {
        assert(claimed_pages(ops) =~= Set::<u64>::empty());
        assert(apply_ops(m, ops).dom() =~= m.dom().union(claimed_pages(ops)));
    } else {
        let front = ops.drop_last();
        let last = ops.last();
        assert forall|i: int| 0 <= i < front.len() implies !(#[trigger] front[i] is SetOwner) by {
            assert(front[i] == ops[i]);
        }
        lemma_claims_extend_domain(m, front);
        assert(!(ops[ops.len() - 1] is SetOwner));
        assert forall|page: u64|
            claimed_pages(ops).contains(page) <==> (claimed_pages(front).contains(page) || last
                == DirectoryOp::Claim(page)) by {
            if claimed_pages(ops).contains(page) {
                let i = choose|i: int| 0 <= i < ops.len() && ops[i] == DirectoryOp::Claim(page);
                if i < front.len() {
                    assert(front[i] == DirectoryOp::Claim(page));
                }
            }
            if claimed_pages(front).contains(page) {
                let i = choose|i: int|
                    0 <= i < front.len() && front[i] == DirectoryOp::Claim(page);
                assert(ops[i] == DirectoryOp::Claim(page));
            }
            if last == DirectoryOp::Claim(page) {
                assert(ops[ops.len() - 1] == DirectoryOp::Claim(page));
            }
        }
        assert(apply_ops(m, ops).dom() =~= m.dom().union(claimed_pages(ops)));
    }
}

/// Starting from an empty directory, after any sequence of lookups and
/// claims the page count is the number of distinct pages claimed.
pub proof fn lemma_page_count_is_distinct_claims(ops: Seq<DirectoryOp>)
    requires
        only_lookups_and_claims(ops),
    ensures
        apply_ops(Map::<u64, PageOwner>::empty(), ops).dom() == claimed_pages(ops),
        apply_ops(Map::<u64, PageOwner>::empty(), ops).dom().len() == claimed_pages(ops).len(),
{
    let empty = Map::<u64, PageOwner>::empty();
    lemma_claims_extend_domain(empty, ops);
    assert(empty.dom().union(claimed_pages(ops)) =~= claimed_pages(ops));
}

} // verus!
