//! The pagination engine: a state machine that presents a multi-page
//! listing endpoint as one ordered sequence of items.
//!
//! The driver loop asks [`Paginator::next_query`] for the paging
//! parameters of the next fetch, performs the fetch, and hands the
//! decoded envelope to [`Paginator::accept_page`], collecting the items
//! it returns; it stops as soon as `next_query` returns nothing. Each
//! scan starts at page zero; nothing is persisted across scans.

use vstd::arithmetic::div_mod::lemma_fundamental_div_mod;
use vstd::arithmetic::div_mod::lemma_mod_division_less_than_divisor;
use vstd::prelude::*;

use crate::client::users::UserListConfig;
use crate::request::PageQuery;

verus! {

/// The metadata of a paginated response envelope.
#[derive(Debug, Clone, Copy, PartialEq, Eq, Structural)]
pub struct PaginationMetadata {
    /// The number of pages the listing spans, as the server reports it.
    pub total_pages: u64,
}

/// A paginated response envelope: one page of items, and the paging
/// metadata.
#[derive(Debug, PartialEq)]
pub struct Paginated<T> {
    /// The items of this page, in server order.
    pub items: Vec<T>,
    /// The paging metadata.
    pub metadata: PaginationMetadata,
}

/// The state of one paginated scan.
#[derive(Debug, Clone, Copy, PartialEq, Eq, Structural)]
pub struct Paginator {
    /// The number of items requested per page.
    pub page_size: u64,
    /// The tenant the listing is scoped to, if any.
    pub tenant_id: Option<u128>,
    /// The index of the next page to fetch.
    pub next_page: u64,
    /// Whether the server has reported that no pages remain.
    pub done: bool,
}

/// The paginator state after one envelope with the given page count has
/// been accepted: the next page index, and finished once the index
/// reaches the reported count.
pub open spec fn paginate_step(p: Paginator, total_pages: u64) -> Paginator {
    Paginator { next_page: (p.next_page + 1) as u64, done: p.next_page + 1 >= total_pages, ..p }
}

impl Paginator {
    /// Starts a scan for the given listing configuration, at page zero.
    pub fn new(config: &UserListConfig) -> (p: Paginator)
        ensures
            p == (Paginator {
                page_size: config.page_size,
                tenant_id: config.tenant_id,
                next_page: 0,
                done: false,
            }),
    {
        Paginator {
            page_size: config.page_size,
            tenant_id: config.tenant_id,
            next_page: 0,
            done: false,
        }
    }

    /// The paging parameters of the next fetch: the configured page size
    /// as the limit, and the items already covered as the offset.
    /// Nothing is returned once the scan is finished.
    pub fn next_query(&self) -> (q: Option<PageQuery>)
        requires
            self.next_page * self.page_size <= u64::MAX,
        ensures
            (q is Some) <==> !self.done,
            !self.done ==> q == Some(
                PageQuery {
                    limit: self.page_size,
                    offset: (self.next_page * self.page_size) as u64,
                },
            ),
    {
        if self.done {
            None
        } else {
            Some(PageQuery { limit: self.page_size, offset: self.next_page * self.page_size })
        }
    }

    /// Accepts the envelope of the page just fetched, advancing the scan
    /// and handing back the page's items, in server order, to be yielded.
    pub fn accept_page<T>(&mut self, env: Paginated<T>) -> (items: Vec<T>)
        requires
            !old(self).done,
            old(self).next_page < u64::MAX,
        ensures
            items == env.items,
            *final(self) == paginate_step(*old(self), env.metadata.total_pages),
    {
        self.next_page = self.next_page + 1;
        self.done = self.next_page >= env.metadata.total_pages;
        env.items
    }
}

/// The number of pages a listing of `count` items spans at `page_size`
/// items to the page: `count / page_size`, rounded up.
pub open spec fn num_pages(count: nat, page_size: nat) -> nat
    recommends
        page_size >= 1,
{
    ((count + page_size - 1) / (page_size as int)) as nat
}

/// The page of `items` with index `page`, at `page_size` items to the
/// page: the server-side model of one fetch.
pub open spec fn page_slice<T>(items: Seq<T>, page_size: nat, page: nat) -> Seq<T> {
    let len = items.len() as int;
    let lo = if page * page_size <= len {
        (page * page_size) as int
    } else {
        len
    };
    let hi = if (page + 1) * page_size <= len {
        ((page + 1) * page_size) as int
    } else {
        len
    };
    items.subrange(lo, hi)
}

/// Everything a full scan yields after fetching the first `pages` pages
/// of `items`, in order.
pub open spec fn scan_yield<T>(items: Seq<T>, page_size: nat, pages: nat) -> Seq<T>
    decreases pages,
{
    if pages == 0 {
        Seq::empty()
    } else {
        scan_yield(items, page_size, (pages - 1) as nat) + page_slice(
            items,
            page_size,
            (pages - 1) as nat,
        )
    }
}

/// After `n` pages, the scan has yielded exactly the first `n *
/// page_size` items (or all of them, once fewer remain).
proof fn lemma_scan_prefix<T>(items: Seq<T>, page_size: nat, n: nat)
    requires
        page_size >= 1,
    ensures
        n * page_size <= items.len() ==> scan_yield(items, page_size, n) =~= items.take(
            (n * page_size) as int,
        ),
        n * page_size >= items.len() ==> scan_yield(items, page_size, n) =~= items,
    decreases n,
{
    let len = items.len() as int;
    if n == 0 {
        assert(scan_yield(items, page_size, 0) =~= items.take(0));
        if 0 >= items.len() {
            assert(scan_yield(items, page_size, 0) =~= items);
        }
    } else {
        let prev = (n - 1) as nat;
        lemma_scan_prefix(items, page_size, prev);
        assert(prev * page_size + page_size == n * page_size) by (nonlinear_arith)
            requires
                n >= 1,
                prev == n - 1,
        ;
        if n * page_size <= items.len() {
            assert(page_slice(items, page_size, prev) == items.subrange(
                (prev * page_size) as int,
                (n * page_size) as int,
            ));
            assert(scan_yield(items, page_size, n) =~= items.take((n * page_size) as int));
            if n * page_size >= items.len() {
                assert(items.take(len) =~= items);
            }
        } else if prev * page_size <= items.len() {
            assert(page_slice(items, page_size, prev) == items.subrange(
                (prev * page_size) as int,
                len,
            ));
            assert(scan_yield(items, page_size, n) =~= items);
        } else {
            assert(page_slice(items, page_size, prev) == items.subrange(len, len));
            assert(scan_yield(items, page_size, n) =~= items);
        }
    }
}

/// Law: driving the paginator to completion against a server that splits
/// `items` into pages of `page_size` yields exactly `items`, in server
/// order — every item once, nothing reordered, nothing dropped — and the
/// number of page fetches, `num_pages`, is `items.len() / page_size`
/// rounded up.
pub proof fn lemma_pagination_completeness<T>(items: Seq<T>, page_size: nat)
    requires
        page_size >= 1,
    ensures
        scan_yield(items, page_size, num_pages(items.len(), page_size)) =~= items,
        items.len() > 0 ==> (num_pages(items.len(), page_size) - 1) * page_size < items.len(),
        items.len() <= num_pages(items.len(), page_size) * page_size,
{
    let len = items.len();
    let n = num_pages(len, page_size);
    let a: int = len + page_size - 1;
    let q = a / (page_size as int);
    lemma_fundamental_div_mod(a, page_size as int);
    lemma_mod_division_less_than_divisor(a, page_size as int);
    assert(q >= 0) by (nonlinear_arith)
        requires
            a >= 0,
            page_size >= 1,
            a == (page_size as int) * q + a % (page_size as int),
            a % (page_size as int) < page_size,
    ;
    assert(n == q);
    assert(n * page_size == q * page_size);
    assert(q * page_size == (page_size as int) * q) by (nonlinear_arith);
    assert(len <= n * page_size);
    if len > 0 {
        assert((n - 1) * page_size == n * page_size - page_size) by (nonlinear_arith);
    }
    lemma_scan_prefix(items, page_size, n);
}

/// Law: a scan over the items that match one tenant yields exactly those
/// items and no other — the tenant-scope filter restricts the listing to
/// matching items, while an unfiltered scan yields every item.
pub proof fn lemma_tenant_scope_filter<T>(
    items: Seq<T>,
    page_size: nat,
    matches_tenant: spec_fn(T) -> bool,
)
    requires
        page_size >= 1,
    ensures
        scan_yield(
            items.filter(matches_tenant),
            page_size,
            num_pages(items.filter(matches_tenant).len(), page_size),
        ) =~= items.filter(matches_tenant),
        forall|i: int|
            0 <= i < items.filter(matches_tenant).len() ==> matches_tenant(
                #[trigger] items.filter(matches_tenant)[i],
            ),
{
    lemma_pagination_completeness(items.filter(matches_tenant), page_size);
    assert forall|i: int| 0 <= i < items.filter(matches_tenant).len() implies matches_tenant(
        #[trigger] items.filter(matches_tenant)[i],
    ) by {
        items.lemma_filter_pred(matches_tenant, i);
    }
}

/// The paginator state after `k` envelopes, each reporting
/// `total_pages` pages, have been accepted.
pub open spec fn paginate_after(p: Paginator, total_pages: u64, k: nat) -> Paginator
    decreases k,
{
    if k == 0 {
        p
    } else {
        paginate_step(paginate_after(p, total_pages, (k - 1) as nat), total_pages)
    }
}

/// Law: against a server that keeps reporting `total_pages` pages, a
/// scan started at page zero asks for pages `0, 1, ...` in order and
/// finishes exactly when `total_pages` envelopes have been accepted — so
/// a full scan makes exactly `total_pages` fetches.
pub proof fn lemma_paginator_fetch_count(p: Paginator, total_pages: u64, k: nat)
    requires
        p.next_page == 0,
        !p.done,
        k <= total_pages,
    ensures
        paginate_after(p, total_pages, k).next_page == k,
        paginate_after(p, total_pages, k).page_size == p.page_size,
        paginate_after(p, total_pages, k).tenant_id == p.tenant_id,
        paginate_after(p, total_pages, k).done <==> (k > 0 && k >= total_pages),
    decreases k,
{
    if k > 0 {
        lemma_paginator_fetch_count(p, total_pages, (k - 1) as nat);
    }
}

} // verus!
