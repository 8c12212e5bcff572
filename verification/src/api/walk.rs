//! Whole walks: what a fetcher gathers when its requests are answered one
//! after another, stated over the steps that the fetcher takes.

use vstd::prelude::*;

use crate::api::fetch::{request_for, FetchPhase, FetcherView, ResourceView};
use crate::api::types::{PageView, RequestView};
use crate::budget::BudgetView;

verus! {

/// How a walk ended.
pub struct Walk<T> {
    /// The fetcher at the end.
    pub fetcher: FetcherView<T>,
    /// The budget at the end.
    pub budget: BudgetView,
    /// The requests that went out, in order.
    pub requests: Seq<RequestView>,
}

/// The walk in which the fetcher is asked for a request, the request is
/// answered by the next of `answers`, and so on until the fetcher asks for
/// nothing more or the answers run out.
pub open spec fn walk<T>(
    f: FetcherView<T>,
    b: BudgetView,
    answers: Seq<Option<PageView<T>>>,
) -> Walk<T>
    decreases answers.len(),
{
    if !f.may_request(b) {
        Walk { fetcher: f.polled(b), budget: b, requests: Seq::<RequestView>::empty() }
    } else if answers.len() == 0 {
        Walk { fetcher: f, budget: b, requests: Seq::<RequestView>::empty() }
    } else {
        let rest = walk(f.polled(b).received(answers[0]), b.consume(), answers.drop_first());
        Walk { requests: seq![f.request()] + rest.requests, ..rest }
    }
}

/// The nodes of the first `n` pages, in order.
pub open spec fn nodes_of<T>(pages: Seq<PageView<T>>, n: nat) -> Seq<T>
    decreases n,
{
    if n == 0 || n > pages.len() {
        Seq::<T>::empty()
    } else {
        nodes_of(pages, (n - 1) as nat) + pages[n - 1].nodes
    }
}

/// Every page but the last announces a successor, and the last does not.
pub open spec fn is_complete_sequence<T>(pages: Seq<PageView<T>>) -> bool {
    &&& pages.len() > 0
    &&& forall|i: int| 0 <= i < pages.len() - 1 ==> (#[trigger] pages[i]).has_next_page
    &&& !pages[pages.len() - 1].has_next_page
}

/// The answers in which each page arrives.
pub open spec fn all_arrive<T>(pages: Seq<PageView<T>>) -> Seq<Option<PageView<T>>> {
    pages.map_values(|p: PageView<T>| Some(p))
}

/// The cursor with which page `i` of a sequence is asked for: none for the
/// first page, else the end cursor of the page before.
pub open spec fn cursor_before<T>(pages: Seq<PageView<T>>, i: int) -> Option<Seq<char>> {
    if i <= 0 {
        None
    } else {
        pages[i - 1].end_cursor
    }
}

/// How many of the pages a walk from the start takes in when the budget
/// has `room` slots: pages are taken while slots last, up to and including
/// the first page that announces no successor.
pub open spec fn pages_taken<T>(pages: Seq<PageView<T>>, room: nat) -> nat
    decreases pages.len(),
{
    if pages.len() == 0 || room == 0 {
        0
    } else if !pages[0].has_next_page {
        1
    } else {
        1 + pages_taken(pages.drop_first(), (room - 1) as nat)
    }
}

proof fn lemma_nodes_of_drop_first<T>(pages: Seq<PageView<T>>, n: nat)
    requires
        0 < pages.len(),
        n < pages.len(),
    ensures
        nodes_of(pages, n + 1) == pages[0].nodes + nodes_of(pages.drop_first(), n),
    decreases n,
{
    if n == 0 {
        assert(nodes_of(pages, 0) == Seq::<T>::empty());
    } else {
        lemma_nodes_of_drop_first(pages, (n - 1) as nat);
    }
}

proof fn lemma_pages_taken_bounds<T>(pages: Seq<PageView<T>>, room: nat)
    ensures
        pages_taken(pages, room) <= pages.len(),
        pages_taken(pages, room) <= room,
    decreases pages.len(),
{
    if pages.len() > 0 && room > 0 && pages[0].has_next_page {
        lemma_pages_taken_bounds(pages.drop_first(), (room - 1) as nat);
    }
}

/// The general step behind the laws below: from any fetching state, a walk
/// whose answers all arrive appends the nodes of the pages it takes, in
/// order, takes one budget slot for each, and asks for each with the end
/// cursor of the page before.
proof fn lemma_walk_from<T>(f: FetcherView<T>, b: BudgetView, pages: Seq<PageView<T>>)
    requires
        f.phase != FetchPhase::Done,
    ensures
        ({
            let w = walk(f, b, all_arrive(pages));
            let k = pages_taken(pages, b.remaining());
            &&& w.fetcher.nodes == f.nodes + nodes_of(pages, k)
            &&& w.fetcher.resource == f.resource
            &&& w.budget.cap == b.cap
            &&& w.budget.count == b.count + k
            &&& w.requests.len() == k
            &&& forall|i: int|
                0 <= i < k ==> #[trigger] w.requests[i] == request_for(
                    f.resource,
                    if i == 0 {
                        f.cursor
                    } else {
                        pages[i - 1].end_cursor
                    },
                )
            &&& (k < pages.len() || (k > 0 && !pages[k - 1].has_next_page)) ==> w.fetcher.phase
                == FetchPhase::Done
        }),
    decreases pages.len(),
{
    if f.may_request(b) && pages.len() > 0 {
        let answers = all_arrive(pages);
        let rest = pages.drop_first();
        assert(answers.drop_first() =~= all_arrive(rest));
        if pages[0].has_next_page {
            let f1 = f.polled(b).received(answers[0]);
            let b1 = b.consume();
            lemma_walk_from(f1, b1, rest);
            lemma_pages_taken_bounds(rest, b1.remaining());
            lemma_nodes_of_drop_first(pages, pages_taken(rest, b1.remaining()));
        } else {
            lemma_nodes_of_drop_first(pages, 0);
        }
    }
}

proof fn lemma_complete_sequence_is_taken_whole<T>(pages: Seq<PageView<T>>, room: nat)
    requires
        is_complete_sequence(pages),
        room >= pages.len(),
    ensures
        pages_taken(pages, room) == pages.len(),
    decreases pages.len(),
{
    if pages[0].has_next_page {
        lemma_complete_sequence_is_taken_whole(pages.drop_first(), (room - 1) as nat);
    }
}

/// When every page of a collection arrives and the budget has a slot for
/// each, the walk gathers exactly the pages' nodes, one page after the
/// other in the order of receipt: nothing twice, nothing left out. It
/// issues one request per page, the first without a cursor and each later
/// one with the end cursor of the page before, and ends finished.
pub proof fn lemma_complete_walk_concatenates<T>(
    resource: ResourceView,
    b: BudgetView,
    pages: Seq<PageView<T>>,
)
    requires
        is_complete_sequence(pages),
        b.remaining() >= pages.len(),
    ensures
        ({
            let w = walk(FetcherView::<T>::start(resource), b, all_arrive(pages));
            &&& w.fetcher.nodes == nodes_of(pages, pages.len())
            &&& w.fetcher.phase == FetchPhase::Done
            &&& w.budget.count == b.count + pages.len()
            &&& w.budget.cap == b.cap
            &&& w.requests.len() == pages.len()
            &&& forall|i: int|
                0 <= i < pages.len() ==> #[trigger] w.requests[i] == request_for(
                    resource,
                    cursor_before(pages, i),
                )
        }),
{
    let f = FetcherView::<T>::start(resource);
    lemma_complete_sequence_is_taken_whole(pages, b.remaining());
    lemma_walk_from(f, b, pages);
}

/// Whatever the pages and the budget, a walk from the start gathers a
/// prefix of the collection: the nodes of the first `pages_taken` pages and
/// nothing else, at the price of one slot per page taken.
pub proof fn lemma_walk_gathers_a_prefix<T>(
    resource: ResourceView,
    b: BudgetView,
    pages: Seq<PageView<T>>,
)
    ensures
        ({
            let w = walk(FetcherView::<T>::start(resource), b, all_arrive(pages));
            let k = pages_taken(pages, b.remaining());
            &&& k <= pages.len()
            &&& k <= b.remaining()
            &&& w.fetcher.nodes == nodes_of(pages, k)
            &&& w.budget.count == b.count + k
            &&& w.budget.cap == b.cap
            &&& w.requests.len() == k
        }),
{
    let f = FetcherView::<T>::start(resource);
    lemma_pages_taken_bounds(pages, b.remaining());
    lemma_walk_from(f, b, pages);
}

/// An answer without data ends the walk where it stands: what was gathered
/// stays, and the answers after it are never asked for.
pub proof fn lemma_no_data_ends_walk<T>(
    f: FetcherView<T>,
    b: BudgetView,
    later: Seq<Option<PageView<T>>>,
)
    requires
        f.may_request(b),
    ensures
        ({
            let w = walk(f, b, seq![None::<PageView<T>>] + later);
            &&& w.fetcher.nodes == f.nodes
            &&& w.fetcher.phase == FetchPhase::Done
            &&& w.budget == b.consume()
            &&& w.requests == seq![f.request()]
        }),
{
    let answers = seq![None::<PageView<T>>] + later;
    let f1 = f.polled(b).received(answers[0]);
    assert(walk(f1, b.consume(), answers.drop_first()).requests.len() == 0);
}

/// Whatever the answers, a walk pays one slot for each request it issues
/// and issues no more requests than there are answers or slots; the cap
/// stays, the collection stays the same, and what was gathered before
/// stays in front of what the walk adds.
pub proof fn lemma_walk_accounts<T>(
    f: FetcherView<T>,
    b: BudgetView,
    answers: Seq<Option<PageView<T>>>,
)
    ensures
        ({
            let w = walk(f, b, answers);
            &&& w.budget.cap == b.cap
            &&& w.budget.count == b.count + w.requests.len()
            &&& w.requests.len() <= answers.len()
            &&& w.requests.len() <= b.remaining()
            &&& w.fetcher.resource == f.resource
            &&& f.nodes.is_prefix_of(w.fetcher.nodes)
        }),
    decreases answers.len(),
{
    if f.may_request(b) && answers.len() > 0 {
        let f1 = f.polled(b).received(answers[0]);
        lemma_walk_accounts(f1, b.consume(), answers.drop_first());
    }
}

/// With the budget spent, a fetcher asks for nothing, takes no slot and
/// keeps what it has; so does every walk, whatever answers stand ready.
pub proof fn lemma_spent_budget_stops_fetch<T>(
    f: FetcherView<T>,
    b: BudgetView,
    answers: Seq<Option<PageView<T>>>,
)
    requires
        b.exhausted(),
    ensures
        !f.may_request(b),
        f.polled(b).nodes == f.nodes,
        f.polled(b).cursor == f.cursor,
        f.polled(b).phase == FetchPhase::Done,
        f.budget_polled(b) == b,
        walk(f, b, answers).fetcher.nodes == f.nodes,
        walk(f, b, answers).budget == b,
        walk(f, b, answers).requests.len() == 0,
{
}

/// A finished fetcher stays as it is: it asks for nothing, takes no slot
/// and takes no page in.
pub proof fn lemma_done_is_final<T>(f: FetcherView<T>, b: BudgetView, page: Option<PageView<T>>)
    requires
        f.phase == FetchPhase::Done,
    ensures
        f.polled(b) == f,
        f.budget_polled(b) == b,
        f.received(page) == f,
{
}

} // verus!
