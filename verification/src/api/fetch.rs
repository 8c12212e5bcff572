//! The paginated fetcher: a cursor walk over one collection, one budgeted
//! request per page. The caller performs each request and hands back what
//! came; every decision is taken here.

use vstd::prelude::*;

use crate::api::queries::{ISSUES_QUERY, ISSUE_COMMENTS_QUERY, TEAMS_QUERY};
use crate::api::types::{
    opt_page, opt_text, Connection, GraphQLRequest, PageView, RequestView, Variable,
};
use crate::budget::{BudgetView, RequestBudget};

verus! {

/// Which collection a fetcher walks.
#[derive(Debug, Clone, PartialEq, Eq)]
pub enum Resource {
    /// Every team.
    Teams,
    /// The issues of one team.
    Issues { team_id: String },
    /// The comments of one issue.
    Comments { issue_id: String },
}

pub enum ResourceView {
    Teams,
    Issues { team_id: Seq<char> },
    Comments { issue_id: Seq<char> },
}

impl View for Resource {
    type V = ResourceView;

    open spec fn view(&self) -> ResourceView {
        match self {
            Resource::Teams => ResourceView::Teams,
            Resource::Issues { team_id } => ResourceView::Issues { team_id: team_id@ },
            Resource::Comments { issue_id } => ResourceView::Comments { issue_id: issue_id@ },
        }
    }
}

/// The request for the page of `resource` that follows `cursor`.
pub open spec fn request_for(resource: ResourceView, cursor: Option<Seq<char>>) -> RequestView {
    match resource {
        ResourceView::Teams => RequestView {
            query: TEAMS_QUERY@,
            variables: seq![("after"@, cursor)],
        },
        ResourceView::Issues { team_id } => RequestView {
            query: ISSUES_QUERY@,
            variables: seq![("teamId"@, Some(team_id)), ("after"@, cursor)],
        },
        ResourceView::Comments { issue_id } => RequestView {
            query: ISSUE_COMMENTS_QUERY@,
            variables: seq![("issueId"@, Some(issue_id)), ("after"@, cursor)],
        },
    }
}

/// A copy of an optional text.
fn copy_opt_text(o: &Option<String>) -> (r: Option<String>)
    ensures
        opt_text(r) == opt_text(*o),
{
    match o {
        Some(s) => Some(s.clone()),
        None => None,
    }
}

impl Resource {
    /// Builds the request for the page that follows `after`.
    pub fn request(&self, after: &Option<String>) -> (r: GraphQLRequest)
        ensures
            r@ == request_for(self@, opt_text(*after)),
    {
        let mut variables: Vec<Variable> = Vec::new();
        let query = match self {
            Resource::Teams => TEAMS_QUERY.to_owned(),
            Resource::Issues { team_id } => {
                variables.push(
                    Variable { name: "teamId".to_owned(), value: Some(team_id.clone()) },
                );
                ISSUES_QUERY.to_owned()
            },
            Resource::Comments { issue_id } => {
                variables.push(
                    Variable { name: "issueId".to_owned(), value: Some(issue_id.clone()) },
                );
                ISSUE_COMMENTS_QUERY.to_owned()
            },
        };
        variables.push(Variable { name: "after".to_owned(), value: copy_opt_text(after) });
        let r = GraphQLRequest { query, variables };
        assert(r@.variables =~= request_for(self@, opt_text(*after)).variables);
        r
    }
}

/// Where a fetcher stands.
#[derive(Clone, Copy, Debug, PartialEq, Eq, Structural)]
pub enum FetchPhase {
    /// Fetching, and free to ask for the next page.
    Ready,
    /// Fetching, with a request out whose answer has not come back.
    InFlight,
    /// Finished: nothing more will be asked for or taken in.
    Done,
}

/// A fetcher as contracts see it.
pub struct FetcherView<T> {
    pub resource: ResourceView,
    pub nodes: Seq<T>,
    pub cursor: Option<Seq<char>>,
    pub phase: FetchPhase,
}

impl<T> FetcherView<T> {
    /// The state every walk starts in.
    pub open spec fn start(resource: ResourceView) -> FetcherView<T> {
        FetcherView {
            resource,
            nodes: Seq::<T>::empty(),
            cursor: None::<Seq<char>>,
            phase: FetchPhase::Ready,
        }
    }

    /// Asking for a page now would issue a request.
    pub open spec fn may_request(self, b: BudgetView) -> bool {
        self.phase != FetchPhase::Done && b.has_room()
    }

    /// The request that would be issued now.
    pub open spec fn request(self) -> RequestView {
        request_for(self.resource, self.cursor)
    }

    /// The fetcher after it was asked for its next request: with room in
    /// the budget a request goes out; without, the walk is over.
    pub open spec fn polled(self, b: BudgetView) -> FetcherView<T> {
        if self.phase == FetchPhase::Done {
            self
        } else if b.has_room() {
            FetcherView { phase: FetchPhase::InFlight, ..self }
        } else {
            FetcherView { phase: FetchPhase::Done, ..self }
        }
    }

    /// The budget after the fetcher was asked for its next request.
    pub open spec fn budget_polled(self, b: BudgetView) -> BudgetView {
        if self.may_request(b) {
            b.consume()
        } else {
            b
        }
    }

    /// The fetcher after the answer to its request came back. An answer
    /// that no request is out for is not taken in.
    pub open spec fn received(self, page: Option<PageView<T>>) -> FetcherView<T> {
        if self.phase != FetchPhase::InFlight {
            self
        } else {
            match page {
                None => FetcherView { phase: FetchPhase::Done, ..self },
                Some(p) => if p.has_next_page {
                    FetcherView {
                        nodes: self.nodes + p.nodes,
                        cursor: p.end_cursor,
                        phase: FetchPhase::Ready,
                        ..self
                    }
                } else {
                    FetcherView { nodes: self.nodes + p.nodes, phase: FetchPhase::Done, ..self }
                },
            }
        }
    }
}

/// Walks one collection page by page and gathers its nodes in the order
/// in which they came.
#[derive(Debug)]
pub struct PaginatedFetcher<T> {
    resource: Resource,
    nodes: Vec<T>,
    cursor: Option<String>,
    phase: FetchPhase,
}

impl<T> View for PaginatedFetcher<T> {
    type V = FetcherView<T>;

    closed spec fn view(&self) -> FetcherView<T> {
        FetcherView {
            resource: self.resource@,
            nodes: self.nodes@,
            cursor: opt_text(self.cursor),
            phase: self.phase,
        }
    }
}

impl<T> PaginatedFetcher<T> {
    /// A fetcher at the start of `resource`, with nothing gathered.
    pub fn new(resource: Resource) -> (f: PaginatedFetcher<T>)
        ensures
            f@ == FetcherView::<T>::start(resource@),
    {
        PaginatedFetcher { resource, nodes: Vec::new(), cursor: None, phase: FetchPhase::Ready }
    }

    /// Decides whether another page is asked for. A finished fetcher asks
    /// for nothing. Otherwise one slot of the budget is taken and the
    /// request for the page after the cursor is returned; with the budget
    /// spent, no slot is taken, nothing is asked for and the walk is over.
    pub fn poll(&mut self, budget: &mut RequestBudget) -> (r: Option<GraphQLRequest>)
        ensures
            final(self)@ == old(self)@.polled(old(budget)@),
            final(budget)@ == old(self)@.budget_polled(old(budget)@),
            r is Some <==> old(self)@.may_request(old(budget)@),
            r matches Some(q) ==> q@ == old(self)@.request(),
    {
        match self.phase {
            FetchPhase::Done => None,
            _ => {
                if budget.is_exhausted() {
                    self.phase = FetchPhase::Done;
                    return None;
                }
                match budget.try_consume() {
                    Ok(_) => {
                        self.phase = FetchPhase::InFlight;
                        Some(self.resource.request(&self.cursor))
                    },
                    Err(_) => {
                        self.phase = FetchPhase::Done;
                        None
                    },
                }
            },
        }
    }

    /// Takes in the answer to the request that is out: `None` when the
    /// service sent no data, which ends the walk with what was gathered;
    /// else the page, whose nodes are appended as they stand and whose page
    /// info decides whether the walk goes on, and from which cursor.
    pub fn receive(&mut self, page: Option<Connection<T>>)
        ensures
            final(self)@ == old(self)@.received(opt_page(page)),
    {
        match self.phase {
            FetchPhase::InFlight => {
                match page {
                    None => {
                        self.phase = FetchPhase::Done;
                    },
                    Some(connection) => {
                        let Connection { nodes, page_info } = connection;
                        let mut nodes = nodes;
                        self.nodes.append(&mut nodes);
                        if page_info.has_next_page {
                            self.cursor = page_info.end_cursor;
                            self.phase = FetchPhase::Ready;
                        } else {
                            self.phase = FetchPhase::Done;
                        }
                    },
                }
            },
            _ => {},
        }
    }

    /// Whether the walk is over.
    pub fn is_done(&self) -> (b: bool)
        ensures
            b == (self@.phase == FetchPhase::Done),
    {
        match self.phase {
            FetchPhase::Done => true,
            _ => false,
        }
    }

    /// Where the fetcher stands.
    pub fn phase(&self) -> (p: FetchPhase)
        ensures
            p == self@.phase,
    {
        self.phase
    }

    /// What was gathered so far.
    pub fn nodes(&self) -> (nodes: &Vec<T>)
        ensures
            nodes@ == self@.nodes,
    {
        &self.nodes
    }

    /// Gives up the fetcher for what it gathered.
    pub fn into_nodes(self) -> (nodes: Vec<T>)
        ensures
            nodes@ == self@.nodes,
    {
        self.nodes
    }
}

} // verus!
