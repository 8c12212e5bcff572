//! The remote side of the search: the client with its request budget, the
//! records, the queries and the paginated fetcher.

pub mod fetch;
pub mod queries;
pub mod types;
pub mod walk;

use vstd::prelude::*;

use crate::api::fetch::{FetcherView, PaginatedFetcher, Resource, ResourceView};
use crate::api::types::{
    Comment, GraphQLRequest, GraphQLResponse, Issue, IssueData, IssuesData, PageView, Team,
    TeamsData,
};
use crate::budget::{BudgetView, RequestBudget, MAX_REQUESTS};

verus! {

/// The one endpoint every request is posted to.
pub const LINEAR_API_URL: &'static str = "https://api.linear.app/graphql";

/// The content type every request is sent with.
pub const CONTENT_TYPE: &'static str = "application/json";

/// A client as contracts see it.
pub struct ClientView {
    pub api_key: Seq<char>,
    pub budget: BudgetView,
}

/// The credential of one run together with the run's request budget.
///
/// Every request that a fetcher issues is taken from this budget; the
/// budget moves in no other way.
#[derive(Debug)]
pub struct LinearClient {
    api_key: String,
    budget: RequestBudget,
}

impl View for LinearClient {
    type V = ClientView;

    closed spec fn view(&self) -> ClientView {
        ClientView { api_key: self.api_key@, budget: self.budget@ }
    }
}

/// The page that an answer to a teams query amounts to.
pub open spec fn teams_page(response: GraphQLResponse<TeamsData>) -> Option<PageView<Team>> {
    if response.reports_errors() {
        None
    } else {
        match response.data {
            Some(d) => Some(d.teams@),
            None => None,
        }
    }
}

/// The page that an answer to an issues query amounts to.
pub open spec fn issues_page(response: GraphQLResponse<IssuesData>) -> Option<PageView<Issue>> {
    if response.reports_errors() {
        None
    } else {
        match response.data {
            Some(d) => Some(d.issues@),
            None => None,
        }
    }
}

/// The page that an answer to a comments query amounts to.
pub open spec fn comments_page(response: GraphQLResponse<IssueData>) -> Option<PageView<Comment>> {
    if response.reports_errors() {
        None
    } else {
        match response.data {
            Some(d) => match d.issue {
                Some(i) => Some(i.comments@),
                None => None,
            },
            None => None,
        }
    }
}

impl LinearClient {
    /// A client with the standard budget, of which nothing is used.
    pub fn new(api_key: String) -> (client: LinearClient)
        ensures
            client@.api_key == api_key@,
            client@.budget == (BudgetView { count: 0, cap: MAX_REQUESTS as nat }),
    {
        LinearClient { api_key, budget: RequestBudget::new(MAX_REQUESTS) }
    }

    /// A client whose budget allows `cap` requests.
    pub fn with_budget(api_key: String, cap: usize) -> (client: LinearClient)
        ensures
            client@.api_key == api_key@,
            client@.budget == (BudgetView { count: 0, cap: cap as nat }),
    {
        LinearClient { api_key, budget: RequestBudget::new(cap) }
    }

    /// Requests issued so far, the refused ones not counted.
    pub fn request_count(&self) -> (n: usize)
        ensures
            n == self@.budget.count,
            n <= self@.budget.cap,
    {
        self.budget.count()
    }

    /// The most requests this client may issue.
    pub fn max_requests(&self) -> (n: usize)
        ensures
            n == self@.budget.cap,
    {
        self.budget.cap()
    }

    /// Whether the budget is spent.
    pub fn budget_exhausted(&self) -> (b: bool)
        ensures
            b == self@.budget.exhausted(),
    {
        self.budget.is_exhausted()
    }

    /// The value of the `Authorization` header: the credential as it was
    /// given, with nothing put before it.
    pub fn authorization(&self) -> (key: &str)
        ensures
            key@ == self@.api_key,
    {
        self.api_key.as_str()
    }

    /// Starts a walk over all teams.
    pub fn fetch_teams(&self) -> (f: PaginatedFetcher<Team>)
        ensures
            f@ == FetcherView::<Team>::start(ResourceView::Teams),
    {
        PaginatedFetcher::new(Resource::Teams)
    }

    /// Starts a walk over the issues of the team `team_id`.
    pub fn fetch_issues(&self, team_id: &str) -> (f: PaginatedFetcher<Issue>)
        ensures
            f@ == FetcherView::<Issue>::start(ResourceView::Issues { team_id: team_id@ }),
    {
        PaginatedFetcher::new(Resource::Issues { team_id: team_id.to_owned() })
    }

    /// Starts a walk over the comments of the issue `issue_id`.
    pub fn fetch_comments(&self, issue_id: &str) -> (f: PaginatedFetcher<Comment>)
        ensures
            f@ == FetcherView::<Comment>::start(ResourceView::Comments { issue_id: issue_id@ }),
    {
        PaginatedFetcher::new(Resource::Comments { issue_id: issue_id.to_owned() })
    }

    /// Asks `fetcher` for its next request against this client's budget.
    /// `None` means that the walk is over and nothing may be sent.
    pub fn next_request<T>(&mut self, fetcher: &mut PaginatedFetcher<T>) -> (r: Option<
        GraphQLRequest,
    >)
        ensures
            final(fetcher)@ == old(fetcher)@.polled(old(self)@.budget),
            final(self)@.budget == old(fetcher)@.budget_polled(old(self)@.budget),
            final(self)@.api_key == old(self)@.api_key,
            r is Some <==> old(fetcher)@.may_request(old(self)@.budget),
            r matches Some(q) ==> q@ == old(fetcher)@.request(),
    {
        fetcher.poll(&mut self.budget)
    }
}

impl PaginatedFetcher<Team> {
    /// Takes in the answer to a teams request.
    pub fn receive_teams(&mut self, response: GraphQLResponse<TeamsData>)
        ensures
            final(self)@ == old(self)@.received(teams_page(response)),
    {
        let page = match response.classify().into_data() {
            Some(d) => d.into_page(),
            None => None,
        };
        self.receive(page)
    }
}

impl PaginatedFetcher<Issue> {
    /// Takes in the answer to an issues request.
    pub fn receive_issues(&mut self, response: GraphQLResponse<IssuesData>)
        ensures
            final(self)@ == old(self)@.received(issues_page(response)),
    {
        let page = match response.classify().into_data() {
            Some(d) => d.into_page(),
            None => None,
        };
        self.receive(page)
    }
}

impl PaginatedFetcher<Comment> {
    /// Takes in the answer to a comments request. An answer whose issue is
    /// absent counts as one without data.
    pub fn receive_comments(&mut self, response: GraphQLResponse<IssueData>)
        ensures
            final(self)@ == old(self)@.received(comments_page(response)),
    {
        let page = match response.classify().into_data() {
            Some(d) => d.into_page(),
            None => None,
        };
        self.receive(page)
    }
}

} // verus!
