//! The records that travel between the remote service, the fetchers and the
//! search, each with the mathematical value that contracts speak of.

use vstd::prelude::*;

verus! {

/// The characters of an optional text.
pub open spec fn opt_text(o: Option<String>) -> Option<Seq<char>> {
    match o {
        Some(s) => Some(s@),
        None => None,
    }
}

/// A team of the tracker. Its identity is `id`; `key` is the short label
/// that people read and choose by.
#[derive(Debug, Clone, PartialEq, Eq)]
pub struct Team {
    pub id: String,
    pub key: String,
    pub name: String,
}

pub struct TeamView {
    pub id: Seq<char>,
    pub key: Seq<char>,
    pub name: Seq<char>,
}

impl View for Team {
    type V = TeamView;

    open spec fn view(&self) -> TeamView {
        TeamView { id: self.id@, key: self.key@, name: self.name@ }
    }
}

/// The team an issue belongs to, as the issue carries it.
#[derive(Debug, Clone, PartialEq, Eq)]
pub struct TeamInfo {
    pub key: String,
    pub name: String,
}

pub struct TeamInfoView {
    pub key: Seq<char>,
    pub name: Seq<char>,
}

impl View for TeamInfo {
    type V = TeamInfoView;

    open spec fn view(&self) -> TeamInfoView {
        TeamInfoView { key: self.key@, name: self.name@ }
    }
}

/// An issue as fetched.
#[derive(Debug, Clone, PartialEq, Eq)]
pub struct Issue {
    pub id: String,
    pub identifier: String,
    pub title: String,
    pub url: String,
    pub description: Option<String>,
    pub team: Option<TeamInfo>,
}

pub struct IssueView {
    pub id: Seq<char>,
    pub identifier: Seq<char>,
    pub title: Seq<char>,
    pub url: Seq<char>,
    pub description: Option<Seq<char>>,
    pub team: Option<TeamInfoView>,
}

impl View for Issue {
    type V = IssueView;

    open spec fn view(&self) -> IssueView {
        IssueView {
            id: self.id@,
            identifier: self.identifier@,
            title: self.title@,
            url: self.url@,
            description: opt_text(self.description),
            team: match self.team {
                Some(t) => Some(t@),
                None => None,
            },
        }
    }
}

/// The author of a comment.
#[derive(Debug, Clone, PartialEq, Eq)]
pub struct User {
    pub name: String,
}

/// A comment on an issue.
#[derive(Debug, Clone, PartialEq, Eq)]
pub struct Comment {
    pub id: String,
    pub body: String,
    pub user: Option<User>,
    pub created_at: String,
    pub url: String,
}

pub struct CommentView {
    pub id: Seq<char>,
    pub body: Seq<char>,
    pub author: Option<Seq<char>>,
    pub created_at: Seq<char>,
    pub url: Seq<char>,
}

impl View for Comment {
    type V = CommentView;

    open spec fn view(&self) -> CommentView {
        CommentView {
            id: self.id@,
            body: self.body@,
            author: match self.user {
                Some(u) => Some(u.name@),
                None => None,
            },
            created_at: self.created_at@,
            url: self.url@,
        }
    }
}

/// The comments of a list, each as its value.
pub open spec fn comment_views(comments: Seq<Comment>) -> Seq<CommentView> {
    comments.map_values(|c: Comment| c@)
}

/// The issues of a list, each as its value.
pub open spec fn issue_views(issues: Seq<Issue>) -> Seq<IssueView> {
    issues.map_values(|i: Issue| i@)
}

/// One comment in which the term was found.
#[derive(Debug, Clone, PartialEq, Eq)]
pub struct CommentHit {
    pub commenter: String,
    pub created_at: String,
    pub url: String,
}

pub struct CommentHitView {
    pub commenter: Seq<char>,
    pub created_at: Seq<char>,
    pub url: Seq<char>,
}

impl View for CommentHit {
    type V = CommentHitView;

    open spec fn view(&self) -> CommentHitView {
        CommentHitView { commenter: self.commenter@, created_at: self.created_at@, url: self.url@ }
    }
}

/// The hits of a list, each as its value.
pub open spec fn hit_views(hits: Seq<CommentHit>) -> Seq<CommentHitView> {
    hits.map_values(|h: CommentHit| h@)
}

/// One issue in which the term was found, and where.
#[derive(Debug, Clone, PartialEq, Eq)]
pub struct Match {
    pub team: String,
    pub id: String,
    pub title: String,
    pub url: String,
    pub in_title: bool,
    pub in_desc: bool,
    pub comments_matched: Vec<CommentHit>,
}

pub struct MatchView {
    pub team: Seq<char>,
    pub id: Seq<char>,
    pub title: Seq<char>,
    pub url: Seq<char>,
    pub in_title: bool,
    pub in_desc: bool,
    pub comments_matched: Seq<CommentHitView>,
}

impl View for Match {
    type V = MatchView;

    open spec fn view(&self) -> MatchView {
        MatchView {
            team: self.team@,
            id: self.id@,
            title: self.title@,
            url: self.url@,
            in_title: self.in_title,
            in_desc: self.in_desc,
            comments_matched: hit_views(self.comments_matched@),
        }
    }
}

/// The matches of a list, each as its value.
pub open spec fn match_views(matches: Seq<Match>) -> Seq<MatchView> {
    matches.map_values(|m: Match| m@)
}

/// Where a page stands in its collection.
#[derive(Debug, Clone, PartialEq, Eq)]
pub struct PageInfo {
    pub has_next_page: bool,
    pub end_cursor: Option<String>,
}

/// One page of a collection: its nodes in server order, and what follows.
#[derive(Debug)]
pub struct Connection<T> {
    pub nodes: Vec<T>,
    pub page_info: PageInfo,
}

/// A page as contracts see it.
pub struct PageView<T> {
    pub nodes: Seq<T>,
    pub has_next_page: bool,
    pub end_cursor: Option<Seq<char>>,
}

impl<T> View for Connection<T> {
    type V = PageView<T>;

    open spec fn view(&self) -> PageView<T> {
        PageView {
            nodes: self.nodes@,
            has_next_page: self.page_info.has_next_page,
            end_cursor: opt_text(self.page_info.end_cursor),
        }
    }
}

/// The page of an optional connection.
pub open spec fn opt_page<T>(o: Option<Connection<T>>) -> Option<PageView<T>> {
    match o {
        Some(c) => Some(c@),
        None => None,
    }
}

/// The payload of a teams query.
#[derive(Debug)]
pub struct TeamsData {
    pub teams: Connection<Team>,
}

/// The payload of an issues query.
#[derive(Debug)]
pub struct IssuesData {
    pub issues: Connection<Issue>,
}

/// An issue together with one page of its comments.
#[derive(Debug)]
pub struct IssueWithComments {
    pub id: String,
    pub comments: Connection<Comment>,
}

/// The payload of a comments query; the issue is absent when the service
/// does not know it.
#[derive(Debug)]
pub struct IssueData {
    pub issue: Option<IssueWithComments>,
}

impl TeamsData {
    /// The page that a teams payload carries.
    pub fn into_page(self) -> (page: Option<Connection<Team>>)
        ensures
            page == Some(self.teams),
    {
        Some(self.teams)
    }
}

impl IssuesData {
    /// The page that an issues payload carries.
    pub fn into_page(self) -> (page: Option<Connection<Issue>>)
        ensures
            page == Some(self.issues),
    {
        Some(self.issues)
    }
}

impl IssueData {
    /// The page of comments that the payload carries, if the issue is there.
    pub fn into_page(self) -> (page: Option<Connection<Comment>>)
        ensures
            page == match self.issue {
                Some(i) => Some(i.comments),
                None => None,
            },
    {
        match self.issue {
            Some(i) => Some(i.comments),
            None => None,
        }
    }
}

/// One named variable of a query; `None` is sent as null.
#[derive(Debug, Clone, PartialEq, Eq)]
pub struct Variable {
    pub name: String,
    pub value: Option<String>,
}

impl View for Variable {
    type V = (Seq<char>, Option<Seq<char>>);

    open spec fn view(&self) -> (Seq<char>, Option<Seq<char>>) {
        (self.name@, opt_text(self.value))
    }
}

/// The body of one remote call: the query text and its variables.
#[derive(Debug, Clone, PartialEq, Eq)]
pub struct GraphQLRequest {
    pub query: String,
    pub variables: Vec<Variable>,
}

pub struct RequestView {
    pub query: Seq<char>,
    pub variables: Seq<(Seq<char>, Option<Seq<char>>)>,
}

impl View for GraphQLRequest {
    type V = RequestView;

    open spec fn view(&self) -> RequestView {
        RequestView {
            query: self.query@,
            variables: self.variables@.map_values(|v: Variable| v@),
        }
    }
}

/// A JSON value of `serde_json`. Nothing here looks into one: the problems
/// that the service reports are carried through as they came.
#[verifier::external_type_specification]
#[verifier::external_body]
pub struct ExJsonValue(serde_json::Value);

/// The envelope of one answer: the payload, and the problems that the
/// service reported.
#[derive(Debug)]
pub struct GraphQLResponse<T> {
    pub data: Option<T>,
    pub errors: Option<Vec<serde_json::Value>>,
}

/// What an answer amounts to for the caller.
#[derive(Debug)]
pub enum Outcome<T> {
    /// The payload arrived and the service reported no problem.
    Success(T),
    /// The service reported no problem and sent no payload.
    Empty,
    /// The service ran the request and reported these problems.
    SoftFailure(Vec<serde_json::Value>),
}

impl<T> GraphQLResponse<T> {
    /// The answer carries a list of problems that is not empty.
    pub open spec fn reports_errors(self) -> bool {
        self.errors matches Some(e) && e@.len() > 0
    }

    /// Whether the service reported a problem.
    pub fn is_soft_failure(&self) -> (b: bool)
        ensures
            b == self.reports_errors(),
    {
        match &self.errors {
            Some(e) => e.len() > 0,
            None => false,
        }
    }

    /// Sorts the answer: reported problems make it a soft failure whatever
    /// else it carries; without them it is the payload, or nothing.
    pub fn classify(self) -> (outcome: Outcome<T>)
        ensures
            self.reports_errors() ==> outcome == Outcome::<T>::SoftFailure(self.errors->Some_0),
            !self.reports_errors() ==> outcome == match self.data {
                Some(d) => Outcome::<T>::Success(d),
                None => Outcome::<T>::Empty,
            },
    {
        match self.errors {
            Some(e) => {
                if e.len() > 0 {
                    return Outcome::SoftFailure(e);
                }
            },
            None => {},
        }
        match self.data {
            Some(d) => Outcome::Success(d),
            None => Outcome::Empty,
        }
    }
}

impl<T> Outcome<T> {
    /// The payload where there is one.
    pub open spec fn payload(self) -> Option<T> {
        match self {
            Outcome::Success(d) => Some(d),
            _ => None,
        }
    }

    /// Keeps the payload of a success; a soft failure and an empty answer
    /// both count as "no data".
    pub fn into_data(self) -> (data: Option<T>)
        ensures
            data == self.payload(),
    {
        match self {
            Outcome::Success(d) => Some(d),
            _ => None,
        }
    }
}

} // verus!
