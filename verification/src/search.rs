//! The search over fetched issues: which issues match the term, where, and
//! for which of them the comments have to be fetched at all.

use vstd::prelude::*;

use crate::api::types::{
    comment_views, hit_views, issue_views, match_views, Comment, CommentHit,
    CommentHitView, CommentView, Issue, IssueView, Match, MatchView, TeamInfo, TeamInfoView,
};
use crate::api::LinearClient;
use crate::budget::BudgetView;
use crate::text::{matches_term, normalize_term, lowercase, term_in};

verus! {

/// What to search for, and in which fields besides the title.
#[derive(Debug, Clone, PartialEq, Eq)]
pub struct SearchOptions {
    pub search_term: String,
    pub search_descriptions: bool,
    pub search_comments: bool,
}

impl SearchOptions {
    pub fn new(search_term: String, search_descriptions: bool, search_comments: bool) -> (options:
        SearchOptions)
        ensures
            options.search_term == search_term,
            options.search_descriptions == search_descriptions,
            options.search_comments == search_comments,
    {
        SearchOptions { search_term, search_descriptions, search_comments }
    }
}

/// The name under which an absent team or author appears.
pub open spec fn unknown() -> Seq<char> {
    "Unknown"@
}

/// Whether the comments of an issue have to be fetched: only when comments
/// are searched at all and neither the title nor, where descriptions are
/// searched, the description has matched.
pub open spec fn wants_comments(
    title_matches: bool,
    desc_matches: bool,
    comments_enabled: bool,
    desc_enabled: bool,
) -> bool {
    comments_enabled && !title_matches && !(desc_enabled && desc_matches)
}

/// Decides whether the comments of an issue have to be fetched.
pub fn should_fetch_comments(
    title_matches: bool,
    desc_matches: bool,
    comments_enabled: bool,
    desc_enabled: bool,
) -> (fetch: bool)
    ensures
        fetch == wants_comments(title_matches, desc_matches, comments_enabled, desc_enabled),
        title_matches ==> !fetch,
        desc_enabled && desc_matches ==> !fetch,
        !comments_enabled ==> !fetch,
{
    comments_enabled && !title_matches && !(desc_enabled && desc_matches)
}

/// The label of an issue's team: `[key] name`, or `Unknown` without a team.
pub open spec fn team_label(team: Option<TeamInfoView>) -> Seq<char> {
    match team {
        Some(t) => "["@ + t.key + "] "@ + t.name,
        None => unknown(),
    }
}

/// The hit that a matching comment gives.
pub open spec fn hit_of(c: CommentView) -> CommentHitView {
    CommentHitView {
        commenter: match c.author {
            Some(name) => name,
            None => unknown(),
        },
        created_at: c.created_at,
        url: c.url,
    }
}

/// The hits among `comments`: one for each comment whose body holds the
/// term, in the order of the comments.
pub open spec fn hits_among(comments: Seq<CommentView>, needle: Seq<char>) -> Seq<CommentHitView> {
    comments.filter(|c: CommentView| term_in(needle, c.body)).map_values(
        |c: CommentView| hit_of(c),
    )
}

/// The match record of an issue, given where the term was found.
pub open spec fn match_of(
    issue: IssueView,
    in_title: bool,
    in_desc: bool,
    hits: Seq<CommentHitView>,
) -> MatchView {
    MatchView {
        team: team_label(issue.team),
        id: issue.identifier,
        title: issue.title,
        url: issue.url,
        in_title,
        in_desc,
        comments_matched: hits,
    }
}

impl MatchView {
    /// The term was found somewhere: a record that says so nowhere is
    /// never produced.
    pub open spec fn is_justified(self) -> bool {
        self.in_title || self.in_desc || self.comments_matched.len() > 0
    }
}

/// Every record of a list is justified.
pub open spec fn all_justified(matches: Seq<MatchView>) -> bool {
    forall|i: int| 0 <= i < matches.len() ==> (#[trigger] matches[i]).is_justified()
}

/// Renders the label of an issue's team.
pub fn render_team_label(team: &Option<TeamInfo>) -> (label: String)
    ensures
        label@ == team_label(
            match *team {
                Some(t) => Some(t@),
                None => None,
            },
        ),
{
    match team {
        Some(t) => {
            let mut label = "[".to_owned();
            label.append(t.key.as_str());
            label.append("] ");
            label.append(t.name.as_str());
            label
        },
        None => "Unknown".to_owned(),
    }
}

/// Builds the match record of an issue.
pub fn build_match(issue: &Issue, in_title: bool, in_desc: bool, hits: Vec<CommentHit>) -> (m:
    Match)
    ensures
        m@ == match_of(issue@, in_title, in_desc, hit_views(hits@)),
{
    Match {
        team: render_team_label(&issue.team),
        id: issue.identifier.clone(),
        title: issue.title.clone(),
        url: issue.url.clone(),
        in_title,
        in_desc,
        comments_matched: hits,
    }
}

/// Picks the comments whose body holds the term and gives a hit for each,
/// in the order in which the comments came.
pub fn comment_hits(comments: &Vec<Comment>, needle: &str) -> (hits: Vec<CommentHit>)
    ensures
        hit_views(hits@) == hits_among(comment_views(comments@), needle@),
{
    let mut hits: Vec<CommentHit> = Vec::new();
    let ghost pred = |c: CommentView| term_in(needle@, c.body);
    let ghost all = comment_views(comments@);
    let mut i: usize = 0;
    proof {
        reveal(Seq::filter);
    }
    while i < comments.len()
        invariant
            i <= comments.len(),
            all == comment_views(comments@),
            pred == (|c: CommentView| term_in(needle@, c.body)),
            hit_views(hits@) == all.take(i as int).filter(pred).map_values(
                |c: CommentView| hit_of(c),
            ),
        decreases comments.len() - i,
    {
        let comment = &comments[i];
        let ghost before = hit_views(hits@);
        let found = matches_term(comment.body.as_str(), needle);
        if found {
            let commenter = match &comment.user {
                Some(u) => u.name.clone(),
                None => "Unknown".to_owned(),
            };
            let hit = CommentHit {
                commenter,
                created_at: comment.created_at.clone(),
                url: comment.url.clone(),
            };
            hits.push(hit);
            assert(hit_views(hits@) =~= before.push(hit_of(comment@)));
        }
        proof {
            reveal(Seq::filter);
            let longer = all.take(i + 1);
            assert(longer.drop_last() =~= all.take(i as int));
        }
        i = i + 1;
    }
    proof {
        assert(all.take(comments.len() as int) =~= all);
    }
    hits
}

/// What the caller of a search has to do next.
#[derive(Debug, Clone, PartialEq, Eq)]
pub enum SearchStep {
    /// Fetch the comments of this issue and hand them to the search.
    FetchComments { issue_id: String },
    /// Nothing: the search is over and its matches are final.
    Finished,
}

pub enum SearchStepView {
    FetchComments { issue_id: Seq<char> },
    Finished,
}

impl View for SearchStep {
    type V = SearchStepView;

    open spec fn view(&self) -> SearchStepView {
        match self {
            SearchStep::FetchComments { issue_id } => SearchStepView::FetchComments {
                issue_id: issue_id@,
            },
            SearchStep::Finished => SearchStepView::Finished,
        }
    }
}

/// A search as contracts see it.
pub struct SearchView {
    /// The issues, in the order in which they were fetched.
    pub issues: Seq<IssueView>,
    /// How many issues are dealt with.
    pub position: nat,
    /// The comments of the issue at `position` were asked for.
    pub awaiting: bool,
    /// The term, lowercased.
    pub needle: Seq<char>,
    /// Descriptions are searched.
    pub descriptions: bool,
    /// Comments are searched.
    pub comments: bool,
    /// The matches found so far, in the order of their issues.
    pub matches: Seq<MatchView>,
}

impl SearchView {
    /// The state every search starts in.
    pub open spec fn start(
        issues: Seq<IssueView>,
        term: Seq<char>,
        descriptions: bool,
        comments: bool,
    ) -> SearchView {
        SearchView {
            issues,
            position: 0,
            awaiting: false,
            needle: lowercase(term),
            descriptions,
            comments,
            matches: Seq::<MatchView>::empty(),
        }
    }

    /// The position is within the issues, and comments are awaited only
    /// for an issue that is there and needs them.
    pub open spec fn wf(self) -> bool {
        &&& self.position <= self.issues.len()
        &&& self.awaiting ==> self.position < self.issues.len() && self.needs_comments(
            self.position as int,
        )
    }

    /// The term is in the title of issue `i`.
    pub open spec fn in_title(self, i: int) -> bool {
        term_in(self.needle, self.issues[i].title)
    }

    /// Descriptions are searched and the term is in the description of
    /// issue `i`; an issue without description does not match.
    pub open spec fn in_desc(self, i: int) -> bool {
        self.descriptions && match self.issues[i].description {
            Some(d) => term_in(self.needle, d),
            None => false,
        }
    }

    /// The comments of issue `i` have to be fetched.
    pub open spec fn needs_comments(self, i: int) -> bool {
        self.comments && !self.in_title(i) && !self.in_desc(i)
    }

    /// The first issue from `from` on whose comments have to be fetched;
    /// the number of issues if there is none.
    pub open spec fn next_stop(self, from: nat) -> nat
        decreases self.issues.len() - from,
    {
        if from >= self.issues.len() {
            self.issues.len()
        } else if self.needs_comments(from as int) {
            from
        } else {
            self.next_stop(from + 1)
        }
    }

    /// The matches that the issues from `from` up to the next stop give
    /// without their comments: one for each whose title or description
    /// holds the term.
    pub open spec fn direct_matches(self, from: nat) -> Seq<MatchView>
        decreases self.issues.len() - from,
    {
        if from >= self.issues.len() || self.needs_comments(from as int) {
            Seq::<MatchView>::empty()
        } else if self.in_title(from as int) || self.in_desc(from as int) {
            seq![
                match_of(
                    self.issues[from as int],
                    self.in_title(from as int),
                    self.in_desc(from as int),
                    Seq::<CommentHitView>::empty(),
                ),
            ] + self.direct_matches(from + 1)
        } else {
            self.direct_matches(from + 1)
        }
    }

    /// The search after it was asked what to do next. With the budget
    /// spent it stays as it is, and so it does while comments are awaited.
    /// Else it deals with issues until one needs its comments.
    pub open spec fn advanced(self, b: BudgetView) -> SearchView {
        if b.exhausted() || self.awaiting {
            self
        } else {
            let stop = self.next_stop(self.position);
            SearchView {
                position: stop,
                awaiting: stop < self.issues.len(),
                matches: self.matches + self.direct_matches(self.position),
                ..self
            }
        }
    }

    /// What the caller is told to do next.
    pub open spec fn step(self, b: BudgetView) -> SearchStepView {
        let after = self.advanced(b);
        if b.exhausted() || !after.awaiting {
            SearchStepView::Finished
        } else {
            SearchStepView::FetchComments { issue_id: after.issues[after.position as int].id }
        }
    }

    /// The search after the comments it asked for came back: the issue is
    /// dealt with, and matched if one of its comments holds the term.
    /// Comments that were not asked for are not taken in.
    pub open spec fn received(self, comments: Seq<CommentView>) -> SearchView {
        if !self.awaiting {
            self
        } else {
            let hits = hits_among(comments, self.needle);
            SearchView {
                position: self.position + 1,
                awaiting: false,
                matches: if hits.len() > 0 {
                    self.matches.push(
                        match_of(self.issues[self.position as int], false, false, hits),
                    )
                } else {
                    self.matches
                },
                ..self
            }
        }
    }
}

/// What a search examines, and how far it has come.
#[derive(Debug)]
struct Progress {
    issues: Vec<Issue>,
    position: usize,
    awaiting: bool,
    needle: String,
    descriptions: bool,
    comments: bool,
}

impl Progress {
    spec fn with_matches(self, matches: Seq<MatchView>) -> SearchView {
        SearchView {
            issues: issue_views(self.issues@),
            position: self.position as nat,
            awaiting: self.awaiting,
            needle: self.needle@,
            descriptions: self.descriptions,
            comments: self.comments,
            matches,
        }
    }

    #[verifier::type_invariant]
    spec fn inv(self) -> bool {
        self.with_matches(Seq::<MatchView>::empty()).wf()
    }
}

/// A search under way: the issues, how far it has come, and what it found.
#[derive(Debug)]
pub struct IssueSearch {
    progress: Progress,
    matches: Vec<Match>,
}

impl View for IssueSearch {
    type V = SearchView;

    closed spec fn view(&self) -> SearchView {
        self.progress.with_matches(match_views(self.matches@))
    }
}

/// Starts the search for `options.search_term` over `issues`. The term is
/// lowercased once; nothing is examined yet.
pub fn search_issues(issues: Vec<Issue>, options: &SearchOptions) -> (search: IssueSearch)
    ensures
        search@ == SearchView::start(
            issue_views(issues@),
            options.search_term@,
            options.search_descriptions,
            options.search_comments,
        ),
        search@.wf(),
{
    let search = IssueSearch {
        progress: Progress {
            issues,
            position: 0,
            awaiting: false,
            needle: normalize_term(options.search_term.as_str()),
            descriptions: options.search_descriptions,
            comments: options.search_comments,
        },
        matches: Vec::new(),
    };
    assert(search@.matches =~= Seq::<MatchView>::empty());
    search
}

impl IssueSearch {
    /// Says what to do next. With the client's budget spent the search is
    /// over as it stands, whatever was still to examine. Else issues are
    /// examined in order: one whose title or, where asked for, description
    /// holds the term is matched at once, and its comments are never asked
    /// for; one that needs its comments stops the scan, and the caller is
    /// told to fetch them. The budget is only read.
    pub fn advance(&mut self, client: &LinearClient) -> (step: SearchStep)
        ensures
            final(self)@ == old(self)@.advanced(client@.budget),
            step@ == old(self)@.step(client@.budget),
            final(self)@.wf(),
    {
        proof {
            use_type_invariant(&self.progress);
        }
        if client.budget_exhausted() {
            return SearchStep::Finished;
        }
        if self.progress.awaiting {
            let issue_id = self.progress.issues[self.progress.position].id.clone();
            return SearchStep::FetchComments { issue_id };
        }
        let ghost start = self@;
        while self.progress.position < self.progress.issues.len()
            invariant
                self.progress.position <= self.progress.issues.len(),
                !self.progress.awaiting,
                start == old(self)@,
                start.wf(),
                !start.awaiting,
                !client@.budget.exhausted(),
                self@.issues == start.issues,
                self@.needle == start.needle,
                self@.descriptions == start.descriptions,
                self@.comments == start.comments,
                start.position <= self.progress.position,
                start.next_stop(start.position) == start.next_stop(self.progress.position as nat),
                start.matches + start.direct_matches(start.position) == self@.matches
                    + start.direct_matches(self.progress.position as nat),
            decreases self.progress.issues.len() - self.progress.position,
        {
            let issue = &self.progress.issues[self.progress.position];
            let in_title = matches_term(issue.title.as_str(), self.progress.needle.as_str());
            let in_desc = if self.progress.descriptions {
                match &issue.description {
                    Some(d) => matches_term(d.as_str(), self.progress.needle.as_str()),
                    None => false,
                }
            } else {
                false
            };
            if should_fetch_comments(
                in_title,
                in_desc,
                self.progress.comments,
                self.progress.descriptions,
            ) {
                let issue_id = issue.id.clone();
                self.progress.awaiting = true;
                return SearchStep::FetchComments { issue_id };
            }
            if in_title || in_desc {
                let m = build_match(issue, in_title, in_desc, Vec::new());
                assert(hit_views(Seq::<CommentHit>::empty()) =~= Seq::<CommentHitView>::empty());
                self.matches.push(m);
            }
            self.progress.position = self.progress.position + 1;
        }
        SearchStep::Finished
    }

    /// Takes in the comments that the search asked for. The issue is
    /// matched if a comment holds the term, with one hit per such comment
    /// in the order of the comments, and the search moves on.
    pub fn receive_comments(&mut self, comments: Vec<Comment>)
        ensures
            final(self)@ == old(self)@.received(comment_views(comments@)),
            final(self)@.wf(),
    {
        proof {
            use_type_invariant(&self.progress);
        }
        if !self.progress.awaiting {
            return ;
        }
        let ghost before = self@;
        assert(self.progress.position < self.progress.issues.len());
        let hits = comment_hits(&comments, self.progress.needle.as_str());
        if hits.len() > 0 {
            let issue = &self.progress.issues[self.progress.position];
            let m = build_match(issue, false, false, hits);
            self.matches.push(m);
            assert(self@.matches =~= before.matches.push(m@));
        }
        self.progress.awaiting = false;
        self.progress.position = self.progress.position + 1;
    }

    /// Whether the search waits for the comments of an issue.
    pub fn is_awaiting_comments(&self) -> (b: bool)
        ensures
            b == self@.awaiting,
            self@.wf(),
    {
        proof {
            use_type_invariant(&self.progress);
        }
        self.progress.awaiting
    }

    /// How many issues are dealt with.
    pub fn examined(&self) -> (n: usize)
        ensures
            n == self@.position,
            n <= self@.issues.len(),
    {
        proof {
            use_type_invariant(&self.progress);
        }
        self.progress.position
    }

    /// The matches found so far.
    pub fn matches(&self) -> (matches: &Vec<Match>)
        ensures
            match_views(matches@) == self@.matches,
    {
        &self.matches
    }

    /// Gives up the search for its matches.
    pub fn into_matches(self) -> (matches: Vec<Match>)
        ensures
            match_views(matches@) == self@.matches,
    {
        self.matches
    }
}

} // verus!
