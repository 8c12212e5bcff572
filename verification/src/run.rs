//! Whole searches: what a search finds and what it costs when each of its
//! requests for comments is answered by a walk over that issue's comments.

use vstd::prelude::*;

use crate::api::fetch::{FetcherView, ResourceView};
use crate::api::types::{comment_views, Comment, CommentView, PageView};
use crate::api::walk::{lemma_walk_accounts, walk};
use crate::budget::BudgetView;
use crate::api::types::{CommentHitView, IssueView, MatchView};
use crate::search::{all_justified, match_of, SearchStepView, SearchView};
use crate::text::term_in;

verus! {

/// How a search ended.
pub struct Run {
    /// The search at the end.
    pub search: SearchView,
    /// The budget at the end.
    pub budget: BudgetView,
    /// The issues whose comments were fetched, by position, in order.
    pub fetched: Seq<nat>,
}

/// The answers that one walk over comments meets.
pub type Answers = Seq<Option<PageView<Comment>>>;

/// The search in which each request for comments is answered by a walk
/// over the next of `answers`, until the search is over or the answers run
/// out.
pub open spec fn run(s: SearchView, b: BudgetView, answers: Seq<Answers>) -> Run
    decreases answers.len(),
{
    let a = s.advanced(b);
    if s.step(b) is Finished || answers.len() == 0 {
        Run { search: a, budget: b, fetched: Seq::<nat>::empty() }
    } else {
        let issue_id = a.issues[a.position as int].id;
        let w = walk(
            FetcherView::<Comment>::start(ResourceView::Comments { issue_id }),
            b,
            answers[0],
        );
        let rest = run(
            a.received(comment_views(w.fetcher.nodes)),
            w.budget,
            answers.drop_first(),
        );
        Run { fetched: seq![a.position] + rest.fetched, ..rest }
    }
}

/// Where a scan stops: at or after its start, within the issues, at an
/// issue that needs its comments if it stops before the end, and past
/// issues that need none.
pub proof fn lemma_next_stop(s: SearchView, from: nat)
    requires
        from <= s.issues.len(),
    ensures
        from <= s.next_stop(from) <= s.issues.len(),
        s.next_stop(from) < s.issues.len() ==> s.needs_comments(s.next_stop(from) as int),
        forall|i: int| from <= i < s.next_stop(from) ==> !s.needs_comments(i),
    decreases s.issues.len() - from,
{
    if from < s.issues.len() && !s.needs_comments(from as int) {
        lemma_next_stop(s, from + 1);
    }
}

/// A step keeps a search well formed.
pub proof fn lemma_steps_keep_wf(s: SearchView, b: BudgetView, comments: Seq<CommentView>)
    requires
        s.wf(),
    ensures
        s.advanced(b).wf(),
        s.received(comments).wf(),
{
    lemma_next_stop(s, s.position);
}

/// The comments of an issue are asked for only when neither its title nor
/// its description matched: an issue that one of them proves relevant is
/// never the subject of a request, at any step of any search.
pub proof fn lemma_short_circuit(s: SearchView, b: BudgetView)
    requires
        s.wf(),
    ensures
        s.step(b) matches SearchStepView::FetchComments { issue_id } ==> {
            let p = s.advanced(b).position as int;
            &&& s.comments
            &&& 0 <= p < s.issues.len()
            &&& issue_id == s.issues[p].id
            &&& !s.in_title(p)
            &&& !s.in_desc(p)
        },
        forall|i: int|
            s.position <= i < s.advanced(b).position ==> !s.needs_comments(i),
{
    lemma_next_stop(s, s.position);
}

proof fn lemma_direct_matches_justified(s: SearchView, from: nat)
    ensures
        all_justified(s.direct_matches(from)),
    decreases s.issues.len() - from,
{
    if from >= s.issues.len() || s.needs_comments(from as int) {
    } else {
        lemma_direct_matches_justified(s, from + 1);
    }
}

/// A match is recorded only for an issue in which the term was found: in
/// its title, in its description or in at least one comment. No step adds
/// a record that says otherwise.
pub proof fn lemma_steps_keep_matches_justified(
    s: SearchView,
    b: BudgetView,
    comments: Seq<CommentView>,
)
    requires
        all_justified(s.matches),
    ensures
        all_justified(s.advanced(b).matches),
        all_justified(s.received(comments).matches),
{
    lemma_direct_matches_justified(s, s.position);
}

/// With the budget spent a search is over as it stands: it keeps its
/// matches and its position, asks for nothing, and costs nothing, whatever
/// answers stand ready.
pub proof fn lemma_spent_budget_stops_search(s: SearchView, b: BudgetView, answers: Seq<Answers>)
    requires
        b.exhausted(),
    ensures
        s.advanced(b) == s,
        s.step(b) is Finished,
        run(s, b, answers) == (Run { search: s, budget: b, fetched: Seq::<nat>::empty() }),
{
}

/// Over a whole search: comments are fetched only for issues that needed
/// them, each at most once and in the order of the issues; the matches
/// stay justified; the budget never shrinks and its cap stays.
pub proof fn lemma_run_fetches_only_when_needed(s: SearchView, b: BudgetView, answers: Seq<Answers>)
    requires
        s.wf(),
        all_justified(s.matches),
    ensures
        ({
            let r = run(s, b, answers);
            &&& r.search.wf()
            &&& all_justified(r.search.matches)
            &&& r.search.issues == s.issues
            &&& s.position <= r.search.position
            &&& r.budget.cap == b.cap
            &&& b.count <= r.budget.count
            &&& r.fetched.len() == 0 ==> r.budget == b
            &&& forall|k: int|
                0 <= k < r.fetched.len() ==> {
                    let i = (#[trigger] r.fetched[k]) as int;
                    &&& s.position <= i < s.issues.len()
                    &&& i < r.search.position || (i == r.search.position && r.search.awaiting)
                    &&& s.comments
                    &&& !s.in_title(i)
                    &&& !s.in_desc(i)
                }
            &&& forall|j: int, k: int|
                0 <= j < k < r.fetched.len() ==> r.fetched[j] < r.fetched[k]
        }),
    decreases answers.len(),
{
    let a = s.advanced(b);
    lemma_next_stop(s, s.position);
    lemma_steps_keep_matches_justified(s, b, Seq::empty());
    if s.step(b) is Finished || answers.len() == 0 {
    } else {
        let issue_id = a.issues[a.position as int].id;
        let w = walk(
            FetcherView::<Comment>::start(ResourceView::Comments { issue_id }),
            b,
            answers[0],
        );
        let comments = comment_views(w.fetcher.nodes);
        let next = a.received(comments);
        lemma_walk_accounts(
            FetcherView::<Comment>::start(ResourceView::Comments { issue_id }),
            b,
            answers[0],
        );
        lemma_steps_keep_wf(a, b, comments);
        lemma_steps_keep_matches_justified(a, b, comments);
        lemma_run_fetches_only_when_needed(next, w.budget, answers.drop_first());
    }
}

/// A search that never needs comments, because comments are not searched
/// or because every issue left matches by title or description, deals with
/// all its issues in one step and leaves the budget as it was.
pub proof fn lemma_direct_hits_cost_nothing(s: SearchView, b: BudgetView, answers: Seq<Answers>)
    requires
        s.wf(),
        !s.awaiting,
        !b.exhausted(),
        forall|i: int| s.position <= i < s.issues.len() ==> !s.needs_comments(i),
    ensures
        run(s, b, answers).budget == b,
        run(s, b, answers).fetched.len() == 0,
        run(s, b, answers).search == s.advanced(b),
        s.advanced(b).position == s.issues.len(),
        s.step(b) is Finished,
{
    lemma_next_stop(s, s.position);
}

/// The term is in the title of `issue` or, where descriptions are
/// searched, in its description.
pub open spec fn is_direct_hit(issue: IssueView, needle: Seq<char>, descriptions: bool) -> bool {
    term_in(needle, issue.title) || (descriptions && match issue.description {
        Some(d) => term_in(needle, d),
        None => false,
    })
}

/// The record of an issue that matched by title or description.
pub open spec fn direct_match(
    issue: IssueView,
    needle: Seq<char>,
    descriptions: bool,
) -> MatchView {
    match_of(
        issue,
        term_in(needle, issue.title),
        descriptions && match issue.description {
            Some(d) => term_in(needle, d),
            None => false,
        },
        Seq::<CommentHitView>::empty(),
    )
}

/// What a search that leaves comments aside finds among `issues`: the
/// issues that match by title or description, each with its record, in
/// the order of the issues.
pub open spec fn direct_results(
    issues: Seq<IssueView>,
    needle: Seq<char>,
    descriptions: bool,
) -> Seq<MatchView> {
    issues.filter(|i: IssueView| is_direct_hit(i, needle, descriptions)).map_values(
        |i: IssueView| direct_match(i, needle, descriptions),
    )
}

proof fn lemma_direct_results_unfold(issues: Seq<IssueView>, needle: Seq<char>, descriptions: bool)
    requires
        issues.len() > 0,
    ensures
        direct_results(issues, needle, descriptions) == (if is_direct_hit(
            issues[0],
            needle,
            descriptions,
        ) {
            seq![direct_match(issues[0], needle, descriptions)]
        } else {
            Seq::<MatchView>::empty()
        }) + direct_results(issues.drop_first(), needle, descriptions),
{
    let pred = |i: IssueView| is_direct_hit(i, needle, descriptions);
    let first = seq![issues[0]];
    let rest = issues.drop_first();
    assert(issues =~= first + rest);
    Seq::filter_distributes_over_add(first, rest, pred);
    assert(first.filter(pred) =~= if pred(issues[0]) {
        first
    } else {
        Seq::<IssueView>::empty()
    }) by {
        reveal_with_fuel(Seq::filter, 2);
    }
}

proof fn lemma_direct_matches_are_direct_results(s: SearchView, from: nat)
    requires
        !s.comments,
        from <= s.issues.len(),
    ensures
        s.direct_matches(from) == direct_results(
            s.issues.skip(from as int),
            s.needle,
            s.descriptions,
        ),
    decreases s.issues.len() - from,
{
    let tail = s.issues.skip(from as int);
    if from >= s.issues.len() {
        reveal_with_fuel(Seq::filter, 1);
    } else {
        lemma_direct_matches_are_direct_results(s, from + 1);
        assert(tail.drop_first() =~= s.issues.skip(from as int + 1));
        lemma_direct_results_unfold(tail, s.needle, s.descriptions);
    }
}

/// A search that leaves comments aside and starts with budget to spare
/// finds, in a single step and at no cost, exactly the issues that match
/// by title or description, in the order in which they were fetched.
pub proof fn lemma_search_without_comments(
    issues: Seq<IssueView>,
    term: Seq<char>,
    descriptions: bool,
    b: BudgetView,
    answers: Seq<Answers>,
)
    requires
        !b.exhausted(),
    ensures
        ({
            let s = SearchView::start(issues, term, descriptions, false);
            let r = run(s, b, answers);
            &&& r.search.matches == direct_results(issues, s.needle, descriptions)
            &&& r.search.position == issues.len()
            &&& r.budget == b
            &&& r.fetched.len() == 0
        }),
{
    let s = SearchView::start(issues, term, descriptions, false);
    lemma_next_stop(s, 0);
    lemma_direct_hits_cost_nothing(s, b, answers);
    lemma_direct_matches_are_direct_results(s, 0);
    assert(issues.skip(0) =~= issues);
}

} // verus!
