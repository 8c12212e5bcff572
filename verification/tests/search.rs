use linsearch::api::types::{Comment, CommentHit, Connection, Issue, Match, PageInfo, TeamInfo, User};
use linsearch::api::LinearClient;
use linsearch::search::{
    build_match, comment_hits, render_team_label, search_issues, should_fetch_comments,
    IssueSearch, SearchOptions, SearchStep,
};

fn search_issue(n: u32, title: &str, description: Option<&str>) -> Issue {
    Issue {
        id: format!("issue-{}", n),
        identifier: format!("ENG-{}", n),
        title: title.to_string(),
        url: format!("https://example.test/ENG-{}", n),
        description: description.map(|d| d.to_string()),
        team: Some(TeamInfo { key: "ENG".to_string(), name: "Engineering".to_string() }),
    }
}

fn search_comment(n: u32, body: &str, author: Option<&str>) -> Comment {
    Comment {
        id: format!("comment-{}", n),
        body: body.to_string(),
        user: author.map(|a| User { name: a.to_string() }),
        created_at: format!("2024-02-{:02}T10:00:00Z", n),
        url: format!("https://example.test/c/{}", n),
    }
}

fn search_hit(n: u32, commenter: &str) -> CommentHit {
    CommentHit {
        commenter: commenter.to_string(),
        created_at: format!("2024-02-{:02}T10:00:00Z", n),
        url: format!("https://example.test/c/{}", n),
    }
}

fn search_options(term: &str, descriptions: bool, comments: bool) -> SearchOptions {
    SearchOptions::new(term.to_string(), descriptions, comments)
}

/// Runs a search to its end; each request for comments is answered by one
/// page taken from `comments_of`, at the price of one request.
fn search_drive(
    client: &mut LinearClient,
    search: &mut IssueSearch,
    comments_of: &dyn Fn(&str) -> Vec<Comment>,
) -> Vec<String> {
    let mut asked = Vec::new();
    loop {
        match search.advance(client) {
            SearchStep::Finished => break,
            SearchStep::FetchComments { issue_id } => {
                let mut fetcher = client.fetch_comments(&issue_id);
                while let Some(_request) = client.next_request(&mut fetcher) {
                    fetcher.receive(Some(Connection {
                        nodes: comments_of(&issue_id),
                        page_info: PageInfo { has_next_page: false, end_cursor: None },
                    }));
                }
                asked.push(issue_id);
                search.receive_comments(fetcher.into_nodes());
            }
        }
    }
    asked
}

#[test]
fn search_options_new_keeps_its_arguments() {
    let o = SearchOptions::new("api".to_string(), true, false);
    assert_eq!(o.search_term, "api");
    assert!(o.search_descriptions);
    assert!(!o.search_comments);
}

#[test]
fn should_fetch_comments_truth_table() {
    for title in [false, true] {
        for desc in [false, true] {
            for comments_enabled in [false, true] {
                for desc_enabled in [false, true] {
                    let expected = comments_enabled && !title && !(desc_enabled && desc);
                    assert_eq!(
                        should_fetch_comments(title, desc, comments_enabled, desc_enabled),
                        expected
                    );
                }
            }
        }
    }
    assert!(should_fetch_comments(false, false, true, true));
    assert!(should_fetch_comments(false, true, true, false));
    assert!(!should_fetch_comments(true, false, true, true));
    assert!(!should_fetch_comments(false, true, true, true));
    assert!(!should_fetch_comments(false, false, false, true));
}

#[test]
fn team_label_has_key_in_brackets() {
    let team = Some(TeamInfo { key: "ENG".to_string(), name: "Engineering".to_string() });
    assert_eq!(render_team_label(&team), "[ENG] Engineering");
    assert_eq!(render_team_label(&None), "Unknown");
    let blank = Some(TeamInfo { key: String::new(), name: String::new() });
    assert_eq!(render_team_label(&blank), "[] ");
}

#[test]
fn build_match_copies_the_issue() {
    let issue = search_issue(4, "Fix API crash", Some("d"));
    let m = build_match(&issue, true, false, vec![search_hit(1, "Ann")]);
    assert_eq!(
        m,
        Match {
            team: "[ENG] Engineering".to_string(),
            id: "ENG-4".to_string(),
            title: "Fix API crash".to_string(),
            url: "https://example.test/ENG-4".to_string(),
            in_title: true,
            in_desc: false,
            comments_matched: vec![search_hit(1, "Ann")],
        }
    );
}

#[test]
fn comment_hits_keep_server_order_and_name_unknown_authors() {
    let comments = vec![
        search_comment(1, "The API is down", Some("Ann")),
        search_comment(2, "unrelated", Some("Bob")),
        search_comment(3, "api again", None),
        search_comment(4, "see rapid change", Some("Cy")),
    ];
    let hits = comment_hits(&comments, "api");
    assert_eq!(hits, vec![search_hit(1, "Ann"), search_hit(3, "Unknown"), search_hit(4, "Cy")]);
    assert!(comment_hits(&comments, "zzz").is_empty());
    assert!(comment_hits(&Vec::new(), "api").is_empty());
}

#[test]
fn title_match_without_descriptions_or_comments() {
    let mut client = LinearClient::with_budget("k".to_string(), 10);
    let mut search =
        search_issues(vec![search_issue(1, "Fix API crash", None)], &search_options("api", false, false));
    assert_eq!(search.advance(&client), SearchStep::Finished);
    assert_eq!(client.request_count(), 0);
    let asked = search_drive(&mut client, &mut search, &|_| panic!("no comments wanted"));
    assert!(asked.is_empty());
    let matches = search.into_matches();
    assert_eq!(matches.len(), 1);
    assert!(matches[0].in_title);
    assert!(!matches[0].in_desc);
    assert!(matches[0].comments_matched.is_empty());
    assert_eq!(matches[0].title, "Fix API crash");
    assert_eq!(matches[0].id, "ENG-1");
    assert_eq!(matches[0].team, "[ENG] Engineering");
    assert_eq!(matches[0].url, "https://example.test/ENG-1");
}

#[test]
fn description_match_never_fetches_comments() {
    let mut client = LinearClient::with_budget("k".to_string(), 10);
    let mut search = search_issues(
        vec![search_issue(1, "Bug", Some("relates to the API"))],
        &search_options("api", true, true),
    );
    let asked = search_drive(&mut client, &mut search, &|_| panic!("no comments wanted"));
    assert!(asked.is_empty());
    assert_eq!(client.request_count(), 0);
    let matches = search.into_matches();
    assert_eq!(matches.len(), 1);
    assert!(!matches[0].in_title);
    assert!(matches[0].in_desc);
    assert!(matches[0].comments_matched.is_empty());
}

#[test]
fn upper_case_term_matches_lower_case_text_everywhere() {
    let mut client = LinearClient::with_budget("k".to_string(), 10);
    let issues = vec![
        search_issue(1, "the api breaks", None),
        search_issue(2, "Bug", Some("about the api")),
        search_issue(3, "Other", Some("nothing")),
    ];
    let mut search = search_issues(issues, &search_options("API", true, true));
    let asked = search_drive(&mut client, &mut search, &|_| {
        vec![search_comment(1, "api in a comment", Some("Ann"))]
    });
    assert_eq!(asked, vec!["issue-3".to_string()]);
    let matches = search.into_matches();
    assert_eq!(matches.len(), 3);
    assert!(matches[0].in_title && !matches[0].in_desc);
    assert!(!matches[1].in_title && matches[1].in_desc);
    assert!(!matches[2].in_title && !matches[2].in_desc);
    assert_eq!(matches[2].comments_matched, vec![search_hit(1, "Ann")]);
}

#[test]
fn description_is_ignored_unless_asked_for() {
    let mut client = LinearClient::with_budget("k".to_string(), 10);
    let mut search = search_issues(
        vec![search_issue(1, "Bug", Some("relates to the API"))],
        &search_options("api", false, true),
    );
    let asked = search_drive(&mut client, &mut search, &|_| Vec::new());
    assert_eq!(asked, vec!["issue-1".to_string()]);
    assert_eq!(client.request_count(), 1);
    assert!(search.into_matches().is_empty());
}

#[test]
fn title_and_description_can_both_match() {
    let mut client = LinearClient::with_budget("k".to_string(), 10);
    let mut search = search_issues(
        vec![search_issue(1, "API bug", Some("the api fails"))],
        &search_options("api", true, true),
    );
    search_drive(&mut client, &mut search, &|_| panic!("no comments wanted"));
    let matches = search.into_matches();
    assert!(matches[0].in_title && matches[0].in_desc);
}

#[test]
fn comments_are_fetched_only_for_issues_without_a_cheaper_hit() {
    let mut client = LinearClient::with_budget("k".to_string(), 10);
    let issues = vec![
        search_issue(1, "API one", None),
        search_issue(2, "nothing", None),
        search_issue(3, "Bug", Some("api here")),
        search_issue(4, "nothing either", Some("nor here")),
        search_issue(5, "last api", None),
    ];
    let mut search = search_issues(issues, &search_options("api", true, true));
    let asked = search_drive(&mut client, &mut search, &|id| {
        if id == "issue-4" {
            vec![search_comment(1, "no", None), search_comment(2, "API yes", Some("Bob"))]
        } else {
            vec![search_comment(3, "no", None)]
        }
    });
    assert_eq!(asked, vec!["issue-2".to_string(), "issue-4".to_string()]);
    assert_eq!(client.request_count(), 2);
    let matches = search.into_matches();
    let ids: Vec<&str> = matches.iter().map(|m| m.id.as_str()).collect();
    assert_eq!(ids, vec!["ENG-1", "ENG-3", "ENG-4", "ENG-5"]);
    assert_eq!(matches[2].comments_matched, vec![search_hit(2, "Bob")]);
    assert!(!matches[2].in_title && !matches[2].in_desc);
}

#[test]
fn issue_without_any_hit_gives_no_match() {
    let mut client = LinearClient::with_budget("k".to_string(), 10);
    let mut search = search_issues(
        vec![search_issue(1, "nothing", Some("at all"))],
        &search_options("api", true, true),
    );
    search_drive(&mut client, &mut search, &|_| vec![search_comment(1, "still nothing", None)]);
    assert_eq!(search.examined(), 1);
    assert!(search.into_matches().is_empty());
}

#[test]
fn spent_budget_ends_the_search_at_once() {
    let mut client = LinearClient::with_budget("k".to_string(), 1);
    let mut f = client.fetch_teams();
    assert!(client.next_request(&mut f).is_some());
    assert!(client.budget_exhausted());
    let mut search = search_issues(
        vec![search_issue(1, "Fix API crash", None), search_issue(2, "api", None)],
        &search_options("api", false, false),
    );
    assert_eq!(search.advance(&client), SearchStep::Finished);
    assert_eq!(search.examined(), 0);
    assert!(search.matches().is_empty());
    assert_eq!(search.advance(&client), SearchStep::Finished);
    assert_eq!(client.request_count(), 1);
    assert!(search.into_matches().is_empty());
}

#[test]
fn budget_spent_by_comments_omits_the_remaining_issues() {
    let mut client = LinearClient::with_budget("k".to_string(), 1);
    let issues = vec![
        search_issue(1, "API first", None),
        search_issue(2, "needs comments", None),
        search_issue(3, "API third", None),
    ];
    let mut search = search_issues(issues, &search_options("api", false, true));
    let asked = search_drive(&mut client, &mut search, &|_| {
        vec![search_comment(1, "api", Some("Ann"))]
    });
    assert_eq!(asked, vec!["issue-2".to_string()]);
    assert!(client.budget_exhausted());
    assert_eq!(search.examined(), 2);
    let matches = search.into_matches();
    let ids: Vec<&str> = matches.iter().map(|m| m.id.as_str()).collect();
    assert_eq!(ids, vec!["ENG-1", "ENG-2"]);
}

#[test]
fn advance_repeats_its_request_while_comments_are_awaited() {
    let client = LinearClient::with_budget("k".to_string(), 10);
    let mut search =
        search_issues(vec![search_issue(1, "nothing", None)], &search_options("api", false, true));
    let first = search.advance(&client);
    assert_eq!(first, SearchStep::FetchComments { issue_id: "issue-1".to_string() });
    assert!(search.is_awaiting_comments());
    assert_eq!(search.advance(&client), first);
    assert_eq!(search.examined(), 0);
    search.receive_comments(vec![search_comment(1, "API", None)]);
    assert!(!search.is_awaiting_comments());
    assert_eq!(search.examined(), 1);
    assert_eq!(search.matches().len(), 1);
    assert_eq!(search.advance(&client), SearchStep::Finished);
}

#[test]
fn comments_nobody_asked_for_are_not_taken_in() {
    let client = LinearClient::with_budget("k".to_string(), 10);
    let mut search =
        search_issues(vec![search_issue(1, "API", None)], &search_options("api", false, true));
    search.receive_comments(vec![search_comment(1, "api", None)]);
    assert_eq!(search.examined(), 0);
    assert!(search.matches().is_empty());
    assert_eq!(search.advance(&client), SearchStep::Finished);
    search.receive_comments(vec![search_comment(1, "api", None)]);
    assert_eq!(search.matches().len(), 1);
    assert!(search.matches()[0].comments_matched.is_empty());
}

#[test]
fn empty_term_matches_every_title() {
    let mut client = LinearClient::with_budget("k".to_string(), 10);
    let mut search = search_issues(
        vec![search_issue(1, "a", None), search_issue(2, "", None)],
        &search_options("", false, true),
    );
    let asked = search_drive(&mut client, &mut search, &|_| panic!("no comments wanted"));
    assert!(asked.is_empty());
    assert_eq!(search.into_matches().len(), 2);
}

#[test]
fn issue_without_team_is_labelled_unknown() {
    let mut client = LinearClient::with_budget("k".to_string(), 10);
    let mut issue = search_issue(1, "API", None);
    issue.team = None;
    let mut search = search_issues(vec![issue], &search_options("api", false, false));
    search_drive(&mut client, &mut search, &|_| panic!("no comments wanted"));
    assert_eq!(search.into_matches()[0].team, "Unknown");
}

#[test]
fn no_issues_no_matches() {
    let mut client = LinearClient::with_budget("k".to_string(), 10);
    let mut search = search_issues(Vec::new(), &search_options("api", true, true));
    assert_eq!(search.advance(&client), SearchStep::Finished);
    search_drive(&mut client, &mut search, &|_| panic!("no comments wanted"));
    assert!(search.into_matches().is_empty());
}

#[test]
fn absent_description_counts_as_no_match() {
    let mut client = LinearClient::with_budget("k".to_string(), 10);
    let mut search = search_issues(
        vec![search_issue(1, "Bug", None), search_issue(2, "Other", Some(""))],
        &search_options("api", true, false),
    );
    let asked = search_drive(&mut client, &mut search, &|_| panic!("no comments wanted"));
    assert!(asked.is_empty());
    assert_eq!(search.examined(), 2);
    assert!(search.into_matches().is_empty());
}

#[test]
fn comments_walk_that_spends_the_budget_still_counts_its_hits() {
    let mut client = LinearClient::with_budget("k".to_string(), 2);
    let issues = vec![search_issue(1, "nothing", None), search_issue(2, "API", None)];
    let mut search = search_issues(issues, &search_options("api", false, true));
    assert_eq!(
        search.advance(&client),
        SearchStep::FetchComments { issue_id: "issue-1".to_string() }
    );
    let mut fetcher = client.fetch_comments("issue-1");
    assert!(client.next_request(&mut fetcher).is_some());
    fetcher.receive(Some(Connection {
        nodes: vec![search_comment(1, "api one", Some("Ann"))],
        page_info: PageInfo { has_next_page: true, end_cursor: Some("c1".to_string()) },
    }));
    assert!(client.next_request(&mut fetcher).is_some());
    fetcher.receive(Some(Connection {
        nodes: vec![search_comment(2, "api two", None)],
        page_info: PageInfo { has_next_page: true, end_cursor: Some("c2".to_string()) },
    }));
    assert!(client.next_request(&mut fetcher).is_none());
    search.receive_comments(fetcher.into_nodes());
    assert_eq!(search.advance(&client), SearchStep::Finished);
    assert_eq!(search.examined(), 1);
    let matches = search.into_matches();
    assert_eq!(matches.len(), 1);
    assert_eq!(matches[0].id, "ENG-1");
    assert_eq!(matches[0].comments_matched, vec![search_hit(1, "Ann"), search_hit(2, "Unknown")]);
}
