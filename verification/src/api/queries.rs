//! The three query texts. Each takes the cursor as `$after`.

use vstd::prelude::*;

verus! {

/// All teams, fifty to a page.
pub const TEAMS_QUERY: &'static str = r#"
    query Teams($after: String) {
        teams(first: 50, after: $after) {
            nodes { id key name }
            pageInfo { hasNextPage endCursor }
        }
    }
"#;

/// The issues of one team, last updated first, a hundred to a page.
pub const ISSUES_QUERY: &'static str = r#"
    query Issues($teamId: ID!, $after: String) {
        issues(first: 100, after: $after, orderBy: updatedAt, filter: { team: { id: { eq: $teamId } } }) {
            nodes { id identifier title url description team { key name } }
            pageInfo { hasNextPage endCursor }
        }
    }
"#;

/// The comments of one issue, a hundred to a page.
pub const ISSUE_COMMENTS_QUERY: &'static str = r#"
    query IssueComments($issueId: String!, $after: String) {
        issue(id: $issueId) {
            id
            comments(first: 100, after: $after) {
                nodes { id body user { name } createdAt url }
                pageInfo { hasNextPage endCursor }
            }
        }
    }
"#;

} // verus!
