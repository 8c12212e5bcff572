//! The text of what a run reports: plain characters, computed here and
//! printed or written to a file elsewhere.

use vstd::prelude::*;

use crate::api::types::{hit_views, match_views, CommentHit, CommentHitView, Match, MatchView};

verus! {

/// The character of a decimal digit.
pub open spec fn digit_char(d: nat) -> char {
    if d == 0 {
        '0'
    } else if d == 1 {
        '1'
    } else if d == 2 {
        '2'
    } else if d == 3 {
        '3'
    } else if d == 4 {
        '4'
    } else if d == 5 {
        '5'
    } else if d == 6 {
        '6'
    } else if d == 7 {
        '7'
    } else if d == 8 {
        '8'
    } else {
        '9'
    }
}

/// A number in decimal, without sign or leading zeros.
pub open spec fn decimal(n: nat) -> Seq<char>
    decreases n,
{
    if n < 10 {
        seq![digit_char(n)]
    } else {
        decimal(n / 10).push(digit_char(n % 10))
    }
}

fn digit_text(d: usize) -> (s: &'static str)
    requires
        d < 10,
    ensures
        s@ == seq![digit_char(d as nat)],
{
    proof {
        reveal_strlit("0");
        reveal_strlit("1");
        reveal_strlit("2");
        reveal_strlit("3");
        reveal_strlit("4");
        reveal_strlit("5");
        reveal_strlit("6");
        reveal_strlit("7");
        reveal_strlit("8");
        reveal_strlit("9");
    }
    let s = if d == 0 {
        "0"
    } else if d == 1 {
        "1"
    } else if d == 2 {
        "2"
    } else if d == 3 {
        "3"
    } else if d == 4 {
        "4"
    } else if d == 5 {
        "5"
    } else if d == 6 {
        "6"
    } else if d == 7 {
        "7"
    } else if d == 8 {
        "8"
    } else {
        "9"
    };
    s
}

/// Writes a number in decimal.
pub fn render_decimal(n: usize) -> (s: String)
    ensures
        s@ == decimal(n as nat),
    decreases n,
{
    if n < 10 {
        digit_text(n).to_owned()
    } else {
        let mut s = render_decimal(n / 10);
        s.append(digit_text(n % 10));
        s
    }
}

/// The parts of a list, with `sep` between each two neighbours.
pub open spec fn joined(parts: Seq<Seq<char>>, sep: Seq<char>) -> Seq<char>
    decreases parts.len(),
{
    if parts.len() == 0 {
        Seq::<char>::empty()
    } else if parts.len() == 1 {
        parts[0]
    } else {
        joined(parts.drop_last(), sep) + sep + parts.last()
    }
}

/// The texts of a list of labels.
pub open spec fn label_texts(labels: Seq<&'static str>) -> Seq<Seq<char>> {
    labels.map_values(|l: &'static str| l@)
}

/// Joins labels with `sep` between each two neighbours.
pub fn join_labels(labels: &Vec<&'static str>, sep: &str) -> (s: String)
    ensures
        s@ == joined(label_texts(labels@), sep@),
{
    let mut s = String::new();
    let ghost texts = label_texts(labels@);
    let mut i: usize = 0;
    while i < labels.len()
        invariant
            i <= labels.len(),
            texts == label_texts(labels@),
            s@ == joined(texts.take(i as int), sep@),
        decreases labels.len() - i,
    {
        proof {
            let longer = texts.take(i + 1);
            assert(longer.drop_last() =~= texts.take(i as int));
        }
        if i > 0 {
            s.append(sep);
        }
        s.append(labels[i]);
        i = i + 1;
    }
    proof {
        assert(texts.take(labels.len() as int) =~= texts);
    }
    s
}

/// The names of the fields in which a match was found, title first.
pub open spec fn matched_in(in_title: bool, in_desc: bool) -> Seq<Seq<char>> {
    (if in_title {
        seq!["title"@]
    } else {
        Seq::<Seq<char>>::empty()
    }) + (if in_desc {
        seq!["description"@]
    } else {
        Seq::<Seq<char>>::empty()
    })
}

/// Names the fields in which a match was found, title first.
pub fn matched_fields(in_title: bool, in_desc: bool) -> (labels: Vec<&'static str>)
    ensures
        label_texts(labels@) == matched_in(in_title, in_desc),
{
    let mut labels: Vec<&'static str> = Vec::new();
    if in_title {
        labels.push("title");
    }
    if in_desc {
        labels.push("description");
    }
    labels
}

/// The names of the fields that a search looks into besides the title.
pub open spec fn searched_in(descriptions: bool, comments: bool) -> Seq<Seq<char>> {
    (if descriptions {
        seq!["descriptions"@]
    } else {
        Seq::<Seq<char>>::empty()
    }) + (if comments {
        seq!["comments"@]
    } else {
        Seq::<Seq<char>>::empty()
    })
}

/// Names the fields that a search looks into besides the title.
pub fn search_fields(descriptions: bool, comments: bool) -> (labels: Vec<&'static str>)
    ensures
        label_texts(labels@) == searched_in(descriptions, comments),
{
    let mut labels: Vec<&'static str> = Vec::new();
    if descriptions {
        labels.push("descriptions");
    }
    if comments {
        labels.push("comments");
    }
    labels
}

/// The head of a report: the term, the number of results, and the requests
/// used against the cap.
pub open spec fn report_header(term: Seq<char>, total: nat, count: nat, cap: nat) -> Seq<char> {
    "# LinSearch Results\n\n"@ + "**Search term:** `"@ + term + "`\n"@ + "**Total results:** "@
        + decimal(total) + "\n"@ + "**API requests used:** "@ + decimal(count) + "/"@ + decimal(
        cap,
    ) + "\n\n"@ + "---\n\n"@
}

/// The two lines of one comment hit.
pub open spec fn hit_lines(h: CommentHitView) -> Seq<char> {
    "- **"@ + h.commenter + "** ("@ + h.created_at + ")\n"@ + "  - "@ + h.url + "\n"@
}

/// The lines of the first `n` hits of a list.
pub open spec fn hits_text(hits: Seq<CommentHitView>, n: nat) -> Seq<char>
    decreases n,
{
    if n == 0 || n > hits.len() {
        Seq::<char>::empty()
    } else {
        hits_text(hits, (n - 1) as nat) + hit_lines(hits[n - 1])
    }
}

/// The line that names the matching fields; nothing where neither the
/// title nor the description matched.
pub open spec fn fields_line(m: MatchView) -> Seq<char> {
    if m.in_title || m.in_desc {
        "**Matched in:** "@ + joined(matched_in(m.in_title, m.in_desc), ", "@) + "\n"@
    } else {
        Seq::<char>::empty()
    }
}

/// The block that lists the comment hits; nothing where there is none.
pub open spec fn comments_block(m: MatchView) -> Seq<char> {
    if m.comments_matched.len() > 0 {
        "\n"@ + "**\u{1F4AC} "@ + decimal(m.comments_matched.len()) + " comment(s) matched:**\n"@
            + "\n"@ + hits_text(m.comments_matched, m.comments_matched.len())
    } else {
        Seq::<char>::empty()
    }
}

/// The section of one match, headed by its number in the report.
pub open spec fn match_section(number: nat, m: MatchView) -> Seq<char> {
    "## "@ + decimal(number) + ". "@ + m.title + "\n"@ + "\n"@ + "**Team:** "@ + m.team + "\n"@
        + "**URL:** "@ + m.url + "\n"@ + "\n"@ + fields_line(m) + comments_block(m) + "\n"@
        + "---\n\n"@
}

/// The sections of the first `n` matches, numbered from one.
pub open spec fn sections(matches: Seq<MatchView>, n: nat) -> Seq<char>
    decreases n,
{
    if n == 0 || n > matches.len() {
        Seq::<char>::empty()
    } else {
        sections(matches, (n - 1) as nat) + match_section(n, matches[n - 1])
    }
}

/// The whole report: the head, then one section per match in the order
/// of the matches, or one line that says that nothing was found.
pub open spec fn report(matches: Seq<MatchView>, term: Seq<char>, count: nat, cap: nat) -> Seq<
    char,
> {
    report_header(term, matches.len(), count, cap) + (if matches.len() == 0 {
        "No issues found containing '"@ + term + "'.\n"@
    } else {
        sections(matches, matches.len())
    })
}

fn render_header(term: &str, total: usize, count: usize, cap: usize) -> (s: String)
    ensures
        s@ == report_header(term@, total as nat, count as nat, cap as nat),
{
    let mut s = "# LinSearch Results\n\n".to_owned();
    s.append("**Search term:** `");
    s.append(term);
    s.append("`\n");
    s.append("**Total results:** ");
    s.append(render_decimal(total).as_str());
    s.append("\n");
    s.append("**API requests used:** ");
    s.append(render_decimal(count).as_str());
    s.append("/");
    s.append(render_decimal(cap).as_str());
    s.append("\n\n");
    s.append("---\n\n");
    s
}

fn append_hits(s: &mut String, hits: &Vec<CommentHit>)
    ensures
        final(s)@ == old(s)@ + hits_text(hit_views(hits@), hits@.len()),
{
    let ghost views = hit_views(hits@);
    let mut i: usize = 0;
    while i < hits.len()
        invariant
            i <= hits.len(),
            views == hit_views(hits@),
            s@ == old(s)@ + hits_text(views, i as nat),
        decreases hits.len() - i,
    {
        let h = &hits[i];
        s.append("- **");
        s.append(h.commenter.as_str());
        s.append("** (");
        s.append(h.created_at.as_str());
        s.append(")\n");
        s.append("  - ");
        s.append(h.url.as_str());
        s.append("\n");
        i = i + 1;
    }
}

fn render_section(number: usize, m: &Match) -> (s: String)
    ensures
        s@ == match_section(number as nat, m@),
{
    let mut s = "## ".to_owned();
    s.append(render_decimal(number).as_str());
    s.append(". ");
    s.append(m.title.as_str());
    s.append("\n");
    s.append("\n");
    s.append("**Team:** ");
    s.append(m.team.as_str());
    s.append("\n");
    s.append("**URL:** ");
    s.append(m.url.as_str());
    s.append("\n");
    s.append("\n");
    let ghost head = s@;
    let labels = matched_fields(m.in_title, m.in_desc);
    if labels.len() > 0 {
        s.append("**Matched in:** ");
        s.append(join_labels(&labels, ", ").as_str());
        s.append("\n");
    }
    assert(s@ =~= head + fields_line(m@));
    let ghost with_fields = s@;
    if m.comments_matched.len() > 0 {
        s.append("\n");
        s.append("**\u{1F4AC} ");
        s.append(render_decimal(m.comments_matched.len()).as_str());
        s.append(" comment(s) matched:**\n");
        s.append("\n");
        append_hits(&mut s, &m.comments_matched);
    }
    assert(s@ =~= with_fields + comments_block(m@));
    s.append("\n");
    s.append("---\n\n");
    s
}

/// Renders the report of a search: what was looked for, how many issues
/// matched, how many requests were used, and for each match its title,
/// team, address, the fields that matched and the comments that did.
pub fn render_report(
    matches: &Vec<Match>,
    search_term: &str,
    request_count: usize,
    max_requests: usize,
) -> (text: String)
    ensures
        text@ == report(
            match_views(matches@),
            search_term@,
            request_count as nat,
            max_requests as nat,
        ),
{
    let mut text = render_header(search_term, matches.len(), request_count, max_requests);
    let ghost views = match_views(matches@);
    let ghost head = text@;
    if matches.len() == 0 {
        text.append("No issues found containing '");
        text.append(search_term);
        text.append("'.\n");
        return text;
    }
    let mut i: usize = 0;
    while i < matches.len()
        invariant
            i <= matches.len(),
            views == match_views(matches@),
            text@ == head + sections(views, i as nat),
        decreases matches.len() - i,
    {
        let section = render_section(i + 1, &matches[i]);
        text.append(section.as_str());
        i = i + 1;
    }
    text
}

} // verus!
