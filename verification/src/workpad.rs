//! The workpad: the one task comment in which an agent keeps its notes.
use vstd::prelude::*;
use vstd::string::*;
use vstd::utf8::{is_ascii_chars, is_ascii_chars_encode_utf8};

use crate::json::{id_string, id_text, opt_json_text, views, Json, JsonView};
use crate::pattern::{find_match, first_match};
use crate::text::{
    after_prefix, all_ascii, begins, before, byte_len, byte_prefix, clean_cut, clean_cut_at, concat,
    concat3, contains, cut_bytes,
    cuts_cleanly, is_before, is_white, join, joined, lemma_ascii_cuts, lemma_before_irreflexive,
    lemma_before_total, lemma_before_transitive, lemma_byte_len_concat, lemma_byte_len_take,
    lemma_byte_prefix, lemma_clean_cut, lemma_cuts_between, lemma_joined_ascii,
    lemma_joined_holds, lemma_joined_starts, lemma_lines_ascii, lemma_occurs_concat,
    lemma_trimmed_ascii, lemma_trimmed_end, lemma_trimmed_end_keeps, lemma_trimmed_idempotent,
    len_bytes, lines, lowered, occurs, opt_is, opt_str, opt_text,
    owned, same, same_ignoring_case, split_lines, starts_with, strip_prefix, texts, trim, trim_end,
    trim_start, trimmed, trimmed_end, trimmed_start,
};
use crate::tracker::{
    text_result, unsupported, unsupported_view, TrackerError, TrackerErrorView,
    TODOIST_COMMENT_SIZE_LIMIT,
};

verus! {

broadcast use {vstd::seq::group_seq_axioms, vstd::string::group_string_axioms};

pub const WORKPAD_HEADER: &'static str = "## Codex Workpad";

pub const WORKPAD_MARKER: &'static str = "<!-- symphony:workpad -->";

pub const PR_URL_PATTERN: &'static str = "https://github\\.com/[A-Za-z0-9_.-]+/[A-Za-z0-9_.-]+/pull/\\d+";

/// The link to a GitHub pull request that a text holds first.
pub open spec fn pr_url_in(content: Seq<char>) -> Option<Seq<char>> {
    first_match(PR_URL_PATTERN@, content)
}

/// The link to a GitHub pull request that a text holds first.
pub fn extract_github_pr_url(content: &str) -> (r: Option<String>)
    ensures
        opt_text(r) == pr_url_in(content@),
        r matches Some(url) ==> occurs(content@, url@),
{
    find_match(PR_URL_PATTERN, content)
}

// ---------------------------------------------------------------------------
// Cutting
// ---------------------------------------------------------------------------

/// A text of more than `max` bytes is cut after `max` bytes and marked with an
/// ellipsis. There is no result where the cut would fall inside a character.
pub open spec fn cut_text(text: Seq<char>, max: nat) -> Option<Seq<char>> {
    if byte_len(text) <= max {
        Some(text)
    } else if cuts_cleanly(text, max as int) {
        Some(trimmed_end(byte_prefix(text, max as int)) + " ..."@)
    } else {
        None
    }
}

/// Cuts a text, where the cut falls between two characters.
pub fn try_truncate_workpad_text(text: &str, max: usize) -> (r: Option<String>)
    ensures
        opt_text(r) == cut_text(text@, max as nat),
        is_ascii_chars(text@) ==> r is Some,
{
    proof {
        if is_ascii_chars(text@) {
            lemma_ascii_is_cut(text@, max as nat);
        }
    }
    if len_bytes(text) <= max {
        Some(owned(text))
    } else if text.is_char_boundary(max) {
        let head: String = cut_bytes(text, max);
        let kept: String = trim_end(head.as_str());
        Some(concat(kept.as_str(), " ..."))
    } else {
        None
    }
}

/// Cuts a text of more than `max` bytes and marks it with an ellipsis.
pub fn truncate_workpad_text(text: &str, max: usize) -> (r: String)
    requires
        is_ascii_chars(text@) || cut_text(text@, max as nat) is Some,
    ensures
        cut_text(text@, max as nat) == Some(r@),
{
    match try_truncate_workpad_text(text, max) {
        Some(cut) => cut,
        None => String::new(),
    }
}

/// What is kept of a text that has to fit into `max` bytes: all of it, or as many of its
/// first characters as leave room for an ellipsis.
pub open spec fn fitted(text: Seq<char>, max: nat) -> Seq<char> {
    if byte_len(text) <= max {
        text
    } else if max < 4 {
        Seq::empty()
    } else {
        trimmed_end(byte_prefix(text, clean_cut(text, max - 4))) + " ..."@
    }
}

fn fit_workpad_text(text: &str, max: usize) -> (r: String)
    ensures
        r@ == fitted(text@, max as nat),
{
    if len_bytes(text) <= max {
        owned(text)
    } else if max < 4 {
        String::new()
    } else {
        let head: String = cut_bytes(text, clean_cut_at(text, max - 4));
        let kept: String = trim_end(head.as_str());
        concat(kept.as_str(), " ...")
    }
}

/// What closes a workpad that had to be cut: its pull request.
pub open spec fn pr_suffix(pr_url: Seq<char>) -> Seq<char> {
    "\n\nLinked PR: "@ + pr_url
}

/// A workpad that is too long for a comment is cut until it fits; the link to its pull
/// request is kept at the end.
pub open spec fn cut_to_limit(content: Seq<char>, pr_url: Option<Seq<char>>) -> Seq<char> {
    if byte_len(content) <= TODOIST_COMMENT_SIZE_LIMIT {
        content
    } else {
        match pr_url {
            Some(url) => {
                let suffix = pr_suffix(url);
                let budget = if byte_len(suffix) <= TODOIST_COMMENT_SIZE_LIMIT {
                    (TODOIST_COMMENT_SIZE_LIMIT - byte_len(suffix)) as nat
                } else {
                    0
                };
                fitted(content, budget) + suffix
            },
            None => fitted(content, TODOIST_COMMENT_SIZE_LIMIT as nat),
        }
    }
}

/// Whether the link to the pull request of a workpad fits into a comment.
pub open spec fn link_fits(pr_url: Option<Seq<char>>) -> bool {
    pr_url matches Some(url) ==> byte_len(pr_suffix(url)) <= TODOIST_COMMENT_SIZE_LIMIT
}

/// Cuts a workpad that is too long for a comment.
pub fn truncate_workpad_to_limit(content: &str, pr_url: &Option<String>) -> (r: String)
    ensures
        r@ == cut_to_limit(content@, opt_text(*pr_url)),
        link_fits(opt_text(*pr_url)) ==> byte_len(r@) <= TODOIST_COMMENT_SIZE_LIMIT,
{
    proof {
        if link_fits(opt_text(*pr_url)) {
            lemma_cut_to_limit_fits(content@, opt_text(*pr_url));
        }
    }
    if len_bytes(content) <= TODOIST_COMMENT_SIZE_LIMIT {
        return owned(content);
    }
    match pr_url {
        Some(url) => {
            let suffix: String = concat("\n\nLinked PR: ", url.as_str());
            let size: usize = len_bytes(suffix.as_str());
            let budget: usize = if size <= TODOIST_COMMENT_SIZE_LIMIT {
                TODOIST_COMMENT_SIZE_LIMIT - size
            } else {
                0
            };
            let kept: String = fit_workpad_text(content, budget);
            concat(kept.as_str(), suffix.as_str())
        },
        None => fit_workpad_text(content, TODOIST_COMMENT_SIZE_LIMIT),
    }
}

/// What is kept of a text fits.
proof fn lemma_fitted_size(text: Seq<char>, max: nat)
    ensures
        byte_len(fitted(text, max)) <= max,
{
    if byte_len(text) > max {
        if max < 4 {
            assert(byte_len(Seq::empty()) == 0);
        } else {
            let n = clean_cut(text, max - 4);
            lemma_clean_cut(text, max - 4);
            let head = byte_prefix(text, n);
            let _rest = lemma_byte_prefix(text, n);
            lemma_trimmed_end(head);
            lemma_byte_len_take(head, trimmed_end(head).len() as int);
            lemma_byte_len_concat(trimmed_end(head), " ..."@);
            reveal_strlit(" ...");
            assert(is_ascii_chars(" ..."@));
            is_ascii_chars_encode_utf8(" ..."@);
        }
    }
}

/// A workpad that has been cut fits into a comment.
proof fn lemma_cut_to_limit_fits(content: Seq<char>, pr_url: Option<Seq<char>>)
    requires
        link_fits(pr_url),
    ensures
        byte_len(cut_to_limit(content, pr_url)) <= TODOIST_COMMENT_SIZE_LIMIT,
{
    if byte_len(content) > TODOIST_COMMENT_SIZE_LIMIT {
        match pr_url {
            Some(url) => {
                let budget = (TODOIST_COMMENT_SIZE_LIMIT - byte_len(pr_suffix(url))) as nat;
                lemma_fitted_size(content, budget);
                lemma_byte_len_concat(fitted(content, budget), pr_suffix(url));
            },
            None => {
                lemma_fitted_size(content, TODOIST_COMMENT_SIZE_LIMIT as nat);
            },
        }
    }
}

// ---------------------------------------------------------------------------
// Sections
// ---------------------------------------------------------------------------

/// The lines of a workpad without the first header line and the first marker line
/// after it.
pub open spec fn body_lines(
    all: Seq<Seq<char>>,
    header_seen: bool,
    marker_seen: bool,
) -> Seq<Seq<char>>
    decreases all.len(),
{
    if all.len() == 0 {
        Seq::empty()
    } else if !header_seen && trimmed(all[0]) == WORKPAD_HEADER@ {
        body_lines(all.skip(1), true, marker_seen)
    } else if header_seen && !marker_seen && trimmed(all[0]) == WORKPAD_MARKER@ {
        body_lines(all.skip(1), header_seen, true)
    } else {
        seq![all[0]] + body_lines(all.skip(1), header_seen, marker_seen)
    }
}

/// A workpad without its header and its marker.
pub open spec fn body_of(content: Seq<char>) -> Seq<char> {
    joined(body_lines(lines(content), false, false), "\n"@)
}

/// A workpad without its header and its marker.
pub fn strip_workpad_prefix(content: &str) -> (r: String)
    ensures
        r@ == body_of(content@),
{
    let all: Vec<String> = split_lines(content);
    let ghost ls = texts(all@);
    let mut body: Vec<String> = Vec::new();
    let mut header_seen: bool = false;
    let mut marker_seen: bool = false;
    let mut i: usize = 0;
    proof {
        assert(ls.skip(0) =~= ls);
        assert(texts(body@) + body_lines(ls, false, false) =~= body_lines(ls, false, false));
    }
    while i < all.len()
        invariant
            i <= all.len(),
            ls == texts(all@),
            body_lines(ls, false, false) == texts(body@) + body_lines(
                ls.skip(i as int),
                header_seen,
                marker_seen,
            ),
        decreases all.len() - i,
    {
        let ghost rest = ls.skip(i as int);
        let line: String = trim(all[i].as_str());
        proof {
            assert(rest[0] == all@[i as int]@);
            assert(rest.skip(1) =~= ls.skip(i + 1));
        }
        if !header_seen && same(line.as_str(), WORKPAD_HEADER) {
            header_seen = true;
        } else if header_seen && !marker_seen && same(line.as_str(), WORKPAD_MARKER) {
            marker_seen = true;
        } else {
            let ghost had = texts(body@);
            body.push(all[i].clone());
            proof {
                assert(texts(body@) =~= had.push(rest[0]));
                assert(had.push(rest[0]) + body_lines(ls.skip(i + 1), header_seen, marker_seen)
                    =~= had + (seq![rest[0]] + body_lines(
                    ls.skip(i + 1),
                    header_seen,
                    marker_seen,
                )));
            }
        }
        i = i + 1;
    }
    proof {
        assert(ls.skip(i as int) =~= Seq::empty());
        assert(texts(body@) + Seq::<Seq<char>>::empty() =~= texts(body@));
    }
    join(&body, "\n")
}

/// The text of a section.
pub open spec fn section_text(body: Seq<Seq<char>>) -> Seq<char> {
    trimmed(joined(body, "\n"@))
}

/// The sections of a workpad body, each with its heading and its text. What comes
/// before the first heading belongs to the first section.
pub open spec fn sections_in(
    all: Seq<Seq<char>>,
    heading: Option<Seq<char>>,
    body: Seq<Seq<char>>,
) -> Seq<(Seq<char>, Seq<char>)>
    decreases all.len(),
{
    if all.len() == 0 {
        match heading {
            Some(h) => seq![(h, section_text(body))],
            None => Seq::empty(),
        }
    } else {
        match after_prefix(trimmed_start(all[0]), "## "@) {
            Some(rest) => match heading {
                Some(h) => seq![(h, section_text(body))] + sections_in(
                    all.skip(1),
                    Some(trimmed(rest)),
                    Seq::empty(),
                ),
                None => sections_in(all.skip(1), Some(trimmed(rest)), body),
            },
            None => sections_in(all.skip(1), heading, body.push(all[0])),
        }
    }
}

/// The sections of a workpad.
pub open spec fn sections_of(content: Seq<char>) -> Seq<(Seq<char>, Seq<char>)> {
    sections_in(lines(body_of(content)), None, Seq::empty())
}

/// What a list of sections holds.
pub open spec fn section_views(sections: Seq<(String, String)>) -> Seq<(Seq<char>, Seq<char>)> {
    Seq::new(sections.len(), |i: int| (sections[i].0@, sections[i].1@))
}

/// The sections of a workpad.
pub fn parse_workpad_sections(content: &str) -> (out: Vec<(String, String)>)
    ensures
        section_views(out@) == sections_of(content@),
{
    let stripped: String = strip_workpad_prefix(content);
    let all: Vec<String> = split_lines(stripped.as_str());
    let ghost ls = texts(all@);
    let mut out: Vec<(String, String)> = Vec::new();
    let mut heading: Option<String> = None;
    let mut body: Vec<String> = Vec::new();
    let mut i: usize = 0;
    proof {
        assert(ls.skip(0) =~= ls);
        assert(texts(body@) =~= Seq::empty());
        assert(section_views(out@) + sections_in(ls, None, Seq::empty()) =~= sections_in(
            ls,
            None,
            Seq::empty(),
        ));
    }
    while i < all.len()
        invariant
            i <= all.len(),
            ls == texts(all@),
            sections_in(ls, None, Seq::empty()) == section_views(out@) + sections_in(
                ls.skip(i as int),
                opt_text(heading),
                texts(body@),
            ),
        decreases all.len() - i,
    {
        let ghost rest = ls.skip(i as int);
        let ghost before_heading = opt_text(heading);
        proof {
            assert(rest[0] == all@[i as int]@);
            assert(rest.skip(1) =~= ls.skip(i + 1));
        }
        let start: String = trim_start(all[i].as_str());
        match strip_prefix(start.as_str(), "## ") {
            Some(title) => {
                let name: String = trim(title.as_str());
                match heading {
                    Some(h) => {
                        let joined_body: String = join(&body, "\n");
                        let text: String = trim(joined_body.as_str());
                        let ghost had = section_views(out@);
                        proof {
                            assert(section_text(texts(body@)) == text@);
                        }
                        out.push((h, text));
                        body = Vec::new();
                        proof {
                            assert(texts(body@) =~= Seq::empty());
                            assert(section_views(out@) =~= had.push((h@, text@)));
                            let tail = sections_in(ls.skip(i + 1), Some(name@), Seq::empty());
                            assert(had.push((h@, text@)) + tail =~= had + (seq![(h@, text@)]
                                + tail));
                        }
                    },
                    None => {},
                }
                heading = Some(name);
            },
            None => {
                let ghost had = texts(body@);
                body.push(all[i].clone());
                proof {
                    assert(texts(body@) =~= had.push(rest[0]));
                }
            },
        }
        i = i + 1;
    }
    proof {
        assert(ls.skip(i as int) =~= Seq::empty());
    }
    match heading {
        Some(h) => {
            let joined_body: String = join(&body, "\n");
            let text: String = trim(joined_body.as_str());
            let ghost had = section_views(out@);
            out.push((h, text));
            proof {
                assert(section_views(out@) =~= had + seq![(h@, text@)]);
            }
        },
        None => {
            proof {
                assert(section_views(out@) + Seq::<(Seq<char>, Seq<char>)>::empty()
                    =~= section_views(out@));
            }
        },
    }
    out
}

// ---------------------------------------------------------------------------
// Compacting
// ---------------------------------------------------------------------------

/// The sections that a compacted workpad keeps, in this order.
pub open spec fn preferred_names() -> Seq<Seq<char>> {
    seq![
        "Plan"@,
        "Acceptance Criteria"@,
        "Status"@,
        "Blockers"@,
        "Validation"@,
        "Notes"@,
        "Handoff"@,
        "Confusions"@,
    ]
}

/// The sections that a compacted workpad keeps, in this order.
fn preferred_sections() -> (r: Vec<String>)
    ensures
        texts(r@) == preferred_names(),
{
    let r: Vec<String> = vec![
        owned("Plan"),
        owned("Acceptance Criteria"),
        owned("Status"),
        owned("Blockers"),
        owned("Validation"),
        owned("Notes"),
        owned("Handoff"),
        owned("Confusions"),
    ];
    proof {
        assert(texts(r@) =~= preferred_names());
    }
    r
}

/// Whether a heading is that of a section that is kept, whatever its case.
pub open spec fn is_preferred(heading: Seq<char>, names: Seq<Seq<char>>) -> bool {
    exists|i: int| 0 <= i < names.len() && lowered(heading) == lowered(#[trigger] names[i])
}

/// The text of the first section of that name.
pub open spec fn section_named(sections: Seq<(Seq<char>, Seq<char>)>, name: Seq<char>) -> Option<
    Seq<char>,
>
    decreases sections.len(),
{
    if sections.len() == 0 {
        None
    } else if lowered(sections[0].0) == lowered(name) {
        Some(sections[0].1)
    } else {
        section_named(sections.skip(1), name)
    }
}

/// What the sections that are kept add to a compacted workpad.
pub open spec fn kept_lines(
    sections: Seq<(Seq<char>, Seq<char>)>,
    names: Seq<Seq<char>>,
) -> Option<Seq<Seq<char>>>
    decreases names.len(),
{
    if names.len() == 0 {
        Some(Seq::empty())
    } else {
        let name = names.last();
        match (kept_lines(sections, names.drop_last()), section_named(sections, name)) {
            (None, _) => None,
            (Some(earlier), None) => Some(earlier),
            (Some(earlier), Some(text)) => match cut_text(trimmed(text), 2200) {
                Some(cut) => Some(earlier + seq![Seq::empty(), "## "@ + name, Seq::empty(), cut]),
                None => None,
            },
        }
    }
}

/// The lines that recall the sections that are not kept.
pub open spec fn history_lines(
    sections: Seq<(Seq<char>, Seq<char>)>,
    names: Seq<Seq<char>>,
) -> Option<Seq<Seq<char>>>
    decreases sections.len(),
{
    if sections.len() == 0 {
        Some(Seq::empty())
    } else {
        let (heading, text) = sections.last();
        match history_lines(sections.drop_last(), names) {
            None => None,
            Some(earlier) => if is_preferred(heading, names) {
                Some(earlier)
            } else {
                match cut_text(trimmed(text), 160) {
                    Some(cut) => Some(earlier.push("- "@ + heading + ": "@ + cut)),
                    None => None,
                }
            },
        }
    }
}

/// Whether some line holds `text`.
pub open spec fn mentioned(all: Seq<Seq<char>>, text: Seq<char>) -> bool {
    exists|i: int| 0 <= i < all.len() && occurs(#[trigger] all[i], text)
}

/// The lines that every compacted workpad starts with.
pub open spec fn compact_head() -> Seq<Seq<char>> {
    seq![WORKPAD_HEADER@, Seq::empty(), WORKPAD_MARKER@]
}

/// The lines that link the pull request where no kept section does.
pub open spec fn link_lines(above: Seq<Seq<char>>, pr_url: Option<Seq<char>>) -> Seq<Seq<char>> {
    match pr_url {
        Some(url) => if mentioned(above, url) {
            Seq::empty()
        } else {
            seq![Seq::empty(), "## Validation"@, Seq::empty(), "Linked PR: "@ + url]
        },
        None => Seq::empty(),
    }
}

/// The lines of a compacted workpad.
pub open spec fn compact_lines(content: Seq<char>) -> Option<Seq<Seq<char>>> {
    let sections = sections_of(content);
    match (
        kept_lines(sections, preferred_names()),
        history_lines(sections, preferred_names()),
    ) {
        (Some(kept), Some(history)) => {
            let above = compact_head() + kept;
            let upper = above + link_lines(above, pr_url_in(content));
            if history.len() > 0 {
                Some(
                    upper + seq![
                        Seq::empty(),
                        "## Compacted History"@,
                        Seq::empty(),
                        joined(history, "\n"@),
                    ],
                )
            } else if upper.len() > compact_head().len() {
                Some(upper)
            } else {
                match cut_text(trimmed(body_of(content)), 3000) {
                    Some(cut) => Some(
                        upper + seq![Seq::empty(), "## Status"@, Seq::empty(), cut],
                    ),
                    None => None,
                }
            }
        },
        _ => None,
    }
}

/// A workpad that is too long for a comment is rebuilt from its sections. There is no
/// result where a cut would fall inside a character.
pub open spec fn compacted(content: Seq<char>) -> Option<Seq<char>> {
    if byte_len(content) <= TODOIST_COMMENT_SIZE_LIMIT {
        Some(content)
    } else {
        match compact_lines(content) {
            Some(all) => {
                let text = joined(all, "\n"@);
                Some(cut_to_limit(text, pr_url_in(content)))
            },
            None => None,
        }
    }
}

/// The text of the first section of that name.
fn find_section(sections: &Vec<(String, String)>, name: &str) -> (r: Option<String>)
    ensures
        opt_text(r) == section_named(section_views(sections@), name@),
{
    let ghost all = section_views(sections@);
    let mut i: usize = 0;
    proof {
        assert(all.skip(0) =~= all);
    }
    while i < sections.len()
        invariant
            i <= sections.len(),
            all == section_views(sections@),
            section_named(all, name@) == section_named(all.skip(i as int), name@),
        decreases sections.len() - i,
    {
        if same_ignoring_case(sections[i].0.as_str(), name) {
            return Some(sections[i].1.clone());
        }
        proof {
            assert(all.skip(i as int).skip(1) =~= all.skip(i + 1));
        }
        i = i + 1;
    }
    None
}

/// Whether a heading is that of a section that is kept.
fn heading_is_preferred(heading: &str, names: &Vec<String>) -> (r: bool)
    ensures
        r == is_preferred(heading@, texts(names@)),
{
    let mut i: usize = 0;
    while i < names.len()
        invariant
            i <= names.len(),
            forall|k: int| 0 <= k < i ==> lowered(heading@) != lowered(#[trigger] texts(names@)[k]),
        decreases names.len() - i,
    {
        if same_ignoring_case(heading, names[i].as_str()) {
            proof {
                assert(lowered(heading@) == lowered(texts(names@)[i as int]));
            }
            return true;
        }
        i = i + 1;
    }
    false
}

/// Adds the sections that are kept.
fn push_kept(
    sections: &Vec<(String, String)>,
    names: &Vec<String>,
) -> (r: Option<Vec<String>>)
    ensures
        match r {
            Some(out) => kept_lines(section_views(sections@), texts(names@)) == Some(texts(out@)),
            None => kept_lines(section_views(sections@), texts(names@)) is None,
        },
{
    let ghost ss = section_views(sections@);
    let ghost ns = texts(names@);
    let mut out: Vec<String> = Vec::new();
    let mut i: usize = 0;
    proof {
        assert(texts(out@) =~= Seq::empty());
    }
    while i < names.len()
        invariant
            i <= names.len(),
            ss == section_views(sections@),
            ns == texts(names@),
            kept_lines(ss, ns.take(i as int)) == Some(texts(out@)),
        decreases names.len() - i,
    {
        proof {
            assert(ns.take(i + 1).drop_last() =~= ns.take(i as int));
            assert(ns.take(i + 1).last() == names@[i as int]@);
        }
        match find_section(sections, names[i].as_str()) {
            Some(text) => {
                let inner: String = trim(text.as_str());
                match try_truncate_workpad_text(inner.as_str(), 2200) {
                    Some(cut) => {
                        let ghost had = texts(out@);
                        let title: String = concat("## ", names[i].as_str());
                        out.push(String::new());
                        out.push(title);
                        out.push(String::new());
                        out.push(cut);
                        proof {
                            assert(texts(out@) =~= had + seq![
                                Seq::empty(),
                                title@,
                                Seq::empty(),
                                cut@,
                            ]);
                        }
                    },
                    None => {
                        proof {
                            lemma_kept_none(ss, ns, i + 1);
                        }
                        return None;
                    },
                }
            },
            None => {},
        }
        i = i + 1;
    }
    proof {
        assert(ns.take(i as int) =~= ns);
    }
    Some(out)
}

/// Where the first names have no result, all of them have none.
proof fn lemma_kept_none(ss: Seq<(Seq<char>, Seq<char>)>, ns: Seq<Seq<char>>, n: int)
    requires
        0 <= n <= ns.len(),
        kept_lines(ss, ns.take(n)) is None,
    ensures
        kept_lines(ss, ns) is None,
    decreases ns.len(),
{
    if n == ns.len() {
        assert(ns.take(n) =~= ns);
    } else {
        assert(ns.drop_last().take(n) =~= ns.take(n));
        lemma_kept_none(ss, ns.drop_last(), n);
    }
}

/// Where the first sections have no result, all of them have none.
proof fn lemma_history_none(ss: Seq<(Seq<char>, Seq<char>)>, ns: Seq<Seq<char>>, n: int)
    requires
        0 <= n <= ss.len(),
        history_lines(ss.take(n), ns) is None,
    ensures
        history_lines(ss, ns) is None,
    decreases ss.len(),
{
    if n == ss.len() {
        assert(ss.take(n) =~= ss);
    } else {
        assert(ss.drop_last().take(n) =~= ss.take(n));
        lemma_history_none(ss.drop_last(), ns, n);
    }
}

/// The lines that recall the sections that are not kept.
fn collect_history(
    sections: &Vec<(String, String)>,
    names: &Vec<String>,
) -> (r: Option<Vec<String>>)
    ensures
        match r {
            Some(out) => history_lines(section_views(sections@), texts(names@)) == Some(
                texts(out@),
            ),
            None => history_lines(section_views(sections@), texts(names@)) is None,
        },
{
    let ghost ss = section_views(sections@);
    let ghost ns = texts(names@);
    let mut out: Vec<String> = Vec::new();
    let mut i: usize = 0;
    proof {
        assert(texts(out@) =~= Seq::empty());
    }
    while i < sections.len()
        invariant
            i <= sections.len(),
            ss == section_views(sections@),
            ns == texts(names@),
            history_lines(ss.take(i as int), ns) == Some(texts(out@)),
        decreases sections.len() - i,
    {
        proof {
            assert(ss.take(i + 1).drop_last() =~= ss.take(i as int));
            assert(ss.take(i + 1).last() == (sections@[i as int].0@, sections@[i as int].1@));
        }
        let heading: &String = &sections[i].0;
        if !heading_is_preferred(heading.as_str(), names) {
            let inner: String = trim(sections[i].1.as_str());
            match try_truncate_workpad_text(inner.as_str(), 160) {
                Some(cut) => {
                    let ghost had = texts(out@);
                    let mut line: String = concat("- ", heading.as_str());
                    line.append(": ");
                    line.append(cut.as_str());
                    out.push(line);
                    proof {
                        assert(texts(out@) =~= had.push(line@));
                    }
                },
                None => {
                    proof {
                        lemma_history_none(ss, ns, i + 1);
                    }
                    return None;
                },
            }
        }
        i = i + 1;
    }
    proof {
        assert(ss.take(i as int) =~= ss);
    }
    Some(out)
}

/// Whether some line holds `text`.
fn any_mentions(all: &Vec<String>, text: &str) -> (r: bool)
    ensures
        r == mentioned(texts(all@), text@),
{
    let mut i: usize = 0;
    while i < all.len()
        invariant
            i <= all.len(),
            forall|k: int| 0 <= k < i ==> !occurs(#[trigger] texts(all@)[k], text@),
        decreases all.len() - i,
    {
        if contains(all[i].as_str(), text) {
            proof {
                assert(occurs(texts(all@)[i as int], text@));
            }
            return true;
        }
        i = i + 1;
    }
    false
}

/// Adds four lines: an empty one, a heading, an empty one and a text.
fn push_section(out: &mut Vec<String>, heading: &str, text: String)
    ensures
        texts(final(out)@) == texts(old(out)@) + seq![
            Seq::<char>::empty(),
            heading@,
            Seq::<char>::empty(),
            text@,
        ],
{
    let ghost had = texts(out@);
    out.push(String::new());
    out.push(owned(heading));
    out.push(String::new());
    out.push(text);
    proof {
        assert(texts(out@) =~= had + seq![
            Seq::<char>::empty(),
            heading@,
            Seq::<char>::empty(),
            text@,
        ]);
    }
}

/// The lines of a compacted workpad.
fn build_compact_lines(content: &str, pr_url: &Option<String>) -> (r: Option<Vec<String>>)
    requires
        opt_text(*pr_url) == pr_url_in(content@),
    ensures
        match r {
            Some(out) => compact_lines(content@) == Some(texts(out@)),
            None => compact_lines(content@) is None,
        },
{
    let names: Vec<String> = preferred_sections();
    let sections: Vec<(String, String)> = parse_workpad_sections(content);
    let mut kept: Vec<String> = match push_kept(&sections, &names) {
        Some(kept) => kept,
        None => {
            return None;
        },
    };
    let history: Vec<String> = match collect_history(&sections, &names) {
        Some(history) => history,
        None => {
            return None;
        },
    };
    let ghost kept_texts = texts(kept@);
    let mut out: Vec<String> = vec![owned(WORKPAD_HEADER), String::new(), owned(WORKPAD_MARKER)];
    proof {
        assert(texts(out@) =~= compact_head());
    }
    out.append(&mut kept);
    let ghost above = compact_head() + kept_texts;
    proof {
        assert(texts(out@) =~= above);
    }
    match pr_url {
        Some(url) => {
            if !any_mentions(&out, url.as_str()) {
                let line: String = concat("Linked PR: ", url.as_str());
                push_section(&mut out, "## Validation", line);
            } else {
                proof {
                    assert(above + Seq::<Seq<char>>::empty() =~= above);
                }
            }
        },
        None => {
            proof {
                assert(above + Seq::<Seq<char>>::empty() =~= above);
            }
        },
    }
    let ghost upper = above + link_lines(above, pr_url_in(content@));
    proof {
        assert(texts(out@) == upper);
        assert(texts(out@).len() == out@.len());
    }
    if history.len() > 0 {
        let recalled: String = join(&history, "\n");
        push_section(&mut out, "## Compacted History", recalled);
        Some(out)
    } else if out.len() > 3 {
        Some(out)
    } else {
        let body: String = strip_workpad_prefix(content);
        let inner: String = trim(body.as_str());
        match try_truncate_workpad_text(inner.as_str(), 3000) {
            Some(cut) => {
                push_section(&mut out, "## Status", cut);
                Some(out)
            },
            None => None,
        }
    }
}

/// Rebuilds a workpad that is too long for a comment. There is no result where a cut
/// would fall inside a character. Whatever is cut, the link to the pull request is kept;
/// where that fits into a comment, the whole does.
pub fn try_compact_workpad_content(content: &str) -> (r: Option<String>)
    ensures
        opt_text(r) == compacted(content@),
        is_ascii_chars(content@) ==> r is Some,
        byte_len(content@) <= TODOIST_COMMENT_SIZE_LIMIT ==> opt_text(r) == Some(content@),
        r matches Some(text) ==> keeps_link(text@, pr_url_in(content@)),
        r matches Some(text) ==> fits_with_link(text@, pr_url_in(content@)),
{
    let pr_url: Option<String> = extract_github_pr_url(content);
    proof {
        if is_ascii_chars(content@) {
            law_ascii_workpads_are_compacted(content@);
        }
        if let Some(text) = compacted(content@) {
            if link_fits(pr_url_in(content@)) {
                law_compacted_size(content@, text);
            }
            if byte_len(content@) > TODOIST_COMMENT_SIZE_LIMIT && pr_url is Some {
                law_compacting_keeps_the_link(content@, text, pr_url->0@);
            }
        }
    }
    if len_bytes(content) <= TODOIST_COMMENT_SIZE_LIMIT {
        return Some(owned(content));
    }
    match build_compact_lines(content, &pr_url) {
        Some(all) => {
            let text: String = join(&all, "\n");
            Some(truncate_workpad_to_limit(text.as_str(), &pr_url))
        },
        None => None,
    }
}

/// Whether a text holds the link to a pull request, where there is one.
pub open spec fn keeps_link(text: Seq<char>, pr_url: Option<Seq<char>>) -> bool {
    pr_url matches Some(url) ==> occurs(text, url)
}

/// Whether a text fits into a comment, as long as the link to the pull request does.
pub open spec fn fits_with_link(text: Seq<char>, pr_url: Option<Seq<char>>) -> bool {
    link_fits(pr_url) ==> byte_len(text) <= TODOIST_COMMENT_SIZE_LIMIT
}

/// Rebuilds a workpad that is too long for a comment. Whatever is cut, the link to the pull
/// request is kept; where that fits into a comment, the whole does.
pub fn compact_workpad_content(content: &str) -> (r: String)
    requires
        is_ascii_chars(content@) || compacted(content@) is Some,
    ensures
        compacted(content@) == Some(r@),
        byte_len(content@) <= TODOIST_COMMENT_SIZE_LIMIT ==> r@ == content@,
        keeps_link(r@, pr_url_in(content@)),
        fits_with_link(r@, pr_url_in(content@)),
{
    match try_compact_workpad_content(content) {
        Some(text) => text,
        None => String::new(),
    }
}

/// A workpad with its header and its marker, before it is compacted.
pub open spec fn with_marker(content: Seq<char>) -> Seq<char> {
    let t = trimmed(content);
    if t.len() == 0 {
        WORKPAD_HEADER@ + "\n\n"@ + WORKPAD_MARKER@
    } else if occurs(t, WORKPAD_MARKER@) {
        t
    } else {
        match after_prefix(t, WORKPAD_HEADER@) {
            Some(rest) => WORKPAD_HEADER@ + "\n\n"@ + WORKPAD_MARKER@ + rest,
            None => WORKPAD_HEADER@ + "\n\n"@ + WORKPAD_MARKER@ + "\n\n"@ + t,
        }
    }
}

/// The form in which a workpad is stored.
pub open spec fn normalized(content: Seq<char>) -> Option<Seq<char>> {
    compacted(with_marker(content))
}

/// The form in which a workpad is stored. There is no result where a cut would fall
/// inside a character.
pub fn try_normalize_workpad_content(content: &str) -> (r: Option<String>)
    ensures
        opt_text(r) == normalized(content@),
        is_ascii_chars(content@) ==> r is Some,
        r matches Some(text) ==> keeps_link(text@, pr_url_in(with_marker(content@))),
        r matches Some(text) ==> fits_with_link(text@, pr_url_in(with_marker(content@))),
{
    proof {
        if is_ascii_chars(content@) {
            law_ascii_workpads_are_stored(content@);
        }
    }
    let t: String = trim(content);
    let mut head: String = concat3(WORKPAD_HEADER, "\n\n", WORKPAD_MARKER);
    let full: String = if t.as_str().is_empty() {
        head
    } else if contains(t.as_str(), WORKPAD_MARKER) {
        t
    } else {
        match strip_prefix(t.as_str(), WORKPAD_HEADER) {
            Some(rest) => {
                head.append(rest.as_str());
                head
            },
            None => {
                head.append("\n\n");
                head.append(t.as_str());
                head
            },
        }
    };
    try_compact_workpad_content(full.as_str())
}

/// The form in which a workpad is stored.
pub fn normalize_workpad_content(content: &str) -> (r: String)
    requires
        is_ascii_chars(content@) || normalized(content@) is Some,
    ensures
        normalized(content@) == Some(r@),
        keeps_link(r@, pr_url_in(with_marker(content@))),
        fits_with_link(r@, pr_url_in(with_marker(content@))),
{
    match try_normalize_workpad_content(content) {
        Some(text) => text,
        None => String::new(),
    }
}

// ---------------------------------------------------------------------------
// Workpad comments
// ---------------------------------------------------------------------------

/// The content of a comment.
pub open spec fn comment_content(comment: JsonView) -> Option<Seq<char>> {
    opt_json_text(comment.get("content"@))
}

/// Whether a comment is a workpad: it holds the marker or starts with the header.
pub open spec fn is_workpad(comment: JsonView) -> bool {
    match comment_content(comment) {
        Some(content) => occurs(content, WORKPAD_MARKER@) || begins(
            trimmed_start(content),
            WORKPAD_HEADER@,
        ),
        None => false,
    }
}

/// The content of a comment.
fn content_text(comment: &Json) -> (r: Option<&str>)
    ensures
        opt_str(r) == comment_content(comment@),
{
    match comment.get("content") {
        Some(content) => content.as_str(),
        None => None,
    }
}

/// Whether a comment is a workpad.
pub fn is_workpad_comment(comment: &Json) -> (r: bool)
    ensures
        r == is_workpad(comment@),
{
    match content_text(comment) {
        Some(content) => {
            if contains(content, WORKPAD_MARKER) {
                true
            } else {
                let start: String = trim_start(content);
                starts_with(start.as_str(), WORKPAD_HEADER)
            }
        },
        None => false,
    }
}

/// When a comment was last changed, as the tracker writes it.
pub open spec fn changed_at(comment: JsonView) -> Seq<char> {
    match opt_json_text(comment.get("updated_at"@)) {
        Some(at) => at,
        None => match opt_json_text(comment.get("posted_at"@)) {
            Some(at) => at,
            None => ""@,
        },
    }
}

/// When a comment was last changed, as the tracker writes it.
pub fn workpad_sort_key(comment: &Json) -> (r: &str)
    ensures
        r@ == changed_at(comment@),
{
    let updated: Option<&str> = match comment.get("updated_at") {
        Some(at) => at.as_str(),
        None => None,
    };
    match updated {
        Some(at) => at,
        None => {
            let posted: Option<&str> = match comment.get("posted_at") {
                Some(at) => at.as_str(),
                None => None,
            };
            match posted {
                Some(at) => at,
                None => "",
            }
        },
    }
}

/// The identifier of a comment.
pub open spec fn comment_id(comment: JsonView) -> Option<Seq<char>> {
    id_text(comment.get("id"@))
}

/// The identifier of a comment.
pub fn workpad_comment_id(comment: &Json) -> (r: Option<String>)
    ensures
        opt_text(r) == comment_id(comment@),
{
    id_string(comment.get("id"))
}

/// An optional hint without surrounding whitespace; an empty one is none.
pub open spec fn hint_of(hint: Option<Seq<char>>) -> Option<Seq<char>> {
    match hint {
        Some(h) => if trimmed(h).len() > 0 {
            Some(trimmed(h))
        } else {
            None
        },
        None => None,
    }
}

/// An optional hint without surrounding whitespace; an empty one is none.
pub fn usable_hint(hint: &Option<String>) -> (r: Option<String>)
    ensures
        opt_text(r) == hint_of(opt_text(*hint)),
{
    match hint {
        Some(h) => {
            let t: String = trim(h.as_str());
            if t.as_str().is_empty() {
                None
            } else {
                Some(t)
            }
        },
        None => None,
    }
}

/// Whether one of the comments has that identifier.
pub open spec fn has_comment(comments: Seq<JsonView>, id: Seq<char>) -> bool {
    exists|i: int| 0 <= i < comments.len() && comment_id(#[trigger] comments[i]) == Some(id)
}

/// Whether one of the comments has that identifier.
fn any_comment_is(comments: &Vec<Json>, id: &str) -> (r: bool)
    ensures
        r == has_comment(views(comments@), id@),
{
    let mut i: usize = 0;
    while i < comments.len()
        invariant
            i <= comments.len(),
            forall|k: int|
                0 <= k < i ==> comment_id(#[trigger] views(comments@)[k]) != Some(id@),
        decreases comments.len() - i,
    {
        let found: Option<String> = workpad_comment_id(&comments[i]);
        if opt_is(&found, id) {
            proof {
                assert(comment_id(views(comments@)[i as int]) == Some(id@));
            }
            return true;
        }
        i = i + 1;
    }
    false
}

/// The content of a comment in the form in which a workpad is stored; no content is
/// the empty text.
pub open spec fn stored_content(comment: JsonView) -> Option<Seq<char>> {
    match comment_content(comment) {
        Some(content) => normalized(content),
        None => Some(Seq::empty()),
    }
}

/// Whether every comment's content has a stored form.
pub open spec fn all_storable(comments: Seq<JsonView>) -> bool {
    forall|i: int| 0 <= i < comments.len() ==> stored_content(#[trigger] comments[i]) is Some
}

/// Whether all comments have the same stored form.
pub open spec fn all_equivalent(comments: Seq<JsonView>) -> bool {
    forall|i: int|
        0 <= i < comments.len() ==> stored_content(#[trigger] comments[i]) == stored_content(
            comments[0],
        )
}

/// The stored form of each comment's content.
fn stored_contents(comments: &Vec<Json>) -> (r: Option<Vec<String>>)
    ensures
        r is Some <==> all_storable(views(comments@)),
        r matches Some(out) ==> out@.len() == comments@.len() && forall|i: int|
            0 <= i < out@.len() ==> stored_content(comments@[i]@) == Some((#[trigger] out@[i])@),
{
    let mut out: Vec<String> = Vec::new();
    let mut i: usize = 0;
    while i < comments.len()
        invariant
            i <= comments.len(),
            out@.len() == i,
            forall|k: int|
                0 <= k < i ==> stored_content(comments@[k]@) == Some((#[trigger] out@[k])@),
        decreases comments.len() - i,
    {
        let stored: Option<String> = match content_text(&comments[i]) {
            Some(content) => try_normalize_workpad_content(content),
            None => Some(String::new()),
        };
        match stored {
            Some(text) => {
                out.push(text);
            },
            None => {
                proof {
                    assert(stored_content(views(comments@)[i as int]) is None);
                }
                return None;
            },
        }
        i = i + 1;
    }
    proof {
        assert forall|k: int| 0 <= k < comments@.len() implies stored_content(
            #[trigger] views(comments@)[k],
        ) is Some by {
            assert(stored_content(comments@[k]@) == Some(out@[k]@));
        }
    }
    Some(out)
}

/// Whether all texts are the same.
fn all_same(all: &Vec<String>) -> (r: bool)
    ensures
        r == (forall|i: int| 0 <= i < all@.len() ==> (#[trigger] all@[i])@ == all@[0]@),
{
    let mut i: usize = 0;
    while i < all.len()
        invariant
            i <= all.len(),
            forall|k: int| 0 <= k < i ==> (#[trigger] all@[k])@ == all@[0]@,
        decreases all.len() - i,
    {
        if !same(all[i].as_str(), all[0].as_str()) {
            return false;
        }
        i = i + 1;
    }
    true
}

/// The identifiers of those comments that have one.
pub open spec fn comment_ids(comments: Seq<JsonView>) -> Seq<Seq<char>>
    decreases comments.len(),
{
    if comments.len() == 0 {
        Seq::empty()
    } else {
        match comment_id(comments.last()) {
            Some(id) => comment_ids(comments.drop_last()).push(id),
            None => comment_ids(comments.drop_last()),
        }
    }
}

/// The identifiers of those comments that have one.
fn collect_ids(comments: &Vec<Json>) -> (out: Vec<String>)
    ensures
        texts(out@) == comment_ids(views(comments@)),
{
    let ghost all = views(comments@);
    let mut out: Vec<String> = Vec::new();
    let mut i: usize = 0;
    proof {
        assert(texts(out@) =~= Seq::empty());
    }
    while i < comments.len()
        invariant
            i <= comments.len(),
            all == views(comments@),
            texts(out@) == comment_ids(all.take(i as int)),
        decreases comments.len() - i,
    {
        proof {
            assert(all.take(i + 1).drop_last() =~= all.take(i as int));
            assert(all.take(i + 1).last() == comments@[i as int]@);
        }
        match workpad_comment_id(&comments[i]) {
            Some(id) => {
                let ghost had = texts(out@);
                out.push(id);
                proof {
                    assert(texts(out@) =~= had.push(id@));
                }
            },
            None => {},
        }
        i = i + 1;
    }
    proof {
        assert(all.take(i as int) =~= all);
    }
    out
}

/// The index of the comment that was changed last; the later one of equals.
pub open spec fn latest(comments: Seq<JsonView>) -> int
    decreases comments.len(),
{
    if comments.len() <= 1 {
        0
    } else {
        let best = latest(comments.drop_last());
        if before(changed_at(comments.last()), changed_at(comments[best])) {
            best
        } else {
            comments.len() - 1
        }
    }
}

/// The index of the comment that was changed last.
fn latest_index(comments: &Vec<Json>) -> (best: usize)
    requires
        comments@.len() > 0,
    ensures
        best == latest(views(comments@)),
        best < comments@.len(),
{
    let ghost all = views(comments@);
    let mut best: usize = 0;
    let mut i: usize = 1;
    while i < comments.len()
        invariant
            1 <= i <= comments.len(),
            best < i,
            all == views(comments@),
            best == latest(all.take(i as int)),
        decreases comments.len() - i,
    {
        proof {
            assert(all.take(i + 1).drop_last() =~= all.take(i as int));
            assert(all.take(i + 1).last() == comments@[i as int]@);
            assert(all.take(i + 1)[best as int] == comments@[best as int]@);
        }
        if !is_before(workpad_sort_key(&comments[i]), workpad_sort_key(&comments[best])) {
            best = i;
        }
        i = i + 1;
    }
    proof {
        assert(all.take(i as int) =~= all);
    }
    best
}

/// The index that `latest` gives is that of a comment that no other was changed after.
pub proof fn lemma_latest(comments: Seq<JsonView>)
    requires
        comments.len() > 0,
    ensures
        0 <= latest(comments) < comments.len(),
        forall|i: int|
            0 <= i < comments.len() ==> !before(
                changed_at(comments[latest(comments)]),
                changed_at(#[trigger] comments[i]),
            ),
    decreases comments.len(),
{
    if comments.len() == 1 {
        lemma_before_irreflexive(changed_at(comments[0]));
    } else {
        let rest = comments.drop_last();
        lemma_latest(rest);
        let best = latest(rest);
        let last = changed_at(comments.last());
        let top = changed_at(comments[best]);
        assert(rest[best] == comments[best]);
        assert forall|i: int| 0 <= i < comments.len() implies !before(
            changed_at(comments[latest(comments)]),
            changed_at(#[trigger] comments[i]),
        ) by {
            if i < comments.len() - 1 {
                assert(rest[i] == comments[i]);
            }
            if before(last, top) {
                if i == comments.len() - 1 && before(top, last) {
                    lemma_before_transitive(top, last, top);
                    lemma_before_irreflexive(top);
                }
            } else {
                lemma_before_irreflexive(last);
                if i < comments.len() - 1 && before(last, changed_at(comments[i])) {
                    if top != last {
                        lemma_before_total(top, last);
                        lemma_before_transitive(top, last, changed_at(comments[i]));
                    }
                }
            }
        }
    }
}

pub open spec fn missing_id() -> TrackerErrorView {
    unsupported_view("existing workpad comment is missing an `id`"@)
}

/// Which of several workpad comments counts: the only one, the one that is hinted
/// at, or the one that was changed last. Where they differ, none does.
pub open spec fn canonical(comments: Seq<JsonView>, hint: Option<Seq<char>>) -> Result<
    Seq<char>,
    TrackerErrorView,
> {
    if comments.len() == 1 {
        match comment_id(comments[0]) {
            Some(id) => Ok(id),
            None => Err(missing_id()),
        }
    } else if hint_of(hint) is Some && has_comment(comments, hint_of(hint)->0) {
        Ok(hint_of(hint)->0)
    } else if !all_equivalent(comments) {
        Err(
            unsupported_view(
                "multiple workpad comments exist for task and automatic repair is unsafe. Duplicate comment ids: "@
                    + joined(comment_ids(comments), ", "@),
            ),
        )
    } else if comments.len() == 0 {
        Err(missing_id())
    } else {
        match comment_id(comments[latest(comments)]) {
            Some(id) => Ok(id),
            None => Err(missing_id()),
        }
    }
}

/// Whether the stored forms of the comments decide which one counts.
pub open spec fn contents_decide(comments: Seq<JsonView>, hint: Option<Seq<char>>) -> bool {
    comments.len() != 1 && !(hint_of(hint) is Some && has_comment(comments, hint_of(hint)->0))
}

/// Which of several workpad comments counts. There is no result where the stored form
/// of a comment decides and has none.
pub fn try_choose_canonical_workpad_comment(
    comments: &Vec<Json>,
    hint: &Option<String>,
) -> (r: Option<Result<String, TrackerError>>)
    ensures
        r is Some <==> (contents_decide(views(comments@), opt_text(*hint)) ==> all_storable(
            views(comments@),
        )),
        r matches Some(result) ==> text_result(result) == canonical(
            views(comments@),
            opt_text(*hint),
        ),
{
    let ghost all = views(comments@);
    if comments.len() == 1 {
        return match workpad_comment_id(&comments[0]) {
            Some(id) => Some(Ok(id)),
            None => Some(
                Err(unsupported(owned("existing workpad comment is missing an `id`"))),
            ),
        };
    }
    match usable_hint(hint) {
        Some(h) => {
            if any_comment_is(comments, h.as_str()) {
                return Some(Ok(h));
            }
        },
        None => {},
    }
    let contents: Vec<String> = match stored_contents(comments) {
        Some(contents) => contents,
        None => {
            return None;
        },
    };
    let equivalent: bool = all_same(&contents);
    proof {
        if all_equivalent(all) {
            assert forall|i: int| 0 <= i < contents@.len() implies (#[trigger] contents@[i])@
                == contents@[0]@ by {
                assert(stored_content(all[i]) == stored_content(all[0]));
            }
        } else {
            let i = choose|i: int|
                0 <= i < all.len() && stored_content(#[trigger] all[i]) != stored_content(all[0]);
            assert(contents@[i]@ != contents@[0]@);
        }
    }
    if !equivalent {
        let ids: Vec<String> = collect_ids(comments);
        let list: String = join(&ids, ", ");
        let message: String = concat(
            "multiple workpad comments exist for task and automatic repair is unsafe. Duplicate comment ids: ",
            list.as_str(),
        );
        return Some(Err(unsupported(message)));
    }
    if comments.len() == 0 {
        return Some(Err(unsupported(owned("existing workpad comment is missing an `id`"))));
    }
    let best: usize = latest_index(comments);
    match workpad_comment_id(&comments[best]) {
        Some(id) => Some(Ok(id)),
        None => Some(Err(unsupported(owned("existing workpad comment is missing an `id`")))),
    }
}

/// Which of several workpad comments counts.
pub fn choose_canonical_workpad_comment(comments: &Vec<Json>, hint: &Option<String>) -> (r: Result<
    String,
    TrackerError,
>)
    requires
        contents_decide(views(comments@), opt_text(*hint)) ==> all_storable(views(comments@)),
    ensures
        text_result(r) == canonical(views(comments@), opt_text(*hint)),
{
    match try_choose_canonical_workpad_comment(comments, hint) {
        Some(result) => result,
        None => Ok(String::new()),
    }
}

// ---------------------------------------------------------------------------
// Laws
// ---------------------------------------------------------------------------

/// A workpad with its marker holds the marker.
proof fn lemma_with_marker(content: Seq<char>)
    ensures
        occurs(with_marker(content), WORKPAD_MARKER@),
{
    let t = trimmed(content);
    let head = WORKPAD_HEADER@ + "\n\n"@;
    let marker = WORKPAD_MARKER@;
    if t.len() == 0 {
        lemma_occurs_concat(head, marker, Seq::empty());
    } else if !occurs(t, marker) {
        match after_prefix(t, WORKPAD_HEADER@) {
            Some(rest) => {
                lemma_occurs_concat(head, marker, rest);
            },
            None => {
                lemma_occurs_concat(head, marker, "\n\n"@ + t);
                assert(head + marker + ("\n\n"@ + t) =~= head + marker + "\n\n"@ + t);
            },
        }
    }
}

/// What is kept of a text starts as the text does, as far as there is room.
proof fn lemma_fitted_keeps_start(text: Seq<char>, start: Seq<char>, max: nat)
    requires
        begins(text, start),
        is_ascii_chars(start),
        start.len() > 0,
        !is_white(start.last()),
        max >= start.len() + 4,
    ensures
        begins(fitted(text, max), start),
{
    assert forall|i: int| 0 <= i < start.len() implies text[i] == start[i] by {
        assert(text.subrange(0, start.len() as int)[i] == start[i]);
    }
    if byte_len(text) > max {
        let n = clean_cut(text, max - 4);
        lemma_clean_cut(text, max - 4);
        let rest = text.skip(start.len() as int);
        assert(text =~= start + rest);
        is_ascii_chars_encode_utf8(start);
        lemma_cuts_between(start, rest);
        assert(n >= start.len());
        let head = byte_prefix(text, n);
        let _tail = lemma_byte_prefix(text, n);
        if head.len() < start.len() {
            assert(start.take(head.len() as int) =~= head);
            assert(is_ascii_chars(head));
            is_ascii_chars_encode_utf8(head);
            assert(false);
        }
        assert(head[start.len() - 1] == start.last());
        lemma_trimmed_end_keeps(head, start.len() - 1);
        lemma_trimmed_end(head);
        assert(fitted(text, max).subrange(0, start.len() as int) =~= start);
    }
}

/// What a compacted workpad starts with: its header and its marker.
pub open spec fn workpad_start() -> Seq<char> {
    WORKPAD_HEADER@ + "\n\n"@ + WORKPAD_MARKER@
}

proof fn lemma_header_text()
    ensures
        WORKPAD_HEADER@.len() == 16,
        WORKPAD_HEADER@[0] == '#',
        is_ascii_chars(WORKPAD_HEADER@),
{
    reveal_strlit("## Codex Workpad");
}

proof fn lemma_marker_text()
    ensures
        WORKPAD_MARKER@.len() == 25,
        WORKPAD_MARKER@[24] == '>',
        is_ascii_chars(WORKPAD_MARKER@),
{
    reveal_strlit("<!-- symphony:workpad -->");
}

/// What a compacted workpad starts with.
proof fn lemma_workpad_start()
    ensures
        is_ascii_chars(workpad_start()),
        workpad_start().len() == 43,
        !is_white(workpad_start()[0]),
        !is_white(workpad_start().last()),
        begins(workpad_start(), WORKPAD_HEADER@),
{
    let start = workpad_start();
    lemma_header_text();
    lemma_marker_text();
    assert("\n\n"@.len() == 2 && is_ascii_chars("\n\n"@)) by {
        reveal_strlit("\n\n");
    }
    assert(start.subrange(0, 16) =~= WORKPAD_HEADER@);
    assert(start[0] == '#');
    assert(start.last() == '>');
}

/// The lines of a compacted workpad start with the header and the marker.
proof fn lemma_compact_lines_start(content: Seq<char>, all: Seq<Seq<char>>)
    requires
        compact_lines(content) == Some(all),
    ensures
        begins(joined(all, "\n"@), workpad_start()),
{
    let head = compact_head();
    reveal_strlit("\n");
    reveal_strlit("\n\n");
    assert(all.take(3) =~= head);
    lemma_joined_starts(all, "\n"@, 3);
    assert(joined(head, "\n"@) =~= workpad_start()) by {
        let two = head.drop_last();
        let one = two.drop_last();
        assert(joined(one, "\n"@) == head[0]);
        assert(joined(two, "\n"@) =~= head[0] + "\n"@ + head[1]);
        assert(joined(head, "\n"@) =~= joined(two, "\n"@) + "\n"@ + head[2]);
    }
}

/// Whether the link to the pull request of a workpad leaves room for its header, its marker
/// and an ellipsis.
pub open spec fn link_leaves_room(pr_url: Option<Seq<char>>) -> bool {
    pr_url matches Some(url) ==> byte_len(pr_suffix(url)) + workpad_start().len() + 4
        <= TODOIST_COMMENT_SIZE_LIMIT
}

/// A workpad that was too long starts with the header and the marker once it is compacted.
proof fn lemma_compacted_start(content: Seq<char>, text: Seq<char>)
    requires
        compacted(content) == Some(text),
        byte_len(content) > TODOIST_COMMENT_SIZE_LIMIT,
        link_leaves_room(pr_url_in(content)),
    ensures
        begins(text, workpad_start()),
{
    let start = workpad_start();
    let all = compact_lines(content)->0;
    let full = joined(all, "\n"@);
    lemma_workpad_start();
    lemma_compact_lines_start(content, all);
    if byte_len(full) > TODOIST_COMMENT_SIZE_LIMIT {
        match pr_url_in(content) {
            Some(url) => {
                let budget = (TODOIST_COMMENT_SIZE_LIMIT - byte_len(pr_suffix(url))) as nat;
                lemma_fitted_keeps_start(full, start, budget);
                let kept = fitted(full, budget);
                assert(text.subrange(0, start.len() as int) =~= kept.subrange(
                    0,
                    start.len() as int,
                ));
            },
            None => {
                lemma_fitted_keeps_start(full, start, TODOIST_COMMENT_SIZE_LIMIT as nat);
            },
        }
    }
}

/// A text that starts with the header and the marker still does once it is trimmed.
proof fn lemma_started_is_trimmed(text: Seq<char>)
    requires
        begins(text, workpad_start()),
    ensures
        trimmed_start(text) == text,
        begins(text, WORKPAD_HEADER@),
        begins(trimmed(text), workpad_start()),
        occurs(trimmed(text), WORKPAD_MARKER@),
        byte_len(trimmed(text)) <= byte_len(text),
{
    let start = workpad_start();
    let n = start.len() as int;
    lemma_workpad_start();
    assert forall|i: int| 0 <= i < n implies text[i] == start[i] by {
        assert(text.subrange(0, n)[i] == start[i]);
    }
    assert(trimmed_start(text) == text);
    reveal_strlit("## Codex Workpad");
    assert(start.subrange(0, 16) == WORKPAD_HEADER@);
    assert(text.subrange(0, 16) =~= start.subrange(0, 16));
    lemma_trimmed_end_keeps(text, n - 1);
    lemma_trimmed_end(text);
    let t = trimmed(text);
    assert(t.subrange(0, n) =~= start);
    lemma_byte_len_take(text, t.len() as int);
    let rest = t.skip(n);
    lemma_occurs_concat(WORKPAD_HEADER@ + "\n\n"@, WORKPAD_MARKER@, rest);
    assert(start + rest =~= t);
}

/// A stored workpad is found again: the stored form of any notes is recognised as a
/// workpad, as long as the link to a pull request leaves room for the header, the marker
/// and an ellipsis.
pub proof fn law_stored_workpad_is_recognised(
    content: Seq<char>,
    stored: Seq<char>,
    comment: JsonView,
)
    requires
        normalized(content) == Some(stored),
        comment_content(comment) == Some(stored),
        link_leaves_room(pr_url_in(with_marker(content))),
    ensures
        is_workpad(comment),
{
    let full = with_marker(content);
    lemma_with_marker(content);
    if byte_len(full) > TODOIST_COMMENT_SIZE_LIMIT {
        lemma_compacted_start(full, stored);
        lemma_started_is_trimmed(stored);
    }
}

/// Notes that are stored are stored as they are, but for whitespace at their end: the form
/// in which the stored form of any notes is stored is itself, trimmed. The link to a pull
/// request has to leave room for the header, the marker and an ellipsis.
pub proof fn law_stored_workpad_is_stable(content: Seq<char>, stored: Seq<char>)
    requires
        normalized(content) == Some(stored),
        link_leaves_room(pr_url_in(with_marker(content))),
    ensures
        normalized(stored) == Some(trimmed(stored)),
        normalized(trimmed(stored)) == Some(trimmed(stored)),
{
    let full = with_marker(content);
    if byte_len(full) <= TODOIST_COMMENT_SIZE_LIMIT {
        law_normalizing_is_idempotent(content);
        lemma_with_marker_is_trimmed(content);
    } else {
        lemma_compacted_start(full, stored);
        lemma_started_is_trimmed(stored);
        lemma_workpad_start();
        law_compacted_size(full, stored);
        lemma_trimmed_idempotent(stored);
        assert(with_marker(stored) == trimmed(stored));
        assert(with_marker(trimmed(stored)) == trimmed(stored));
    }
}

/// Notes with their marker have no whitespace at either end.
proof fn lemma_with_marker_is_trimmed(content: Seq<char>)
    ensures
        trimmed(with_marker(content)) == with_marker(content),
        with_marker(with_marker(content)) == with_marker(content),
{
    let t = trimmed(content);
    let full = with_marker(content);
    lemma_with_marker(content);
    lemma_trimmed_idempotent(content);
    reveal_strlit("## Codex Workpad");
    reveal_strlit("<!-- symphony:workpad -->");
    if !(t.len() > 0 && occurs(t, WORKPAD_MARKER@)) {
        assert(full[0] == '#');
        assert(trimmed_start(full) == full);
        assert(!is_white(full.last())) by {
            if t.len() == 0 {
                assert(full.last() == WORKPAD_MARKER@.last());
            } else {
                lemma_trimmed_end(trimmed_start(content));
                match after_prefix(t, WORKPAD_HEADER@) {
                    Some(rest) => {
                        if rest.len() > 0 {
                            assert(full.last() == rest.last());
                            assert(rest.last() == t.last());
                        } else {
                            assert(full.last() == WORKPAD_MARKER@.last());
                        }
                    },
                    None => {
                        assert(full.last() == t.last());
                    },
                }
            }
        }
        assert(trimmed(full) == full);
    }
}

/// Storing a workpad twice is storing it once, where the notes with their marker fit
/// into a comment.
pub proof fn law_normalizing_is_idempotent(content: Seq<char>)
    requires
        byte_len(with_marker(content)) <= TODOIST_COMMENT_SIZE_LIMIT,
    ensures
        normalized(content) == Some(with_marker(content)),
        normalized(with_marker(content)) == normalized(content),
{
    lemma_with_marker_is_trimmed(content);
}

/// A compacted workpad fits into a comment, as long as the link to its pull request does.
pub proof fn law_compacted_size(content: Seq<char>, text: Seq<char>)
    requires
        compacted(content) == Some(text),
        link_fits(pr_url_in(content)),
    ensures
        byte_len(text) <= TODOIST_COMMENT_SIZE_LIMIT,
{
    if byte_len(content) > TODOIST_COMMENT_SIZE_LIMIT {
        lemma_cut_to_limit_fits(joined(compact_lines(content)->0, "\n"@), pr_url_in(content));
    }
}

/// Compacting a workpad that is too long keeps the link to its pull request, however much
/// is cut.
pub proof fn law_compacting_keeps_the_link(content: Seq<char>, text: Seq<char>, url: Seq<char>)
    requires
        compacted(content) == Some(text),
        byte_len(content) > TODOIST_COMMENT_SIZE_LIMIT,
        pr_url_in(content) == Some(url),
    ensures
        occurs(text, url),
{
    let all = compact_lines(content)->0;
    let full = joined(all, "\n"@);
    if byte_len(full) > TODOIST_COMMENT_SIZE_LIMIT {
        let budget = if byte_len(pr_suffix(url)) <= TODOIST_COMMENT_SIZE_LIMIT {
            (TODOIST_COMMENT_SIZE_LIMIT - byte_len(pr_suffix(url))) as nat
        } else {
            0
        };
        let kept = fitted(full, budget);
        lemma_occurs_concat(kept + "\n\nLinked PR: "@, url, Seq::empty());
        assert(kept + pr_suffix(url) =~= kept + "\n\nLinked PR: "@ + url);
    } else {
        let sections = sections_of(content);
        let kept = kept_lines(sections, preferred_names())->0;
        let above = compact_head() + kept;
        let upper = above + link_lines(above, Some(url));
        assert(mentioned(upper, url)) by {
            if mentioned(above, url) {
                let i = choose|i: int| 0 <= i < above.len() && occurs(#[trigger] above[i], url);
                assert(upper[i] == above[i]);
            } else {
                let i = above.len() as int + 3;
                assert(upper[i] == "Linked PR: "@ + url);
                lemma_occurs_concat("Linked PR: "@, url, Seq::empty());
            }
        }
        let i = choose|i: int| 0 <= i < upper.len() && occurs(#[trigger] upper[i], url);
        assert(all[i] == upper[i]);
        lemma_joined_holds(all, "\n"@, i, url);
    }
}

/// A text of ASCII characters can be cut anywhere.
proof fn lemma_ascii_is_cut(text: Seq<char>, max: nat)
    requires
        is_ascii_chars(text),
    ensures
        cut_text(text, max) is Some,
{
    if text.len() >= max {
        lemma_ascii_cuts(text, max as int);
    } else {
        lemma_ascii_cuts(text, 0);
    }
}

/// Whether the texts of all sections have ASCII characters only.
spec fn ascii_sections(sections: Seq<(Seq<char>, Seq<char>)>) -> bool {
    forall|i: int| 0 <= i < sections.len() ==> is_ascii_chars((#[trigger] sections[i]).1)
}

proof fn lemma_body_lines_ascii(all: Seq<Seq<char>>, header_seen: bool, marker_seen: bool)
    requires
        all_ascii(all),
    ensures
        all_ascii(body_lines(all, header_seen, marker_seen)),
    decreases all.len(),
{
    if all.len() > 0 {
        let rest = all.skip(1);
        assert forall|i: int| 0 <= i < rest.len() implies is_ascii_chars(#[trigger] rest[i]) by {
            assert(rest[i] == all[i + 1]);
        }
        lemma_body_lines_ascii(rest, true, marker_seen);
        lemma_body_lines_ascii(rest, header_seen, true);
        lemma_body_lines_ascii(rest, header_seen, marker_seen);
        let out = body_lines(all, header_seen, marker_seen);
        let kept = body_lines(rest, header_seen, marker_seen);
        assert(is_ascii_chars(all[0]));
        if out == seq![all[0]] + kept {
            assert forall|i: int| 0 <= i < out.len() implies is_ascii_chars(#[trigger] out[i]) by {
                if i > 0 {
                    assert(out[i] == kept[i - 1]);
                }
            }
        }
    }
}

proof fn lemma_section_text_ascii(body: Seq<Seq<char>>)
    requires
        all_ascii(body),
    ensures
        is_ascii_chars(section_text(body)),
{
    reveal_strlit("\n");
    lemma_joined_ascii(body, "\n"@);
    lemma_trimmed_ascii(joined(body, "\n"@));
}

proof fn lemma_sections_ascii(
    all: Seq<Seq<char>>,
    heading: Option<Seq<char>>,
    body: Seq<Seq<char>>,
)
    requires
        all_ascii(all),
        all_ascii(body),
    ensures
        ascii_sections(sections_in(all, heading, body)),
    decreases all.len(),
{
    lemma_section_text_ascii(body);
    if all.len() > 0 {
        let rest = all.skip(1);
        assert forall|i: int| 0 <= i < rest.len() implies is_ascii_chars(#[trigger] rest[i]) by {
            assert(rest[i] == all[i + 1]);
        }
        assert(is_ascii_chars(all[0]));
        match after_prefix(trimmed_start(all[0]), "## "@) {
            Some(title) => match heading {
                Some(h) => {
                    let tail = sections_in(rest, Some(trimmed(title)), Seq::empty());
                    lemma_sections_ascii(rest, Some(trimmed(title)), Seq::empty());
                    let out = sections_in(all, heading, body);
                    assert forall|i: int| 0 <= i < out.len() implies is_ascii_chars(
                        (#[trigger] out[i]).1,
                    ) by {
                        if i > 0 {
                            assert(out[i] == tail[i - 1]);
                        }
                    }
                },
                None => {
                    lemma_sections_ascii(rest, Some(trimmed(title)), body);
                },
            },
            None => {
                let longer = body.push(all[0]);
                assert(all_ascii(longer)) by {
                    assert forall|i: int| 0 <= i < longer.len() implies is_ascii_chars(
                        #[trigger] longer[i],
                    ) by {
                        if i < body.len() {
                            assert(longer[i] == body[i]);
                        }
                    }
                }
                lemma_sections_ascii(rest, heading, longer);
            },
        }
    }
}

proof fn lemma_section_named_ascii(sections: Seq<(Seq<char>, Seq<char>)>, name: Seq<char>)
    requires
        ascii_sections(sections),
    ensures
        section_named(sections, name) matches Some(text) ==> is_ascii_chars(text),
    decreases sections.len(),
{
    if sections.len() > 0 {
        let rest = sections.skip(1);
        assert forall|i: int| 0 <= i < rest.len() implies is_ascii_chars(
            (#[trigger] rest[i]).1,
        ) by {
            assert(rest[i] == sections[i + 1]);
        }
        assert(is_ascii_chars(sections[0].1));
        lemma_section_named_ascii(rest, name);
    }
}

proof fn lemma_kept_lines_ascii(sections: Seq<(Seq<char>, Seq<char>)>, names: Seq<Seq<char>>)
    requires
        ascii_sections(sections),
    ensures
        kept_lines(sections, names) is Some,
    decreases names.len(),
{
    if names.len() > 0 {
        lemma_kept_lines_ascii(sections, names.drop_last());
        lemma_section_named_ascii(sections, names.last());
        if let Some(text) = section_named(sections, names.last()) {
            lemma_trimmed_ascii(text);
            lemma_ascii_is_cut(trimmed(text), 2200);
        }
    }
}

proof fn lemma_history_lines_ascii(sections: Seq<(Seq<char>, Seq<char>)>, names: Seq<Seq<char>>)
    requires
        ascii_sections(sections),
    ensures
        history_lines(sections, names) is Some,
    decreases sections.len(),
{
    if sections.len() > 0 {
        let rest = sections.drop_last();
        assert forall|i: int| 0 <= i < rest.len() implies is_ascii_chars(
            (#[trigger] rest[i]).1,
        ) by {
            assert(rest[i] == sections[i]);
        }
        lemma_history_lines_ascii(rest, names);
        assert(is_ascii_chars(sections[sections.len() - 1].1));
        lemma_trimmed_ascii(sections.last().1);
        lemma_ascii_is_cut(trimmed(sections.last().1), 160);
    }
}

/// Notes of ASCII characters always have a compacted form.
pub proof fn law_ascii_workpads_are_compacted(content: Seq<char>)
    requires
        is_ascii_chars(content),
    ensures
        compacted(content) is Some,
{
    lemma_lines_ascii(content);
    lemma_body_lines_ascii(lines(content), false, false);
    let body = body_of(content);
    reveal_strlit("\n");
    lemma_joined_ascii(body_lines(lines(content), false, false), "\n"@);
    lemma_lines_ascii(body);
    lemma_sections_ascii(lines(body), None, Seq::empty());
    lemma_kept_lines_ascii(sections_of(content), preferred_names());
    lemma_history_lines_ascii(sections_of(content), preferred_names());
    lemma_trimmed_ascii(body);
    lemma_ascii_is_cut(trimmed(body), 3000);
}

/// Notes of ASCII characters always have a form in which they are stored.
pub proof fn law_ascii_workpads_are_stored(content: Seq<char>)
    requires
        is_ascii_chars(content),
    ensures
        normalized(content) is Some,
{
    lemma_trimmed_ascii(content);
    reveal_strlit("## Codex Workpad");
    reveal_strlit("<!-- symphony:workpad -->");
    reveal_strlit("\n\n");
    assert(is_ascii_chars(WORKPAD_HEADER@ + "\n\n"@ + WORKPAD_MARKER@));
    assert(is_ascii_chars(with_marker(content)));
    law_ascii_workpads_are_compacted(with_marker(content));
}

} // verus!
