//! What an agent reports of the tokens it has used and of the limits it is under.
use vstd::prelude::*;

use crate::json::{
    at_path, entry_views, get_entry, group_json_views, integer, opt_json_text, opt_view, ref_view,
    views, Json, JsonView,
};
use crate::table::{has_key, lookup};
use crate::text::same;

verus! {

broadcast use vstd::seq::group_seq_axioms;

/// The texts of a list of string slices.
pub open spec fn str_views(all: Seq<&str>) -> Seq<Seq<char>> {
    Seq::new(all.len(), |i: int| all[i]@)
}

/// The value at the end of a path of keys.
pub fn lookup_path<'a>(value: &'a Json, path: &Vec<&str>) -> (r: Option<&'a Json>)
    ensures
        ref_view(r) == at_path(value@, str_views(path@)),
{
    let ghost all = str_views(path@);
    let mut current: &'a Json = value;
    let mut i: usize = 0;
    proof {
        assert(all.skip(0) =~= all);
    }
    while i < path.len()
        invariant
            i <= path.len(),
            all == str_views(path@),
            at_path(value@, all) == at_path(current@, all.skip(i as int)),
        decreases path.len() - i,
    {
        proof {
            assert(all.skip(i as int)[0] == path@[i as int]@);
            assert(all.skip(i as int).skip(1) =~= all.skip(i + 1));
        }
        match current.get(path[i]) {
            Some(next) => {
                current = next;
            },
            None => {
                return None;
            },
        }
        i = i + 1;
    }
    Some(current)
}

/// The integer that a number stands for, wrapped around where it is too large.
pub open spec fn wrapped_integer(json: JsonView) -> Option<int> {
    match json.as_i64() {
        Some(n) => Some(n as int),
        None => match json.as_u64() {
            Some(n) => Some(n - 0x1_0000_0000_0000_0000),
            None => None,
        },
    }
}

/// The integer under the first of two keys that is there.
pub open spec fn integer_under(json: JsonView, first: Seq<char>, second: Seq<char>) -> Option<int> {
    match json.get(first) {
        Some(found) => wrapped_integer(found),
        None => match json.get(second) {
            Some(found) => wrapped_integer(found),
            None => None,
        },
    }
}

/// The integer under the first of two keys that is there.
pub fn extract_integer(value: &Json, first: &str, second: &str) -> (r: Option<i64>)
    ensures
        match r {
            Some(n) => integer_under(value@, first@, second@) == Some(n as int),
            None => integer_under(value@, first@, second@) is None,
        },
{
    let found: &Json = match value.get(first) {
        Some(found) => found,
        None => match value.get(second) {
            Some(found) => found,
            None => {
                return None;
            },
        },
    };
    match found.as_i64() {
        Some(n) => Some(n),
        None => match found.as_u64() {
            Some(n) => {
                let above: i64 = (n - 0x8000_0000_0000_0000) as i64;
                Some(above + i64::MIN)
            },
            None => None,
        },
    }
}

/// An integer under the first of two keys, or zero.
pub open spec fn count_under(json: JsonView, first: Seq<char>, second: Seq<char>) -> JsonView {
    JsonView::Number(
        integer(
            match integer_under(json, first, second) {
                Some(n) => n,
                None => 0,
            },
        ),
    )
}

fn build_count(value: &Json, first: &str, second: &str) -> (r: Json)
    ensures
        r@ == count_under(value@, first@, second@),
{
    match extract_integer(value, first, second) {
        Some(n) => Json::signed(n),
        None => Json::signed(0),
    }
}

/// Token counts under their usual names.
pub open spec fn usage_counts(json: JsonView) -> JsonView {
    JsonView::Object(
        seq![
            ("input_tokens"@, count_under(json, "inputTokens"@, "input_tokens"@)),
            ("output_tokens"@, count_under(json, "outputTokens"@, "output_tokens"@)),
            ("total_tokens"@, count_under(json, "totalTokens"@, "total_tokens"@)),
        ],
    )
}

/// Token counts under their usual names.
pub fn normalize_usage_map(value: &Json) -> (r: Json)
    ensures
        r@ == usage_counts(value@),
{
    Json::object3(
        "input_tokens",
        build_count(value, "inputTokens", "input_tokens"),
        "output_tokens",
        build_count(value, "outputTokens", "output_tokens"),
        "total_tokens",
        build_count(value, "totalTokens", "total_tokens"),
    )
}

/// The first of several paths at whose end there is a value.
pub open spec fn first_at(json: JsonView, paths: Seq<Seq<Seq<char>>>) -> Option<JsonView>
    decreases paths.len(),
{
    if paths.len() == 0 {
        None
    } else {
        match at_path(json, paths[0]) {
            Some(found) => Some(found),
            None => first_at(json, paths.skip(1)),
        }
    }
}

/// Where a message reports the tokens of a whole session.
pub open spec fn session_paths() -> Seq<Seq<Seq<char>>> {
    seq![
        seq!["params"@, "msg"@, "payload"@, "info"@, "total_token_usage"@],
        seq!["params"@, "msg"@, "info"@, "total_token_usage"@],
        seq!["params"@, "tokenUsage"@, "total"@],
        seq!["tokenUsage"@, "total"@],
    ]
}

/// Where a message that ends a turn reports its tokens.
pub open spec fn turn_paths() -> Seq<Seq<Seq<char>>> {
    seq![seq!["params"@, "usage"@], seq!["usage"@]]
}

fn find_session_usage(message: &Json) -> (r: Option<&Json>)
    ensures
        ref_view(r) == first_at(message@, session_paths()),
{
    reveal_with_fuel(first_at, 5);
    let ghost paths = session_paths();
    proof {
        assert(paths.skip(1)[0] == paths[1]);
        assert(paths.skip(1).skip(1)[0] == paths[2]);
        assert(paths.skip(1).skip(1).skip(1)[0] == paths[3]);
    }
    let a: Vec<&str> = vec!["params", "msg", "payload", "info", "total_token_usage"];
    proof {
        assert(str_views(a@) =~= paths[0]);
    }
    match lookup_path(message, &a) {
        Some(found) => {
            return Some(found);
        },
        None => {},
    }
    let b: Vec<&str> = vec!["params", "msg", "info", "total_token_usage"];
    proof {
        assert(str_views(b@) =~= paths[1]);
    }
    match lookup_path(message, &b) {
        Some(found) => {
            return Some(found);
        },
        None => {},
    }
    let c: Vec<&str> = vec!["params", "tokenUsage", "total"];
    proof {
        assert(str_views(c@) =~= paths[2]);
    }
    match lookup_path(message, &c) {
        Some(found) => {
            return Some(found);
        },
        None => {},
    }
    let d: Vec<&str> = vec!["tokenUsage", "total"];
    proof {
        assert(str_views(d@) =~= paths[3]);
    }
    lookup_path(message, &d)
}

fn find_turn_usage(message: &Json) -> (r: Option<&Json>)
    ensures
        ref_view(r) == first_at(message@, turn_paths()),
{
    reveal_with_fuel(first_at, 3);
    let ghost paths = turn_paths();
    proof {
        assert(paths.skip(1)[0] == paths[1]);
    }
    let a: Vec<&str> = vec!["params", "usage"];
    proof {
        assert(str_views(a@) =~= paths[0]);
    }
    match lookup_path(message, &a) {
        Some(found) => {
            return Some(found);
        },
        None => {},
    }
    let b: Vec<&str> = vec!["usage"];
    proof {
        assert(str_views(b@) =~= paths[1]);
    }
    lookup_path(message, &b)
}

/// The token counts that a message reports: those of the session, or, where it ends a
/// turn, those of the turn.
pub open spec fn usage_of(message: JsonView) -> Option<JsonView> {
    match first_at(message, session_paths()) {
        Some(found) => Some(usage_counts(found)),
        None => if opt_json_text(message.get("method"@)) == Some("turn/completed"@) {
            match first_at(message, turn_paths()) {
                Some(found) => Some(usage_counts(found)),
                None => None,
            }
        } else {
            None
        },
    }
}

/// The token counts that a message reports.
pub fn extract_usage(message: &Json) -> (r: Option<Json>)
    ensures
        opt_view(r) == usage_of(message@),
{
    match find_session_usage(message) {
        Some(found) => {
            return Some(normalize_usage_map(found));
        },
        None => {},
    }
    let completed: bool = match message.get("method") {
        Some(method) => match method.as_str() {
            Some(text) => same(text, "turn/completed"),
            None => false,
        },
        None => false,
    };
    if !completed {
        return None;
    }
    match find_turn_usage(message) {
        Some(found) => Some(normalize_usage_map(found)),
        None => None,
    }
}

/// Whether a value tells of rate limits.
pub open spec fn is_limits(json: JsonView) -> bool {
    match json {
        JsonView::Object(entries) => has_key(entries, "primary"@) || has_key(
            entries,
            "secondary"@,
        ) || has_key(entries, "credits"@),
        _ => false,
    }
}

/// Whether a value tells of rate limits.
pub fn rate_limits_map(payload: &Json) -> (r: bool)
    ensures
        r == is_limits(payload@),
{
    broadcast use group_json_views;

    match payload {
        Json::Object(entries) => get_entry(entries, "primary").is_some() || get_entry(
            entries,
            "secondary",
        ).is_some() || get_entry(entries, "credits").is_some(),
        _ => false,
    }
}

/// The rate limits that stand first in a value: under their own key, as the value
/// itself, or anywhere inside it.
pub open spec fn limits_in(json: JsonView) -> Option<JsonView>
    decreases json,
{
    match json {
        JsonView::Object(entries) => {
            let direct = match lookup(entries, "rateLimits"@) {
                Some(found) => Some(found),
                None => lookup(entries, "rate_limits"@),
            };
            if direct is Some && is_limits(direct->0) {
                direct
            } else if is_limits(json) {
                Some(json)
            } else {
                limits_in_entries(entries)
            }
        },
        JsonView::Array(items) => limits_in_items(items),
        _ => None,
    }
}

/// The rate limits in the first of the items that holds any.
pub open spec fn limits_in_items(items: Seq<JsonView>) -> Option<JsonView>
    decreases items,
{
    if items.len() == 0 {
        None
    } else {
        match limits_in(items[0]) {
            Some(found) => Some(found),
            None => limits_in_items(items.subrange(1, items.len() as int)),
        }
    }
}

/// The rate limits in the first of the entries whose value holds any.
pub open spec fn limits_in_entries(entries: Seq<(Seq<char>, JsonView)>) -> Option<JsonView>
    decreases entries,
{
    if entries.len() == 0 {
        None
    } else {
        match limits_in(entries[0].1) {
            Some(found) => Some(found),
            None => limits_in_entries(entries.subrange(1, entries.len() as int)),
        }
    }
}

/// The rate limits that stand first in a value.
pub fn extract_rate_limits(payload: &Json) -> (r: Option<Json>)
    ensures
        opt_view(r) == limits_in(payload@),
    decreases payload@,
{
    broadcast use group_json_views;

    match payload {
        Json::Object(entries) => {
            let direct: Option<&Json> = match get_entry(entries, "rateLimits") {
                Some(found) => Some(found),
                None => get_entry(entries, "rate_limits"),
            };
            match direct {
                Some(found) => {
                    if rate_limits_map(found) {
                        return Some(found.copy());
                    }
                },
                None => {},
            }
            if rate_limits_map(payload) {
                return Some(payload.copy());
            }
            let ghost all = entry_views(entries@);
            let mut i: usize = 0;
            proof {
                assert(all.subrange(0, all.len() as int) =~= all);
            }
            while i < entries.len()
                invariant
                    i <= entries.len(),
                    all == entry_views(entries@),
                    payload@ == JsonView::Object(all),
                    limits_in_entries(all) == limits_in_entries(
                        all.subrange(i as int, all.len() as int),
                    ),
                    limits_in(payload@) == limits_in_entries(all),
                decreases entries.len() - i,
            {
                let ghost rest = all.subrange(i as int, all.len() as int);
                proof {
                    assert(payload@->Object_0[i as int].1 == entries@[i as int].1@);
                    assert(decreases_to!(payload@ => payload@->Object_0[i as int]));
                    assert(decreases_to!(payload@ => payload@->Object_0[i as int].1));
                    assert(rest[0].1 == entries@[i as int].1@);
                    assert(rest.subrange(1, rest.len() as int) =~= all.subrange(
                        i + 1,
                        all.len() as int,
                    ));
                }
                match extract_rate_limits(&entries[i].1) {
                    Some(found) => {
                        return Some(found);
                    },
                    None => {},
                }
                i = i + 1;
            }
            None
        },
        Json::Array(items) => {
            let ghost all = views(items@);
            let mut i: usize = 0;
            proof {
                assert(all.subrange(0, all.len() as int) =~= all);
            }
            while i < items.len()
                invariant
                    i <= items.len(),
                    all == views(items@),
                    payload@ == JsonView::Array(all),
                    limits_in_items(all) == limits_in_items(
                        all.subrange(i as int, all.len() as int),
                    ),
                    limits_in(payload@) == limits_in_items(all),
                decreases items.len() - i,
            {
                let ghost rest = all.subrange(i as int, all.len() as int);
                proof {
                    assert(payload@->Array_0[i as int] == items@[i as int]@);
                    assert(decreases_to!(payload@ => payload@->Array_0[i as int]));
                    assert(rest[0] == items@[i as int]@);
                    assert(rest.subrange(1, rest.len() as int) =~= all.subrange(
                        i + 1,
                        all.len() as int,
                    ));
                }
                match extract_rate_limits(&items[i]) {
                    Some(found) => {
                        return Some(found);
                    },
                    None => {},
                }
                i = i + 1;
            }
            None
        },
        _ => None,
    }
}

/// Whatever is taken for rate limits tells of rate limits.
pub proof fn law_found_limits_are_limits(json: JsonView)
    ensures
        limits_in(json) matches Some(found) ==> is_limits(found),
    decreases json,
{
    match json {
        JsonView::Object(entries) => {
            lemma_entry_limits_are_limits(entries);
        },
        JsonView::Array(items) => {
            lemma_item_limits_are_limits(items);
        },
        _ => {},
    }
}

proof fn lemma_item_limits_are_limits(items: Seq<JsonView>)
    ensures
        limits_in_items(items) matches Some(found) ==> is_limits(found),
    decreases items,
{
    if items.len() > 0 {
        law_found_limits_are_limits(items[0]);
        lemma_item_limits_are_limits(items.subrange(1, items.len() as int));
    }
}

proof fn lemma_entry_limits_are_limits(entries: Seq<(Seq<char>, JsonView)>)
    ensures
        limits_in_entries(entries) matches Some(found) ==> is_limits(found),
    decreases entries,
{
    if entries.len() > 0 {
        law_found_limits_are_limits(entries[0].1);
        lemma_entry_limits_are_limits(entries.subrange(1, entries.len() as int));
    }
}

} // verus!
