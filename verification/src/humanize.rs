//! What the messages of an agent mean, in a few words for people.
//!
//! The values that are looked for in a message are written as paths: keys with dots
//! between them, and alternatives with bars between them, of which the first counts that
//! leads to a value. A key is also found in its other spelling, with capitals in place of
//! underscores or the other way round.
use vstd::prelude::*;
use vstd::string::*;

use crate::display::{
    cut_short, grouped, format_int, humanize_event_name, humanize_item_type, humanize_status,
    inline_text, inlined, is_upper, replaced, short_id, status_words, truncate_chars, type_words,
};
use crate::issue::opt_truth;
use crate::json::{
    first_of, group_json_views, opt_items, opt_json_text, opt_view, parse, parsed, pretty_of,
    ref_view, to_pretty_text, views, Json, JsonView,
};
use crate::text::{
    ascii_lower, ascii_upper, begins, chars_of, concat, concat3, decimal, decimal_text,
    first_chars, join, joined, lines, lower_char, opt_str, opt_text, owned, parse_i64, parse_u64,
    pieces, same, signed_decimal, signed_text, signed_value, split_at_char, split_lines,
    starts_with, string_of, texts, trim, trimmed, unsigned_value, upper_char, usize_text,
};
use crate::tracker::{RateBudgetView, TrackerRateBudget};

verus! {

broadcast use {vstd::seq::group_seq_axioms, vstd::string::group_string_axioms};

// ---------------------------------------------------------------------------
// Spellings
// ---------------------------------------------------------------------------

/// A name with capitals in place of underscores, and whether a capital comes next.
pub open spec fn camel_scan(s: Seq<char>) -> (Seq<char>, bool)
    decreases s.len(),
{
    if s.len() == 0 {
        (Seq::empty(), false)
    } else {
        let (out, raise) = camel_scan(s.drop_last());
        let c = s.last();
        if c == '_' {
            (out, true)
        } else if raise {
            (out.push(ascii_upper(c)), false)
        } else {
            (out.push(c), false)
        }
    }
}

/// A name with capitals in place of underscores.
pub fn snake_to_camel(value: &str) -> (r: String)
    ensures
        r@ == camel_scan(value@).0,
{
    let chars: Vec<char> = chars_of(value);
    let mut out: String = String::new();
    let mut raise: bool = false;
    let mut i: usize = 0;
    while i < chars.len()
        invariant
            i <= chars.len(),
            chars@ == value@,
            (out@, raise) == camel_scan(value@.take(i as int)),
        decreases chars.len() - i,
    {
        let c: char = chars[i];
        proof {
            assert(value@.take(i + 1).drop_last() =~= value@.take(i as int));
            assert(value@.take(i + 1).last() == c);
        }
        if c == '_' {
            raise = true;
        } else if raise {
            out.push(upper_char(c));
            raise = false;
        } else {
            out.push(c);
        }
        i = i + 1;
    }
    proof {
        assert(value@.take(i as int) =~= value@);
    }
    out
}

/// A name with underscores before its capitals.
pub open spec fn snake(s: Seq<char>) -> Seq<char>
    decreases s.len(),
{
    if s.len() == 0 {
        Seq::empty()
    } else {
        let out = snake(s.drop_last());
        let c = s.last();
        if is_upper(c) && s.len() > 1 {
            out.push('_').push(ascii_lower(c))
        } else {
            out.push(ascii_lower(c))
        }
    }
}

/// A name with underscores before its capitals.
pub fn camel_to_snake(value: &str) -> (r: String)
    ensures
        r@ == snake(value@),
{
    let chars: Vec<char> = chars_of(value);
    let mut out: String = String::new();
    let mut i: usize = 0;
    while i < chars.len()
        invariant
            i <= chars.len(),
            chars@ == value@,
            out@ == snake(value@.take(i as int)),
        decreases chars.len() - i,
    {
        let c: char = chars[i];
        proof {
            assert(value@.take(i + 1).drop_last() =~= value@.take(i as int));
            assert(value@.take(i + 1).last() == c);
        }
        if 'A' <= c && c <= 'Z' && i > 0 {
            out.push('_');
        }
        out.push(lower_char(c));
        i = i + 1;
    }
    proof {
        assert(value@.take(i as int) =~= value@);
    }
    out
}

/// Whether a text holds a capital.
pub open spec fn has_capital(s: Seq<char>) -> bool {
    exists|i: int| 0 <= i < s.len() && is_upper(#[trigger] s[i])
}

/// The other spelling of a key.
pub open spec fn alternate(key: Seq<char>) -> Seq<char> {
    if key.contains('_') {
        camel_scan(key).0
    } else if has_capital(key) {
        snake(key)
    } else {
        key
    }
}

/// The other spelling of a key.
pub fn alternate_key(key: &str) -> (r: String)
    ensures
        r@ == alternate(key@),
{
    let chars: Vec<char> = chars_of(key);
    let mut underscore: bool = false;
    let mut capital: bool = false;
    let mut i: usize = 0;
    while i < chars.len()
        invariant
            i <= chars.len(),
            chars@ == key@,
            underscore <==> exists|j: int| 0 <= j < i && key@[j] == '_',
            capital <==> exists|j: int| 0 <= j < i && is_upper(#[trigger] key@[j]),
        decreases chars.len() - i,
    {
        if chars[i] == '_' {
            proof {
                assert(key@[i as int] == '_');
            }
            underscore = true;
        }
        if 'A' <= chars[i] && chars[i] <= 'Z' {
            proof {
                assert(is_upper(key@[i as int]));
            }
            capital = true;
        }
        i = i + 1;
    }
    if underscore {
        snake_to_camel(key)
    } else if capital {
        camel_to_snake(key)
    } else {
        owned(key)
    }
}

// ---------------------------------------------------------------------------
// Paths
// ---------------------------------------------------------------------------

/// The value under a key, in either spelling.
pub open spec fn key_in(json: JsonView, key: Seq<char>) -> Option<JsonView> {
    match json.get(key) {
        Some(found) => Some(found),
        None => if alternate(key) == key {
            None
        } else {
            json.get(alternate(key))
        },
    }
}

/// The value under a key, in either spelling.
pub fn json_key<'a>(value: &'a Json, key: &str) -> (r: Option<&'a Json>)
    ensures
        ref_view(r) == key_in(value@, key@),
{
    match value.get(key) {
        Some(found) => Some(found),
        None => {
            let other: String = alternate_key(key);
            if same(other.as_str(), key) {
                None
            } else {
                value.get(other.as_str())
            }
        },
    }
}

/// The value at the end of some keys.
pub open spec fn walk(json: JsonView, keys: Seq<Seq<char>>) -> Option<JsonView>
    decreases keys.len(),
{
    if keys.len() == 0 {
        Some(json)
    } else {
        match key_in(json, keys[0]) {
            Some(next) => walk(next, keys.skip(1)),
            None => None,
        }
    }
}

/// The value at the end of a path.
pub fn json_path<'a>(value: &'a Json, path: &str) -> (r: Option<&'a Json>)
    ensures
        ref_view(r) == walk(value@, pieces(path@, '.')),
{
    let keys: Vec<String> = split_at_char(path, '.');
    let ghost all = texts(keys@);
    let mut current: &'a Json = value;
    let mut i: usize = 0;
    proof {
        assert(all.skip(0) =~= all);
    }
    while i < keys.len()
        invariant
            i <= keys.len(),
            all == texts(keys@),
            walk(value@, pieces(path@, '.')) == walk(current@, all.skip(i as int)),
        decreases keys.len() - i,
    {
        proof {
            assert(all.skip(i as int)[0] == keys@[i as int]@);
            assert(all.skip(i as int).skip(1) =~= all.skip(i + 1));
        }
        match json_key(current, keys[i].as_str()) {
            Some(next) => {
                current = next;
            },
            None => {
                return None;
            },
        }
        i = i + 1;
    }
    Some(current)
}

/// The value at the end of the first of some paths that leads to one.
pub open spec fn first_walk(json: JsonView, paths: Seq<Seq<char>>) -> Option<JsonView>
    decreases paths.len(),
{
    if paths.len() == 0 {
        None
    } else {
        match walk(json, pieces(paths[0], '.')) {
            Some(found) => Some(found),
            None => first_walk(json, paths.skip(1)),
        }
    }
}

/// The value that paths lead to.
pub open spec fn value_at(json: Option<JsonView>, paths: Seq<char>) -> Option<JsonView> {
    match json {
        Some(json) => first_walk(json, pieces(paths, '|')),
        None => None,
    }
}

/// The text that paths lead to.
pub open spec fn text_at(json: Option<JsonView>, paths: Seq<char>) -> Option<Seq<char>> {
    opt_json_text(value_at(json, paths))
}

/// The value that paths lead to.
pub fn json_value<'a>(value: Option<&'a Json>, paths: &str) -> (r: Option<&'a Json>)
    ensures
        ref_view(r) == value_at(ref_view(value), paths@),
{
    let json: &'a Json = match value {
        Some(json) => json,
        None => {
            return None;
        },
    };
    let alternatives: Vec<String> = split_at_char(paths, '|');
    let ghost all = texts(alternatives@);
    let mut i: usize = 0;
    proof {
        assert(all.skip(0) =~= all);
    }
    while i < alternatives.len()
        invariant
            i <= alternatives.len(),
            all == texts(alternatives@),
            value_at(ref_view(value), paths@) == first_walk(json@, all.skip(i as int)),
        decreases alternatives.len() - i,
    {
        proof {
            assert(all.skip(i as int)[0] == alternatives@[i as int]@);
            assert(all.skip(i as int).skip(1) =~= all.skip(i + 1));
        }
        match json_path(json, alternatives[i].as_str()) {
            Some(found) => {
                return Some(found);
            },
            None => {},
        }
        i = i + 1;
    }
    None
}

/// The text that paths lead to.
pub fn json_text<'a>(value: Option<&'a Json>, paths: &str) -> (r: Option<&'a str>)
    ensures
        opt_str(r) == text_at(ref_view(value), paths@),
{
    match json_value(value, paths) {
        Some(found) => found.as_str(),
        None => None,
    }
}

/// The number that a value stands for: an unsigned integer, or a text of one.
pub open spec fn unsigned_in(json: Option<JsonView>) -> Option<u64> {
    match json {
        Some(json) => match json.as_u64() {
            Some(n) => Some(n),
            None => match json.text() {
                Some(text) => unsigned_value(trimmed(text)),
                None => None,
            },
        },
        None => None,
    }
}

/// The number that a value stands for.
pub fn parse_integer(value: Option<&Json>) -> (r: Option<u64>)
    ensures
        r == unsigned_in(ref_view(value)),
{
    match value {
        Some(json) => match json.as_u64() {
            Some(n) => Some(n),
            None => match json.as_str() {
                Some(text) => {
                    let t: String = trim(text);
                    parse_u64(t.as_str())
                },
                None => None,
            },
        },
        None => None,
    }
}

/// The number that a value stands for: a signed integer, or a text of one.
pub open spec fn signed_in(json: Option<JsonView>) -> Option<i64> {
    match json {
        Some(json) => match json.as_i64() {
            Some(n) => Some(n),
            None => match json.text() {
                Some(text) => signed_value(trimmed(text)),
                None => None,
            },
        },
        None => None,
    }
}

/// The number that paths lead to.
pub fn json_integer(value: Option<&Json>, paths: &str) -> (r: Option<i64>)
    ensures
        r == signed_in(value_at(ref_view(value), paths@)),
{
    match json_value(value, paths) {
        Some(json) => match json.as_i64() {
            Some(n) => Some(n),
            None => match json.as_str() {
                Some(text) => {
                    let t: String = trim(text);
                    parse_i64(t.as_str())
                },
                None => None,
            },
        },
        None => None,
    }
}

// ---------------------------------------------------------------------------
// Phrases
// ---------------------------------------------------------------------------

/// A phrase with a note in brackets behind it.
pub open spec fn noted(base: Seq<char>, note: Seq<char>) -> Seq<char> {
    base + " ("@ + note + ")"@
}

fn with_note(base: &str, note: &str) -> (r: String)
    ensures
        r@ == noted(base@, note@),
{
    let mut out: String = concat3(base, " (", note);
    out.append(")");
    out
}

/// A phrase with a note in brackets behind it, if there is a note.
pub open spec fn maybe_noted(base: Seq<char>, note: Option<Seq<char>>) -> Seq<char> {
    match note {
        Some(note) => noted(base, note),
        None => base,
    }
}

fn with_maybe_note(base: &str, note: Option<String>) -> (r: String)
    ensures
        r@ == maybe_noted(base@, opt_text(note)),
{
    match note {
        Some(note) => with_note(base, note.as_str()),
        None => owned(base),
    }
}

/// A phrase with more said behind a colon, if there is more.
pub open spec fn maybe_followed(base: Seq<char>, more: Option<Seq<char>>) -> Seq<char> {
    match more {
        Some(more) => base + ": "@ + more,
        None => base,
    }
}

fn with_maybe_more(base: &str, more: Option<String>) -> (r: String)
    ensures
        r@ == maybe_followed(base@, opt_text(more)),
{
    match more {
        Some(more) => concat3(base, ": ", more.as_str()),
        None => owned(base),
    }
}

/// An optional text on one line.
pub open spec fn opt_inlined(text: Option<Seq<char>>) -> Option<Seq<char>> {
    match text {
        Some(text) => Some(inlined(text)),
        None => None,
    }
}

fn inline_opt(text: Option<&str>) -> (r: Option<String>)
    ensures
        opt_text(r) == opt_inlined(opt_str(text)),
{
    match text {
        Some(text) => Some(inline_text(text)),
        None => None,
    }
}

/// An optional text on one line; an empty one is none.
pub open spec fn filled(text: Option<Seq<char>>) -> Option<Seq<char>> {
    match text {
        Some(text) => if inlined(text).len() > 0 {
            Some(inlined(text))
        } else {
            None
        },
        None => None,
    }
}

fn inline_filled(text: Option<&str>) -> (r: Option<String>)
    ensures
        opt_text(r) == filled(opt_str(text)),
{
    match text {
        Some(text) => {
            let line: String = inline_text(text);
            if line.as_str().is_empty() {
                None
            } else {
                Some(line)
            }
        },
        None => None,
    }
}

fn own_opt(text: Option<&str>) -> (r: Option<String>)
    ensures
        opt_text(r) == opt_str(text),
{
    match text {
        Some(text) => Some(owned(text)),
        None => None,
    }
}

/// A text, or another where there is none.
pub open spec fn or_else(text: Option<Seq<char>>, other: Seq<char>) -> Seq<char> {
    match text {
        Some(text) => text,
        None => other,
    }
}

fn text_or<'a>(text: Option<&'a str>, other: &'a str) -> (r: &'a str)
    ensures
        r@ == or_else(opt_str(text), other@),
{
    match text {
        Some(text) => text,
        None => other,
    }
}

/// A value as indented JSON on one line, cut to `max` characters.
pub open spec fn json_words(json: JsonView, max: nat) -> Seq<char> {
    cut_short(inlined(pretty_of(json)), max)
}

fn write_json(json: &Json, max: usize) -> (r: String)
    ensures
        r@ == json_words(json@, max as nat),
{
    let pretty: String = to_pretty_text(json);
    let line: String = inline_text(pretty.as_str());
    truncate_chars(line.as_str(), max)
}

/// An error in words.
pub open spec fn error_words(error: JsonView) -> Seq<char> {
    match text_at(Some(error), "message"@) {
        Some(message) => inlined(message),
        None => match error.text() {
            Some(text) => inlined(text),
            None => json_words(error, 96),
        },
    }
}

/// An error in words.
pub fn format_error_value(error: &Json) -> (r: String)
    ensures
        r@ == error_words(error@),
{
    match json_text(Some(error), "message") {
        Some(message) => inline_text(message),
        None => match error.as_str() {
            Some(text) => inline_text(text),
            None => write_json(error, 96),
        },
    }
}

/// Why something failed, in words.
pub open spec fn reason_words(message: Option<JsonView>, payload: Option<JsonView>) -> Seq<char> {
    match value_at(message, "reason"@) {
        Some(reason) => error_words(reason),
        None => match value_at(payload, "reason"@) {
            Some(reason) => error_words(reason),
            None => match message {
                Some(message) => json_words(message, 96),
                None => "unknown error"@,
            },
        },
    }
}

/// Why something failed, in words.
pub fn format_reason(message: Option<&Json>, payload: Option<&Json>) -> (r: String)
    ensures
        r@ == reason_words(ref_view(message), ref_view(payload)),
{
    match json_value(message, "reason") {
        Some(reason) => format_error_value(reason),
        None => match json_value(payload, "reason") {
            Some(reason) => format_error_value(reason),
            None => match message {
                Some(message) => write_json(message, 96),
                None => owned("unknown error"),
            },
        },
    }
}

// ---------------------------------------------------------------------------
// Counts and limits
// ---------------------------------------------------------------------------

/// Some parts, with one more if there is one.
pub open spec fn with_part(parts: Seq<Seq<char>>, part: Option<Seq<char>>) -> Seq<Seq<char>> {
    match part {
        Some(part) => parts.push(part),
        None => parts,
    }
}

fn add_part(parts: &mut Vec<String>, part: Option<String>)
    ensures
        texts(final(parts)@) == with_part(texts(old(parts)@), opt_text(part)),
{
    let ghost had = texts(parts@);
    match part {
        Some(part) => {
            let ghost text = part@;
            parts.push(part);
            proof {
                assert(texts(parts@) =~= had.push(text));
            }
        },
        None => {},
    }
}

/// A count with a label.
pub open spec fn usage_part(label: Seq<char>, count: Option<u64>) -> Option<Seq<char>> {
    match count {
        Some(n) => Some(label + " "@ + grouped(decimal(n as nat))),
        None => None,
    }
}

fn build_usage_part(label: &str, count: Option<u64>) -> (r: Option<String>)
    ensures
        opt_text(r) == usage_part(label@, count),
{
    match count {
        Some(n) => {
            let shown: String = format_int(n);
            Some(concat3(label, " ", shown.as_str()))
        },
        None => None,
    }
}

/// The counts of a report, each with its label.
pub open spec fn usage_parts(usage: JsonView) -> Seq<Seq<char>> {
    let input = unsigned_in(
        value_at(Some(usage), "input_tokens|prompt_tokens|inputTokens|promptTokens"@),
    );
    let output = unsigned_in(
        value_at(
            Some(usage),
            "output_tokens|completion_tokens|outputTokens|completionTokens"@,
        ),
    );
    let total = unsigned_in(value_at(Some(usage), "total_tokens|total|totalTokens"@));
    with_part(
        with_part(
            with_part(Seq::empty(), usage_part("in"@, input)),
            usage_part("out"@, output),
        ),
        usage_part("total"@, total),
    )
}

/// The counts of a report in words.
pub open spec fn usage_words(usage: Option<JsonView>) -> Option<Seq<char>> {
    match usage {
        Some(usage) => if usage_parts(usage).len() == 0 {
            None
        } else {
            Some(joined(usage_parts(usage), ", "@))
        },
        None => None,
    }
}

/// The counts of a report in words.
pub fn format_usage_counts(usage: Option<&Json>) -> (r: Option<String>)
    ensures
        opt_text(r) == usage_words(ref_view(usage)),
{
    if usage.is_none() {
        return None;
    }
    let input: Option<u64> = parse_integer(
        json_value(usage, "input_tokens|prompt_tokens|inputTokens|promptTokens"),
    );
    let output: Option<u64> = parse_integer(
        json_value(usage, "output_tokens|completion_tokens|outputTokens|completionTokens"),
    );
    let total: Option<u64> = parse_integer(json_value(usage, "total_tokens|total|totalTokens"));
    let mut parts: Vec<String> = Vec::new();
    proof {
        assert(texts(parts@) =~= Seq::empty());
    }
    add_part(&mut parts, build_usage_part("in", input));
    add_part(&mut parts, build_usage_part("out", output));
    add_part(&mut parts, build_usage_part("total", total));
    proof {
        assert(texts(parts@).len() == parts@.len());
    }
    if parts.len() == 0 {
        None
    } else {
        Some(join(&parts, ", "))
    }
}

/// The numbers of rate limits that may have a fraction, as they are shown: the share of
/// each bucket that is used, and the credits that are left, with one digit behind the
/// point.
#[derive(Debug)]
pub struct LimitNumbers {
    pub primary_used_percent: Option<String>,
    pub secondary_used_percent: Option<String>,
    pub credits_balance: Option<String>,
}

/// The numbers of rate limits that may have a fraction, as they are shown.
pub struct NumbersView {
    pub primary_used_percent: Option<Seq<char>>,
    pub secondary_used_percent: Option<Seq<char>>,
    pub credits_balance: Option<Seq<char>>,
}

impl View for LimitNumbers {
    type V = NumbersView;

    open spec fn view(&self) -> NumbersView {
        NumbersView {
            primary_used_percent: opt_text(self.primary_used_percent),
            secondary_used_percent: opt_text(self.secondary_used_percent),
            credits_balance: opt_text(self.credits_balance),
        }
    }
}

impl LimitNumbers {
    /// No numbers at all.
    pub fn none() -> (r: LimitNumbers)
        ensures
            r@ == (NumbersView {
                primary_used_percent: None,
                secondary_used_percent: None,
                credits_balance: None,
            }),
    {
        LimitNumbers {
            primary_used_percent: None,
            secondary_used_percent: None,
            credits_balance: None,
        }
    }
}

/// The values of rate limits that are shown as numbers that may have a fraction.
#[derive(Debug)]
pub struct LimitNumberSources {
    pub primary_used_percent: Option<Json>,
    pub secondary_used_percent: Option<Json>,
    pub credits_balance: Option<Json>,
}

/// The values of rate limits that are shown as numbers that may have a fraction.
pub fn limit_number_sources(rate_limits: &Json) -> (r: LimitNumberSources)
    ensures
        opt_view(r.primary_used_percent) == value_at(
            value_at(Some(rate_limits@), "primary"@),
            "usedPercent|used_percent"@,
        ),
        opt_view(r.secondary_used_percent) == value_at(
            value_at(Some(rate_limits@), "secondary"@),
            "usedPercent|used_percent"@,
        ),
        opt_view(r.credits_balance) == value_at(
            value_at(Some(rate_limits@), "credits"@),
            "balance"@,
        ),
{
    let primary: Option<&Json> = json_value(Some(rate_limits), "primary");
    let secondary: Option<&Json> = json_value(Some(rate_limits), "secondary");
    let credits: Option<&Json> = json_value(Some(rate_limits), "credits");
    LimitNumberSources {
        primary_used_percent: crate::json::copy_ref(
            json_value(primary, "usedPercent|used_percent"),
        ),
        secondary_used_percent: crate::json::copy_ref(
            json_value(secondary, "usedPercent|used_percent"),
        ),
        credits_balance: crate::json::copy_ref(json_value(credits, "balance")),
    }
}

/// What is left of a bucket, in words.
pub open spec fn bucket_words(bucket: Option<JsonView>, used_percent: Option<Seq<char>>) -> Option<
    Seq<char>,
> {
    let remaining = unsigned_in(value_at(bucket, "remaining"@));
    let limit = unsigned_in(value_at(bucket, "limit"@));
    let reset = unsigned_in(value_at(bucket, "resetInSeconds|reset_in_seconds"@));
    let usage = match used_percent {
        Some(percent) => Some(percent + "% used"@),
        None => match (remaining, limit) {
            (Some(remaining), Some(limit)) => Some(
                decimal(remaining as nat) + "/"@ + decimal(limit as nat) + " remaining"@,
            ),
            _ => None,
        },
    };
    if bucket is None {
        None
    } else {
        match usage {
            Some(usage) => match reset {
                Some(seconds) => Some(usage + ", reset "@ + decimal(seconds as nat) + "s"@),
                None => Some(usage),
            },
            None => None,
        }
    }
}

/// `remaining` of `limit`.
fn remaining_of(remaining: u64, limit: u64) -> (r: String)
    ensures
        r@ == decimal(remaining as nat) + "/"@ + decimal(limit as nat) + " remaining"@,
{
    let a: String = decimal_text(remaining);
    let b: String = decimal_text(limit);
    let mut out: String = concat3(a.as_str(), "/", b.as_str());
    out.append(" remaining");
    out
}

/// What is left of a bucket, in words.
pub fn format_rate_limit_bucket_summary(bucket: Option<&Json>, used_percent: &Option<String>) -> (r:
    Option<String>)
    ensures
        opt_text(r) == bucket_words(ref_view(bucket), opt_text(*used_percent)),
{
    if bucket.is_none() {
        return None;
    }
    let remaining: Option<u64> = parse_integer(json_value(bucket, "remaining"));
    let limit: Option<u64> = parse_integer(json_value(bucket, "limit"));
    let reset: Option<u64> = parse_integer(
        json_value(bucket, "resetInSeconds|reset_in_seconds"),
    );
    let usage: String = match used_percent {
        Some(percent) => concat(percent.as_str(), "% used"),
        None => match (remaining, limit) {
            (Some(remaining), Some(limit)) => remaining_of(remaining, limit),
            _ => {
                return None;
            },
        },
    };
    match reset {
        Some(seconds) => {
            let n: String = decimal_text(seconds);
            let mut out: String = concat3(usage.as_str(), ", reset ", n.as_str());
            out.append("s");
            Some(out)
        },
        None => Some(usage),
    }
}

/// What is left of the credits, in words.
pub open spec fn credits_words(credits: Option<JsonView>, balance: Option<Seq<char>>) -> Option<
    Seq<char>,
> {
    let has = opt_truth(value_at(credits, "has_credits"@));
    if opt_truth(value_at(credits, "unlimited"@)) == Some(true) {
        Some("credits unlimited"@)
    } else if has == Some(true) {
        match balance {
            Some(balance) => Some("credits "@ + balance),
            None => None,
        }
    } else if has is Some {
        Some("credits exhausted"@)
    } else {
        None
    }
}

fn truth_of(json: Option<&Json>) -> (r: Option<bool>)
    ensures
        r == opt_truth(ref_view(json)),
{
    match json {
        Some(json) => json.as_bool(),
        None => None,
    }
}

/// What is left of the credits, in words.
pub fn format_credits_summary(credits: Option<&Json>, balance: &Option<String>) -> (r: Option<
    String,
>)
    ensures
        opt_text(r) == credits_words(ref_view(credits), opt_text(*balance)),
{
    match truth_of(json_value(credits, "unlimited")) {
        Some(true) => {
            return Some(owned("credits unlimited"));
        },
        _ => {},
    }
    match truth_of(json_value(credits, "has_credits")) {
        Some(true) => match balance {
            Some(balance) => Some(concat("credits ", balance.as_str())),
            None => None,
        },
        Some(false) => Some(owned("credits exhausted")),
        None => None,
    }
}

/// A text with a label before it.
pub open spec fn labelled(label: Seq<char>, text: Option<Seq<char>>) -> Option<Seq<char>> {
    match text {
        Some(text) => Some(label + text),
        None => None,
    }
}

fn with_label(label: &str, text: Option<String>) -> (r: Option<String>)
    ensures
        opt_text(r) == labelled(label@, opt_text(text)),
{
    match text {
        Some(text) => Some(concat(label, text.as_str())),
        None => None,
    }
}

/// Parts with semicolons between them.
pub open spec fn listed(parts: Seq<Seq<char>>) -> Seq<char> {
    if parts.len() == 0 {
        "n/a"@
    } else {
        joined(parts, "; "@)
    }
}

fn list_parts(parts: &Vec<String>) -> (r: String)
    ensures
        r@ == listed(texts(parts@)),
{
    proof {
        assert(texts(parts@).len() == parts@.len());
    }
    if parts.len() == 0 {
        owned("n/a")
    } else {
        join(parts, "; ")
    }
}

/// Rate limits in words.
pub open spec fn limits_words(limits: JsonView, numbers: NumbersView) -> Seq<char> {
    let primary = bucket_words(value_at(Some(limits), "primary"@), numbers.primary_used_percent);
    let secondary = bucket_words(
        value_at(Some(limits), "secondary"@),
        numbers.secondary_used_percent,
    );
    let credits = credits_words(value_at(Some(limits), "credits"@), numbers.credits_balance);
    listed(
        with_part(
            with_part(
                with_part(Seq::empty(), labelled("primary "@, primary)),
                labelled("secondary "@, secondary),
            ),
            credits,
        ),
    )
}

/// Rate limits in words.
pub fn format_rate_limits_summary(rate_limits: &Json, numbers: &LimitNumbers) -> (r: String)
    ensures
        r@ == limits_words(rate_limits@, numbers@),
{
    let primary: Option<String> = format_rate_limit_bucket_summary(
        json_value(Some(rate_limits), "primary"),
        &numbers.primary_used_percent,
    );
    let secondary: Option<String> = format_rate_limit_bucket_summary(
        json_value(Some(rate_limits), "secondary"),
        &numbers.secondary_used_percent,
    );
    let credits: Option<String> = format_credits_summary(
        json_value(Some(rate_limits), "credits"),
        &numbers.credits_balance,
    );
    let mut parts: Vec<String> = Vec::new();
    proof {
        assert(texts(parts@) =~= Seq::empty());
    }
    add_part(&mut parts, with_label("primary ", primary));
    add_part(&mut parts, with_label("secondary ", secondary));
    add_part(&mut parts, credits);
    list_parts(&parts)
}

/// A number of seconds with a label.
pub open spec fn seconds_part(label: Seq<char>, seconds: Option<u64>) -> Option<Seq<char>> {
    match seconds {
        Some(n) => Some(label + decimal(n as nat) + "s"@),
        None => None,
    }
}

fn build_seconds_part(label: &str, seconds: Option<u64>) -> (r: Option<String>)
    ensures
        opt_text(r) == seconds_part(label@, seconds),
{
    match seconds {
        Some(n) => {
            let shown: String = decimal_text(n);
            Some(concat3(label, shown.as_str(), "s"))
        },
        None => None,
    }
}

/// How many requests the tracker still takes, in words.
pub open spec fn budget_words(budget: RateBudgetView) -> Seq<char> {
    let left = match (budget.remaining, budget.limit) {
        (Some(remaining), Some(limit)) => Some(
            decimal(remaining as nat) + "/"@ + decimal(limit as nat) + " remaining"@,
        ),
        (None, Some(limit)) => Some("limit "@ + decimal(limit as nat)),
        _ => None,
    };
    let throttled = match budget.throttled_for_seconds {
        Some(n) => seconds_part("throttled "@, Some(n)),
        None => seconds_part("retry_after "@, budget.retry_after_seconds),
    };
    listed(
        with_part(
            with_part(
                with_part(
                    with_part(Seq::empty(), left),
                    seconds_part("reset "@, budget.reset_in_seconds),
                ),
                throttled,
            ),
            seconds_part("next slot "@, budget.next_request_in_seconds),
        ),
    )
}

/// How many requests the tracker still takes, in words.
pub fn format_todoist_rate_budget_summary(budget: &TrackerRateBudget) -> (r: String)
    ensures
        r@ == budget_words(budget@),
{
    let left: Option<String> = match (budget.remaining, budget.limit) {
        (Some(remaining), Some(limit)) => Some(remaining_of(remaining, limit)),
        (None, Some(limit)) => {
            let n: String = decimal_text(limit);
            Some(concat("limit ", n.as_str()))
        },
        _ => None,
    };
    let throttled: Option<String> = match budget.throttled_for_seconds {
        Some(n) => build_seconds_part("throttled ", Some(n)),
        None => build_seconds_part("retry_after ", budget.retry_after_seconds),
    };
    let mut parts: Vec<String> = Vec::new();
    proof {
        assert(texts(parts@) =~= Seq::empty());
    }
    add_part(&mut parts, left);
    add_part(&mut parts, build_seconds_part("reset ", budget.reset_in_seconds));
    add_part(&mut parts, throttled);
    add_part(&mut parts, build_seconds_part("next slot ", budget.next_request_in_seconds));
    list_parts(&parts)
}

// ---------------------------------------------------------------------------
// Commands, tools and items
// ---------------------------------------------------------------------------

/// The texts of some values; none where one of them is no text.
pub open spec fn all_texts(items: Seq<JsonView>) -> Option<Seq<Seq<char>>>
    decreases items.len(),
{
    if items.len() == 0 {
        Some(Seq::empty())
    } else {
        match (all_texts(items.drop_last()), items.last().text()) {
            (Some(earlier), Some(text)) => Some(earlier.push(text)),
            _ => None,
        }
    }
}

/// Texts are there for the first values where they are there for all.
proof fn lemma_all_texts_of_prefix(items: Seq<JsonView>, n: int)
    requires
        0 <= n <= items.len(),
        all_texts(items.take(n)) is None,
    ensures
        all_texts(items) is None,
    decreases items.len(),
{
    if n == items.len() {
        assert(items.take(n) =~= items);
    } else {
        assert(items.drop_last().take(n) =~= items.take(n));
        lemma_all_texts_of_prefix(items.drop_last(), n);
    }
}

fn collect_texts(items: &Vec<Json>) -> (r: Option<Vec<String>>)
    ensures
        match r {
            Some(all) => all_texts(views(items@)) == Some(texts(all@)),
            None => all_texts(views(items@)) is None,
        },
{
    let ghost all = views(items@);
    let mut out: Vec<String> = Vec::new();
    let mut i: usize = 0;
    proof {
        assert(texts(out@) =~= Seq::empty());
    }
    while i < items.len()
        invariant
            i <= items.len(),
            all == views(items@),
            all_texts(all.take(i as int)) == Some(texts(out@)),
        decreases items.len() - i,
    {
        proof {
            assert(all.take(i + 1).drop_last() =~= all.take(i as int));
            assert(all.take(i + 1).last() == items@[i as int]@);
            if all_texts(all.take(i + 1)) is None {
                lemma_all_texts_of_prefix(all, i + 1);
            }
        }
        match items[i].as_str() {
            Some(text) => {
                let ghost had = texts(out@);
                out.push(owned(text));
                proof {
                    assert(texts(out@) =~= had.push(text@));
                }
            },
            None => {
                return None;
            },
        }
        i = i + 1;
    }
    proof {
        assert(all.take(i as int) =~= all);
    }
    Some(out)
}

/// A command on one line: a text, a list of words, or a program with its arguments.
pub open spec fn command_words(command: JsonView) -> Option<Seq<char>> {
    match command {
        JsonView::Text(text) => filled(Some(text)),
        JsonView::Array(items) => match all_texts(items) {
            Some(parts) => if items.len() > 0 {
                Some(inlined(joined(parts, " "@)))
            } else {
                None
            },
            None => None,
        },
        JsonView::Object(_) => match text_at(Some(command), "parsedCmd|command|cmd"@) {
            None => None,
            Some(binary) => match opt_items(value_at(Some(command), "args|argv"@)) {
                None => Some(inlined(binary)),
                Some(items) => match all_texts(items) {
                    Some(parts) => Some(inlined(joined(seq![binary] + parts, " "@))),
                    None => None,
                },
            },
        },
        _ => None,
    }
}

/// A command on one line.
pub fn normalize_command(value: &Json) -> (r: Option<String>)
    ensures
        opt_text(r) == command_words(value@),
{
    broadcast use group_json_views;

    match value {
        Json::Text(text) => inline_filled(Some(text.as_str())),
        Json::Array(items) => {
            proof {
                assert(views(items@).len() == items@.len());
            }
            match collect_texts(items) {
                Some(parts) => {
                    if items.len() > 0 {
                        let line: String = join(&parts, " ");
                        Some(inline_text(line.as_str()))
                    } else {
                        None
                    }
                },
                None => None,
            }
        },
        Json::Object(_) => {
            let binary: &str = match json_text(Some(value), "parsedCmd|command|cmd") {
                Some(binary) => binary,
                None => {
                    return None;
                },
            };
            let args: Option<&Vec<Json>> = match json_value(Some(value), "args|argv") {
                Some(args) => args.as_array(),
                None => None,
            };
            match args {
                None => Some(inline_text(binary)),
                Some(items) => match collect_texts(items) {
                    None => None,
                    Some(rest) => {
                        let mut parts: Vec<String> = vec![owned(binary)];
                        let ghost given = texts(rest@);
                        let mut more: Vec<String> = rest;
                        parts.append(&mut more);
                        proof {
                            assert(texts(parts@) =~= seq![binary@] + given);
                        }
                        let line: String = join(&parts, " ");
                        Some(inline_text(line.as_str()))
                    },
                },
            }
        },
        _ => None,
    }
}

/// The command that a message tells of.
pub open spec fn command_in(payload: Option<JsonView>) -> Option<Seq<char>> {
    match value_at(
        payload,
        "params.parsedCmd|params.command|params.cmd|params.argv|params.args|params.msg.command|params.msg.parsed_cmd|params.msg.parsedCmd"@,
    ) {
        Some(command) => command_words(command),
        None => None,
    }
}

/// The command that a message tells of.
pub fn extract_command(payload: Option<&Json>) -> (r: Option<String>)
    ensures
        opt_text(r) == command_in(ref_view(payload)),
{
    match json_value(
        payload,
        "params.parsedCmd|params.command|params.cmd|params.argv|params.args|params.msg.command|params.msg.parsed_cmd|params.msg.parsedCmd",
    ) {
        Some(command) => normalize_command(command),
        None => None,
    }
}

/// What a message adds to a text that is being written.
pub open spec fn delta_in(payload: Option<JsonView>) -> Option<Seq<char>> {
    filled(
        text_at(
            payload,
            "params.delta|params.text|params.chunk|params.summaryText|params.textDelta|params.msg.delta|params.msg.text|params.msg.content|params.msg.payload.delta|params.msg.payload.text|params.msg.payload.content|params.msg.payload.summaryText|params.msg.payload.textDelta"@,
        ),
    )
}

/// What a message adds to a text that is being written.
pub fn extract_delta_preview(payload: Option<&Json>) -> (r: Option<String>)
    ensures
        opt_text(r) == delta_in(ref_view(payload)),
{
    inline_filled(
        json_text(
            payload,
            "params.delta|params.text|params.chunk|params.summaryText|params.textDelta|params.msg.delta|params.msg.text|params.msg.content|params.msg.payload.delta|params.msg.payload.text|params.msg.payload.content|params.msg.payload.summaryText|params.msg.payload.textDelta",
        ),
    )
}

/// Something that is being written, in words.
pub open spec fn streaming_words(label: Seq<char>, payload: Option<JsonView>) -> Seq<char> {
    maybe_followed(label, delta_in(payload))
}

/// Something that is being written, in words.
pub fn humanize_streaming_event(label: &str, payload: Option<&Json>) -> (r: String)
    ensures
        r@ == streaming_words(label@, ref_view(payload)),
{
    with_maybe_more(label, extract_delta_preview(payload))
}

/// The tool that a message tells of.
pub open spec fn tool_in(payload: Option<JsonView>) -> Option<Seq<char>> {
    filled(text_at(payload, "params.tool|params.name|tool|name"@))
}

/// The tool that a message tells of.
pub fn dynamic_tool_name(payload: Option<&Json>) -> (r: Option<String>)
    ensures
        opt_text(r) == tool_in(ref_view(payload)),
{
    inline_filled(json_text(payload, "params.tool|params.name|tool|name"))
}

/// The action of a tool that a message tells of.
pub open spec fn action_in(payload: Option<JsonView>) -> Option<Seq<char>> {
    filled(text_at(payload, "params.arguments.action|toolResult.output.action"@))
}

/// The action of a tool that a message tells of.
pub fn dynamic_tool_action(payload: Option<&Json>) -> (r: Option<String>)
    ensures
        opt_text(r) == action_in(ref_view(payload)),
{
    inline_filled(json_text(payload, "params.arguments.action|toolResult.output.action"))
}

/// A tool call in words.
pub open spec fn tool_words(base: Seq<char>, payload: Option<JsonView>) -> Seq<char> {
    match tool_in(payload) {
        Some(tool) => match action_in(payload) {
            Some(action) => noted(base, tool + ":"@ + action),
            None => noted(base, tool),
        },
        None => base,
    }
}

/// A tool call in words.
pub fn humanize_dynamic_tool_event(base: &str, payload: Option<&Json>) -> (r: String)
    ensures
        r@ == tool_words(base@, ref_view(payload)),
{
    match dynamic_tool_name(payload) {
        Some(tool) => match dynamic_tool_action(payload) {
            Some(action) => {
                let both: String = concat3(tool.as_str(), ":", action.as_str());
                with_note(base, both.as_str())
            },
            None => with_note(base, tool.as_str()),
        },
        None => owned(base),
    }
}

/// The beginning or the end of an item, in words.
pub open spec fn item_words(state: Seq<char>, payload: Option<JsonView>) -> Seq<char> {
    let item = value_at(payload, "params.item|item"@);
    let kind = match text_at(item, "type"@) {
        Some(kind) => type_words(kind),
        None => "item"@,
    };
    let id = match text_at(item, "id"@) {
        Some(id) => Some(first_chars(id, 12)),
        None => None,
    };
    let status = match text_at(item, "status"@) {
        Some(status) => Some(status_words(status)),
        None => None,
    };
    let details = with_part(with_part(Seq::empty(), id), status);
    let base = "item "@ + state + ": "@ + kind;
    if details.len() == 0 {
        base
    } else {
        noted(base, joined(details, ", "@))
    }
}

/// The beginning or the end of an item, in words.
pub fn humanize_item_lifecycle(state: &str, payload: Option<&Json>) -> (r: String)
    ensures
        r@ == item_words(state@, ref_view(payload)),
{
    let item: Option<&Json> = json_value(payload, "params.item|item");
    let kind: String = match json_text(item, "type") {
        Some(kind) => humanize_item_type(kind),
        None => owned("item"),
    };
    let id: Option<String> = match json_text(item, "id") {
        Some(id) => Some(short_id(id)),
        None => None,
    };
    let status: Option<String> = match json_text(item, "status") {
        Some(status) => Some(humanize_status(status)),
        None => None,
    };
    let mut details: Vec<String> = Vec::new();
    proof {
        assert(texts(details@) =~= Seq::empty());
    }
    add_part(&mut details, id);
    add_part(&mut details, status);
    let mut base: String = concat3("item ", state, ": ");
    base.append(kind.as_str());
    proof {
        assert(texts(details@).len() == details@.len());
    }
    if details.len() == 0 {
        base
    } else {
        let list: String = join(&details, ", ");
        with_note(base.as_str(), list.as_str())
    }
}

// ---------------------------------------------------------------------------
// Messages
// ---------------------------------------------------------------------------

/// A message that is known by its name alone, with the type of what it wraps.
pub open spec fn plain_words(name: Seq<char>, payload: Option<JsonView>) -> Seq<char> {
    maybe_noted(name, text_at(payload, "params.msg.type"@))
}

fn tell_plainly(name: &str, payload: Option<&Json>) -> (r: String)
    ensures
        r@ == plain_words(name@, ref_view(payload)),
{
    with_maybe_note(name, own_opt(json_text(payload, "params.msg.type")))
}

/// The type of an item that a message wraps, in words.
pub open spec fn wrapped_type(payload: Option<JsonView>) -> Option<Seq<char>> {
    match text_at(payload, "params.msg.payload.type"@) {
        Some(kind) => Some(type_words(kind)),
        None => None,
    }
}

fn wrapper_payload_type(payload: Option<&Json>) -> (r: Option<String>)
    ensures
        opt_text(r) == wrapped_type(ref_view(payload)),
{
    match json_text(payload, "params.msg.payload.type") {
        Some(kind) => Some(humanize_item_type(kind)),
        None => None,
    }
}

/// A message that wraps an event, in words.
pub open spec fn wrapper_words(event: Seq<char>, payload: Option<JsonView>) -> Seq<char> {
    if event == "mcp_startup_update"@ {
        "mcp startup: "@ + or_else(text_at(payload, "params.msg.server"@), "mcp"@) + " "@ + or_else(
            text_at(payload, "params.msg.status.state"@),
            "updated"@,
        )
    } else if event == "mcp_startup_complete"@ {
        "mcp startup complete"@
    } else if event == "task_started"@ {
        "task started"@
    } else if event == "user_message"@ {
        "user message received"@
    } else if event == "item_started"@ {
        maybe_noted("item started"@, wrapped_type(payload))
    } else if event == "item_completed"@ {
        maybe_noted("item completed"@, wrapped_type(payload))
    } else if event == "agent_message_delta"@ {
        streaming_words("agent message streaming"@, payload)
    } else if event == "agent_message_content_delta"@ {
        streaming_words("agent message content streaming"@, payload)
    } else if event == "agent_reasoning"@ {
        streaming_words("reasoning update"@, payload)
    } else if event == "agent_reasoning_delta"@ {
        streaming_words("reasoning streaming"@, payload)
    } else if event == "reasoning_content_delta"@ {
        streaming_words("reasoning content streaming"@, payload)
    } else if event == "agent_reasoning_section_break"@ {
        "reasoning section break"@
    } else if event == "turn_diff"@ {
        "turn diff updated"@
    } else if event == "exec_command_begin"@ {
        or_else(command_in(payload), "command started"@)
    } else if event == "exec_command_end"@ {
        match signed_in(
            value_at(payload, "params.msg.exit_code|params.msg.exitCode|exit_code|exitCode"@),
        ) {
            Some(code) => noted("command completed"@, "exit "@ + signed_decimal(code as int)),
            None => "command completed"@,
        }
    } else if event == "exec_command_output_delta"@ {
        "command output streaming"@
    } else if event == "mcp_tool_call_begin"@ {
        "mcp tool call started"@
    } else if event == "mcp_tool_call_end"@ {
        "mcp tool call completed"@
    } else if event == "token_count"@ {
        maybe_noted(
            "token count update"@,
            usage_words(
                value_at(
                    payload,
                    "params.msg.payload.info.total_token_usage|params.msg.info.total_token_usage|params.tokenUsage.total|tokenUsage.total"@,
                ),
            ),
        )
    } else {
        plain_words(event, payload)
    }
}

/// A message that wraps an event, in words.
pub fn humanize_codex_wrapper_event(event: &str, payload: Option<&Json>) -> (r: String)
    ensures
        r@ == wrapper_words(event@, ref_view(payload)),
{
    if same(event, "mcp_startup_update") {
        let server: &str = text_or(json_text(payload, "params.msg.server"), "mcp");
        let state: &str = text_or(json_text(payload, "params.msg.status.state"), "updated");
        let mut out: String = concat3("mcp startup: ", server, " ");
        out.append(state);
        out
    } else if same(event, "mcp_startup_complete") {
        owned("mcp startup complete")
    } else if same(event, "task_started") {
        owned("task started")
    } else if same(event, "user_message") {
        owned("user message received")
    } else if same(event, "item_started") {
        with_maybe_note("item started", wrapper_payload_type(payload))
    } else if same(event, "item_completed") {
        with_maybe_note("item completed", wrapper_payload_type(payload))
    } else if same(event, "agent_message_delta") {
        humanize_streaming_event("agent message streaming", payload)
    } else if same(event, "agent_message_content_delta") {
        humanize_streaming_event("agent message content streaming", payload)
    } else if same(event, "agent_reasoning") {
        humanize_streaming_event("reasoning update", payload)
    } else if same(event, "agent_reasoning_delta") {
        humanize_streaming_event("reasoning streaming", payload)
    } else if same(event, "reasoning_content_delta") {
        humanize_streaming_event("reasoning content streaming", payload)
    } else if same(event, "agent_reasoning_section_break") {
        owned("reasoning section break")
    } else if same(event, "turn_diff") {
        owned("turn diff updated")
    } else if same(event, "exec_command_begin") {
        match extract_command(payload) {
            Some(command) => command,
            None => owned("command started"),
        }
    } else if same(event, "exec_command_end") {
        match json_integer(
            payload,
            "params.msg.exit_code|params.msg.exitCode|exit_code|exitCode",
        ) {
            Some(code) => {
                let n: String = signed_text(code);
                let exit: String = concat("exit ", n.as_str());
                with_note("command completed", exit.as_str())
            },
            None => owned("command completed"),
        }
    } else if same(event, "exec_command_output_delta") {
        owned("command output streaming")
    } else if same(event, "mcp_tool_call_begin") {
        owned("mcp tool call started")
    } else if same(event, "mcp_tool_call_end") {
        owned("mcp tool call completed")
    } else if same(event, "token_count") {
        let usage: Option<&Json> = json_value(
            payload,
            "params.msg.payload.info.total_token_usage|params.msg.info.total_token_usage|params.tokenUsage.total|tokenUsage.total",
        );
        with_maybe_note("token count update", format_usage_counts(usage))
    } else {
        tell_plainly(event, payload)
    }
}

/// How many of some lines are not blank.
pub open spec fn filled_lines(all: Seq<Seq<char>>) -> nat
    decreases all.len(),
{
    if all.len() == 0 {
        0
    } else {
        filled_lines(all.drop_last()) + (if trimmed(all.last()).len() > 0 {
            1nat
        } else {
            0nat
        })
    }
}

fn count_filled_lines(text: &str) -> (n: usize)
    ensures
        n == filled_lines(lines(text@)),
{
    let all: Vec<String> = split_lines(text);
    let ghost given = texts(all@);
    let mut n: usize = 0;
    let mut i: usize = 0;
    while i < all.len()
        invariant
            i <= all.len(),
            given == texts(all@),
            n <= i,
            n == filled_lines(given.take(i as int)),
        decreases all.len() - i,
    {
        proof {
            assert(given.take(i + 1).drop_last() =~= given.take(i as int));
            assert(given.take(i + 1).last() == all@[i as int]@);
        }
        let t: String = trim(all[i].as_str());
        if !t.as_str().is_empty() {
            n = n + 1;
        }
        i = i + 1;
    }
    proof {
        assert(given.take(i as int) =~= given);
    }
    n
}

/// A text without a prefix, however often it stands at the start.
pub open spec fn without_prefixes(s: Seq<char>, prefix: Seq<char>) -> Seq<char>
    decreases s.len(),
{
    if prefix.len() > 0 && begins(s, prefix) {
        without_prefixes(s.skip(prefix.len() as int), prefix)
    } else {
        s
    }
}

fn strip_prefixes(value: &str, prefix: &str) -> (r: String)
    ensures
        r@ == without_prefixes(value@, prefix@),
{
    let mut rest: String = owned(value);
    if prefix.is_empty() {
        return rest;
    }
    while starts_with(rest.as_str(), prefix)
        invariant
            prefix@.len() > 0,
            without_prefixes(value@, prefix@) == without_prefixes(rest@, prefix@),
        decreases rest@.len(),
    {
        let chars: Vec<char> = chars_of(rest.as_str());
        let n: usize = chars_of(prefix).len();
        rest = string_of(&chars, n, chars.len());
        proof {
            assert(rest@ =~= chars@.skip(n as int));
        }
    }
    rest
}

/// A message in words, by its method.
pub open spec fn method_words(
    method: Seq<char>,
    payload: Option<JsonView>,
    numbers: NumbersView,
) -> Seq<char> {
    if method == "thread/started"@ {
        maybe_noted(
            "thread started"@,
            text_at(payload, "params.thread.id|params.threadId|thread_id"@),
        )
    } else if method == "turn/started"@ {
        maybe_noted(
            "turn started"@,
            text_at(payload, "params.turn.id|params.turnId|turn_id"@),
        )
    } else if method == "turn/completed"@ {
        let status = or_else(
            text_at(payload, "params.turn.status|params.status|status"@),
            "completed"@,
        );
        maybe_noted(
            noted("turn completed"@, status),
            usage_words(
                value_at(payload, "params.usage|params.tokenUsage|usage|tokenUsage"@),
            ),
        )
    } else if method == "turn/failed"@ {
        maybe_followed(
            "turn failed"@,
            opt_inlined(text_at(payload, "params.error.message|error.message"@)),
        )
    } else if method == "turn/cancelled"@ {
        "turn cancelled"@
    } else if method == "turn/diff/updated"@ {
        let count = match text_at(payload, "params.diff|diff"@) {
            Some(diff) => filled_lines(lines(diff)),
            None => 0,
        };
        if count > 0 {
            noted("turn diff updated"@, decimal(count) + " lines"@)
        } else {
            "turn diff updated"@
        }
    } else if method == "turn/plan/updated"@ {
        match opt_items(
            value_at(
                payload,
                "params.plan|params.steps|params.items|plan|steps|items"@,
            ),
        ) {
            Some(items) => noted("plan updated"@, decimal(items.len()) + " steps"@),
            None => "plan updated"@,
        }
    } else if method == "thread/tokenUsage/updated"@ {
        maybe_noted(
            "thread token usage updated"@,
            usage_words(
                value_at(
                    payload,
                    "params.tokenUsage.total|params.tokenUsage|tokenUsage.total|tokenUsage|usage"@,
                ),
            ),
        )
    } else if method == "item/started"@ {
        item_words("started"@, payload)
    } else if method == "item/completed"@ {
        item_words("completed"@, payload)
    } else if method == "item/agentMessage/delta"@ {
        streaming_words("agent message streaming"@, payload)
    } else if method == "item/plan/delta"@ {
        streaming_words("plan streaming"@, payload)
    } else if method == "item/reasoning/summaryTextDelta"@ {
        streaming_words("reasoning summary streaming"@, payload)
    } else if method == "item/reasoning/summaryPartAdded"@ {
        streaming_words("reasoning summary section added"@, payload)
    } else if method == "item/reasoning/textDelta"@ {
        streaming_words("reasoning text streaming"@, payload)
    } else if method == "item/commandExecution/outputDelta"@ {
        streaming_words("command output streaming"@, payload)
    } else if method == "item/fileChange/outputDelta"@ {
        streaming_words("file change output streaming"@, payload)
    } else if method == "item/commandExecution/requestApproval"@ {
        maybe_noted("command approval requested"@, command_in(payload))
    } else if method == "item/fileChange/requestApproval"@ {
        let count = match signed_in(
            value_at(payload, "params.fileChangeCount|params.changeCount"@),
        ) {
            Some(n) => n,
            None => 0,
        };
        if count > 0 {
            noted("file change approval requested"@, signed_decimal(count as int) + " files"@)
        } else {
            "file change approval requested"@
        }
    } else if method == "item/tool/requestUserInput"@ || method == "tool/requestUserInput"@ {
        maybe_followed(
            "tool requires user input"@,
            opt_inlined(
                text_at(payload, "params.question|params.prompt|question|prompt"@),
            ),
        )
    } else if method == "account/updated"@ {
        noted(
            "account updated"@,
            "auth "@ + or_else(text_at(payload, "params.authMode|authMode"@), "unknown"@),
        )
    } else if method == "account/rateLimits/updated"@ {
        "rate limits updated: "@ + match value_at(payload, "params.rateLimits|rateLimits"@) {
            Some(limits) => limits_words(limits, numbers),
            None => "n/a"@,
        }
    } else if method == "account/chatgptAuthTokens/refresh"@ {
        "account auth token refresh requested"@
    } else if method == "item/tool/call"@ {
        maybe_noted("dynamic tool call requested"@, tool_in(payload))
    } else if begins(method, "codex/event/"@) {
        wrapper_words(without_prefixes(method, "codex/event/"@), payload)
    } else {
        plain_words(method, payload)
    }
}

/// A message in words, by its method. `numbers` are those of the rate limits that it
/// tells of.
pub fn humanize_codex_method(method: &str, payload: Option<&Json>, numbers: &LimitNumbers) -> (r:
    String)
    ensures
        r@ == method_words(method@, ref_view(payload), numbers@),
{
    if same(method, "thread/started") {
        with_maybe_note(
            "thread started",
            own_opt(json_text(payload, "params.thread.id|params.threadId|thread_id")),
        )
    } else if same(method, "turn/started") {
        with_maybe_note(
            "turn started",
            own_opt(json_text(payload, "params.turn.id|params.turnId|turn_id")),
        )
    } else if same(method, "turn/completed") {
        let status: &str = text_or(
            json_text(payload, "params.turn.status|params.status|status"),
            "completed",
        );
        let base: String = with_note("turn completed", status);
        let usage: Option<&Json> = json_value(
            payload,
            "params.usage|params.tokenUsage|usage|tokenUsage",
        );
        with_maybe_note(base.as_str(), format_usage_counts(usage))
    } else if same(method, "turn/failed") {
        with_maybe_more(
            "turn failed",
            inline_opt(json_text(payload, "params.error.message|error.message")),
        )
    } else if same(method, "turn/cancelled") {
        owned("turn cancelled")
    } else if same(method, "turn/diff/updated") {
        let count: usize = match json_text(payload, "params.diff|diff") {
            Some(diff) => count_filled_lines(diff),
            None => 0,
        };
        if count > 0 {
            let n: String = usize_text(count);
            let note: String = concat(n.as_str(), " lines");
            with_note("turn diff updated", note.as_str())
        } else {
            owned("turn diff updated")
        }
    } else if same(method, "turn/plan/updated") {
        let items: Option<&Vec<Json>> = match json_value(
            payload,
            "params.plan|params.steps|params.items|plan|steps|items",
        ) {
            Some(found) => found.as_array(),
            None => None,
        };
        match items {
            Some(items) => {
                proof {
                    assert(views(items@).len() == items@.len());
                }
                let n: String = usize_text(items.len());
                let note: String = concat(n.as_str(), " steps");
                with_note("plan updated", note.as_str())
            },
            None => owned("plan updated"),
        }
    } else if same(method, "thread/tokenUsage/updated") {
        let usage: Option<&Json> = json_value(
            payload,
            "params.tokenUsage.total|params.tokenUsage|tokenUsage.total|tokenUsage|usage",
        );
        with_maybe_note("thread token usage updated", format_usage_counts(usage))
    } else if same(method, "item/started") {
        humanize_item_lifecycle("started", payload)
    } else if same(method, "item/completed") {
        humanize_item_lifecycle("completed", payload)
    } else if same(method, "item/agentMessage/delta") {
        humanize_streaming_event("agent message streaming", payload)
    } else if same(method, "item/plan/delta") {
        humanize_streaming_event("plan streaming", payload)
    } else if same(method, "item/reasoning/summaryTextDelta") {
        humanize_streaming_event("reasoning summary streaming", payload)
    } else if same(method, "item/reasoning/summaryPartAdded") {
        humanize_streaming_event("reasoning summary section added", payload)
    } else if same(method, "item/reasoning/textDelta") {
        humanize_streaming_event("reasoning text streaming", payload)
    } else if same(method, "item/commandExecution/outputDelta") {
        humanize_streaming_event("command output streaming", payload)
    } else if same(method, "item/fileChange/outputDelta") {
        humanize_streaming_event("file change output streaming", payload)
    } else if same(method, "item/commandExecution/requestApproval") {
        with_maybe_note("command approval requested", extract_command(payload))
    } else if same(method, "item/fileChange/requestApproval") {
        let count: i64 = match json_integer(
            payload,
            "params.fileChangeCount|params.changeCount",
        ) {
            Some(n) => n,
            None => 0,
        };
        if count > 0 {
            let n: String = signed_text(count);
            let note: String = concat(n.as_str(), " files");
            with_note("file change approval requested", note.as_str())
        } else {
            owned("file change approval requested")
        }
    } else if same(method, "item/tool/requestUserInput") || same(method, "tool/requestUserInput") {
        with_maybe_more(
            "tool requires user input",
            inline_opt(json_text(payload, "params.question|params.prompt|question|prompt")),
        )
    } else if same(method, "account/updated") {
        let mode: &str = text_or(json_text(payload, "params.authMode|authMode"), "unknown");
        let note: String = concat("auth ", mode);
        with_note("account updated", note.as_str())
    } else if same(method, "account/rateLimits/updated") {
        let limits: String = match json_value(payload, "params.rateLimits|rateLimits") {
            Some(limits) => format_rate_limits_summary(limits, numbers),
            None => owned("n/a"),
        };
        concat("rate limits updated: ", limits.as_str())
    } else if same(method, "account/chatgptAuthTokens/refresh") {
        owned("account auth token refresh requested")
    } else if same(method, "item/tool/call") {
        with_maybe_note("dynamic tool call requested", dynamic_tool_name(payload))
    } else if starts_with(method, "codex/event/") {
        let event: String = strip_prefixes(method, "codex/event/");
        humanize_codex_wrapper_event(event.as_str(), payload)
    } else {
        tell_plainly(method, payload)
    }
}

// ---------------------------------------------------------------------------
// Events
// ---------------------------------------------------------------------------

/// An event in words, by its name; `payload` is what the event is about.
pub open spec fn named_event_words(
    event: Seq<char>,
    message: Option<JsonView>,
    payload: Option<JsonView>,
    numbers: NumbersView,
) -> Option<Seq<char>> {
    if event == "session_started"@ {
        Some(maybe_noted("session started"@, text_at(payload, "session_id|sessionId"@)))
    } else if event == "turn_input_required"@ {
        Some("turn blocked: waiting for user input"@)
    } else if event == "approval_auto_approved"@ {
        let base = match text_at(payload, "method"@) {
            Some(method) => method_words(method, payload, numbers) + " (auto-approved)"@,
            None => "approval request auto-approved"@,
        };
        Some(maybe_followed(base, opt_inlined(text_at(message, "decision"@))))
    } else if event == "tool_input_auto_answered"@ {
        let base = method_words("item/tool/requestUserInput"@, payload, numbers)
            + " (auto-answered)"@;
        Some(maybe_followed(base, opt_inlined(text_at(message, "answer"@))))
    } else if event == "tool_call_completed"@ {
        Some(tool_words("dynamic tool call completed"@, payload))
    } else if event == "tool_call_failed"@ {
        Some(tool_words("dynamic tool call failed"@, payload))
    } else if event == "unsupported_tool_call"@ {
        Some(tool_words("unsupported dynamic tool call rejected"@, payload))
    } else if event == "turn_ended_with_error"@ {
        Some("turn ended with error: "@ + reason_words(message, payload))
    } else if event == "startup_failed"@ {
        Some("startup failed: "@ + reason_words(message, payload))
    } else if event == "turn_failed"@ {
        Some(method_words("turn/failed"@, payload, numbers))
    } else if event == "turn_cancelled"@ {
        Some("turn cancelled"@)
    } else if event == "malformed"@ {
        Some("malformed JSON event from codex"@)
    } else {
        None
    }
}

/// An event in words, by its name.
pub fn humanize_codex_event(
    event: &str,
    message: Option<&Json>,
    payload: Option<&Json>,
    numbers: &LimitNumbers,
) -> (r: Option<String>)
    ensures
        opt_text(r) == named_event_words(
            event@,
            ref_view(message),
            first_of(ref_view(payload), ref_view(message)),
            numbers@,
        ),
{
    let payload: Option<&Json> = match payload {
        Some(payload) => Some(payload),
        None => message,
    };
    if same(event, "session_started") {
        Some(
            with_maybe_note(
                "session started",
                own_opt(json_text(payload, "session_id|sessionId")),
            ),
        )
    } else if same(event, "turn_input_required") {
        Some(owned("turn blocked: waiting for user input"))
    } else if same(event, "approval_auto_approved") {
        let base: String = match json_text(payload, "method") {
            Some(method) => {
                let words: String = humanize_codex_method(method, payload, numbers);
                concat(words.as_str(), " (auto-approved)")
            },
            None => owned("approval request auto-approved"),
        };
        Some(with_maybe_more(base.as_str(), inline_opt(json_text(message, "decision"))))
    } else if same(event, "tool_input_auto_answered") {
        let words: String = humanize_codex_method("item/tool/requestUserInput", payload, numbers);
        let base: String = concat(words.as_str(), " (auto-answered)");
        Some(with_maybe_more(base.as_str(), inline_opt(json_text(message, "answer"))))
    } else if same(event, "tool_call_completed") {
        Some(humanize_dynamic_tool_event("dynamic tool call completed", payload))
    } else if same(event, "tool_call_failed") {
        Some(humanize_dynamic_tool_event("dynamic tool call failed", payload))
    } else if same(event, "unsupported_tool_call") {
        Some(humanize_dynamic_tool_event("unsupported dynamic tool call rejected", payload))
    } else if same(event, "turn_ended_with_error") {
        let reason: String = format_reason(message, payload);
        Some(concat("turn ended with error: ", reason.as_str()))
    } else if same(event, "startup_failed") {
        let reason: String = format_reason(message, payload);
        Some(concat("startup failed: ", reason.as_str()))
    } else if same(event, "turn_failed") {
        Some(humanize_codex_method("turn/failed", payload, numbers))
    } else if same(event, "turn_cancelled") {
        Some(owned("turn cancelled"))
    } else if same(event, "malformed") {
        Some(owned("malformed JSON event from codex"))
    } else {
        None
    }
}

/// A payload in words.
pub open spec fn payload_words(payload: JsonView, numbers: NumbersView) -> Seq<char> {
    match text_at(Some(payload), "method"@) {
        Some(method) => method_words(method, Some(payload), numbers),
        None => match text_at(Some(payload), "session_id|sessionId"@) {
            Some(session) => noted("session started"@, session),
            None => match payload.get("error"@) {
                Some(error) => "error: "@ + error_words(error),
                None => match payload.text() {
                    Some(text) => inlined(text),
                    None => json_words(payload, 140),
                },
            },
        },
    }
}

/// A payload in words.
pub fn humanize_codex_payload(payload: &Json, numbers: &LimitNumbers) -> (r: String)
    ensures
        r@ == payload_words(payload@, numbers@),
{
    match json_text(Some(payload), "method") {
        Some(method) => humanize_codex_method(method, Some(payload), numbers),
        None => match json_text(Some(payload), "session_id|sessionId") {
            Some(session) => with_note("session started", session),
            None => match payload.get("error") {
                Some(error) => {
                    let words: String = format_error_value(error);
                    concat("error: ", words.as_str())
                },
                None => match payload.as_str() {
                    Some(text) => inline_text(text),
                    None => write_json(payload, 140),
                },
            },
        },
    }
}

/// What a message is about: the message itself, or what it carries.
pub open spec fn unwrapped(message: JsonView) -> JsonView {
    if message.get("method"@) is Some || message.get("session_id"@) is Some || message.get(
        "reason"@,
    ) is Some {
        message
    } else {
        match message.get("payload"@) {
            Some(payload) => payload,
            None => message,
        }
    }
}

/// What a message is about.
pub fn unwrap_codex_message_payload(value: &Json) -> (r: &Json)
    ensures
        r@ == unwrapped(value@),
{
    if value.has("method") || value.has("session_id") || value.has("reason") {
        value
    } else {
        match value.get("payload") {
            Some(payload) => payload,
            None => value,
        }
    }
}

/// The JSON that a message holds.
pub open spec fn parsed_message(message: Option<Seq<char>>) -> Option<JsonView> {
    match message {
        Some(message) => match parsed(message) {
            Ok(json) => Some(json),
            Err(_) => None,
        },
        None => None,
    }
}

/// An event in words; `json` is what its message holds as JSON, if it does.
pub open spec fn summary_of(
    event: Option<Seq<char>>,
    message: Option<Seq<char>>,
    json: Option<JsonView>,
    numbers: NumbersView,
) -> Option<Seq<char>> {
    let payload = match json {
        Some(json) => Some(unwrapped(json)),
        None => None,
    };
    let named = match event {
        Some(event) => named_event_words(event, json, first_of(payload, json), numbers),
        None => None,
    };
    let told = match payload {
        Some(payload) => Some(payload_words(payload, numbers)),
        None => None,
    };
    let name = match event {
        Some(event) => Some(replaced(event, '_', " "@)),
        None => None,
    };
    match first_of(named, first_of(told, first_of(opt_inlined(message), name))) {
        Some(words) => Some(cut_short(words, 140)),
        None => None,
    }
}

/// The rate limits that a message tells of, whose numbers are needed to put it in words.
pub fn message_rate_limits(message: Option<&str>) -> (r: Option<Json>)
    ensures
        opt_view(r) == match parsed_message(opt_str(message)) {
            Some(json) => value_at(Some(unwrapped(json)), "params.rateLimits|rateLimits"@),
            None => None,
        },
{
    match message {
        Some(message) => match parse(message) {
            Ok(json) => {
                let payload: &Json = unwrap_codex_message_payload(&json);
                crate::json::copy_ref(json_value(Some(payload), "params.rateLimits|rateLimits"))
            },
            Err(_) => None,
        },
        None => None,
    }
}

/// An event in words; `json` is what its message holds as JSON, if it does.
pub fn summarize_parsed_message(
    event: Option<&str>,
    message: Option<&str>,
    json: Option<&Json>,
    numbers: &LimitNumbers,
) -> (r: Option<String>)
    ensures
        opt_text(r) == summary_of(opt_str(event), opt_str(message), ref_view(json), numbers@),
{
    let payload: Option<&Json> = match json {
        Some(json) => Some(unwrap_codex_message_payload(json)),
        None => None,
    };
    let named: Option<String> = match event {
        Some(event) => humanize_codex_event(event, json, payload, numbers),
        None => None,
    };
    let words: Option<String> = match named {
        Some(words) => Some(words),
        None => match payload {
            Some(payload) => Some(humanize_codex_payload(payload, numbers)),
            None => match message {
                Some(message) => Some(inline_text(message)),
                None => match event {
                    Some(event) => Some(humanize_event_name(event)),
                    None => None,
                },
            },
        },
    };
    match words {
        Some(words) => Some(truncate_chars(words.as_str(), 140)),
        None => None,
    }
}

/// An event in words. `numbers` are those of the rate limits that its message tells of.
pub fn summarize_codex_message(event: Option<&str>, message: Option<&str>, numbers: &LimitNumbers) -> (r:
    Option<String>)
    ensures
        opt_text(r) == summary_of(
            opt_str(event),
            opt_str(message),
            parsed_message(opt_str(message)),
            numbers@,
        ),
{
    match message {
        Some(text) => match parse(text) {
            Ok(json) => summarize_parsed_message(event, message, Some(&json), numbers),
            Err(_) => summarize_parsed_message(event, message, None, numbers),
        },
        None => summarize_parsed_message(event, message, None, numbers),
    }
}

// ---------------------------------------------------------------------------
// Laws
// ---------------------------------------------------------------------------

/// There is something to say of every event and of every message, and nothing of
/// neither.
pub proof fn law_something_is_said(
    event: Option<Seq<char>>,
    message: Option<Seq<char>>,
    numbers: NumbersView,
)
    ensures
        summary_of(event, message, parsed_message(message), numbers) is None <==> event is None
            && message is None,
{
}

/// What is said of an event has at most 143 characters.
pub proof fn law_summaries_are_short(
    event: Option<Seq<char>>,
    message: Option<Seq<char>>,
    json: Option<JsonView>,
    numbers: NumbersView,
)
    ensures
        summary_of(event, message, json, numbers) matches Some(words) ==> words.len() <= 143,
{
    reveal_strlit("...");
}

} // verus!
