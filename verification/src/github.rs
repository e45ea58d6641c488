//! The GitHub tool: its arguments, its retries, its errors, and the check that a pull
//! request has been merged.
use vstd::prelude::*;
use vstd::string::*;

use crate::actions::{nonempty, nonempty_text};
use crate::dynamic_tool::{build_error, build_reason, error_body, reason_body};
use crate::issue::{normalize_state_name, state_name, Issue, IssueView};
use crate::json::{
    compact_of, get_entry, group_json_views, opt_items, opt_json_text, opt_view, parse,
    parse_bytes, parsed, parsed_bytes, to_text, views, Json, JsonView, NumberView,
};
use crate::pattern::{find_captures, first_captures};
use crate::sorting::views_of;
use crate::table::lookup;
use crate::text::{
    chars_of, concat, concat3, decimal, decimal_text, first_chars, is_white, join, joined, opt_text,
    owned, parse_u64, raised, same, split_whitespace, starts_with, string_of, take_chars, texts,
    to_ascii_uppercase, trim, trimmed, unsigned_value, usize_text, word_len, words,
};
use crate::tracker::{
    text_result, unit_result, unsupported, unsupported_view, TrackerError, TrackerErrorView,
};
use crate::workpad::{comment_content, extract_github_pr_url, pr_url_in};

verus! {

broadcast use {vstd::seq::group_seq_axioms, vstd::string::group_string_axioms};

pub const GITHUB_API_DEFAULT_BASE_URL: &'static str = "https://api.github.com";

pub const GITHUB_API_MAX_RETRIES: usize = 2;

pub const GITHUB_API_DEFAULT_DELAY_SECS: u64 = 2;

pub const GITHUB_API_MAX_DELAY_SECS: u64 = 60;

/// The longest that all retries of a request may wait together.
pub const GITHUB_API_MAX_WAIT_SECS: u64 = 180;

// ---------------------------------------------------------------------------
// Where and as whom
// ---------------------------------------------------------------------------

/// The text without slashes at its end.
pub open spec fn without_slashes(s: Seq<char>) -> Seq<char>
    decreases s.len(),
{
    if s.len() > 0 && s.last() == '/' {
        without_slashes(s.drop_last())
    } else {
        s
    }
}

/// The text without slashes at its end.
pub fn trim_slashes(s: &str) -> (r: String)
    ensures
        r@ == without_slashes(s@),
{
    let chars: Vec<char> = chars_of(s);
    let mut j: usize = chars.len();
    proof {
        assert(chars@.take(j as int) =~= chars@);
    }
    while j > 0 && chars[j - 1] == '/'
        invariant
            j <= chars.len(),
            without_slashes(chars@) == without_slashes(chars@.take(j as int)),
        decreases j,
    {
        proof {
            assert(chars@.take(j as int).drop_last() =~= chars@.take(j - 1));
        }
        j = j - 1;
    }
    string_of(&chars, 0, j)
}

/// Where the GitHub API is, given what the environment says.
pub open spec fn base_url(configured: Option<Seq<char>>) -> Seq<char> {
    match configured {
        Some(value) => if without_slashes(trimmed(value)).len() > 0 {
            without_slashes(trimmed(value))
        } else {
            GITHUB_API_DEFAULT_BASE_URL@
        },
        None => GITHUB_API_DEFAULT_BASE_URL@,
    }
}

/// Where the GitHub API is, given what the environment says.
pub fn github_api_base_url(configured: &Option<String>) -> (r: String)
    ensures
        r@ == base_url(opt_text(*configured)),
{
    match configured {
        Some(value) => {
            let t: String = trim(value.as_str());
            let url: String = trim_slashes(t.as_str());
            if url.as_str().is_empty() {
                owned(GITHUB_API_DEFAULT_BASE_URL)
            } else {
                url
            }
        },
        None => owned(GITHUB_API_DEFAULT_BASE_URL),
    }
}

/// The token that the environment holds: under `GH_TOKEN`, or else under
/// `GITHUB_TOKEN`.
pub open spec fn env_token(gh: Option<Seq<char>>, github: Option<Seq<char>>) -> Option<Seq<char>> {
    nonempty(
        match gh {
            Some(_) => gh,
            None => github,
        },
    )
}

/// The token that the environment holds.
pub fn github_token_from_env(gh: &Option<String>, github: &Option<String>) -> (r: Option<String>)
    ensures
        opt_text(r) == env_token(opt_text(*gh), opt_text(*github)),
{
    let found: &Option<String> = if gh.is_some() {
        gh
    } else {
        github
    };
    match found {
        Some(value) => {
            let t: String = trim(value.as_str());
            if t.as_str().is_empty() {
                None
            } else {
                Some(t)
            }
        },
        None => None,
    }
}

/// What came of asking the `gh` command for a token.
#[derive(Debug)]
pub enum GhTokenReply {
    /// The command could not be run.
    NotRun(String),
    /// The command failed with this on its error output.
    Failed(String),
    /// The command printed this.
    Printed(String),
}

/// The token to use, given what the environment holds and what `gh` replied.
pub open spec fn auth_token(reply: GhTokenReply) -> Result<Seq<char>, JsonView> {
    match reply {
        GhTokenReply::NotRun(reason) => Err(
            reason_body(
                "GitHub API tool is unavailable because no auth token could be found."@,
                reason@,
            ),
        ),
        GhTokenReply::Failed(stderr) => Err(
            reason_body(
                "GitHub API tool could not retrieve a host auth token from `gh auth token`."@,
                trimmed(stderr@),
            ),
        ),
        GhTokenReply::Printed(stdout) => if trimmed(stdout@).len() == 0 {
            Err(error_body("GitHub API tool received an empty auth token."@))
        } else {
            Ok(trimmed(stdout@))
        },
    }
}

/// What a text result with a JSON error holds.
pub open spec fn text_or_error(r: Result<String, Json>) -> Result<Seq<char>, JsonView> {
    match r {
        Ok(text) => Ok(text@),
        Err(e) => Err(e@),
    }
}

/// The token to use, given what `gh` replied.
pub fn github_auth_token(reply: &GhTokenReply) -> (r: Result<String, Json>)
    ensures
        text_or_error(r) == auth_token(*reply),
{
    match reply {
        GhTokenReply::NotRun(reason) => Err(
            build_reason(
                "GitHub API tool is unavailable because no auth token could be found.",
                reason.as_str(),
            ),
        ),
        GhTokenReply::Failed(stderr) => {
            let reason: String = trim(stderr.as_str());
            Err(
                build_reason(
                    "GitHub API tool could not retrieve a host auth token from `gh auth token`.",
                    reason.as_str(),
                ),
            )
        },
        GhTokenReply::Printed(stdout) => {
            let token: String = trim(stdout.as_str());
            if token.as_str().is_empty() {
                Err(build_error("GitHub API tool received an empty auth token."))
            } else {
                Ok(token)
            }
        },
    }
}

// ---------------------------------------------------------------------------
// Arguments
// ---------------------------------------------------------------------------

/// A request to the GitHub API.
#[derive(Debug)]
pub struct GithubRequest {
    pub method: String,
    pub path: String,
    pub body: Option<Json>,
}

/// The characters that a method may be made of.
pub open spec fn is_method_char(c: char) -> bool {
    ||| '0' <= c && c <= '9'
    ||| 'A' <= c && c <= 'Z'
    ||| 'a' <= c && c <= 'z'
    ||| c == '!'
    ||| c == '#'
    ||| c == '$'
    ||| c == '%'
    ||| c == '&'
    ||| c == '\''
    ||| c == '*'
    ||| c == '+'
    ||| c == '-'
    ||| c == '.'
    ||| c == '^'
    ||| c == '_'
    ||| c == '`'
    ||| c == '|'
    ||| c == '~'
}

/// Whether a text is an HTTP method.
pub open spec fn is_method(text: Seq<char>) -> bool {
    text.len() > 0 && forall|i: int| 0 <= i < text.len() ==> is_method_char(#[trigger] text[i])
}

/// `Method::from_bytes`: accepts a text of at least one character, each of which a
/// method may be made of, and keeps it as it is.
#[verifier::external_body]
fn http_method(text: &str) -> (r: Result<String, String>)
    ensures
        match r {
            Ok(method) => is_method(text@) && method@ == text@,
            Err(reason) => !is_method(text@) && reason@ == "invalid HTTP method"@,
        },
{
    match reqwest::Method::from_bytes(text.as_bytes()) {
        Ok(method) => Ok(method.as_str().to_string()),
        Err(error) => Err(error.to_string()),
    }
}

/// The body of a request: a text that holds JSON is what it holds.
pub open spec fn request_body(given: Option<JsonView>) -> Option<JsonView> {
    match given {
        None => None,
        Some(JsonView::Null) => None,
        Some(JsonView::Text(raw)) => if trimmed(raw).len() == 0 {
            None
        } else {
            match parsed(trimmed(raw)) {
                Ok(json) => Some(json),
                Err(_) => Some(JsonView::Text(raw)),
            }
        },
        Some(json) => Some(json),
    }
}

/// A path that starts with a slash.
pub open spec fn absolute(path: Seq<char>) -> Seq<char> {
    if crate::text::begins(path, "/"@) {
        path
    } else {
        "/"@ + path
    }
}

/// The request that the arguments of the GitHub tool stand for.
pub open spec fn request_of(arguments: JsonView) -> Result<
    (Seq<char>, Seq<char>, Option<JsonView>),
    JsonView,
> {
    match arguments.fields() {
        None => Err(
            error_body(
                "`github_api` expects an object with `method`, `path`, and optional `body`."@,
            ),
        ),
        Some(entries) => match nonempty(opt_json_text(lookup(entries, "method"@))) {
            None => Err(error_body("`github_api.method` is required."@)),
            Some(method) => if !is_method(raised(method)) {
                Err(
                    reason_body(
                        "`github_api.method` must be a valid HTTP method."@,
                        "invalid HTTP method"@,
                    ),
                )
            } else {
                match nonempty(opt_json_text(lookup(entries, "path"@))) {
                    None => Err(error_body("`github_api.path` is required."@)),
                    Some(path) => Ok(
                        (
                            raised(method),
                            absolute(path),
                            request_body(lookup(entries, "body"@)),
                        ),
                    ),
                }
            },
        },
    }
}

fn choose_body(given: Option<&Json>) -> (r: Option<Json>)
    ensures
        opt_view(r) == request_body(crate::json::ref_view(given)),
{
    match given {
        None => None,
        Some(Json::Null) => None,
        Some(Json::Text(raw)) => {
            let t: String = trim(raw.as_str());
            if t.as_str().is_empty() {
                None
            } else {
                match parse(t.as_str()) {
                    Ok(json) => Some(json),
                    Err(_) => Some(Json::Text(raw.clone())),
                }
            }
        },
        Some(json) => Some(json.copy()),
    }
}

/// The request that the arguments of the GitHub tool stand for.
pub fn normalize_github_arguments(arguments: &Json) -> (r: Result<GithubRequest, Json>)
    ensures
        match r {
            Ok(request) => request_of(arguments@) == Ok::<
                (Seq<char>, Seq<char>, Option<JsonView>),
                JsonView,
            >((request.method@, request.path@, opt_view(request.body))),
            Err(e) => request_of(arguments@) == Err::<
                (Seq<char>, Seq<char>, Option<JsonView>),
                JsonView,
            >(e@),
        },
{
    let map: &Vec<(String, Json)> = match arguments.as_object() {
        Some(map) => map,
        None => {
            return Err(
                build_error(
                    "`github_api` expects an object with `method`, `path`, and optional `body`.",
                ),
            );
        },
    };
    let given: String = match nonempty_text(map, "method") {
        Some(method) => method,
        None => {
            return Err(build_error("`github_api.method` is required."));
        },
    };
    let upper: String = to_ascii_uppercase(given.as_str());
    let method: String = match http_method(upper.as_str()) {
        Ok(method) => method,
        Err(reason) => {
            return Err(
                build_reason(
                    "`github_api.method` must be a valid HTTP method.",
                    reason.as_str(),
                ),
            );
        },
    };
    let path: String = match nonempty_text(map, "path") {
        Some(path) => path,
        None => {
            return Err(build_error("`github_api.path` is required."));
        },
    };
    let full: String = if starts_with(path.as_str(), "/") {
        path
    } else {
        concat("/", path.as_str())
    };
    let body: Option<Json> = choose_body(get_entry(map, "body"));
    Ok(GithubRequest { method, path: full, body })
}

// ---------------------------------------------------------------------------
// Retries
// ---------------------------------------------------------------------------

/// Two to the power of `n`.
pub open spec fn doublings(n: nat) -> nat
    decreases n,
{
    if n == 0 {
        1
    } else {
        2 * doublings((n - 1) as nat)
    }
}

/// How long to wait before a retry where the server does not say.
pub open spec fn default_delay(attempt: nat) -> nat {
    let n = if attempt < 5 {
        attempt
    } else {
        5
    };
    let delay = GITHUB_API_DEFAULT_DELAY_SECS as nat * doublings(n);
    if delay < GITHUB_API_MAX_DELAY_SECS {
        delay
    } else {
        GITHUB_API_MAX_DELAY_SECS as nat
    }
}

/// How long to wait before a retry where the server does not say.
pub fn github_default_retry_delay_seconds(attempt: usize) -> (r: u64)
    ensures
        r == default_delay(attempt as nat),
{
    let n: usize = if attempt < 5 {
        attempt
    } else {
        5
    };
    let mut factor: u64 = 1;
    let mut i: usize = 0;
    while i < n
        invariant
            i <= n <= 5,
            factor == doublings(i as nat),
            factor <= 32,
            i == 0 ==> factor == 1,
            i == 1 ==> factor == 2,
            i == 2 ==> factor == 4,
            i == 3 ==> factor == 8,
            i == 4 ==> factor == 16,
            i == 5 ==> factor == 32,
        decreases n - i,
    {
        factor = factor * 2;
        i = i + 1;
    }
    let delay: u64 = GITHUB_API_DEFAULT_DELAY_SECS * factor;
    if delay < GITHUB_API_MAX_DELAY_SECS {
        delay
    } else {
        GITHUB_API_MAX_DELAY_SECS
    }
}

/// Whether a status says that a later try may succeed.
pub open spec fn is_transient(status: u16) -> bool {
    status == 408 || status == 425 || status == 429 || status == 500 || status == 502 || status
        == 503 || status == 504
}

/// Whether a status says that a later try may succeed.
pub fn github_status_is_transient(status: u16) -> (r: bool)
    ensures
        r == is_transient(status),
{
    status == 408 || status == 425 || status == 429 || status == 500 || status == 502 || status
        == 503 || status == 504
}

/// How long the server asks to wait, in whole seconds.
pub fn github_retry_after_seconds(header: &Option<String>) -> (r: Option<u64>)
    ensures
        r == match opt_text(*header) {
            Some(text) => unsigned_value(text),
            None => None,
        },
{
    match header {
        Some(text) => parse_u64(text.as_str()),
        None => None,
    }
}

/// How long to wait before the request is sent again after a status, if it is.
pub open spec fn status_delay(
    status: u16,
    retry_after: Option<u64>,
    attempt: nat,
    waited: nat,
) -> Option<nat> {
    if attempt >= GITHUB_API_MAX_RETRIES || !is_transient(status) {
        None
    } else {
        let asked = match retry_after {
            Some(seconds) => seconds as nat,
            None => default_delay(attempt),
        };
        let delay = if asked < GITHUB_API_MAX_DELAY_SECS {
            asked
        } else {
            GITHUB_API_MAX_DELAY_SECS as nat
        };
        if waited + delay > GITHUB_API_MAX_WAIT_SECS {
            None
        } else if delay < 1 {
            Some(1)
        } else {
            Some(delay)
        }
    }
}

/// How long to wait before the request is sent again after a status, if it is.
pub fn github_status_retry_delay_seconds(
    status: u16,
    retry_after: Option<u64>,
    attempt: usize,
    waited_secs: u64,
) -> (r: Option<u64>)
    ensures
        match r {
            Some(delay) => status_delay(status, retry_after, attempt as nat, waited_secs as nat)
                == Some(delay as nat),
            None => status_delay(status, retry_after, attempt as nat, waited_secs as nat) is None,
        },
{
    if attempt >= GITHUB_API_MAX_RETRIES || !github_status_is_transient(status) {
        return None;
    }
    let asked: u64 = match retry_after {
        Some(seconds) => seconds,
        None => github_default_retry_delay_seconds(attempt),
    };
    let delay: u64 = if asked < GITHUB_API_MAX_DELAY_SECS {
        asked
    } else {
        GITHUB_API_MAX_DELAY_SECS
    };
    if waited_secs.saturating_add(delay) > GITHUB_API_MAX_WAIT_SECS {
        return None;
    }
    if delay < 1 {
        Some(1)
    } else {
        Some(delay)
    }
}

/// How long to wait before the request is sent again where no response came, if it is.
pub open spec fn transport_delay(attempt: nat, waited: nat) -> Option<nat> {
    if attempt >= GITHUB_API_MAX_RETRIES || waited + default_delay(attempt)
        > GITHUB_API_MAX_WAIT_SECS {
        None
    } else {
        Some(default_delay(attempt))
    }
}

/// How long to wait before the request is sent again where no response came, if it is.
pub fn github_transport_retry_delay_seconds(attempt: usize, waited_secs: u64) -> (r: Option<u64>)
    ensures
        match r {
            Some(delay) => transport_delay(attempt as nat, waited_secs as nat) == Some(
                delay as nat,
            ),
            None => transport_delay(attempt as nat, waited_secs as nat) is None,
        },
{
    if attempt >= GITHUB_API_MAX_RETRIES {
        return None;
    }
    let delay: u64 = github_default_retry_delay_seconds(attempt);
    if waited_secs.saturating_add(delay) > GITHUB_API_MAX_WAIT_SECS {
        return None;
    }
    Some(delay)
}

/// Why a request is sent again.
pub fn github_retry_reason(status: u16, retry_after_secs: Option<u64>) -> (r: &'static str)
    ensures
        r@ == if status == 429 || retry_after_secs is Some {
            "rate_limited"@
        } else {
            "transient_http_error"@
        },
{
    if status == 429 || retry_after_secs.is_some() {
        "rate_limited"
    } else {
        "transient_http_error"
    }
}

// ---------------------------------------------------------------------------
// Errors
// ---------------------------------------------------------------------------

/// The first characters of a text in one line.
pub open spec fn log_detail(value: Seq<char>, max: nat) -> Seq<char> {
    first_chars(joined(words(value), " "@), max)
}

/// The first characters of a text in one line.
pub fn truncate_log_detail(value: &str, max: usize) -> (r: String)
    ensures
        r@ == log_detail(value@, max as nat),
{
    let parts: Vec<String> = split_whitespace(value);
    let line: String = join(&parts, " ");
    take_chars(line.as_str(), max)
}

/// A text as one word of a log line.
pub open spec fn log_word(value: Seq<char>) -> Seq<char> {
    if trimmed(value).len() == 0 {
        "none"@
    } else {
        first_chars(joined(words(trimmed(value)), "|"@), 240)
    }
}

/// A text as one word of a log line.
pub fn inline_log_value(value: &str) -> (r: String)
    ensures
        r@ == log_word(value@),
{
    let t: String = trim(value);
    if t.as_str().is_empty() {
        return owned("none");
    }
    let parts: Vec<String> = split_whitespace(t.as_str());
    let line: String = join(&parts, "|");
    take_chars(line.as_str(), 240)
}

/// The texts of a JSON object under four keys, where they are not blank.
pub open spec fn present_parts(error: JsonView, names: Seq<Seq<char>>) -> Seq<Seq<char>>
    decreases names.len(),
{
    if names.len() == 0 {
        Seq::empty()
    } else {
        let earlier = present_parts(error, names.drop_last());
        match nonempty(opt_json_text(error.get(names.last()))) {
            Some(text) => earlier.push(text),
            None => earlier,
        }
    }
}

/// Where an error entry says what went wrong.
pub open spec fn entry_names() -> Seq<Seq<char>> {
    seq!["resource"@, "field"@, "code"@, "message"@]
}

/// One entry of a list of errors, in short.
pub open spec fn entry_summary(error: JsonView) -> Option<Seq<char>> {
    match error {
        JsonView::Text(text) => if trimmed(text).len() > 0 {
            Some(log_detail(trimmed(text), 120))
        } else {
            None
        },
        JsonView::Object(_) => {
            let parts = present_parts(error, entry_names());
            if parts.len() > 0 {
                Some(log_detail(joined(parts, ":"@), 120))
            } else {
                None
            }
        },
        _ => None,
    }
}

/// The text under a key, without surrounding whitespace, if it is not empty.
fn present_text(json: &Json, key: &str) -> (r: Option<String>)
    ensures
        opt_text(r) == nonempty(opt_json_text(json@.get(key@))),
{
    crate::issue::optional_trimmed_string(json.get(key))
}

/// One entry of a list of errors, in short.
pub fn github_error_entry_summary(error: &Json) -> (r: Option<String>)
    ensures
        opt_text(r) == entry_summary(error@),
{
    broadcast use group_json_views;

    match error {
        Json::Text(text) => {
            let t: String = trim(text.as_str());
            if t.as_str().is_empty() {
                None
            } else {
                Some(truncate_log_detail(t.as_str(), 120))
            }
        },
        Json::Object(_) => {
            let names: Vec<String> = vec![
                owned("resource"),
                owned("field"),
                owned("code"),
                owned("message"),
            ];
            let ghost all = texts(names@);
            let mut parts: Vec<String> = Vec::new();
            let mut i: usize = 0;
            proof {
                assert(all =~= entry_names());
                assert(texts(parts@) =~= Seq::empty());
            }
            while i < names.len()
                invariant
                    i <= names.len(),
                    all == texts(names@),
                    texts(parts@) == present_parts(error@, all.take(i as int)),
                decreases names.len() - i,
            {
                proof {
                    assert(all.take(i + 1).drop_last() =~= all.take(i as int));
                    assert(all.take(i + 1).last() == names@[i as int]@);
                }
                match present_text(error, names[i].as_str()) {
                    Some(text) => {
                        let ghost had = texts(parts@);
                        parts.push(text);
                        proof {
                            assert(texts(parts@) =~= had.push(text@));
                        }
                    },
                    None => {},
                }
                i = i + 1;
            }
            proof {
                assert(all.take(i as int) =~= all);
                assert(texts(parts@).len() == parts@.len());
            }
            if parts.len() > 0 {
                let line: String = join(&parts, ":");
                Some(truncate_log_detail(line.as_str(), 120))
            } else {
                None
            }
        },
        _ => None,
    }
}

/// A part, where there is one.
pub open spec fn part_of(text: Option<Seq<char>>) -> Seq<Seq<char>> {
    match text {
        Some(t) => seq![t],
        None => Seq::empty(),
    }
}

/// What a list of errors adds to a summary: the first two, and how many more there are.
pub open spec fn error_parts(errors: Option<Seq<JsonView>>) -> Seq<Seq<char>> {
    match errors {
        None => Seq::empty(),
        Some(all) => {
            let first = if all.len() > 0 {
                part_of(entry_summary(all[0]))
            } else {
                Seq::empty()
            };
            let second = if all.len() > 1 {
                part_of(entry_summary(all[1]))
            } else {
                Seq::empty()
            };
            let more = if all.len() > 2 {
                seq![decimal((all.len() - 2) as nat) + " more error(s)"@]
            } else {
                Seq::empty()
            };
            first + second + more
        },
    }
}

/// What a response says went wrong, in short.
pub open spec fn response_summary(response: JsonView) -> Option<Seq<char>> {
    let said = part_of(nonempty(opt_json_text(response.get("message"@)))) + error_parts(
        opt_items(response.get("errors"@)),
    );
    let parts = if said.len() > 0 {
        said
    } else {
        match nonempty(opt_json_text(response.get("raw"@))) {
            Some(raw) => seq![log_detail(raw, 240)],
            None => Seq::empty(),
        }
    };
    if parts.len() > 0 {
        Some(log_detail(joined(parts, "; "@), 240))
    } else {
        None
    }
}

fn push_part(parts: &mut Vec<String>, part: Option<String>)
    ensures
        texts(final(parts)@) == texts(old(parts)@) + part_of(opt_text(part)),
{
    let ghost had = texts(parts@);
    match part {
        Some(text) => {
            parts.push(text);
            proof {
                assert(texts(parts@) =~= had + seq![text@]);
            }
        },
        None => {
            proof {
                assert(had + Seq::<Seq<char>>::empty() =~= had);
            }
        },
    }
}

fn collect_error_parts(errors: Option<&Vec<Json>>) -> (out: Vec<String>)
    ensures
        texts(out@) == error_parts(
            match errors {
                Some(all) => Some(views(all@)),
                None => None,
            },
        ),
{
    let mut out: Vec<String> = Vec::new();
    let ghost none = Seq::<Seq<char>>::empty();
    proof {
        assert(texts(out@) =~= none);
    }
    match errors {
        None => {},
        Some(all) => {
            if all.len() > 0 {
                push_part(&mut out, github_error_entry_summary(&all[0]));
            }
            let ghost first = if all@.len() > 0 {
                part_of(entry_summary(views(all@)[0]))
            } else {
                none
            };
            proof {
                assert(texts(out@) =~= first);
            }
            if all.len() > 1 {
                push_part(&mut out, github_error_entry_summary(&all[1]));
            }
            let ghost second = if all@.len() > 1 {
                part_of(entry_summary(views(all@)[1]))
            } else {
                none
            };
            proof {
                assert(texts(out@) =~= first + second);
            }
            if all.len() > 2 {
                let count: String = usize_text(all.len() - 2);
                let note: String = concat(count.as_str(), " more error(s)");
                push_part(&mut out, Some(note));
            }
            proof {
                assert(texts(out@) =~= error_parts(Some(views(all@))));
            }
        },
    }
    out
}

/// What a response says went wrong, in short.
pub fn github_response_summary(response: &Json) -> (r: Option<String>)
    ensures
        opt_text(r) == response_summary(response@),
{
    let mut parts: Vec<String> = Vec::new();
    let ghost message = part_of(nonempty(opt_json_text(response@.get("message"@))));
    proof {
        assert(texts(parts@) + message =~= message);
    }
    push_part(&mut parts, present_text(response, "message"));
    let errors: Option<&Vec<Json>> = match response.get("errors") {
        Some(errors) => errors.as_array(),
        None => None,
    };
    let mut listed: Vec<String> = collect_error_parts(errors);
    let ghost more = texts(listed@);
    parts.append(&mut listed);
    proof {
        assert(texts(parts@) =~= message + more);
        assert(texts(parts@).len() == parts@.len());
    }
    if parts.len() == 0 {
        match present_text(response, "raw") {
            Some(raw) => {
                let line: String = truncate_log_detail(raw.as_str(), 240);
                parts.push(line);
                proof {
                    assert(texts(parts@) =~= seq![line@]);
                }
            },
            None => {
                return None;
            },
        }
    }
    let line: String = join(&parts, "; ");
    Some(truncate_log_detail(line.as_str(), 240))
}

/// The message about a status that is not a success.
pub open spec fn status_message(status: u16, summary: Option<Seq<char>>) -> Seq<char> {
    match summary {
        Some(text) => if text.len() > 0 {
            "GitHub API request failed with HTTP "@ + decimal(status as nat) + ": "@ + text
        } else {
            "GitHub API request failed with HTTP "@ + decimal(status as nat) + "."@
        },
        None => "GitHub API request failed with HTTP "@ + decimal(status as nat) + "."@,
    }
}

/// The message about a status that is not a success.
pub fn github_error_message(status: u16, summary: &Option<String>) -> (r: String)
    ensures
        r@ == status_message(status, opt_text(*summary)),
{
    let code: String = decimal_text(status as u64);
    let mut message: String = concat("GitHub API request failed with HTTP ", code.as_str());
    match summary {
        Some(text) => {
            if text.as_str().is_empty() {
                message.append(".");
            } else {
                message.append(": ");
                message.append(text.as_str());
            }
        },
        None => {
            message.append(".");
        },
    }
    message
}

/// What the body of a response holds.
pub open spec fn body_json(body: Seq<char>) -> JsonView {
    if trimmed(body).len() == 0 {
        JsonView::Object(Seq::empty())
    } else {
        match parsed(body) {
            Ok(json) => json,
            Err(_) => JsonView::Object(seq![("raw"@, JsonView::Text(body))]),
        }
    }
}

/// What the body of a response holds.
pub fn parse_error_body(body: &str) -> (r: Json)
    ensures
        r@ == body_json(body@),
{
    let t: String = trim(body);
    if t.as_str().is_empty() {
        Json::empty_object()
    } else {
        match parse(body) {
            Ok(json) => json,
            Err(_) => Json::object1("raw", Json::text(body)),
        }
    }
}

/// An error of the GitHub tool, in one line.
pub open spec fn error_line(error: JsonView) -> Seq<char> {
    match error.get("error"@) {
        None => compact_of(error),
        Some(details) => {
            let message = match opt_json_text(details.get("message"@)) {
                Some(text) => text,
                None => "unknown GitHub API error"@,
            };
            match opt_json_text(details.get("reason"@)) {
                Some(reason) => if reason.len() > 0 {
                    message + ": "@ + reason
                } else {
                    message
                },
                None => message,
            }
        },
    }
}

/// An error of the GitHub tool, in one line.
pub fn github_error_summary(error: &Json) -> (r: String)
    ensures
        r@ == error_line(error@),
{
    let details: &Json = match error.get("error") {
        Some(details) => details,
        None => {
            return to_text(error);
        },
    };
    let message: &str = match details.get("message") {
        Some(message) => match message.as_str() {
            Some(text) => text,
            None => "unknown GitHub API error",
        },
        None => "unknown GitHub API error",
    };
    let reason: Option<&str> = match details.get("reason") {
        Some(reason) => reason.as_str(),
        None => None,
    };
    match reason {
        Some(reason) => {
            if reason.is_empty() {
                owned(message)
            } else {
                concat3(message, ": ", reason)
            }
        },
        None => owned(message),
    }
}

// ---------------------------------------------------------------------------
// Requests
// ---------------------------------------------------------------------------

/// What came of sending a request.
#[derive(Debug)]
pub enum GithubReply {
    /// No response came.
    SendFailed(String),
    /// The body of the response could not be read.
    BodyFailed(String),
    /// A response: its status, its `Retry-After` header, its body.
    Answered { status: u16, retry_after: Option<String>, body: String },
}

/// What to do next.
#[derive(Debug)]
pub enum GithubStep {
    /// Wait, then send the request again as this attempt, having waited so long in all.
    Retry { delay_secs: u64, attempt: usize, waited_secs: u64 },
    /// Hand this back.
    Done(Result<Json, Json>),
}

/// What to do next.
pub enum GithubStepView {
    Retry { delay_secs: nat, attempt: nat, waited_secs: nat },
    Done(Result<JsonView, JsonView>),
}

impl View for GithubStep {
    type V = GithubStepView;

    open spec fn view(&self) -> GithubStepView {
        match self {
            GithubStep::Retry { delay_secs, attempt, waited_secs } => GithubStepView::Retry {
                delay_secs: *delay_secs as nat,
                attempt: *attempt as nat,
                waited_secs: *waited_secs as nat,
            },
            GithubStep::Done(Ok(json)) => GithubStepView::Done(Ok(json@)),
            GithubStep::Done(Err(json)) => GithubStepView::Done(Err(json@)),
        }
    }
}

/// An error about a request that got no usable response.
pub open spec fn request_error(
    message: Seq<char>,
    reason: Seq<char>,
    method: Seq<char>,
    path: Seq<char>,
) -> JsonView {
    JsonView::Object(
        seq![
            (
                "error"@,
                JsonView::Object(
                    seq![
                        ("message"@, JsonView::Text(message)),
                        ("method"@, JsonView::Text(method)),
                        ("path"@, JsonView::Text(path)),
                        ("reason"@, JsonView::Text(reason)),
                    ],
                ),
            ),
        ],
    )
}

fn build_request_error(message: &str, reason: &str, method: &str, path: &str) -> (r: Json)
    ensures
        r@ == request_error(message@, reason@, method@, path@),
{
    Json::object1(
        "error",
        Json::object4(
            "message",
            Json::text(message),
            "method",
            Json::text(method),
            "path",
            Json::text(path),
            "reason",
            Json::text(reason),
        ),
    )
}

/// An error about a response whose status is not a success.
pub open spec fn status_error(
    status: u16,
    method: Seq<char>,
    path: Seq<char>,
    response: JsonView,
) -> JsonView {
    let summary = response_summary(response);
    JsonView::Object(
        seq![
            (
                "error"@,
                JsonView::Object(
                    seq![
                        ("message"@, JsonView::Text(status_message(status, summary))),
                        ("method"@, JsonView::Text(method)),
                        ("path"@, JsonView::Text(path)),
                        ("response"@, response),
                        ("response_summary"@, crate::prompt::text_or_null(summary)),
                        ("status"@, JsonView::Number(NumberView::Unsigned(status as u64))),
                    ],
                ),
            ),
        ],
    )
}

/// A wait of `delay` before the next attempt.
pub open spec fn retry_step(delay: nat, attempt: nat, waited: nat) -> GithubStepView {
    GithubStepView::Retry {
        delay_secs: delay,
        attempt: attempt + 1,
        waited_secs: waited + delay,
    }
}

/// What to do next after attempt number `attempt`, having waited `waited` seconds.
pub open spec fn next_step(
    method: Seq<char>,
    path: Seq<char>,
    attempt: nat,
    waited: nat,
    reply: GithubReply,
) -> GithubStepView {
    match reply {
        GithubReply::SendFailed(reason) => match transport_delay(attempt, waited) {
            Some(delay) => retry_step(delay, attempt, waited),
            None => GithubStepView::Done(
                Err(
                    request_error(
                        "GitHub API request failed before receiving a response."@,
                        reason@,
                        method,
                        path,
                    ),
                ),
            ),
        },
        GithubReply::BodyFailed(reason) => GithubStepView::Done(
            Err(
                request_error(
                    "GitHub API response body could not be read."@,
                    reason@,
                    method,
                    path,
                ),
            ),
        ),
        GithubReply::Answered { status, retry_after, body } => {
            let json = body_json(body@);
            if 200 <= status < 300 {
                if trimmed(body@).len() == 0 {
                    GithubStepView::Done(
                        Ok(
                            JsonView::Object(
                                seq![
                                    (
                                        "status"@,
                                        JsonView::Number(NumberView::Unsigned(status as u64)),
                                    ),
                                ],
                            ),
                        ),
                    )
                } else {
                    GithubStepView::Done(Ok(json))
                }
            } else {
                let asked = match opt_text(retry_after) {
                    Some(text) => unsigned_value(text),
                    None => None,
                };
                match status_delay(status, asked, attempt, waited) {
                    Some(delay) => retry_step(delay, attempt, waited),
                    None => GithubStepView::Done(Err(status_error(status, method, path, json))),
                }
            }
        },
    }
}

/// What to do next after attempt number `attempt`, having waited `waited_secs` seconds.
pub fn github_api_step(
    method: &str,
    path: &str,
    attempt: usize,
    waited_secs: u64,
    reply: &GithubReply,
) -> (r: GithubStep)
    ensures
        r@ == next_step(method@, path@, attempt as nat, waited_secs as nat, *reply),
{
    match reply {
        GithubReply::SendFailed(reason) => {
            match github_transport_retry_delay_seconds(attempt, waited_secs) {
                Some(delay_secs) => GithubStep::Retry {
                    delay_secs,
                    attempt: attempt + 1,
                    waited_secs: waited_secs + delay_secs,
                },
                None => GithubStep::Done(
                    Err(
                        build_request_error(
                            "GitHub API request failed before receiving a response.",
                            reason.as_str(),
                            method,
                            path,
                        ),
                    ),
                ),
            }
        },
        GithubReply::BodyFailed(reason) => GithubStep::Done(
            Err(
                build_request_error(
                    "GitHub API response body could not be read.",
                    reason.as_str(),
                    method,
                    path,
                ),
            ),
        ),
        GithubReply::Answered { status, retry_after, body } => {
            let json: Json = parse_error_body(body.as_str());
            if 200 <= *status && *status < 300 {
                let t: String = trim(body.as_str());
                if t.as_str().is_empty() {
                    return GithubStep::Done(
                        Ok(Json::object1("status", Json::unsigned(*status as u64))),
                    );
                }
                return GithubStep::Done(Ok(json));
            }
            let asked: Option<u64> = github_retry_after_seconds(retry_after);
            match github_status_retry_delay_seconds(*status, asked, attempt, waited_secs) {
                Some(delay_secs) => GithubStep::Retry {
                    delay_secs,
                    attempt: attempt + 1,
                    waited_secs: waited_secs + delay_secs,
                },
                None => {
                    let summary: Option<String> = github_response_summary(&json);
                    let message: String = github_error_message(*status, &summary);
                    let details: Json = Json::object6(
                        "message",
                        Json::Text(message),
                        "method",
                        Json::text(method),
                        "path",
                        Json::text(path),
                        "response",
                        json,
                        "response_summary",
                        Json::opt_text(&summary),
                        "status",
                        Json::unsigned(*status as u64),
                    );
                    proof {
                        assert(details@->Object_0 =~= (status_error(
                            *status,
                            method@,
                            path@,
                            json@,
                        )->Object_0)[0].1->Object_0);
                    }
                    GithubStep::Done(Err(Json::object1("error", details)))
                },
            }
        },
    }
}

// ---------------------------------------------------------------------------
// Merged pull requests
// ---------------------------------------------------------------------------

pub const PR_COORDINATES_PATTERN: &'static str = "^https://github\\.com/([A-Za-z0-9_.-]+)/([A-Za-z0-9_.-]+)/pull/(\\d+)$";

/// The owner, the repository and the number that a link to a pull request names.
pub open spec fn coordinates(pr_url: Seq<char>) -> Option<(Seq<char>, Seq<char>, Seq<char>)> {
    match first_captures(PR_COORDINATES_PATTERN@, pr_url) {
        Some(groups) => if groups.len() == 3 {
            Some((groups[0], groups[1], groups[2]))
        } else {
            None
        },
        None => None,
    }
}

/// The owner, the repository and the number that a link to a pull request names.
pub fn github_pr_coordinates(pr_url: &str) -> (r: Option<(String, String, String)>)
    ensures
        match r {
            Some((owner, repo, number)) => coordinates(pr_url@) == Some((owner@, repo@, number@)),
            None => coordinates(pr_url@) is None,
        },
{
    match find_captures(PR_COORDINATES_PATTERN, pr_url) {
        Some(groups) => {
            if groups.len() == 3 {
                Some((groups[0].clone(), groups[1].clone(), groups[2].clone()))
            } else {
                None
            }
        },
        None => None,
    }
}

/// Where the GitHub API tells of a pull request, once its coordinates are known.
pub open spec fn pull_path(found: Option<(Seq<char>, Seq<char>, Seq<char>)>, pr_url: Seq<char>) -> Result<
    Seq<char>,
    TrackerErrorView,
> {
    match found {
        Some((owner, repo, number)) => Ok(
            "/repos/"@ + owner + "/"@ + repo + "/pulls/"@ + number,
        ),
        None => Err(
            unsupported_view(
                "`close_task` requires a valid GitHub PR URL in the workpad comment: "@ + pr_url,
            ),
        ),
    }
}

/// Where the GitHub API tells of a pull request, once its coordinates are known.
pub fn pull_request_path(found: &Option<(String, String, String)>, pr_url: &str) -> (r: Result<
    String,
    TrackerError,
>)
    ensures
        text_result(r) == pull_path(
            match *found {
                Some((owner, repo, number)) => Some((owner@, repo@, number@)),
                None => None,
            },
            pr_url@,
        ),
{
    match found {
        Some((owner, repo, number)) => {
            let mut path: String = concat3("/repos/", owner.as_str(), "/");
            path.append(repo.as_str());
            path.append("/pulls/");
            path.append(number.as_str());
            Ok(path)
        },
        None => {
            let message: String = concat(
                "`close_task` requires a valid GitHub PR URL in the workpad comment: ",
                pr_url,
            );
            Err(unsupported(message))
        },
    }
}

/// Where the GitHub API tells of the pull request behind a link.
pub fn pull_request_path_of(pr_url: &str) -> (r: Result<String, TrackerError>)
    ensures
        text_result(r) == pull_path(coordinates(pr_url@), pr_url@),
{
    let found: Option<(String, String, String)> = github_pr_coordinates(pr_url);
    pull_request_path(&found, pr_url)
}

/// Whether what GitHub tells of a pull request says when it was merged.
pub open spec fn tells_merge(payload: JsonView) -> bool {
    let at = match payload.get("merged_at"@) {
        Some(at) => Some(at),
        None => payload.get("mergedAt"@),
    };
    at is Some && at != Some(JsonView::Null)
}

/// What is said of a pull request that has not been merged.
pub open spec fn not_merged(payload: JsonView) -> Seq<char> {
    let state = match opt_json_text(payload.get("state"@)) {
        Some(state) => state,
        None => "OPEN"@,
    };
    "`close_task` requires the linked PR to be merged. Current PR state is `"@ + state + "`."@
}

/// Whether what GitHub tells of a pull request says that it has been merged.
pub open spec fn merged(payload: JsonView) -> Result<(), TrackerErrorView> {
    if tells_merge(payload) {
        Ok(())
    } else {
        Err(unsupported_view(not_merged(payload)))
    }
}

/// Whether what GitHub tells of a pull request says when it was merged; where it does not,
/// what is said of that.
fn check_merged(payload: &Json) -> (r: Result<(), String>)
    ensures
        r is Ok <==> tells_merge(payload@),
        r matches Err(message) ==> message@ == not_merged(payload@),
{
    let at: Option<&Json> = match payload.get("merged_at") {
        Some(at) => Some(at),
        None => payload.get("mergedAt"),
    };
    let is_merged: bool = match at {
        Some(at) => !at.is_null(),
        None => false,
    };
    if is_merged {
        return Ok(());
    }
    let state: &str = match payload.get("state") {
        Some(state) => match state.as_str() {
            Some(text) => text,
            None => "OPEN",
        },
        None => "OPEN",
    };
    Err(
        concat3(
            "`close_task` requires the linked PR to be merged. Current PR state is `",
            state,
            "`.",
        ),
    )
}

/// Whether what GitHub tells of a pull request says that it has been merged.
pub fn verify_pull_request_merged_payload(payload: &Json) -> (r: Result<(), TrackerError>)
    ensures
        unit_result(r) == merged(payload@),
{
    match check_merged(payload) {
        Ok(()) => Ok(()),
        Err(message) => Err(unsupported(message)),
    }
}

/// What came of asking the `gh` command about a pull request.
#[derive(Debug)]
pub enum GhViewReply {
    /// The command could not be run.
    NotRun(String),
    /// The command failed: how it ended, and its error output.
    Failed { status: String, stderr: String },
    /// The command printed these bytes.
    Printed(Vec<u8>),
}

/// What the reply of the `gh` command means: what it tells of the pull request, or why
/// it tells nothing.
pub open spec fn gh_payload(reply: GhViewReply) -> Result<JsonView, Seq<char>> {
    match reply {
        GhViewReply::NotRun(reason) => Err("could not run `gh pr view`: "@ + reason@),
        GhViewReply::Failed { status, stderr } => if trimmed(stderr@).len() == 0 {
            Err("exit status "@ + status@)
        } else {
            Err(trimmed(stderr@))
        },
        GhViewReply::Printed(stdout) => match parsed_bytes(stdout@) {
            Ok(json) => Ok(json),
            Err(reason) => Err("could not parse `gh pr view` output: "@ + reason),
        },
    }
}

/// What the reply of the `gh` command means.
pub fn read_gh_view(reply: &GhViewReply) -> (r: Result<Json, String>)
    ensures
        crate::json::parse_result(r) == gh_payload(*reply),
{
    match reply {
        GhViewReply::NotRun(reason) => Err(
            concat("could not run `gh pr view`: ", reason.as_str()),
        ),
        GhViewReply::Failed { status, stderr } => {
            let t: String = trim(stderr.as_str());
            if t.as_str().is_empty() {
                Err(concat("exit status ", status.as_str()))
            } else {
                Err(t)
            }
        },
        GhViewReply::Printed(stdout) => match parse_bytes(stdout) {
            Ok(json) => Ok(json),
            Err(reason) => Err(
                concat("could not parse `gh pr view` output: ", reason.as_str()),
            ),
        },
    }
}

/// The error where neither the API nor the `gh` command could tell.
pub open spec fn unverifiable(api_error: JsonView, gh_error: Seq<char>) -> TrackerErrorView {
    unsupported_view(
        "`close_task` could not verify GitHub PR merge status via runtime API ("@ + error_line(
            api_error,
        ) + ") or `gh pr view` ("@ + gh_error + ")"@,
    )
}

fn merge_status_unknown(api_error: &Json, gh_error: &str) -> (r: TrackerError)
    ensures
        r@ == unverifiable(api_error@, gh_error@),
{
    let line: String = github_error_summary(api_error);
    let mut message: String = concat3(
        "`close_task` could not verify GitHub PR merge status via runtime API (",
        line.as_str(),
        ") or `gh pr view` (",
    );
    message.append(gh_error);
    message.append(")");
    unsupported(message)
}

/// What the answer of the API comes to.
#[derive(Debug)]
pub enum MergeStep {
    /// The API has told whether the pull request has been merged.
    Done(Result<(), TrackerError>),
    /// The API could not be asked, for this reason: ask the `gh` command, and go on with
    /// [`on_gh_view`].
    AskGh(Json),
}

/// What the answer of the API comes to.
pub enum MergeStepView {
    Done(Result<(), TrackerErrorView>),
    AskGh(JsonView),
}

impl View for MergeStep {
    type V = MergeStepView;

    open spec fn view(&self) -> MergeStepView {
        match self {
            MergeStep::Done(outcome) => MergeStepView::Done(unit_result(*outcome)),
            MergeStep::AskGh(error) => MergeStepView::AskGh(error@),
        }
    }
}

/// What a request to the API gave.
pub open spec fn api_answer(answer: Result<Json, Json>) -> Result<JsonView, JsonView> {
    match answer {
        Ok(payload) => Ok(payload@),
        Err(error) => Err(error@),
    }
}

/// The API is believed where it answers; where it fails, the `gh` command is asked.
pub open spec fn after_api(answer: Result<JsonView, JsonView>) -> MergeStepView {
    match answer {
        Ok(payload) => MergeStepView::Done(merged(payload)),
        Err(error) => MergeStepView::AskGh(error),
    }
}

/// What the answer of the API on a pull request comes to.
pub fn on_api_answer(answer: Result<Json, Json>) -> (r: MergeStep)
    ensures
        r@ == after_api(api_answer(answer)),
{
    match answer {
        Ok(payload) => MergeStep::Done(verify_pull_request_merged_payload(&payload)),
        Err(error) => MergeStep::AskGh(error),
    }
}

/// Whether the `gh` command says that a pull request has been merged, which is asked where
/// the API failed. Where it does not, both reasons are given.
pub open spec fn after_gh(api_error: JsonView, reply: GhViewReply) -> Result<
    (),
    TrackerErrorView,
> {
    match gh_payload(reply) {
        Ok(payload) => if tells_merge(payload) {
            Ok(())
        } else {
            Err(unverifiable(api_error, not_merged(payload)))
        },
        Err(reason) => Err(unverifiable(api_error, reason)),
    }
}

/// Whether the `gh` command says that a pull request has been merged.
pub fn on_gh_view(api_error: Json, reply: &GhViewReply) -> (r: Result<(), TrackerError>)
    ensures
        unit_result(r) == after_gh(api_error@, *reply),
{
    match read_gh_view(reply) {
        Ok(payload) => match check_merged(&payload) {
            Ok(()) => Ok(()),
            Err(message) => Err(merge_status_unknown(&api_error, message.as_str())),
        },
        Err(reason) => Err(merge_status_unknown(&api_error, reason.as_str())),
    }
}

// ---------------------------------------------------------------------------
// Closing a task
// ---------------------------------------------------------------------------

/// The first task with that identifier.
pub open spec fn task_with(issues: Seq<IssueView>, id: Seq<char>) -> Option<IssueView>
    decreases issues.len(),
{
    if issues.len() == 0 {
        None
    } else if issues[0].id == id {
        Some(issues[0])
    } else {
        task_with(issues.skip(1), id)
    }
}

/// Whether a task may be closed: it has to be in the state `Merging`. Gives its state.
pub open spec fn closable(issues: Seq<IssueView>, task_id: Seq<char>) -> Result<
    Seq<char>,
    TrackerErrorView,
> {
    match task_with(issues, task_id) {
        None => Err(
            unsupported_view(
                "`close_task` could not load Todoist task `"@ + task_id + "`"@,
            ),
        ),
        Some(issue) => if state_name(issue.state) == "merging"@ {
            Ok(issue.state)
        } else {
            Err(
                unsupported_view(
                    "`close_task` is only allowed from `Merging`. Current state is `"@ + issue.state
                        + "`."@,
                ),
            )
        },
    }
}

/// Whether a task may be closed. Gives its state.
pub fn closable_state(issues: &Vec<Issue>, task_id: &str) -> (r: Result<String, TrackerError>)
    ensures
        text_result(r) == closable(views_of(issues@), task_id@),
{
    let ghost all = views_of(issues@);
    let mut i: usize = 0;
    proof {
        assert(all.skip(0) =~= all);
    }
    while i < issues.len()
        invariant
            i <= issues.len(),
            all == views_of(issues@),
            task_with(all, task_id@) == task_with(all.skip(i as int), task_id@),
        decreases issues.len() - i,
    {
        proof {
            assert(all.skip(i as int)[0] == issues@[i as int]@);
            assert(all.skip(i as int).skip(1) =~= all.skip(i + 1));
        }
        if same(issues[i].id.as_str(), task_id) {
            let state: &String = &issues[i].state;
            let name: String = normalize_state_name(state.as_str());
            if same(name.as_str(), "merging") {
                return Ok(state.clone());
            }
            let message: String = concat3(
                "`close_task` is only allowed from `Merging`. Current state is `",
                state.as_str(),
                "`.",
            );
            return Err(unsupported(message));
        }
        i = i + 1;
    }
    let message: String = concat3("`close_task` could not load Todoist task `", task_id, "`");
    Err(unsupported(message))
}

/// The content of the workpad that a task needs in order to be closed.
pub open spec fn close_content(workpad: Option<JsonView>) -> Result<Seq<char>, TrackerErrorView> {
    match workpad {
        None => Err(
            unsupported_view("`close_task` requires the persistent task workpad comment."@),
        ),
        Some(comment) => match comment_content(comment) {
            None => Err(unsupported_view("`close_task` requires readable workpad content."@)),
            Some(content) => Ok(content),
        },
    }
}

/// The pull request that a workpad links, once it has been looked for.
pub open spec fn close_link(found: Option<Seq<char>>) -> Result<Seq<char>, TrackerErrorView> {
    match found {
        Some(url) => Ok(url),
        None => Err(
            unsupported_view(
                "`close_task` requires a linked GitHub PR URL in the workpad comment."@,
            ),
        ),
    }
}

/// The pull request that a workpad links, once it has been looked for.
pub fn require_link(found: Option<String>) -> (r: Result<String, TrackerError>)
    ensures
        text_result(r) == close_link(opt_text(found)),
{
    match found {
        Some(url) => Ok(url),
        None => Err(
            unsupported(
                owned("`close_task` requires a linked GitHub PR URL in the workpad comment."),
            ),
        ),
    }
}

/// The pull request that the workpad of a task links.
pub fn linked_pull_request(workpad: &Option<Json>) -> (r: Result<String, TrackerError>)
    ensures
        text_result(r) == match close_content(opt_view(*workpad)) {
            Err(e) => Err(e),
            Ok(content) => close_link(pr_url_in(content)),
        },
{
    let comment: &Json = match workpad {
        Some(comment) => comment,
        None => {
            return Err(
                unsupported(owned("`close_task` requires the persistent task workpad comment.")),
            );
        },
    };
    let content: Option<&str> = match comment.get("content") {
        Some(content) => content.as_str(),
        None => None,
    };
    match content {
        None => Err(unsupported(owned("`close_task` requires readable workpad content."))),
        Some(text) => require_link(extract_github_pr_url(text)),
    }
}

/// What closing a task returns.
pub open spec fn closed_reply(task_id: Seq<char>, pr_url: Seq<char>, state: Seq<char>) -> JsonView {
    JsonView::Object(
        seq![
            ("closed"@, JsonView::Bool(true)),
            ("pr_url"@, JsonView::Text(pr_url)),
            ("state"@, JsonView::Text(state)),
            ("task_id"@, JsonView::Text(task_id)),
        ],
    )
}

/// What closing a task returns.
pub fn closed_task(task_id: &str, pr_url: &str, state: &str) -> (r: Json)
    ensures
        r@ == closed_reply(task_id@, pr_url@, state@),
{
    Json::object4(
        "closed",
        Json::Bool(true),
        "pr_url",
        Json::text(pr_url),
        "state",
        Json::text(state),
        "task_id",
        Json::text(task_id),
    )
}

// ---------------------------------------------------------------------------
// Laws
// ---------------------------------------------------------------------------

/// Whether a text holds no whitespace.
pub open spec fn is_solid(s: Seq<char>) -> bool {
    forall|i: int| 0 <= i < s.len() ==> !is_white(#[trigger] s[i])
}

proof fn lemma_word_is_solid(s: Seq<char>)
    ensures
        word_len(s) <= s.len(),
        is_solid(s.take(word_len(s) as int)),
    decreases s.len(),
{
    if s.len() > 0 && !is_white(s[0]) {
        let rest = s.skip(1);
        lemma_word_is_solid(rest);
        let n = word_len(s) as int;
        assert forall|i: int| 0 <= i < n implies !is_white(#[trigger] s.take(n)[i]) by {
            if i > 0 {
                assert(s.take(n)[i] == rest.take(n - 1)[i - 1]);
            }
        }
    }
}

proof fn lemma_words_are_solid(s: Seq<char>, i: int)
    requires
        0 <= i < words(s).len(),
    ensures
        is_solid(words(s)[i]),
    decreases s.len(),
{
    if is_white(s[0]) {
        lemma_words_are_solid(s.skip(1), i);
    } else {
        lemma_word_is_solid(s);
        let n = word_len(s) as int;
        assert(word_len(s) == 1 + word_len(s.skip(1)));
        if i > 0 {
            assert(words(s)[i] == words(s.skip(n))[i - 1]);
            lemma_words_are_solid(s.skip(n), i - 1);
        } else {
            assert(words(s)[0] == s.take(n));
        }
    }
}

proof fn lemma_joined_is_solid(parts: Seq<Seq<char>>, sep: Seq<char>)
    requires
        is_solid(sep),
        forall|i: int| 0 <= i < parts.len() ==> is_solid(#[trigger] parts[i]),
    ensures
        is_solid(joined(parts, sep)),
    decreases parts.len(),
{
    if parts.len() > 1 {
        let rest = parts.drop_last();
        assert forall|i: int| 0 <= i < rest.len() implies is_solid(#[trigger] rest[i]) by {
            assert(rest[i] == parts[i]);
        }
        lemma_joined_is_solid(rest, sep);
        let a = joined(rest, sep);
        let b = parts.last();
        assert forall|i: int| 0 <= i < (a + sep + b).len() implies !is_white(
            #[trigger] (a + sep + b)[i],
        ) by {
            if i < a.len() {
                assert((a + sep + b)[i] == a[i]);
            } else if i < a.len() + sep.len() {
                assert((a + sep + b)[i] == sep[i - a.len()]);
            } else {
                assert((a + sep + b)[i] == b[i - a.len() - sep.len()]);
            }
        }
    }
}

/// A log word holds no whitespace and has at most 240 characters.
pub proof fn law_log_word_is_one_word(value: Seq<char>)
    ensures
        is_solid(log_word(value)),
        log_word(value).len() <= 240,
{
    reveal_strlit("none");
    reveal_strlit("|");
    let t = trimmed(value);
    if t.len() > 0 {
        let parts = words(t);
        assert forall|i: int| 0 <= i < parts.len() implies is_solid(#[trigger] parts[i]) by {
            lemma_words_are_solid(t, i);
        }
        lemma_joined_is_solid(parts, "|"@);
        let line = joined(parts, "|"@);
        assert forall|i: int| 0 <= i < log_word(value).len() implies !is_white(
            #[trigger] log_word(value)[i],
        ) by {
            assert(log_word(value)[i] == line[i]);
        }
    }
}

/// A request is sent again at most twice, and its retries wait no longer than the
/// longest wait in all, but for the second that is waited at least.
pub proof fn law_retries_are_bounded(
    method: Seq<char>,
    path: Seq<char>,
    attempt: nat,
    waited: nat,
    reply: GithubReply,
)
    ensures
        next_step(method, path, attempt, waited, reply) matches GithubStepView::Retry {
            delay_secs,
            attempt: next,
            waited_secs,
        } ==> next <= GITHUB_API_MAX_RETRIES && next == attempt + 1 && 1 <= delay_secs
            <= GITHUB_API_MAX_DELAY_SECS && waited_secs == waited + delay_secs && waited_secs
            <= GITHUB_API_MAX_WAIT_SECS + 1,
{
    assert(default_delay(attempt) >= 1) by {
        lemma_doublings(
            if attempt < 5 {
                attempt
            } else {
                5
            },
        );
    }
}

proof fn lemma_doublings(n: nat)
    ensures
        doublings(n) >= 1,
    decreases n,
{
    if n > 0 {
        lemma_doublings((n - 1) as nat);
    }
}

/// A task is closed from the state `Merging` only, whatever else holds.
pub proof fn law_only_merging_tasks_are_closed(issues: Seq<IssueView>, task_id: Seq<char>)
    ensures
        closable(issues, task_id) is Ok ==> exists|i: int|
            0 <= i < issues.len() && (#[trigger] issues[i]).id == task_id && state_name(
                issues[i].state,
            ) == "merging"@,
    decreases issues.len(),
{
    if issues.len() > 0 {
        if issues[0].id != task_id {
            law_only_merging_tasks_are_closed(issues.skip(1), task_id);
            if closable(issues, task_id) is Ok {
                let rest = issues.skip(1);
                let i = choose|i: int|
                    0 <= i < rest.len() && (#[trigger] rest[i]).id == task_id && state_name(
                        rest[i].state,
                    ) == "merging"@;
                assert(issues[i + 1] == rest[i]);
            }
        } else {
            assert(issues[0].id == task_id);
        }
    }
}

} // verus!
