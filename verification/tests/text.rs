use std::collections::BTreeMap;

use symphony::clock::{elapsed_millis, whole_micros, whole_millis, LATEST_NANOS};
use symphony::display::{
    escape_json_for_script_tag, format_cell, format_duration, format_int, humanize_event_name,
    humanize_item_type, inline_text, is_control_char, sanitize_display_text, short_id, slugify,
    strip_ansi_sequences, terminal_frame, truncate_chars,
};
use symphony::humanize::{
    alternate_key, camel_to_snake, format_rate_limits_summary, json_key, json_path, parse_integer,
    snake_to_camel, summarize_codex_message, LimitNumbers,
};
use symphony::issue::{normalize_state_name, Issue};
use symphony::json::{parse, parse_bytes, to_pretty_text, to_text, Json, JsonNumber};
use symphony::orchestrator::sort_issues_for_dispatch;
use symphony::prompt::time_to_json;
use symphony::text::{
    chars_of, contains, decimal_text, is_before, is_whitespace, join, len_bytes, parse_i64,
    parse_u64, same, same_ignoring_case, signed_text, split_at_char, split_lines,
    split_whitespace, starts_with, strip_prefix, take_chars, to_ascii_lowercase,
    to_ascii_uppercase, trim, trim_end, trim_start, usize_text,
};
use symphony::throughput::{sparkline, TokenSamples, THROUGHPUT_GRAPH_COLUMNS};
use symphony::usage::{extract_usage, rate_limits_map};
use symphony::workpad::try_truncate_workpad_text;

fn json(text: &str) -> Json {
    parse(text).expect("json")
}

/// Every text of at most four of these characters.
fn samples() -> Vec<String> {
    let alphabet = ['a', 'B', ' ', '\n', '\r', ',', '\u{e9}', '\u{3000}'];
    let mut all = vec![String::new()];
    let mut last = all.clone();
    for _ in 0..4 {
        last = last
            .iter()
            .flat_map(|text| alphabet.iter().map(move |c| format!("{text}{c}")))
            .collect();
        all.extend(last.iter().cloned());
    }
    all
}

#[test]
fn characters_are_classed_as_std_classes_them() {
    for c in (0..=u32::MAX >> 11).filter_map(char::from_u32) {
        assert_eq!(is_whitespace(c), c.is_whitespace(), "{c:?}");
        assert_eq!(is_control_char(c), c.is_control(), "{c:?}");
    }
}

#[test]
fn texts_are_cut_and_split_as_std_cuts_and_splits_them() {
    for text in samples() {
        assert_eq!(trim(&text), text.trim());
        assert_eq!(trim_start(&text), text.trim_start());
        assert_eq!(trim_end(&text), text.trim_end());
        assert_eq!(split_whitespace(&text), text.split_whitespace().collect::<Vec<_>>());
        assert_eq!(split_lines(&text), text.lines().collect::<Vec<_>>());
        assert_eq!(split_at_char(&text, ','), text.split(',').collect::<Vec<_>>());
        assert_eq!(to_ascii_lowercase(&text), text.to_ascii_lowercase());
        assert_eq!(to_ascii_uppercase(&text), text.to_ascii_uppercase());
        assert_eq!(len_bytes(&text), text.len());
        assert_eq!(chars_of(&text), text.chars().collect::<Vec<_>>());
        assert_eq!(take_chars(&text, 2), text.chars().take(2).collect::<String>());
        assert_eq!(normalize_state_name(&text), text.trim().to_ascii_lowercase());
    }
}

#[test]
fn texts_are_compared_as_std_compares_them() {
    let all: Vec<String> = samples().into_iter().filter(|text| text.chars().count() < 3).collect();
    for a in &all {
        for b in &all {
            assert_eq!(same(a, b), a == b);
            assert_eq!(is_before(a, b), a < b);
            assert_eq!(same_ignoring_case(a, b), a.eq_ignore_ascii_case(b));
            assert_eq!(starts_with(a, b), a.starts_with(b.as_str()));
            assert_eq!(contains(a, b), a.contains(b.as_str()));
            assert_eq!(strip_prefix(a, b).as_deref(), a.strip_prefix(b.as_str()));
            let parts = vec![a.clone(), b.clone()];
            assert_eq!(join(&parts, "; "), parts.join("; "));
        }
    }
}

#[test]
fn numbers_are_written_and_read_as_std_does() {
    for n in [0, 1, 9, 10, 999, 1_000, u64::MAX - 1, u64::MAX] {
        assert_eq!(decimal_text(n), n.to_string());
        assert_eq!(parse_u64(&n.to_string()), Some(n));
    }
    for n in [i64::MIN, -10, -1, 0, 1, i64::MAX] {
        assert_eq!(signed_text(n), n.to_string());
        assert_eq!(parse_i64(&n.to_string()), Some(n));
    }
    assert_eq!(usize_text(usize::MAX), usize::MAX.to_string());
    for text in [
        "", "+", "-", "+7", "-7", "007", " 7", "7 ", "1_000", "18446744073709551616",
        "9223372036854775808", "-9223372036854775809", "0x7", "--7", "+-7",
    ] {
        assert_eq!(parse_u64(text), text.parse::<u64>().ok(), "{text:?}");
        assert_eq!(parse_i64(text), text.parse::<i64>().ok(), "{text:?}");
    }
}

#[test]
fn points_in_time_are_written_out() {
    assert_eq!(to_text(&time_to_json(Some(0))), r#""1970-01-01T00:00:00Z""#);
    assert_eq!(to_text(&time_to_json(Some(1_500_000_000))), r#""1970-01-01T00:00:01.500Z""#);
    assert_eq!(
        to_text(&time_to_json(Some(1_000_000_123))),
        r#""1970-01-01T00:00:01.000000123Z""#
    );
    assert_eq!(to_text(&time_to_json(Some(-1))), r#""1969-12-31T23:59:59.999999999Z""#);
    assert_eq!(to_text(&time_to_json(Some(-2_000_000_000))), r#""1969-12-31T23:59:58Z""#);
    assert_eq!(to_text(&time_to_json(None)), "null");
    assert!(matches!(time_to_json(Some(LATEST_NANOS)), Json::Text(_)));
    assert!(matches!(time_to_json(Some(LATEST_NANOS + 1)), Json::Null));
    assert!(matches!(time_to_json(Some(i128::MIN)), Json::Null));
    assert_eq!(elapsed_millis(0, 1_999_999), 1);
    assert_eq!(elapsed_millis(1_999_999, 0), -1);
    assert_eq!(elapsed_millis(-1, 999_999), 1);
    assert_eq!(elapsed_millis(-LATEST_NANOS, LATEST_NANOS), 16_420_533_753_599_999);
    assert_eq!(elapsed_millis(i128::MIN, i128::MAX), i64::MAX);
    assert_eq!(elapsed_millis(i128::MAX, i128::MIN), -i64::MAX);
    for at in [i128::MIN, -1_000_001, -1_000_000, -1, 0, 1, 999_999, LATEST_NANOS, i128::MAX] {
        assert_eq!(whole_micros(at), at.div_euclid(1_000));
        let ms = at.div_euclid(1_000_000).clamp(i64::MIN as i128, i64::MAX as i128);
        assert_eq!(i128::from(whole_millis(at)), ms);
    }
}

#[test]
fn marked_texts_and_bytes_are_read_as_json() {
    let raw = Json::object1("$serde_json::private::RawValue", Json::text("1"));
    assert_eq!(to_text(&json(&to_text(&raw))), "1");
    assert_eq!(to_text(&parse_bytes(&b"[1]".to_vec()).expect("json")), "[1]");
    assert!(parse_bytes(&vec![b'"', 0xff, b'"']).is_err());
}

#[test]
fn json_is_read_and_written_in_key_order() {
    let value = json(r#"{"b": [1, -2, 2.50, null], "a": {"x": "A", "x": true}}"#);
    assert_eq!(to_text(&value), r#"{"a":{"x":true},"b":[1,-2,2.5,null]}"#);
    assert_eq!(to_pretty_text(&json(r#"{"a":[]}"#)), "{\n  \"a\": []\n}");
    assert!(matches!(json("18446744073709551615"), Json::Number(JsonNumber::Unsigned(u64::MAX))));
    assert!(matches!(json("-1"), Json::Number(JsonNumber::Negative(-1))));
    assert!(matches!(json("1e3"), Json::Number(JsonNumber::Decimal(text)) if text == "1000.0"));
    assert!(parse("{").is_err());
    assert_eq!(json("7").as_u64(), Some(7));
    assert_eq!(json("-7").as_u64(), None);
    assert_eq!(json("-7").as_i64(), Some(-7));
    assert_eq!(json("18446744073709551615").as_i64(), None);
}

#[test]
fn tasks_are_sorted_as_std_sorts_them() {
    let priorities = [None, Some(1), Some(4), Some(2), Some(9), Some(1)];
    let mut tasks = vec![];
    for (i, priority) in priorities.iter().enumerate() {
        for (j, created_at) in [Some(30_999), None, Some(-10), Some(30_000)].iter().enumerate() {
            tasks.push(Issue {
                id: format!("{i}-{j}"),
                identifier: format!("T-{}", (i * 7 + j * 3) % 5),
                priority: *priority,
                created_at: *created_at,
                ..Issue::default()
            });
        }
    }
    let rank = |task: &Issue| task.priority.unwrap_or(5);
    let created = |task: &Issue| match task.created_at {
        Some(at) => at.div_euclid(1_000),
        None => i128::from(i64::MAX),
    };
    let mut keys: Vec<(i64, i128, String, String)> = tasks
        .iter()
        .map(|task| {
            (rank(task), created(task), task.identifier.clone(), task.id.clone())
        })
        .collect();
    keys.sort_by(|a, b| (a.0, a.1, &a.2).cmp(&(b.0, b.1, &b.2)));
    let sorted = sort_issues_for_dispatch(tasks);
    assert_eq!(sorted.len(), keys.len());
    for (task, key) in sorted.iter().zip(&keys) {
        assert_eq!((rank(task), created(task)), (key.0, key.1));
        assert_eq!(task.identifier, key.2);
    }
}

#[test]
fn displayed_texts_hold_no_control_characters() {
    let text = "\u{1b}[31mred\u{1b}[0m\u{7} \u{1b}]0;title\u{7}plain\u{9b}";
    assert_eq!(strip_ansi_sequences("\u{1b}[1;31mred\u{1b}[0m"), "red");
    assert!(!sanitize_display_text(text).chars().any(char::is_control));
    assert_eq!(inline_text(" a \n\t b "), "a b");
    assert_eq!(truncate_chars("abc", 3), "abc");
    assert!(truncate_chars("abcdef", 3).chars().count() <= 6);
    assert_eq!(format_cell("ab", 4), "ab  ");
    assert_eq!(format_cell("abcdef", 4), "abcd...");
    assert_eq!(terminal_frame("a\nb"), "\u{1b}[H\u{1b}[2Ja\r\nb\n");
    assert_eq!(escape_json_for_script_tag("</script>"), "\\u003c/script\\u003e");
}

#[test]
fn numbers_and_names_are_displayed() {
    assert_eq!(format_int(0), "0");
    assert_eq!(format_int(999), "999");
    assert_eq!(format_int(1_234_567), "1,234,567");
    assert_eq!(format_duration(0), "00:00");
    assert_eq!(format_duration(61_499), "01:01");
    assert_eq!(format_duration(61_500), "01:02");
    assert_eq!(format_duration(3_600_000), "01:00:00");
    assert_eq!(humanize_event_name("turn_completed"), "turn completed");
    assert_eq!(humanize_item_type("commandExecution"), "command execution");
    assert_eq!(slugify("In Progress"), "in-progress");
    assert!(short_id("0123456789abcdef").chars().count() < 16);
}

#[test]
fn keys_are_found_in_either_spelling() {
    assert_eq!(snake_to_camel("used_percent"), "usedPercent");
    assert_eq!(camel_to_snake("usedPercent"), "used_percent");
    assert_eq!(alternate_key("used_percent"), "usedPercent");
    assert_eq!(alternate_key("usedPercent"), "used_percent");
    let value = json(r#"{"tokenUsage": {"total_tokens": "12"}}"#);
    assert!(json_key(&value, "token_usage").is_some());
    assert_eq!(parse_integer(json_path(&value, "token_usage.totalTokens")), Some(12));
    assert_eq!(parse_integer(Some(&json("-3"))), None);
    assert!(rate_limits_map(&json(r#"{"limit_id": "x", "primary": {}}"#)));
    assert!(extract_usage(&json("{}")).is_none());
}

#[test]
fn summaries_of_messages_are_short() {
    let numbers = LimitNumbers::none();
    let long = "x".repeat(5_000);
    let summary = summarize_codex_message(Some("notification"), Some(&long), &numbers);
    assert!(summary.expect("summary").chars().count() <= 200);
    assert_eq!(summarize_codex_message(None, None, &numbers), None);
    assert!(!format_rate_limits_summary(&json("{}"), &numbers).is_empty());
}

#[test]
fn graphs_have_a_column_for_each_span() {
    let mut samples = TokenSamples::new();
    assert_eq!(samples.graph_rates(0, 0).len(), THROUGHPUT_GRAPH_COLUMNS);
    for second in 0..1_000 {
        samples.capture_token_sample(second * 1_000, second as u64 * 10);
    }
    assert!(samples.samples.len() < 1_000);
    let columns = samples.graph_rates(999_000, 9_990);
    assert_eq!(columns.len(), THROUGHPUT_GRAPH_COLUMNS);
    assert!(columns.iter().skip(1).all(|rates| !rates.is_empty()));
    let rate = samples.rolling_rate(1_000_500, 10_050);
    assert_eq!((rate.tokens, rate.elapsed_ms), (90, 4_500));
    assert!(samples.throttled_rate(1_000_500, 10_050).is_some());
    assert!(samples.throttled_rate(1_000_999, 10_060).is_none());
    assert_eq!(sparkline(&vec![0, 7, 3]).chars().count(), 3);
}

#[test]
fn texts_are_cut_only_between_characters() {
    assert_eq!(try_truncate_workpad_text("abc", 3).as_deref(), Some("abc"));
    assert_eq!(try_truncate_workpad_text("abc def", 4).as_deref(), Some("abc ..."));
    assert_eq!(try_truncate_workpad_text("\u{e9}\u{e9}", 1), None);
    assert_eq!(try_truncate_workpad_text("\u{e9}\u{e9}", 2).as_deref(), Some("\u{e9} ..."));
}

#[test]
fn entries_are_kept_in_key_order() {
    use_table(&["b", "a", "c", "a"]);
    use_table(&[]);
}

fn use_table(keys: &[&str]) {
    let mut table: symphony::table::Table<Issue> = symphony::table::Table::new();
    let mut map = BTreeMap::new();
    for (i, key) in keys.iter().enumerate() {
        table.insert(key.to_string(), Issue { id: i.to_string(), ..Issue::default() });
        map.insert(key.to_string(), i.to_string());
    }
    let entries: Vec<(String, String)> =
        table.entries.iter().map(|(key, task)| (key.clone(), task.id.clone())).collect();
    assert_eq!(entries, map.into_iter().collect::<Vec<_>>());
    assert_eq!(table.len(), entries.len());
    for (key, _) in &entries {
        assert!(table.contains_key(key));
        assert!(table.get(key).is_some());
        table.remove(key);
        assert!(!table.contains_key(key));
        assert!(table.remove(key).is_none());
    }
}

#[test]
fn plain_json_is_read_back() {
    let texts = [
        r#"{"a":[],"b":{"c":"\u0000\n\"\\","d":-9223372036854775808},"e":18446744073709551615}"#,
        "[null,true,[[]],{}]",
        "\"\u{1f600}\u{7f}\"",
    ];
    for text in texts {
        let value = json(text);
        assert_eq!(format!("{:?}", json(&to_text(&value))), format!("{value:?}"));
        assert_eq!(format!("{:?}", json(&to_pretty_text(&value))), format!("{value:?}"));
    }
    let nested = |depth: usize| (0..depth).fold(Json::Null, |inner, _| Json::array1(inner));
    assert!(parse(&to_text(&nested(127))).is_ok());
    assert!(parse(&to_text(&nested(128))).is_err());
}
