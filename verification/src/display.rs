//! Texts as they are shown on a terminal: without control sequences, in colour, in
//! cells of a table, and numbers and names in a form for people.
use vstd::prelude::*;
use vstd::string::*;

use crate::text::{
    ascii_lower, chars_of, concat, concat3, decimal, decimal_text, first_chars, is_white, join,
    joined, lower_char, lowered, owned, split_whitespace, string_of, take_chars,
    to_ascii_lowercase, trim, trimmed, words,
};

verus! {

broadcast use {vstd::seq::group_seq_axioms, vstd::string::group_string_axioms};

// ---------------------------------------------------------------------------
// Colours
// ---------------------------------------------------------------------------

pub const ANSI_HOME: &'static str = "\u{1b}[H\u{1b}[2J";

pub const ANSI_RESET: &'static str = "\u{1b}[0m";

pub const ANSI_BOLD: &'static str = "\u{1b}[1m";

pub const ANSI_BLUE: &'static str = "\u{1b}[34m";

pub const ANSI_CYAN: &'static str = "\u{1b}[36m";

pub const ANSI_GREEN: &'static str = "\u{1b}[32m";

pub const ANSI_MAGENTA: &'static str = "\u{1b}[35m";

pub const ANSI_RED: &'static str = "\u{1b}[31m";

pub const ANSI_YELLOW: &'static str = "\u{1b}[33m";

pub const ANSI_GRAY: &'static str = "\u{1b}[90m";

/// A text in a colour.
pub open spec fn coloured(value: Seq<char>, ansi: Seq<char>) -> Seq<char> {
    ansi + value + ANSI_RESET@
}

/// A text in a colour.
pub fn colorize(value: &str, ansi: &str) -> (r: String)
    ensures
        r@ == coloured(value@, ansi@),
{
    concat3(ansi, value, ANSI_RESET)
}

// ---------------------------------------------------------------------------
// Control sequences
// ---------------------------------------------------------------------------

/// Where a reader of a text with control sequences stands.
#[derive(Clone, Copy, Debug, PartialEq, Eq, Structural)]
pub enum AnsiState {
    /// In plain text.
    Plain,
    /// Behind an escape character.
    Escape,
    /// In a sequence that ends with a character from `@` to `~`.
    Csi,
    /// In a sequence that ends with a bell or with an escape and a backslash.
    Osc,
    /// In the same, behind an escape.
    OscEscape,
    /// In a sequence that ends with an escape and a backslash.
    St,
    /// In the same, behind an escape.
    StEscape,
}

impl AnsiState {
    /// Where the reader stands after a character of a sequence that a bell or an escape
    /// and a backslash ends.
    pub open spec fn in_osc(c: char) -> AnsiState {
        if c == '\u{7}' {
            AnsiState::Plain
        } else if c == '\u{1b}' {
            AnsiState::OscEscape
        } else {
            AnsiState::Osc
        }
    }

    /// Where the reader stands after a character of a sequence that an escape and a
    /// backslash ends.
    pub open spec fn in_st(c: char) -> AnsiState {
        if c == '\u{1b}' {
            AnsiState::StEscape
        } else {
            AnsiState::St
        }
    }

    /// Where the reader stands after a character.
    pub open spec fn after(self, c: char) -> AnsiState {
        match self {
            AnsiState::Plain => if c == '\u{1b}' {
                AnsiState::Escape
            } else if c == '\u{9b}' {
                AnsiState::Csi
            } else {
                AnsiState::Plain
            },
            AnsiState::Escape => if c == '[' {
                AnsiState::Csi
            } else if c == ']' {
                AnsiState::Osc
            } else if c == 'P' || c == '^' || c == '_' {
                AnsiState::St
            } else {
                AnsiState::Plain
            },
            AnsiState::Csi => if '@' <= c && c <= '~' {
                AnsiState::Plain
            } else {
                AnsiState::Csi
            },
            AnsiState::Osc => AnsiState::in_osc(c),
            AnsiState::OscEscape => if c == '\\' {
                AnsiState::Plain
            } else {
                AnsiState::in_osc(c)
            },
            AnsiState::St => AnsiState::in_st(c),
            AnsiState::StEscape => if c == '\\' {
                AnsiState::Plain
            } else {
                AnsiState::in_st(c)
            },
        }
    }

    /// Whether a character belongs to the text itself.
    pub open spec fn shows(self, c: char) -> bool {
        self == AnsiState::Plain && c != '\u{1b}' && c != '\u{9b}'
    }

    fn osc(c: char) -> (r: AnsiState)
        ensures
            r == AnsiState::in_osc(c),
    {
        if c == '\u{7}' {
            AnsiState::Plain
        } else if c == '\u{1b}' {
            AnsiState::OscEscape
        } else {
            AnsiState::Osc
        }
    }

    fn st(c: char) -> (r: AnsiState)
        ensures
            r == AnsiState::in_st(c),
    {
        if c == '\u{1b}' {
            AnsiState::StEscape
        } else {
            AnsiState::St
        }
    }

    fn step(self, c: char) -> (r: AnsiState)
        ensures
            r == self.after(c),
    {
        match self {
            AnsiState::Plain => if c == '\u{1b}' {
                AnsiState::Escape
            } else if c == '\u{9b}' {
                AnsiState::Csi
            } else {
                AnsiState::Plain
            },
            AnsiState::Escape => if c == '[' {
                AnsiState::Csi
            } else if c == ']' {
                AnsiState::Osc
            } else if c == 'P' || c == '^' || c == '_' {
                AnsiState::St
            } else {
                AnsiState::Plain
            },
            AnsiState::Csi => if '@' <= c && c <= '~' {
                AnsiState::Plain
            } else {
                AnsiState::Csi
            },
            AnsiState::Osc => AnsiState::osc(c),
            AnsiState::OscEscape => if c == '\\' {
                AnsiState::Plain
            } else {
                AnsiState::osc(c)
            },
            AnsiState::St => AnsiState::st(c),
            AnsiState::StEscape => if c == '\\' {
                AnsiState::Plain
            } else {
                AnsiState::st(c)
            },
        }
    }
}

/// What a reader of a text has seen of it, and where the reader stands at its end.
pub open spec fn ansi_scan(s: Seq<char>) -> (AnsiState, Seq<char>)
    decreases s.len(),
{
    if s.len() == 0 {
        (AnsiState::Plain, Seq::empty())
    } else {
        let (state, seen) = ansi_scan(s.drop_last());
        (
            state.after(s.last()),
            if state.shows(s.last()) {
                seen.push(s.last())
            } else {
                seen
            },
        )
    }
}

/// A text without its control sequences.
pub open spec fn stripped(s: Seq<char>) -> Seq<char> {
    ansi_scan(s).1
}

/// A text without its control sequences.
pub fn strip_ansi_sequences(value: &str) -> (r: String)
    ensures
        r@ == stripped(value@),
{
    let chars: Vec<char> = chars_of(value);
    let mut out: String = String::new();
    let mut state: AnsiState = AnsiState::Plain;
    let mut i: usize = 0;
    while i < chars.len()
        invariant
            i <= chars.len(),
            chars@ == value@,
            (state, out@) == ansi_scan(value@.take(i as int)),
        decreases chars.len() - i,
    {
        let c: char = chars[i];
        proof {
            assert(value@.take(i + 1).drop_last() =~= value@.take(i as int));
            assert(value@.take(i + 1).last() == c);
        }
        match state {
            AnsiState::Plain => {
                if c != '\u{1b}' && c != '\u{9b}' {
                    out.push(c);
                }
            },
            _ => {},
        }
        state = state.step(c);
        i = i + 1;
    }
    proof {
        assert(value@.take(i as int) =~= value@);
    }
    out
}

/// Whether a character is a control character.
pub open spec fn is_control(c: char) -> bool {
    c <= '\u{1f}' || ('\u{7f}' <= c && c <= '\u{9f}')
}

/// Whether a character is a control character.
pub fn is_control_char(c: char) -> (r: bool)
    ensures
        r == is_control(c),
{
    c <= '\u{1f}' || ('\u{7f}' <= c && c <= '\u{9f}')
}

/// Whether a character is kept for display.
pub open spec fn is_displayed(c: char) -> bool {
    !is_control(c) || c == '\n' || c == '\t' || c == '\r'
}

/// A text without control characters but for line breaks and tabs.
pub open spec fn cleaned(s: Seq<char>) -> Seq<char>
    decreases s.len(),
{
    if s.len() == 0 {
        Seq::empty()
    } else if is_displayed(s.last()) {
        cleaned(s.drop_last()).push(s.last())
    } else {
        cleaned(s.drop_last())
    }
}

/// A text as it can be shown on one line.
pub open spec fn sanitized(s: Seq<char>) -> Seq<char> {
    joined(words(cleaned(stripped(s))), " "@)
}

/// A text as it can be shown on one line: without control sequences and control
/// characters, and with single spaces between its words.
pub fn sanitize_display_text(value: &str) -> (r: String)
    ensures
        r@ == sanitized(value@),
{
    let plain: String = strip_ansi_sequences(value);
    let chars: Vec<char> = chars_of(plain.as_str());
    let ghost all = plain@;
    let mut out: String = String::new();
    let mut i: usize = 0;
    while i < chars.len()
        invariant
            i <= chars.len(),
            chars@ == all,
            out@ == cleaned(all.take(i as int)),
        decreases chars.len() - i,
    {
        let c: char = chars[i];
        proof {
            assert(all.take(i + 1).drop_last() =~= all.take(i as int));
            assert(all.take(i + 1).last() == c);
        }
        if !is_control_char(c) || c == '\n' || c == '\t' || c == '\r' {
            out.push(c);
        }
        i = i + 1;
    }
    proof {
        assert(all.take(i as int) =~= all);
    }
    let parts: Vec<String> = split_whitespace(out.as_str());
    join(&parts, " ")
}

/// A text of at most `max` characters; a longer one is cut, with three dots behind it.
pub open spec fn cut_short(s: Seq<char>, max: nat) -> Seq<char> {
    if s.len() > max {
        s.take(max as int) + "..."@
    } else {
        s
    }
}

/// A text of at most `max_chars` characters; a longer one is cut, with three dots behind
/// it.
pub fn truncate_chars(value: &str, max_chars: usize) -> (r: String)
    ensures
        r@ == cut_short(value@, max_chars as nat),
{
    let chars: Vec<char> = chars_of(value);
    if chars.len() > max_chars {
        let head: String = string_of(&chars, 0, max_chars);
        proof {
            assert(head@ =~= value@.take(max_chars as int));
        }
        concat(head.as_str(), "...")
    } else {
        owned(value)
    }
}

/// A text on one line, cut to eighty characters.
pub open spec fn inlined(s: Seq<char>) -> Seq<char> {
    cut_short(sanitized(s), 80)
}

/// A text on one line, cut to eighty characters.
pub fn inline_text(value: &str) -> (r: String)
    ensures
        r@ == inlined(value@),
{
    let line: String = sanitize_display_text(value);
    truncate_chars(line.as_str(), 80)
}

/// What is left of a text without its control sequences holds no character that could
/// start one.
pub proof fn law_stripped_text_starts_no_sequence(s: Seq<char>, i: int)
    requires
        0 <= i < stripped(s).len(),
    ensures
        stripped(s)[i] != '\u{1b}',
        stripped(s)[i] != '\u{9b}',
    decreases s.len(),
{
    if s.len() > 0 {
        let (state, seen) = ansi_scan(s.drop_last());
        if i < seen.len() {
            law_stripped_text_starts_no_sequence(s.drop_last(), i);
        }
    }
}

/// A text without characters that could start a control sequence is left as it is.
pub proof fn law_plain_text_is_kept(s: Seq<char>)
    requires
        forall|i: int| 0 <= i < s.len() ==> #[trigger] s[i] != '\u{1b}' && s[i] != '\u{9b}',
    ensures
        stripped(s) == s,
        ansi_scan(s).0 == AnsiState::Plain,
    decreases s.len(),
{
    if s.len() > 0 {
        assert forall|i: int| 0 <= i < s.drop_last().len() implies #[trigger] s.drop_last()[i]
            != '\u{1b}' && s.drop_last()[i] != '\u{9b}' by {
            assert(s.drop_last()[i] == s[i]);
        }
        law_plain_text_is_kept(s.drop_last());
        assert(s.last() == s[s.len() - 1]);
        assert(s.drop_last().push(s.last()) =~= s);
    } else {
        assert(stripped(s) =~= s);
    }
}

proof fn lemma_cleaned(s: Seq<char>, i: int)
    requires
        0 <= i < cleaned(s).len(),
    ensures
        is_displayed(cleaned(s)[i]),
    decreases s.len(),
{
    if s.len() > 0 {
        if i < cleaned(s.drop_last()).len() {
            lemma_cleaned(s.drop_last(), i);
        }
    }
}

/// Each character of a word is a character of the text that is not whitespace.
proof fn lemma_word_chars(s: Seq<char>, k: int, i: int)
    requires
        0 <= k < words(s).len(),
        0 <= i < words(s)[k].len(),
    ensures
        !is_white(words(s)[k][i]),
        s.contains(words(s)[k][i]),
    decreases s.len(),
{
    let n = crate::text::word_len(s);
    crate::text::lemma_word_len(s);
    if s.len() > 0 {
        if is_white(s[0]) {
            let rest = s.skip(1);
            assert(words(s) == words(rest));
            lemma_word_chars(rest, k, i);
            let j = choose|j: int| 0 <= j < rest.len() && rest[j] == words(rest)[k][i];
            assert(s[j + 1] == words(s)[k][i]);
        } else if k == 0 {
            assert(words(s)[0] == s.take(n as int));
            lemma_word_prefix(s, i);
            assert(s[i] == words(s)[k][i]);
        } else {
            let rest = s.skip(n as int);
            assert(words(s) == seq![s.take(n as int)] + words(rest));
            assert(words(s)[k] == words(rest)[k - 1]);
            lemma_word_chars(rest, k - 1, i);
            let j = choose|j: int| 0 <= j < rest.len() && rest[j] == words(rest)[k - 1][i];
            assert(s[j + n] == words(s)[k][i]);
        }
    }
}

proof fn lemma_word_prefix(s: Seq<char>, i: int)
    requires
        0 <= i < crate::text::word_len(s),
        i < s.len(),
    ensures
        !is_white(s[i]),
    decreases s.len(),
{
    if i > 0 {
        lemma_word_prefix(s.skip(1), i - 1);
        assert(s.skip(1)[i - 1] == s[i]);
    }
}

/// Each character of a joined text is one of a part or of the separator.
proof fn lemma_joined_chars(parts: Seq<Seq<char>>, sep: Seq<char>, i: int)
    requires
        0 <= i < joined(parts, sep).len(),
    ensures
        sep.contains(joined(parts, sep)[i]) || exists|k: int, j: int|
            0 <= k < parts.len() && 0 <= j < parts[k].len() && #[trigger] parts[k][j] == joined(
                parts,
                sep,
            )[i],
    decreases parts.len(),
{
    if parts.len() == 1 {
        assert(joined(parts, sep) == parts[0]);
        assert(parts[0][i] == joined(parts, sep)[i]);
    } else if parts.len() > 1 {
        let rest = parts.drop_last();
        let head = joined(rest, sep);
        let all = joined(parts, sep);
        assert(all == head + sep + parts.last());
        if i < head.len() {
            lemma_joined_chars(rest, sep, i);
            if !sep.contains(head[i]) {
                let (k, j) = choose|k: int, j: int|
                    0 <= k < rest.len() && 0 <= j < rest[k].len() && #[trigger] rest[k][j]
                        == head[i];
                assert(parts[k][j] == all[i]);
            }
        } else if i < head.len() + sep.len() {
            assert(all[i] == sep[i - head.len()]);
        } else {
            let k = parts.len() - 1;
            let j = i - head.len() - sep.len();
            assert(parts[k][j] == all[i]);
        }
    }
}

/// A text as it is shown holds no control character at all, and no whitespace but
/// spaces.
pub proof fn law_displayed_text_is_clean(s: Seq<char>, i: int)
    requires
        0 <= i < sanitized(s).len(),
    ensures
        !is_control(sanitized(s)[i]),
        is_white(sanitized(s)[i]) ==> sanitized(s)[i] == ' ',
{
    reveal_strlit(" ");
    let clean = cleaned(stripped(s));
    let parts = words(clean);
    let c = sanitized(s)[i];
    lemma_joined_chars(parts, " "@, i);
    if " "@.contains(c) {
        let j = choose|j: int| 0 <= j < " "@.len() && " "@[j] == c;
        assert(c == ' ');
    } else {
        let (k, j) = choose|k: int, j: int|
            0 <= k < parts.len() && 0 <= j < parts[k].len() && #[trigger] parts[k][j] == c;
        lemma_word_chars(clean, k, j);
        let n = choose|n: int| 0 <= n < clean.len() && clean[n] == c;
        lemma_cleaned(stripped(s), n);
    }
}

/// A text on one line has at most 83 characters.
pub proof fn law_inlined_text_is_short(s: Seq<char>)
    ensures
        inlined(s).len() <= 83,
{
    reveal_strlit("...");
}

// ---------------------------------------------------------------------------
// Cells
// ---------------------------------------------------------------------------

/// A character, repeated.
pub open spec fn repeated(c: char, n: nat) -> Seq<char> {
    Seq::new(n, |i: int| c)
}

/// A character, repeated.
pub fn repeat_char(c: char, n: usize) -> (r: String)
    ensures
        r@ == repeated(c, n as nat),
{
    let mut out: String = String::new();
    let mut i: usize = 0;
    while i < n
        invariant
            i <= n,
            out@ == repeated(c, i as nat),
        decreases n - i,
    {
        out.push(c);
        proof {
            assert(out@ =~= repeated(c, (i + 1) as nat));
        }
        i = i + 1;
    }
    out
}

/// A text in a cell of a table: cut to the width, or filled up with spaces.
pub open spec fn cell(s: Seq<char>, width: nat) -> Seq<char> {
    let cut = cut_short(s, width);
    if cut.len() >= width {
        cut
    } else {
        cut + repeated(' ', (width - cut.len()) as nat)
    }
}

/// A text in a cell of a table.
pub fn format_cell(value: &str, width: usize) -> (r: String)
    ensures
        r@ == cell(value@, width as nat),
{
    let cut: String = truncate_chars(value, width);
    let len: usize = chars_of(cut.as_str()).len();
    if len >= width {
        cut
    } else {
        let fill: String = repeat_char(' ', width - len);
        concat(cut.as_str(), fill.as_str())
    }
}

/// A cell is at least as wide as its column.
pub proof fn law_cells_fill_their_column(s: Seq<char>, width: nat)
    ensures
        cell(s, width).len() >= width,
        s.len() <= width ==> cell(s, width).len() == width,
{
    reveal_strlit("...");
}

// ---------------------------------------------------------------------------
// Names
// ---------------------------------------------------------------------------

/// A text with one character replaced by a text.
pub open spec fn replaced(s: Seq<char>, c: char, with: Seq<char>) -> Seq<char>
    decreases s.len(),
{
    if s.len() == 0 {
        Seq::empty()
    } else if s.last() == c {
        replaced(s.drop_last(), c, with) + with
    } else {
        replaced(s.drop_last(), c, with).push(s.last())
    }
}

/// A text with one character replaced by a text.
pub fn replace_char(value: &str, c: char, with: &str) -> (r: String)
    ensures
        r@ == replaced(value@, c, with@),
{
    let chars: Vec<char> = chars_of(value);
    let mut out: String = String::new();
    let mut i: usize = 0;
    while i < chars.len()
        invariant
            i <= chars.len(),
            chars@ == value@,
            out@ == replaced(value@.take(i as int), c, with@),
        decreases chars.len() - i,
    {
        proof {
            assert(value@.take(i + 1).drop_last() =~= value@.take(i as int));
            assert(value@.take(i + 1).last() == chars@[i as int]);
        }
        if chars[i] == c {
            out.append(with);
        } else {
            out.push(chars[i]);
        }
        i = i + 1;
    }
    proof {
        assert(value@.take(i as int) =~= value@);
    }
    out
}

/// Lines as a terminal in raw mode needs them.
pub fn normalize_status_lines(content: &str) -> (r: String)
    ensures
        r@ == replaced(content@, '\n', "\r\n"@),
{
    replace_char(content, '\n', "\r\n")
}

/// What is written to the terminal to show a status.
pub fn terminal_frame(content: &str) -> (r: String)
    ensures
        r@ == ANSI_HOME@ + replaced(content@, '\n', "\r\n"@) + "\n"@,
{
    let lines: String = normalize_status_lines(content);
    concat3(ANSI_HOME, lines.as_str(), "\n")
}

/// An event's name in words.
pub fn humanize_event_name(event: &str) -> (r: String)
    ensures
        r@ == replaced(event@, '_', " "@),
{
    replace_char(event, '_', " ")
}

/// A JSON text as it can stand in a page.
pub open spec fn escaped(s: Seq<char>) -> Seq<char> {
    replaced(replaced(replaced(s, '&', "\\u0026"@), '<', "\\u003c"@), '>', "\\u003e"@)
}

/// A JSON text as it can stand in a page: without characters that could end its element.
pub fn escape_json_for_script_tag(value: &str) -> (r: String)
    ensures
        r@ == escaped(value@),
{
    let a: String = replace_char(value, '&', "\\u0026");
    let b: String = replace_char(a.as_str(), '<', "\\u003c");
    replace_char(b.as_str(), '>', "\\u003e")
}

proof fn lemma_replaced_lacks(s: Seq<char>, c: char, with: Seq<char>, d: char)
    requires
        !with.contains(d),
        d == c || !s.contains(d),
    ensures
        !replaced(s, c, with).contains(d),
    decreases s.len(),
{
    if s.len() > 0 {
        let rest = s.drop_last();
        if rest.contains(d) {
            let i = choose|i: int| 0 <= i < rest.len() && rest[i] == d;
            assert(s[i] == d);
        }
        assert(s[s.len() - 1] == s.last());
        lemma_replaced_lacks(rest, c, with, d);
        let head = replaced(rest, c, with);
        let all = replaced(s, c, with);
        if all.contains(d) {
            let i = choose|i: int| 0 <= i < all.len() && all[i] == d;
            if i < head.len() {
                assert(head[i] == d);
            } else if s.last() == c {
                assert(with[i - head.len()] == d);
            }
        }
    }
}

/// A JSON text in a page holds no angle bracket and no ampersand, so that nothing in it
/// can end its element.
pub proof fn law_escaped_text_stays_in_its_element(s: Seq<char>)
    ensures
        !escaped(s).contains('<'),
        !escaped(s).contains('>'),
        !escaped(s).contains('&'),
{
    reveal_strlit("\\u0026");
    reveal_strlit("\\u003c");
    reveal_strlit("\\u003e");
    let a = replaced(s, '&', "\\u0026"@);
    let b = replaced(a, '<', "\\u003c"@);
    lemma_replaced_lacks(s, '&', "\\u0026"@, '&');
    lemma_replaced_lacks(a, '<', "\\u003c"@, '&');
    lemma_replaced_lacks(a, '<', "\\u003c"@, '<');
    lemma_replaced_lacks(b, '>', "\\u003e"@, '&');
    lemma_replaced_lacks(b, '>', "\\u003e"@, '<');
    lemma_replaced_lacks(b, '>', "\\u003e"@, '>');
}

/// Whether a character is an ASCII letter or digit.
pub open spec fn is_alnum(c: char) -> bool {
    ('0' <= c && c <= '9') || ('A' <= c && c <= 'Z') || ('a' <= c && c <= 'z')
}

/// Whether a character is an upper-case ASCII letter.
pub open spec fn is_upper(c: char) -> bool {
    'A' <= c && c <= 'Z'
}

fn alnum(c: char) -> (r: bool)
    ensures
        r == is_alnum(c),
{
    ('0' <= c && c <= '9') || ('A' <= c && c <= 'Z') || ('a' <= c && c <= 'z')
}

/// A type's name with spaces before its capitals and for its separators, and whether a
/// capital would start a word behind it.
pub open spec fn spaced(s: Seq<char>) -> (Seq<char>, bool)
    decreases s.len(),
{
    if s.len() == 0 {
        (Seq::empty(), false)
    } else {
        let (out, inside) = spaced(s.drop_last());
        let c = s.last();
        if c == '_' || c == '/' || c == '-' {
            (
                if out.len() > 0 && out.last() == ' ' {
                    out
                } else {
                    out.push(' ')
                },
                false,
            )
        } else if is_upper(c) && inside {
            (out.push(' ').push(ascii_lower(c)), true)
        } else {
            (out.push(ascii_lower(c)), is_alnum(c))
        }
    }
}

/// A type's name in words.
pub open spec fn type_words(s: Seq<char>) -> Seq<char> {
    joined(words(spaced(s).0), " "@)
}

/// A type's name in words.
pub fn humanize_item_type(value: &str) -> (r: String)
    ensures
        r@ == type_words(value@),
{
    let chars: Vec<char> = chars_of(value);
    let mut out: Vec<char> = Vec::new();
    let mut inside: bool = false;
    let mut i: usize = 0;
    while i < chars.len()
        invariant
            i <= chars.len(),
            chars@ == value@,
            (out@, inside) == spaced(value@.take(i as int)),
        decreases chars.len() - i,
    {
        let c: char = chars[i];
        proof {
            assert(value@.take(i + 1).drop_last() =~= value@.take(i as int));
            assert(value@.take(i + 1).last() == c);
        }
        if c == '_' || c == '/' || c == '-' {
            if !(out.len() > 0 && out[out.len() - 1] == ' ') {
                out.push(' ');
            }
            inside = false;
        } else if 'A' <= c && c <= 'Z' && inside {
            out.push(' ');
            out.push(lower_char(c));
            inside = true;
        } else {
            out.push(lower_char(c));
            inside = alnum(c);
        }
        i = i + 1;
    }
    proof {
        assert(value@.take(i as int) =~= value@);
    }
    let text: String = string_of(&out, 0, out.len());
    proof {
        assert(text@ =~= out@);
    }
    let parts: Vec<String> = split_whitespace(text.as_str());
    join(&parts, " ")
}

/// A status in words.
pub open spec fn status_words(s: Seq<char>) -> Seq<char> {
    lowered(joined(words(replaced(replaced(s, '_', " "@), '-', " "@)), " "@))
}

/// A status in words.
pub fn humanize_status(value: &str) -> (r: String)
    ensures
        r@ == status_words(value@),
{
    let a: String = replace_char(value, '_', " ");
    let b: String = replace_char(a.as_str(), '-', " ");
    let parts: Vec<String> = split_whitespace(b.as_str());
    let line: String = join(&parts, " ");
    to_ascii_lowercase(line.as_str())
}

/// The first twelve characters of an identifier.
pub fn short_id(value: &str) -> (r: String)
    ensures
        r@ == first_chars(value@, 12),
{
    take_chars(value, 12)
}

/// A name as it can stand in an address: its letters in lower case, and a dash for
/// everything but letters and digits.
pub open spec fn slug(s: Seq<char>) -> Seq<char> {
    let low = lowered(trimmed(s));
    Seq::new(
        low.len(),
        |i: int|
            if is_alnum(low[i]) {
                low[i]
            } else {
                '-'
            },
    )
}

/// A name as it can stand in an address.
pub fn slugify(value: &str) -> (r: String)
    ensures
        r@ == slug(value@),
{
    let t: String = trim(value);
    let low: String = to_ascii_lowercase(t.as_str());
    let chars: Vec<char> = chars_of(low.as_str());
    let ghost all = low@;
    let mut out: String = String::new();
    let mut i: usize = 0;
    while i < chars.len()
        invariant
            i <= chars.len(),
            chars@ == all,
            out@.len() == i,
            forall|j: int|
                0 <= j < i ==> #[trigger] out@[j] == if is_alnum(all[j]) {
                    all[j]
                } else {
                    '-'
                },
        decreases chars.len() - i,
    {
        if alnum(chars[i]) {
            out.push(chars[i]);
        } else {
            out.push('-');
        }
        i = i + 1;
    }
    proof {
        assert(out@ =~= slug(value@));
    }
    out
}

// ---------------------------------------------------------------------------
// Numbers
// ---------------------------------------------------------------------------

/// Digits in groups of three, from the right.
pub open spec fn grouped(digits: Seq<char>) -> Seq<char>
    decreases digits.len(),
{
    if digits.len() <= 3 {
        digits
    } else {
        let n = digits.len() - 3;
        grouped(digits.take(n)) + ","@ + digits.skip(n)
    }
}

fn group_digits(chars: &Vec<char>, end: usize) -> (r: String)
    requires
        end <= chars@.len(),
    ensures
        r@ == grouped(chars@.take(end as int)),
    decreases end,
{
    let ghost digits = chars@.take(end as int);
    if end <= 3 {
        let text: String = string_of(chars, 0, end);
        proof {
            assert(text@ =~= digits);
        }
        text
    } else {
        let head: String = group_digits(chars, end - 3);
        let tail: String = string_of(chars, end - 3, end);
        proof {
            assert(digits.take(digits.len() - 3) =~= chars@.take(end - 3));
            assert(tail@ =~= digits.skip(digits.len() - 3));
        }
        concat3(head.as_str(), ",", tail.as_str())
    }
}

/// A number with commas between groups of three digits.
pub fn format_int(value: u64) -> (r: String)
    ensures
        r@ == grouped(decimal(value as nat)),
{
    let raw: String = decimal_text(value);
    let chars: Vec<char> = chars_of(raw.as_str());
    proof {
        assert(chars@.take(chars@.len() as int) =~= chars@);
    }
    group_digits(&chars, chars.len())
}

/// The groups hold the digits of the number, in their order.
pub proof fn law_groups_keep_the_digits(digits: Seq<char>)
    requires
        !digits.contains(','),
    ensures
        replaced(grouped(digits), ',', Seq::empty()) == digits,
    decreases digits.len(),
{
    reveal_strlit(",");
    if digits.len() <= 3 {
        lemma_replaced_nothing(digits, ',', Seq::empty());
    } else {
        let n = digits.len() - 3;
        let head = digits.take(n);
        let tail = digits.skip(n);
        if head.contains(',') {
            let i = choose|i: int| 0 <= i < head.len() && head[i] == ',';
            assert(digits[i] == ',');
        }
        if tail.contains(',') {
            let i = choose|i: int| 0 <= i < tail.len() && tail[i] == ',';
            assert(digits[i + n] == ',');
        }
        law_groups_keep_the_digits(head);
        lemma_replaced_concat(grouped(head), ","@ + tail, ',', Seq::empty());
        lemma_replaced_concat(","@, tail, ',', Seq::empty());
        lemma_replaced_nothing(tail, ',', Seq::empty());
        assert(grouped(digits) =~= grouped(head) + (","@ + tail));
        assert(","@ =~= seq![',']);
        assert(","@.drop_last() =~= Seq::<char>::empty());
        assert(replaced(Seq::<char>::empty(), ',', Seq::empty()) =~= Seq::<char>::empty());
        assert(","@.last() == ',');
        assert(replaced(","@, ',', Seq::empty()) =~= Seq::<char>::empty());
        assert(Seq::<char>::empty() + tail =~= tail);
        assert(head + tail =~= digits);
    }
}

proof fn lemma_replaced_nothing(s: Seq<char>, c: char, with: Seq<char>)
    requires
        !s.contains(c),
    ensures
        replaced(s, c, with) == s,
    decreases s.len(),
{
    if s.len() > 0 {
        let rest = s.drop_last();
        if rest.contains(c) {
            let i = choose|i: int| 0 <= i < rest.len() && rest[i] == c;
            assert(s[i] == c);
        }
        lemma_replaced_nothing(rest, c, with);
        assert(s[s.len() - 1] == s.last());
        assert(rest.push(s.last()) =~= s);
    } else {
        assert(replaced(s, c, with) =~= s);
    }
}

proof fn lemma_replaced_concat(a: Seq<char>, b: Seq<char>, c: char, with: Seq<char>)
    ensures
        replaced(a + b, c, with) == replaced(a, c, with) + replaced(b, c, with),
    decreases b.len(),
{
    if b.len() == 0 {
        assert(a + b =~= a);
        assert(replaced(a, c, with) + replaced(b, c, with) =~= replaced(a, c, with));
    } else {
        lemma_replaced_concat(a, b.drop_last(), c, with);
        assert((a + b).drop_last() =~= a + b.drop_last());
        assert((a + b).last() == b.last());
        assert(replaced(a + b, c, with) =~= replaced(a, c, with) + replaced(b, c, with));
    }
}

/// A number with at least two digits.
pub open spec fn two_digits(n: nat) -> Seq<char> {
    if n < 10 {
        "0"@ + decimal(n)
    } else {
        decimal(n)
    }
}

fn pad_two(n: u64) -> (r: String)
    ensures
        r@ == two_digits(n as nat),
{
    let text: String = decimal_text(n);
    if n < 10 {
        concat("0", text.as_str())
    } else {
        text
    }
}

/// Milliseconds as whole seconds, rounded.
pub open spec fn rounded_seconds(ms: nat) -> nat {
    (ms + 500) / 1_000
}

/// A time span in hours, minutes and seconds; without hours, in minutes and seconds.
pub open spec fn duration(ms: nat) -> Seq<char> {
    let seconds = rounded_seconds(ms);
    let hours = seconds / 3_600;
    let minutes = (seconds % 3_600) / 60;
    let rest = seconds % 60;
    if hours > 0 {
        two_digits(hours) + ":"@ + two_digits(minutes) + ":"@ + two_digits(rest)
    } else {
        two_digits(minutes) + ":"@ + two_digits(rest)
    }
}

/// A time span of milliseconds in hours, minutes and seconds.
pub fn format_duration(ms: u64) -> (r: String)
    ensures
        r@ == duration(ms as nat),
{
    let seconds: u64 = ((ms as u128 + 500) / 1_000) as u64;
    let hours: u64 = seconds / 3_600;
    let minutes: String = pad_two((seconds % 3_600) / 60);
    let rest: String = pad_two(seconds % 60);
    if hours > 0 {
        let mut out: String = pad_two(hours);
        out.append(":");
        out.append(minutes.as_str());
        out.append(":");
        out.append(rest.as_str());
        out
    } else {
        concat3(minutes.as_str(), ":", rest.as_str())
    }
}

} // verus!
