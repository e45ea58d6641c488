//! What is done to texts, said of the texts themselves.
use vstd::prelude::*;

use crate::issue::state_name;
use crate::json::{JsonView, NumberView};
use crate::table::{in_order, lookup, put, without};
use crate::text::{
    after_prefix, before, begins, decimal, first_chars,
    is_white, joined, law_numbers_are_read_back, lemma_trimmed_end, lemma_trimmed_start,
    lemma_word_len, line_len, lines, lowered, occurs, pieces, raised, signed_decimal, signed_value,
    trimmed, trimmed_end, trimmed_start, unsigned_value, word_len, words,
};

verus! {

broadcast use vstd::seq::group_seq_axioms;

proof fn lemma_white_start(s: Seq<char>, i: int)
    requires
        0 <= i < s.len() - trimmed_start(s).len(),
    ensures
        is_white(s[i]),
    decreases s.len(),
{
    if is_white(s[0]) {
        if i > 0 {
            lemma_white_start(s.skip(1), i - 1);
            assert(s.skip(1)[i - 1] == s[i]);
        }
    }
}

proof fn lemma_white_end(s: Seq<char>, i: int)
    requires
        trimmed_end(s).len() <= i < s.len(),
    ensures
        is_white(s[i]),
    decreases s.len(),
{
    if is_white(s.last()) {
        if i < s.len() - 1 {
            lemma_white_end(s.drop_last(), i);
            assert(s.drop_last()[i] == s[i]);
        }
    }
}

/// A trimmed text is what stands between the blanks at both ends, and nothing less.
pub proof fn law_only_blanks_are_trimmed(s: Seq<char>)
    ensures
        ({
            let a = s.len() - trimmed_start(s).len();
            let b = a + trimmed(s).len();
            &&& 0 <= a <= b <= s.len()
            &&& trimmed(s) == s.subrange(a, b)
            &&& forall|i: int| 0 <= i < a ==> is_white(#[trigger] s[i])
            &&& forall|i: int| b <= i < s.len() ==> is_white(#[trigger] s[i])
            &&& trimmed(s).len() > 0 ==> !is_white(trimmed(s)[0]) && !is_white(trimmed(s).last())
        }),
{
    let start = trimmed_start(s);
    let a = s.len() - start.len();
    let b = a + trimmed(s).len();
    lemma_trimmed_start(s);
    lemma_trimmed_end(start);
    assert(trimmed(s) =~= s.subrange(a, b));
    assert forall|i: int| 0 <= i < a implies is_white(#[trigger] s[i]) by {
        lemma_white_start(s, i);
    }
    assert forall|i: int| b <= i < s.len() implies is_white(#[trigger] s[i]) by {
        lemma_white_end(start, i - a);
        assert(start[i - a] == s[i]);
    }
    if trimmed(s).len() > 0 {
        assert(trimmed(s)[0] == start[0]);
    }
}

/// Blanks are the characters of white space, and no others.
pub proof fn law_blanks_are_white_space(c: char)
    ensures
        is_white(c) <==> ('\u{9}' <= c && c <= '\u{d}') || c == ' ' || c == '\u{85}' || c
            == '\u{a0}' || c == '\u{1680}' || ('\u{2000}' <= c && c <= '\u{200a}') || c
            == '\u{2028}' || c == '\u{2029}' || c == '\u{202f}' || c == '\u{205f}' || c
            == '\u{3000}',
{
}

/// The case of the letters from A to Z is all that changes, and each has its own small and
/// capital form.
pub proof fn law_case_is_all_that_changes(s: Seq<char>, i: int)
    requires
        0 <= i < s.len(),
    ensures
        lowered(s).len() == s.len(),
        raised(s).len() == s.len(),
        'A' <= s[i] && s[i] <= 'Z' ==> lowered(s)[i] as int == s[i] as int + 32 && raised(s)[i]
            == s[i],
        'a' <= s[i] && s[i] <= 'z' ==> raised(s)[i] as int == s[i] as int - 32 && lowered(s)[i]
            == s[i],
        !('A' <= s[i] && s[i] <= 'Z') && !('a' <= s[i] && s[i] <= 'z') ==> lowered(s)[i] == s[i]
            && raised(s)[i] == s[i],
{
}

/// A state goes by its name in lower case, without the blanks around it.
pub proof fn law_states_go_by_plain_names(state: Seq<char>)
    ensures
        state_name(state) == lowered(trimmed(state)),
{
}

/// Texts are ordered by the first character in which they differ; a text that goes on comes
/// after one that ends.
pub proof fn law_texts_are_ordered_by_characters(a: Seq<char>, b: Seq<char>, i: int)
    requires
        0 <= i <= a.len(),
        i <= b.len(),
        forall|j: int| 0 <= j < i ==> a[j] == b[j],
        i < a.len() && i < b.len() ==> a[i] != b[i],
    ensures
        before(a, b) <==> i < b.len() && (i == a.len() || a[i] < b[i]),
    decreases a.len(),
{
    if i > 0 {
        let x = a.skip(1);
        let y = b.skip(1);
        assert(a[0] == b[0]);
        assert forall|j: int| 0 <= j < i - 1 implies x[j] == y[j] by {
            assert(a[j + 1] == b[j + 1]);
        }
        if i < a.len() && i < b.len() {
            assert(x[i - 1] == a[i]);
            assert(y[i - 1] == b[i]);
        }
        law_texts_are_ordered_by_characters(x, y, i - 1);
    }
}

/// A text begins with another exactly where the other is its first part; the rest is what
/// comes behind.
pub proof fn law_texts_begin_with_their_first_part(a: Seq<char>, b: Seq<char>)
    ensures
        begins(a + b, a),
        after_prefix(a + b, a) == Some(b),
        begins(b, a) <==> a.len() <= b.len() && b.take(a.len() as int) == a,
{
    assert((a + b).subrange(0, a.len() as int) =~= a);
    assert((a + b).skip(a.len() as int) =~= b);
    if a.len() <= b.len() {
        assert(b.take(a.len() as int) =~= b.subrange(0, a.len() as int));
    }
}

/// A text occurs in another exactly where the other is that text with something, or
/// nothing, before and behind it.
pub proof fn law_texts_occur_within(a: Seq<char>, b: Seq<char>, c: Seq<char>)
    ensures
        occurs(a + b + c, b),
{
    let all = a + b + c;
    assert(all.subrange(a.len() as int, (a.len() + b.len()) as int) =~= b);
    assert(crate::text::occurs_at(all, b, a.len() as int));
}

/// Parts that are joined stand one after the other, with the separator between them.
pub proof fn law_parts_are_joined_in_order(
    parts: Seq<Seq<char>>,
    last: Seq<char>,
    sep: Seq<char>,
)
    ensures
        joined(Seq::empty(), sep) == Seq::<char>::empty(),
        joined(seq![last], sep) == last,
        parts.len() > 0 ==> joined(parts.push(last), sep) == joined(parts, sep) + sep + last,
{
    assert(parts.push(last).drop_last() =~= parts);
}

/// The pieces of a text hold no separator, and joined by it they are the text again.
pub proof fn law_pieces_make_up_the_text(s: Seq<char>, sep: char)
    ensures
        pieces(s, sep).len() > 0,
        forall|i: int|
            0 <= i < pieces(s, sep).len() ==> !(#[trigger] pieces(s, sep)[i]).contains(sep),
        joined(pieces(s, sep), seq![sep]) == s,
    decreases s.len(),
{
    if s.len() == 0 {
        assert(joined(pieces(s, sep), seq![sep]) =~= s);
    } else {
        let front = s.drop_last();
        law_pieces_make_up_the_text(front, sep);
        let earlier = pieces(front, sep);
        let all = pieces(s, sep);
        if s.last() == sep {
            assert(all.drop_last() =~= earlier);
            assert(joined(all, seq![sep]) =~= joined(earlier, seq![sep]) + seq![sep]
                + Seq::<char>::empty());
            assert(front.push(sep) =~= s);
            assert(joined(all, seq![sep]) =~= s);
            assert forall|i: int| 0 <= i < all.len() implies !(#[trigger] all[i]).contains(sep) by {
                if i < earlier.len() {
                    assert(all[i] == earlier[i]);
                }
            }
        } else {
            let kept = earlier.drop_last();
            let grown = earlier.last().push(s.last());
            assert(all.drop_last() =~= kept);
            assert(all.last() == grown);
            assert forall|i: int| 0 <= i < all.len() implies !(#[trigger] all[i]).contains(sep) by {
                if i < kept.len() {
                    assert(all[i] == earlier[i]);
                } else {
                    assert(!earlier[earlier.len() - 1].contains(sep));
                    assert(all[i] == grown);
                    if grown.contains(sep) {
                        let k = choose|k: int| 0 <= k < grown.len() && grown[k] == sep;
                        assert(k < grown.len() - 1);
                        assert(earlier.last()[k] == sep);
                    }
                }
            }
            if earlier.len() == 1 {
                assert(joined(all, seq![sep]) =~= earlier[0].push(s.last()));
            } else {
                assert(joined(earlier, seq![sep]) == joined(kept, seq![sep]) + seq![sep]
                    + earlier.last());
                assert(joined(all, seq![sep]) == joined(kept, seq![sep]) + seq![sep] + grown);
                assert(joined(all, seq![sep]) =~= joined(earlier, seq![sep]).push(s.last()));
            }
            assert(front.push(s.last()) =~= s);
        }
    }
}

/// How many characters words have in all.
pub open spec fn letters_of(parts: Seq<Seq<char>>) -> Seq<char>
    decreases parts.len(),
{
    if parts.len() == 0 {
        Seq::empty()
    } else {
        parts[0] + letters_of(parts.skip(1))
    }
}

proof fn lemma_filter_front(s: Seq<char>, keep: spec_fn(char) -> bool)
    requires
        s.len() > 0,
    ensures
        s.filter(keep) == (if keep(s[0]) {
            seq![s[0]] + s.skip(1).filter(keep)
        } else {
            s.skip(1).filter(keep)
        }),
    decreases s.len(),
{
    reveal(Seq::filter);
    if s.len() == 1 {
        assert(s.drop_last() =~= Seq::empty());
        assert(s.skip(1) =~= Seq::empty());
        assert(Seq::<char>::empty().filter(keep) =~= Seq::empty());
        assert(s.last() == s[0]);
        assert(s.filter(keep) =~= if keep(s[0]) {
            seq![s[0]]
        } else {
            Seq::empty()
        });
    } else {
        let front = s.drop_last();
        lemma_filter_front(front, keep);
        assert(s.skip(1).drop_last() =~= front.skip(1));
        assert(s.skip(1).last() == s.last());
        assert(front[0] == s[0]);
        assert(s.filter(keep) =~= if keep(s[0]) {
            seq![s[0]] + s.skip(1).filter(keep)
        } else {
            s.skip(1).filter(keep)
        });
    }
}

proof fn lemma_word_is_kept(s: Seq<char>)
    ensures
        word_len(s) <= s.len(),
        s.filter(|c: char| !is_white(c)) == s.take(word_len(s) as int) + s.skip(
            word_len(s) as int,
        ).filter(|c: char| !is_white(c)),
    decreases s.len(),
{
    let keep = |c: char| !is_white(c);
    lemma_word_len(s);
    if s.len() > 0 && !is_white(s[0]) {
        lemma_word_is_kept(s.skip(1));
        lemma_filter_front(s, keep);
        let n = word_len(s) as int;
        assert(s.skip(1).skip(n - 1) =~= s.skip(n));
        assert(seq![s[0]] + s.skip(1).take(n - 1) =~= s.take(n));
        assert(s.filter(keep) =~= s.take(n) + s.skip(n).filter(keep));
    } else {
        assert(s.take(0) =~= Seq::empty());
        assert(s.skip(0) =~= s);
        assert(s.filter(keep) =~= s.take(0) + s.skip(0).filter(keep));
    }
}

/// The words of a text hold all its characters but the blanks, in their order.
pub proof fn law_words_hold_all_but_blanks(s: Seq<char>)
    ensures
        letters_of(words(s)) == s.filter(|c: char| !is_white(c)),
        forall|i: int| 0 <= i < words(s).len() ==> (#[trigger] words(s)[i]).len() > 0,
    decreases s.len(),
{
    let keep = |c: char| !is_white(c);
    if s.len() == 0 {
        reveal(Seq::filter);
        assert(s.filter(keep) =~= Seq::empty());
    } else if is_white(s[0]) {
        law_words_hold_all_but_blanks(s.skip(1));
        lemma_filter_front(s, keep);
    } else {
        lemma_word_len(s);
        let n = word_len(s) as int;
        assert(word_len(s) == 1 + word_len(s.skip(1)));
        let rest = s.skip(n);
        law_words_hold_all_but_blanks(rest);
        lemma_word_is_kept(s);
        let all = words(s);
        assert(all[0] == s.take(n));
        assert(all.skip(1) =~= words(rest));
        assert forall|i: int| 0 <= i < all.len() implies (#[trigger] all[i]).len() > 0 by {
            if i > 0 {
                assert(all[i] == words(rest)[i - 1]);
            }
        }
    }
}

proof fn lemma_line_is_unbroken(s: Seq<char>)
    ensures
        line_len(s) <= s.len(),
        forall|i: int| 0 <= i < line_len(s) ==> #[trigger] s[i] != '\n',
        line_len(s) < s.len() ==> s[line_len(s) as int] == '\n',
    decreases s.len(),
{
    if s.len() > 0 && s[0] != '\n' {
        lemma_line_is_unbroken(s.skip(1));
        assert forall|i: int| 0 <= i < line_len(s) implies #[trigger] s[i] != '\n' by {
            if i > 0 {
                assert(s.skip(1)[i - 1] == s[i]);
            }
        }
        if line_len(s) < s.len() {
            assert(s.skip(1)[line_len(s) - 1] == s[line_len(s) as int]);
        }
    }
}

/// No line holds a line break.
pub proof fn law_lines_are_unbroken(s: Seq<char>, i: int)
    requires
        0 <= i < lines(s).len(),
    ensures
        !lines(s)[i].contains('\n'),
    decreases s.len(),
{
    lemma_line_is_unbroken(s);
    let n = line_len(s) as int;
    if n >= s.len() {
        if lines(s)[i].contains('\n') {
            let k = choose|k: int| 0 <= k < s.len() && s[k] == '\n';
            assert(s[k] != '\n');
        }
    } else if i == 0 {
        let line = lines(s)[0];
        if line.contains('\n') {
            let k = choose|k: int| 0 <= k < line.len() && line[k] == '\n';
            assert(s[k] == '\n');
        }
    } else {
        assert(lines(s)[i] == lines(s.skip(n + 1))[i - 1]);
        law_lines_are_unbroken(s.skip(n + 1), i - 1);
    }
}

/// The first line is what comes before the first line break, and the others are those of
/// the rest.
pub proof fn law_lines_follow_each_other(line: Seq<char>, rest: Seq<char>)
    requires
        !line.contains('\n'),
        line.len() > 0 ==> line.last() != '\r',
    ensures
        lines(line + seq!['\n'] + rest) == seq![line] + lines(rest),
{
    let s = line + seq!['\n'] + rest;
    lemma_line_is_unbroken(s);
    let n = line_len(s) as int;
    if n < line.len() {
        assert(line[n] == s[n]);
        assert(line.contains('\n'));
    }
    if n > line.len() {
        assert(s[line.len() as int] == '\n');
    }
    assert(s.take(n) =~= line);
    assert(s.skip(n + 1) =~= rest);
}

/// The first characters of a text are the text itself, or as many of it as there may be.
pub proof fn law_first_characters_are_taken(s: Seq<char>, max: nat)
    ensures
        s.len() <= max ==> first_chars(s, max) == s,
        s.len() > max ==> first_chars(s, max) == s.take(max as int),
{
}

proof fn lemma_digits_only(n: nat)
    ensures
        decimal(n).len() > 0,
        forall|i: int|
            0 <= i < decimal(n).len() ==> '0' <= #[trigger] decimal(n)[i] && decimal(n)[i] <= '9',
    decreases n,
{
    if n >= 10 {
        lemma_digits_only(n / 10);
        let front = decimal(n / 10);
        assert forall|i: int| 0 <= i < decimal(n).len() implies '0' <= #[trigger] decimal(n)[i]
            && decimal(n)[i] <= '9' by {
            if i < front.len() {
                assert(decimal(n)[i] == front[i]);
            }
        }
    }
}

/// A number that is written is read as that number, also behind a sign.
pub proof fn law_written_numbers_are_read(n: u64, m: i64)
    ensures
        unsigned_value(decimal(n as nat)) == Some(n),
        unsigned_value(seq!['+'] + decimal(n as nat)) == Some(n),
        signed_value(signed_decimal(m as int)) == Some(m),
{
    law_numbers_are_read_back(n as nat);
    lemma_digits_only(n as nat);
    let plus = seq!['+'] + decimal(n as nat);
    assert(plus.skip(1) =~= decimal(n as nat));
    let size = if m < 0 {
        (0 - m) as nat
    } else {
        m as nat
    };
    law_numbers_are_read_back(size);
    lemma_digits_only(size);
    if m < 0 {
        let minus = seq!['-'] + decimal(size);
        assert(minus.skip(1) =~= decimal(size));
        assert(signed_decimal(m as int) == minus);
    }
}

/// Numbers of a JSON value are written in decimal.
pub proof fn law_json_numbers_are_written(n: u64, m: i64, t: Seq<char>)
    ensures
        NumberView::Unsigned(n).written() == decimal(n as nat),
        NumberView::Negative(m).written() == signed_decimal(m as int),
        NumberView::Decimal(t).written() == t,
{
}

/// Under a key of an object stands what was put there last; other keys are not touched.
pub proof fn law_entries_are_found_by_key(
    entries: Seq<(Seq<char>, JsonView)>,
    key: Seq<char>,
    value: JsonView,
    other: Seq<char>,
)
    requires
        in_order(entries),
    ensures
        lookup(put(entries, key, value), key) == Some(value),
        other != key ==> lookup(put(entries, key, value), other) == lookup(entries, other),
        lookup(without(entries, key), key) is None,
        other != key ==> lookup(without(entries, key), other) == lookup(entries, other),
        in_order(put(entries, key, value)),
        in_order(without(entries, key)),
        JsonView::Object(entries).get(key) == lookup(entries, key),
{
    crate::table::lemma_put_lookup(entries, key, value, key);
    crate::table::lemma_put_lookup(entries, key, value, other);
    crate::table::lemma_without_lookup(entries, key, key);
    crate::table::lemma_without_lookup(entries, key, other);
    crate::table::lemma_put_in_order(entries, key, value);
    crate::table::lemma_without_in_order(entries, key);
}

/// What stands under a key is the value of the entry with that key.
pub proof fn law_entries_hold_their_values(entries: Seq<(Seq<char>, JsonView)>, i: int)
    requires
        in_order(entries),
        0 <= i < entries.len(),
    ensures
        lookup(entries, entries[i].0) == Some(entries[i].1),
{
    crate::table::lemma_lookup_at(entries, i);
}

} // verus!
