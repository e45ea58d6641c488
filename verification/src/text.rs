//! Text as a sequence of characters: the string operations that the rest of the
//! library is built from, each stated over `Seq<char>`.
use vstd::prelude::*;
use vstd::string::*;
use vstd::utf8::*;

verus! {

broadcast use {vstd::seq::group_seq_axioms, vstd::string::group_string_axioms};

// ---------------------------------------------------------------------------
// What std does, where vstd gives it no specification
// ---------------------------------------------------------------------------

/// `String::push` appends one character.
pub assume_specification[ String::push ](s: &mut String, ch: char)
    ensures
        final(s)@ == old(s)@.push(ch),
;

/// Two `str` slices are equal exactly when they hold the same characters.
pub assume_specification[ <str as PartialEq>::eq ](s: &str, other: &str) -> (r: bool)
    ensures
        r == (s@ == other@),
;

// ---------------------------------------------------------------------------
// Comparing
// ---------------------------------------------------------------------------

/// Whether two texts are the same.
pub fn same(a: &str, b: &str) -> (r: bool)
    ensures
        r == (a@ == b@),
{
    *a == *b
}

/// The text of an optional string.
pub open spec fn opt_text(s: Option<String>) -> Option<Seq<char>> {
    match s {
        Some(t) => Some(t@),
        None => None,
    }
}

/// The text of an optional string slice.
pub open spec fn opt_str(s: Option<&str>) -> Option<Seq<char>> {
    match s {
        Some(t) => Some(t@),
        None => None,
    }
}

/// The texts of a sequence of strings.
pub open spec fn texts(s: Seq<String>) -> Seq<Seq<char>> {
    Seq::new(s.len(), |i: int| s[i]@)
}

/// Whether an optional text holds exactly `b`.
pub fn opt_is(a: &Option<String>, b: &str) -> (r: bool)
    ensures
        r == (opt_text(*a) == Some(b@)),
{
    match a {
        Some(t) => same(t.as_str(), b),
        None => false,
    }
}

/// Whether a list holds a text.
pub fn is_among(list: &Vec<String>, text: &str) -> (r: bool)
    ensures
        r == texts(list@).contains(text@),
{
    let mut i: usize = 0;
    while i < list.len()
        invariant
            i <= list.len(),
            forall|k: int| 0 <= k < i ==> #[trigger] texts(list@)[k] != text@,
        decreases list.len() - i,
    {
        if same(list[i].as_str(), text) {
            proof {
                assert(texts(list@)[i as int] == text@);
            }
            return true;
        }
        i = i + 1;
    }
    false
}

/// Whether two optional texts are the same.
pub fn opt_same(a: &Option<String>, b: &Option<String>) -> (r: bool)
    ensures
        r == (opt_text(*a) == opt_text(*b)),
{
    match (a, b) {
        (Some(x), Some(y)) => same(x.as_str(), y.as_str()),
        (None, None) => true,
        _ => false,
    }
}

/// Lexicographic order by character, which is also the order of the UTF-8 bytes.
pub open spec fn before(a: Seq<char>, b: Seq<char>) -> bool
    decreases a.len(),
{
    if b.len() == 0 {
        false
    } else if a.len() == 0 {
        true
    } else if a[0] != b[0] {
        a[0] < b[0]
    } else {
        before(a.skip(1), b.skip(1))
    }
}

/// Whether `a` comes strictly before `b`.
pub fn is_before(a: &str, b: &str) -> (r: bool)
    ensures
        r == before(a@, b@),
{
    let x: Vec<char> = chars_of(a);
    let y: Vec<char> = chars_of(b);
    let mut i: usize = 0;
    proof {
        assert(x@.skip(0) =~= x@);
        assert(y@.skip(0) =~= y@);
    }
    while i < x.len() && i < y.len() && x[i] == y[i]
        invariant
            i <= x.len(),
            i <= y.len(),
            before(x@, y@) == before(x@.skip(i as int), y@.skip(i as int)),
        decreases x.len() - i,
    {
        proof {
            assert(x@.skip(i as int).skip(1) =~= x@.skip(i + 1));
            assert(y@.skip(i as int).skip(1) =~= y@.skip(i + 1));
        }
        i = i + 1;
    }
    if i == y.len() {
        false
    } else if i == x.len() {
        true
    } else {
        x[i] < y[i]
    }
}

/// The order is irreflexive.
pub proof fn lemma_before_irreflexive(a: Seq<char>)
    ensures
        !before(a, a),
    decreases a.len(),
{
    if a.len() > 0 {
        lemma_before_irreflexive(a.skip(1));
    }
}

/// The order is transitive.
pub proof fn lemma_before_transitive(a: Seq<char>, b: Seq<char>, c: Seq<char>)
    requires
        before(a, b),
        before(b, c),
    ensures
        before(a, c),
    decreases a.len(),
{
    if a.len() > 0 && a[0] == b[0] && b[0] == c[0] {
        lemma_before_transitive(a.skip(1), b.skip(1), c.skip(1));
    }
}

/// Of two different texts one comes before the other.
pub proof fn lemma_before_total(a: Seq<char>, b: Seq<char>)
    requires
        a != b,
    ensures
        before(a, b) || before(b, a),
    decreases a.len(),
{
    if a.len() > 0 && b.len() > 0 && a[0] == b[0] {
        if a.skip(1) == b.skip(1) {
            assert(a =~= seq![a[0]] + a.skip(1));
            assert(b =~= seq![b[0]] + b.skip(1));
        }
        lemma_before_total(a.skip(1), b.skip(1));
    } else if a.len() == 0 && b.len() == 0 {
        assert(a =~= b);
    }
}

// ---------------------------------------------------------------------------
// Characters and strings
// ---------------------------------------------------------------------------

/// The characters of a text.
pub fn chars_of(s: &str) -> (out: Vec<char>)
    ensures
        out@ == s@,
{
    let mut out: Vec<char> = Vec::new();
    for c in it: s.chars()
        invariant
            out@ == s@.take(it.index()),
            it.seq() == s@,
    {
        out.push(c);
    }
    out
}

/// The text that holds `chars[from..to]`.
pub fn string_of(chars: &Vec<char>, from: usize, to: usize) -> (out: String)
    requires
        from <= to <= chars.len(),
    ensures
        out@ == chars@.subrange(from as int, to as int),
{
    let mut out: String = String::new();
    let mut i: usize = from;
    while i < to
        invariant
            from <= i <= to <= chars.len(),
            out@ == chars@.subrange(from as int, i as int),
        decreases to - i,
    {
        out.push(chars[i]);
        i = i + 1;
    }
    out
}

/// A copy of an optional string.
pub fn clone_opt(s: &Option<String>) -> (r: Option<String>)
    ensures
        r == *s,
{
    match s {
        Some(t) => Some(t.clone()),
        None => None,
    }
}

/// A copy of a list of strings.
pub fn clone_all(s: &Vec<String>) -> (r: Vec<String>)
    ensures
        r@ == s@,
{
    let mut out: Vec<String> = Vec::new();
    let mut i: usize = 0;
    while i < s.len()
        invariant
            i <= s.len(),
            out@ == s@.take(i as int),
        decreases s.len() - i,
    {
        out.push(s[i].clone());
        i = i + 1;
    }
    out
}

/// The first `max` characters.
pub open spec fn first_chars(s: Seq<char>, max: nat) -> Seq<char> {
    if s.len() <= max {
        s
    } else {
        s.take(max as int)
    }
}

/// The first `max` characters of `s`.
pub fn take_chars(s: &str, max: usize) -> (r: String)
    ensures
        r@ == first_chars(s@, max as nat),
{
    let chars: Vec<char> = chars_of(s);
    if chars.len() <= max {
        s.to_owned()
    } else {
        string_of(&chars, 0, max)
    }
}

/// The number of bytes of a text in UTF-8.
pub open spec fn byte_len(s: Seq<char>) -> nat {
    encode_utf8(s).len()
}

/// The number of bytes of a text in UTF-8.
pub fn len_bytes(s: &str) -> (n: usize)
    ensures
        n == byte_len(s@),
{
    s.as_bytes().len()
}

/// Whether the first `n` bytes of a text end between two characters.
pub open spec fn cuts_cleanly(s: Seq<char>, n: int) -> bool {
    is_char_boundary(encode_utf8(s), n)
}

/// The text that the first `n` bytes of `s` hold.
pub open spec fn byte_prefix(s: Seq<char>, n: int) -> Seq<char> {
    decode_utf8(encode_utf8(s).subrange(0, n))
}

/// The text that the first `n` bytes of `s` hold.
pub fn cut_bytes(s: &str, n: usize) -> (r: String)
    requires
        cuts_cleanly(s@, n as int),
    ensures
        r@ == byte_prefix(s@, n as int),
{
    let (head, _tail) = s.split_at(n);
    proof {
        encode_utf8_decode_utf8(head@);
    }
    head.to_owned()
}

// ---------------------------------------------------------------------------
// Whitespace
// ---------------------------------------------------------------------------

/// The characters with the Unicode property White_Space.
pub open spec fn is_white(c: char) -> bool {
    let n = c as u32;
    ||| 0x9 <= n <= 0xd
    ||| n == 0x20
    ||| n == 0x85
    ||| n == 0xa0
    ||| n == 0x1680
    ||| 0x2000 <= n <= 0x200a
    ||| n == 0x2028
    ||| n == 0x2029
    ||| n == 0x202f
    ||| n == 0x205f
    ||| n == 0x3000
}

/// Whether a character has the Unicode property White_Space.
pub fn is_whitespace(c: char) -> (r: bool)
    ensures
        r == is_white(c),
{
    let n: u32 = c as u32;
    (0x9 <= n && n <= 0xd) || n == 0x20 || n == 0x85 || n == 0xa0 || n == 0x1680 || (0x2000 <= n
        && n <= 0x200a) || n == 0x2028 || n == 0x2029 || n == 0x202f || n == 0x205f || n == 0x3000
}

/// The text without its leading whitespace.
pub open spec fn trimmed_start(s: Seq<char>) -> Seq<char>
    decreases s.len(),
{
    if s.len() > 0 && is_white(s[0]) {
        trimmed_start(s.skip(1))
    } else {
        s
    }
}

/// The text without its trailing whitespace.
pub open spec fn trimmed_end(s: Seq<char>) -> Seq<char>
    decreases s.len(),
{
    if s.len() > 0 && is_white(s.last()) {
        trimmed_end(s.drop_last())
    } else {
        s
    }
}

/// The text without whitespace at either end.
pub open spec fn trimmed(s: Seq<char>) -> Seq<char> {
    trimmed_end(trimmed_start(s))
}

/// The index of the first character from `from` on that is not whitespace.
fn skip_white(chars: &Vec<char>, from: usize) -> (i: usize)
    requires
        from <= chars.len(),
    ensures
        from <= i <= chars.len(),
        trimmed_start(chars@.skip(from as int)) == chars@.skip(i as int),
        i < chars.len() ==> !is_white(chars@[i as int]),
{
    let mut i: usize = from;
    while i < chars.len() && is_whitespace(chars[i])
        invariant
            from <= i <= chars.len(),
            trimmed_start(chars@.skip(from as int)) == trimmed_start(chars@.skip(i as int)),
        decreases chars.len() - i,
    {
        proof {
            assert(chars@.skip(i as int).skip(1) =~= chars@.skip(i + 1));
        }
        i = i + 1;
    }
    i
}

/// The end of `chars[from..to]` without its trailing whitespace.
fn skip_white_back(chars: &Vec<char>, from: usize, to: usize) -> (j: usize)
    requires
        from <= to <= chars.len(),
    ensures
        from <= j <= to,
        trimmed_end(chars@.subrange(from as int, to as int)) == chars@.subrange(
            from as int,
            j as int,
        ),
{
    let mut j: usize = to;
    while j > from && is_whitespace(chars[j - 1])
        invariant
            from <= j <= to <= chars.len(),
            trimmed_end(chars@.subrange(from as int, to as int)) == trimmed_end(
                chars@.subrange(from as int, j as int),
            ),
        decreases j,
    {
        proof {
            assert(chars@.subrange(from as int, j as int).drop_last() =~= chars@.subrange(
                from as int,
                j - 1,
            ));
        }
        j = j - 1;
    }
    j
}

/// The text without its leading whitespace.
pub fn trim_start(s: &str) -> (r: String)
    ensures
        r@ == trimmed_start(s@),
{
    let chars: Vec<char> = chars_of(s);
    proof {
        assert(chars@.skip(0) =~= chars@);
    }
    let i: usize = skip_white(&chars, 0);
    string_of(&chars, i, chars.len())
}

/// The text without its trailing whitespace.
pub fn trim_end(s: &str) -> (r: String)
    ensures
        r@ == trimmed_end(s@),
{
    let chars: Vec<char> = chars_of(s);
    proof {
        assert(chars@.subrange(0, chars@.len() as int) =~= chars@);
    }
    let j: usize = skip_white_back(&chars, 0, chars.len());
    string_of(&chars, 0, j)
}

/// The text without whitespace at either end.
pub fn trim(s: &str) -> (r: String)
    ensures
        r@ == trimmed(s@),
{
    let chars: Vec<char> = chars_of(s);
    proof {
        assert(chars@.skip(0) =~= chars@);
    }
    let i: usize = skip_white(&chars, 0);
    proof {
        assert(chars@.skip(i as int) =~= chars@.subrange(i as int, chars@.len() as int));
    }
    let j: usize = skip_white_back(&chars, i, chars.len());
    string_of(&chars, i, j)
}

/// Trimming the end leaves a text that does not end in whitespace.
pub proof fn lemma_trimmed_end(s: Seq<char>)
    ensures
        trimmed_end(s).len() <= s.len(),
        trimmed_end(s) == s.take(trimmed_end(s).len() as int),
        trimmed_end(s).len() > 0 ==> !is_white(trimmed_end(s).last()),
    decreases s.len(),
{
    if s.len() > 0 && is_white(s.last()) {
        lemma_trimmed_end(s.drop_last());
        let n = trimmed_end(s).len() as int;
        assert(s.drop_last().take(n) =~= s.take(n));
    } else {
        assert(s.take(s.len() as int) =~= s);
    }
}

/// Trimming the start leaves a text that does not start with whitespace.
pub proof fn lemma_trimmed_start(s: Seq<char>)
    ensures
        trimmed_start(s).len() <= s.len(),
        trimmed_start(s) == s.skip(s.len() - trimmed_start(s).len()),
        trimmed_start(s).len() > 0 ==> !is_white(trimmed_start(s)[0]),
    decreases s.len(),
{
    if s.len() > 0 && is_white(s[0]) {
        lemma_trimmed_start(s.skip(1));
        let n = s.len() - trimmed_start(s).len();
        assert(s.skip(1).skip(n - 1) =~= s.skip(n));
    } else {
        assert(s.skip(0) =~= s);
    }
}

/// Trimming twice is trimming once.
pub proof fn lemma_trimmed_idempotent(s: Seq<char>)
    ensures
        trimmed(trimmed(s)) == trimmed(s),
{
    let a = trimmed_start(s);
    let b = trimmed_end(a);
    lemma_trimmed_start(s);
    lemma_trimmed_end(a);
    assert(trimmed_start(b) == b) by {
        if b.len() > 0 {
            assert(b[0] == a[0]);
        }
    }
}

// ---------------------------------------------------------------------------
// Searching
// ---------------------------------------------------------------------------

/// Whether `pat` stands in `s` at index `i`.
pub open spec fn occurs_at(s: Seq<char>, pat: Seq<char>, i: int) -> bool {
    0 <= i && i + pat.len() <= s.len() && s.subrange(i, i + pat.len()) == pat
}

/// Whether `pat` stands anywhere in `s`.
pub open spec fn occurs(s: Seq<char>, pat: Seq<char>) -> bool {
    exists|i: int| occurs_at(s, pat, i)
}

/// Whether `s` starts with `pat`.
pub open spec fn begins(s: Seq<char>, pat: Seq<char>) -> bool {
    occurs_at(s, pat, 0)
}

/// Whether `pat` stands in `s` at index `i`.
fn stands_at(s: &Vec<char>, pat: &Vec<char>, i: usize) -> (r: bool)
    requires
        i <= s.len(),
    ensures
        r == occurs_at(s@, pat@, i as int),
{
    if pat.len() > s.len() - i {
        return false;
    }
    let mut j: usize = 0;
    while j < pat.len()
        invariant
            j <= pat.len(),
            i + pat.len() <= s.len(),
            s@.subrange(i as int, i + j) == pat@.take(j as int),
        decreases pat.len() - j,
    {
        if s[i + j] != pat[j] {
            proof {
                assert(s@.subrange(i as int, i + pat.len())[j as int] != pat@[j as int]);
            }
            return false;
        }
        proof {
            assert(s@.subrange(i as int, i + j + 1) =~= s@.subrange(i as int, i + j).push(
                s@[i + j],
            ));
            assert(pat@.take(j + 1) =~= pat@.take(j as int).push(pat@[j as int]));
        }
        j = j + 1;
    }
    proof {
        assert(pat@.take(pat@.len() as int) =~= pat@);
    }
    true
}

/// Whether `s` starts with `pat`.
pub fn starts_with(s: &str, pat: &str) -> (r: bool)
    ensures
        r == begins(s@, pat@),
{
    let chars: Vec<char> = chars_of(s);
    let p: Vec<char> = chars_of(pat);
    stands_at(&chars, &p, 0)
}

/// Whether `pat` stands anywhere in `s`.
pub fn contains(s: &str, pat: &str) -> (r: bool)
    ensures
        r == occurs(s@, pat@),
{
    let chars: Vec<char> = chars_of(s);
    let p: Vec<char> = chars_of(pat);
    let mut i: usize = 0;
    while i < chars.len()
        invariant
            i <= chars.len(),
            chars@ == s@,
            p@ == pat@,
            forall|k: int| 0 <= k < i ==> !occurs_at(s@, pat@, k),
        decreases chars.len() - i,
    {
        if stands_at(&chars, &p, i) {
            return true;
        }
        i = i + 1;
    }
    let r: bool = stands_at(&chars, &p, i);
    r
}

/// What follows `pat` at the start of a text, if it starts with `pat`.
pub open spec fn after_prefix(s: Seq<char>, pat: Seq<char>) -> Option<Seq<char>> {
    if begins(s, pat) {
        Some(s.skip(pat.len() as int))
    } else {
        None
    }
}

/// What follows `pat` at the start of a text, if it starts with `pat`.
pub fn strip_prefix(s: &str, pat: &str) -> (r: Option<String>)
    ensures
        opt_text(r) == after_prefix(s@, pat@),
{
    let chars: Vec<char> = chars_of(s);
    let p: Vec<char> = chars_of(pat);
    if stands_at(&chars, &p, 0) {
        Some(string_of(&chars, p.len(), chars.len()))
    } else {
        None
    }
}

/// The pieces of a text between the occurrences of a character.
pub open spec fn pieces(s: Seq<char>, sep: char) -> Seq<Seq<char>>
    decreases s.len(),
{
    if s.len() == 0 {
        seq![Seq::empty()]
    } else {
        let earlier = pieces(s.drop_last(), sep);
        if s.last() == sep {
            earlier.push(Seq::empty())
        } else {
            earlier.drop_last().push(earlier.last().push(s.last()))
        }
    }
}

/// The pieces of a text between the occurrences of a character.
pub fn split_at_char(s: &str, sep: char) -> (out: Vec<String>)
    ensures
        texts(out@) == pieces(s@, sep),
{
    let chars: Vec<char> = chars_of(s);
    let mut out: Vec<String> = Vec::new();
    let mut piece: String = String::new();
    let mut i: usize = 0;
    proof {
        assert(texts(out@).push(piece@) =~= seq![Seq::<char>::empty()]);
    }
    while i < chars.len()
        invariant
            i <= chars.len(),
            chars@ == s@,
            texts(out@).push(piece@) == pieces(s@.take(i as int), sep),
        decreases chars.len() - i,
    {
        proof {
            assert(s@.take(i + 1).drop_last() =~= s@.take(i as int));
            assert(s@.take(i + 1).last() == chars@[i as int]);
        }
        let ghost had = texts(out@);
        let ghost done = piece@;
        proof {
            assert(had.push(done).drop_last() =~= had);
        }
        if chars[i] == sep {
            out.push(piece);
            piece = String::new();
            proof {
                assert(texts(out@) =~= had.push(done));
            }
        } else {
            piece.push(chars[i]);
        }
        i = i + 1;
    }
    proof {
        assert(s@.take(i as int) =~= s@);
    }
    let ghost had = texts(out@);
    let ghost done = piece@;
    out.push(piece);
    proof {
        assert(texts(out@) =~= had.push(done));
    }
    out
}

// ---------------------------------------------------------------------------
// Words and lines
// ---------------------------------------------------------------------------

/// The number of characters before the first whitespace.
pub open spec fn word_len(s: Seq<char>) -> nat
    decreases s.len(),
{
    if s.len() > 0 && !is_white(s[0]) {
        1 + word_len(s.skip(1))
    } else {
        0
    }
}

/// A word is no longer than its text.
pub proof fn lemma_word_len(s: Seq<char>)
    ensures
        word_len(s) <= s.len(),
    decreases s.len(),
{
    if s.len() > 0 && !is_white(s[0]) {
        lemma_word_len(s.skip(1));
    }
}

/// The words of a text: its longest runs of characters that are not whitespace.
pub open spec fn words(s: Seq<char>) -> Seq<Seq<char>>
    decreases s.len(),
{
    if s.len() == 0 {
        Seq::empty()
    } else if is_white(s[0]) {
        words(s.skip(1))
    } else {
        proof {
            lemma_word_len(s);
        }
        seq![s.take(word_len(s) as int)] + words(s.skip(word_len(s) as int))
    }
}

/// Leading whitespace holds no word.
pub proof fn lemma_words_trimmed_start(s: Seq<char>)
    ensures
        words(trimmed_start(s)) == words(s),
    decreases s.len(),
{
    if s.len() > 0 && is_white(s[0]) {
        lemma_words_trimmed_start(s.skip(1));
    }
}

/// The index of the first whitespace from `from` on.
fn skip_word(chars: &Vec<char>, from: usize) -> (i: usize)
    requires
        from <= chars.len(),
    ensures
        from <= i <= chars.len(),
        i - from == word_len(chars@.skip(from as int)),
{
    let mut i: usize = from;
    while i < chars.len() && !is_whitespace(chars[i])
        invariant
            from <= i <= chars.len(),
            word_len(chars@.skip(from as int)) == (i - from) + word_len(chars@.skip(i as int)),
        decreases chars.len() - i,
    {
        proof {
            assert(chars@.skip(i as int).skip(1) =~= chars@.skip(i + 1));
        }
        i = i + 1;
    }
    i
}

/// The words of a text.
pub fn split_whitespace(s: &str) -> (out: Vec<String>)
    ensures
        texts(out@) == words(s@),
{
    let chars: Vec<char> = chars_of(s);
    let mut out: Vec<String> = Vec::new();
    let mut i: usize = 0;
    proof {
        assert(chars@.skip(0) =~= chars@);
        lemma_words_trimmed_start(chars@);
        assert(texts(out@) + words(chars@) =~= words(chars@));
    }
    i = skip_white(&chars, i);
    while i < chars.len()
        invariant
            i <= chars.len(),
            i < chars.len() ==> !is_white(chars@[i as int]),
            words(s@) == texts(out@) + words(chars@.skip(i as int)),
        decreases chars.len() - i,
    {
        let ghost rest = chars@.skip(i as int);
        let ghost had = texts(out@);
        proof {
            assert(rest[0] == chars@[i as int]);
        }
        let j: usize = skip_word(&chars, i);
        let word: String = string_of(&chars, i, j);
        proof {
            assert(rest.take(j - i) =~= chars@.subrange(i as int, j as int));
            assert(rest.skip(j - i) =~= chars@.skip(j as int));
            lemma_words_trimmed_start(chars@.skip(j as int));
            assert(word_len(rest) == 1 + word_len(rest.skip(1)));
        }
        out.push(word);
        proof {
            assert(texts(out@) =~= had.push(word@));
            assert(texts(out@) + words(chars@.skip(j as int)) =~= had + (seq![word@] + words(
                chars@.skip(j as int),
            )));
        }
        i = skip_white(&chars, j);
    }
    proof {
        assert(chars@.skip(i as int) =~= Seq::empty());
        assert(texts(out@) + Seq::<Seq<char>>::empty() =~= texts(out@));
    }
    out
}

/// The number of characters before the first line feed.
pub open spec fn line_len(s: Seq<char>) -> nat
    decreases s.len(),
{
    if s.len() > 0 && s[0] != '\n' {
        1 + line_len(s.skip(1))
    } else {
        0
    }
}

/// A line is no longer than its text.
pub proof fn lemma_line_len(s: Seq<char>)
    ensures
        line_len(s) <= s.len(),
    decreases s.len(),
{
    if s.len() > 0 && s[0] != '\n' {
        lemma_line_len(s.skip(1));
    }
}

/// The line without a carriage return at its end.
pub open spec fn without_return(s: Seq<char>) -> Seq<char> {
    if s.len() > 0 && s.last() == '\r' {
        s.drop_last()
    } else {
        s
    }
}

/// The lines of a text. A line ends in a line feed, with or without a carriage
/// return before it; the line feed at the end of the last line may be missing.
pub open spec fn lines(s: Seq<char>) -> Seq<Seq<char>>
    decreases s.len(),
{
    if s.len() == 0 {
        Seq::empty()
    } else if line_len(s) >= s.len() {
        seq![s]
    } else {
        seq![without_return(s.take(line_len(s) as int))] + lines(s.skip(line_len(s) as int + 1))
    }
}

/// The lines of a text.
pub fn split_lines(s: &str) -> (out: Vec<String>)
    ensures
        texts(out@) == lines(s@),
{
    let chars: Vec<char> = chars_of(s);
    let mut out: Vec<String> = Vec::new();
    let mut i: usize = 0;
    proof {
        assert(chars@.skip(0) =~= chars@);
        assert(texts(out@) + lines(chars@) =~= lines(chars@));
    }
    while i < chars.len()
        invariant
            i <= chars.len(),
            lines(s@) == texts(out@) + lines(chars@.skip(i as int)),
        decreases chars.len() - i,
    {
        let ghost rest = chars@.skip(i as int);
        let ghost had = texts(out@);
        let mut j: usize = i;
        while j < chars.len() && chars[j] != '\n'
            invariant
                i <= j <= chars.len(),
                rest == chars@.skip(i as int),
                line_len(rest) == (j - i) + line_len(chars@.skip(j as int)),
            decreases chars.len() - j,
        {
            proof {
                assert(chars@.skip(j as int).skip(1) =~= chars@.skip(j + 1));
            }
            j = j + 1;
        }
        if j == chars.len() {
            let line: String = string_of(&chars, i, j);
            proof {
                assert(chars@.skip(j as int) =~= Seq::empty());
                assert(rest =~= chars@.subrange(i as int, j as int));
            }
            out.push(line);
            proof {
                assert(texts(out@) =~= had + seq![line@]);
                assert(texts(out@) + Seq::<Seq<char>>::empty() =~= texts(out@));
            }
            i = j;
        } else {
            let end: usize = if j > i && chars[j - 1] == '\r' {
                j - 1
            } else {
                j
            };
            let line: String = string_of(&chars, i, end);
            proof {
                let whole = rest.take(j - i);
                assert(chars@.skip(j as int)[0] == '\n');
                assert(whole =~= chars@.subrange(i as int, j as int));
                if j > i {
                    assert(whole.last() == chars@[j - 1]);
                    assert(whole.drop_last() =~= chars@.subrange(i as int, j - 1));
                }
                assert(rest.skip(j - i + 1) =~= chars@.skip(j + 1));
            }
            out.push(line);
            proof {
                assert(texts(out@) =~= had.push(line@));
                assert(texts(out@) + lines(chars@.skip(j + 1)) =~= had + (seq![line@] + lines(
                    chars@.skip(j + 1),
                )));
            }
            i = j + 1;
        }
    }
    proof {
        assert(chars@.skip(i as int) =~= Seq::empty());
        assert(texts(out@) + Seq::<Seq<char>>::empty() =~= texts(out@));
    }
    out
}

/// The parts, one after the other, with `sep` between each two.
pub open spec fn joined(parts: Seq<Seq<char>>, sep: Seq<char>) -> Seq<char>
    decreases parts.len(),
{
    if parts.len() == 0 {
        Seq::empty()
    } else if parts.len() == 1 {
        parts[0]
    } else {
        joined(parts.drop_last(), sep) + sep + parts.last()
    }
}

/// The parts, one after the other, with `sep` between each two.
pub fn join(parts: &Vec<String>, sep: &str) -> (out: String)
    ensures
        out@ == joined(texts(parts@), sep@),
{
    if parts.len() == 0 {
        return String::new();
    }
    let mut out: String = parts[0].clone();
    let mut i: usize = 1;
    let ghost all = texts(parts@);
    proof {
        assert(all.take(1) =~= seq![all[0]]);
    }
    while i < parts.len()
        invariant
            1 <= i <= parts.len(),
            all == texts(parts@),
            out@ == joined(all.take(i as int), sep@),
        decreases parts.len() - i,
    {
        out.append(sep);
        out.append(parts[i].as_str());
        proof {
            assert(all.take(i + 1).drop_last() =~= all.take(i as int));
            assert(all.take(i + 1).last() == parts@[i as int]@);
        }
        i = i + 1;
    }
    proof {
        assert(all.take(all.len() as int) =~= all);
    }
    out
}

/// The bytes of two texts are those of the one after those of the other.
pub proof fn lemma_byte_len_concat(a: Seq<char>, b: Seq<char>)
    ensures
        byte_len(a + b) == byte_len(a) + byte_len(b),
    decreases a.len(),
{
    if a.len() == 0 {
        assert(a + b =~= b);
    } else {
        assert((a + b).drop_first() =~= a.drop_first() + b);
        lemma_byte_len_concat(a.drop_first(), b);
    }
}

/// The text in the first `n` bytes is a start of the text, and has `n` bytes.
pub proof fn lemma_byte_prefix(s: Seq<char>, n: int) -> (rest: Seq<char>)
    requires
        cuts_cleanly(s, n),
        0 <= n <= byte_len(s),
    ensures
        s == byte_prefix(s, n) + rest,
        byte_len(byte_prefix(s, n)) == n,
{
    let bytes = encode_utf8(s);
    encode_utf8_valid_utf8(s);
    encode_utf8_decode_utf8(s);
    valid_utf8_split(bytes, n);
    decode_utf8_split(bytes, n);
    decode_utf8_encode_utf8(bytes.subrange(0, n));
    decode_utf8(bytes.subrange(n, bytes.len() as int))
}

/// A text can be cut between any two of its characters.
pub proof fn lemma_cuts_between(a: Seq<char>, b: Seq<char>)
    ensures
        cuts_cleanly(a + b, byte_len(a) as int),
    decreases a.len(),
{
    let all = a + b;
    let bytes = encode_utf8(all);
    encode_utf8_valid_utf8(all);
    if a.len() > 0 {
        encode_utf8_first_scalar(all);
        assert(all.drop_first() =~= a.drop_first() + b);
        assert(pop_first_scalar(bytes) =~= encode_utf8(a.drop_first() + b));
        lemma_cuts_between(a.drop_first(), b);
        lemma_byte_len_concat(a, b);
    }
}

/// The longest start of a text of no more than `n` bytes that ends between two characters.
pub open spec fn clean_cut(s: Seq<char>, n: int) -> int
    decreases n,
{
    if n <= 0 {
        0
    } else if cuts_cleanly(s, n) {
        n
    } else {
        clean_cut(s, n - 1)
    }
}

/// What `clean_cut` gives is a place to cut, and no place up to `n` comes after it.
pub proof fn lemma_clean_cut(s: Seq<char>, n: int)
    requires
        0 <= n,
    ensures
        0 <= clean_cut(s, n) <= n,
        cuts_cleanly(s, clean_cut(s, n)),
        forall|m: int| 0 <= m <= n && #[trigger] cuts_cleanly(s, m) ==> m <= clean_cut(s, n),
    decreases n,
{
    encode_utf8_valid_utf8(s);
    if n > 0 && !cuts_cleanly(s, n) {
        lemma_clean_cut(s, n - 1);
    }
}

/// The longest start of a text of no more than `n` bytes that ends between two characters.
pub fn clean_cut_at(s: &str, n: usize) -> (r: usize)
    ensures
        r == clean_cut(s@, n as int),
        r <= n,
        cuts_cleanly(s@, r as int),
{
    proof {
        lemma_clean_cut(s@, n as int);
    }
    let mut i: usize = n;
    while i > 0 && !s.is_char_boundary(i)
        invariant
            i <= n,
            clean_cut(s@, n as int) == clean_cut(s@, i as int),
        decreases i,
    {
        i = i - 1;
    }
    i
}

/// A text of ASCII characters has as many bytes as characters, and can be cut anywhere.
pub proof fn lemma_ascii_cuts(s: Seq<char>, n: int)
    requires
        is_ascii_chars(s),
        0 <= n <= s.len(),
    ensures
        byte_len(s) == s.len(),
        cuts_cleanly(s, n),
{
    let a = s.take(n);
    let b = s.skip(n);
    assert(s =~= a + b);
    assert(is_ascii_chars(a));
    is_ascii_chars_encode_utf8(s);
    is_ascii_chars_encode_utf8(a);
    lemma_cuts_between(a, b);
}

/// Whether all texts have ASCII characters only.
pub open spec fn all_ascii(parts: Seq<Seq<char>>) -> bool {
    forall|i: int| 0 <= i < parts.len() ==> is_ascii_chars(#[trigger] parts[i])
}

/// Trimming leaves ASCII characters only where there were no others.
pub proof fn lemma_trimmed_ascii(s: Seq<char>)
    requires
        is_ascii_chars(s),
    ensures
        is_ascii_chars(trimmed_start(s)),
        is_ascii_chars(trimmed(s)),
{
    lemma_trimmed_start(s);
    let start = trimmed_start(s);
    assert(is_ascii_chars(start)) by {
        assert forall|i: int| 0 <= i < start.len() implies '\0' <= #[trigger] start[i]
            <= '\u{7f}' by {
            assert(start[i] == s[i + s.len() - start.len()]);
        }
    }
    lemma_trimmed_end(start);
    let end = trimmed(s);
    assert forall|i: int| 0 <= i < end.len() implies '\0' <= #[trigger] end[i] <= '\u{7f}' by {
        assert(end[i] == start[i]);
    }
}

/// The lines of a text of ASCII characters have ASCII characters only.
pub proof fn lemma_lines_ascii(s: Seq<char>)
    requires
        is_ascii_chars(s),
    ensures
        all_ascii(lines(s)),
    decreases s.len(),
{
    lemma_line_len(s);
    if s.len() > 0 && line_len(s) < s.len() {
        let n = line_len(s) as int;
        let first = without_return(s.take(n));
        let rest = s.skip(n + 1);
        assert(is_ascii_chars(first));
        assert(is_ascii_chars(rest));
        lemma_lines_ascii(rest);
        assert forall|i: int| 0 <= i < lines(s).len() implies is_ascii_chars(
            #[trigger] lines(s)[i],
        ) by {
            if i > 0 {
                assert(lines(s)[i] == lines(rest)[i - 1]);
            }
        }
    }
}

/// Texts of ASCII characters, joined, have ASCII characters only.
pub proof fn lemma_joined_ascii(parts: Seq<Seq<char>>, sep: Seq<char>)
    requires
        all_ascii(parts),
        is_ascii_chars(sep),
    ensures
        is_ascii_chars(joined(parts, sep)),
    decreases parts.len(),
{
    if parts.len() > 1 {
        let rest = parts.drop_last();
        assert forall|i: int| 0 <= i < rest.len() implies is_ascii_chars(#[trigger] rest[i]) by {
            assert(rest[i] == parts[i]);
        }
        lemma_joined_ascii(rest, sep);
        assert(is_ascii_chars(parts[parts.len() - 1]));
    } else if parts.len() == 1 {
        assert(is_ascii_chars(parts[0]));
    }
}

/// A text has at least as many bytes as characters.
pub proof fn lemma_byte_len_covers(s: Seq<char>)
    ensures
        s.len() <= byte_len(s),
    decreases s.len(),
{
    if s.len() > 0 {
        let last = seq![s.last()];
        lemma_byte_len_covers(s.drop_last());
        lemma_byte_len_concat(s.drop_last(), last);
        assert(s.drop_last() + last =~= s);
        assert(last.drop_first() =~= Seq::empty());
        reveal_with_fuel(encode_utf8, 2);
    }
}

/// A text has at least as many bytes as a start of it.
pub proof fn lemma_byte_len_take(s: Seq<char>, n: int)
    requires
        0 <= n <= s.len(),
    ensures
        byte_len(s.take(n)) <= byte_len(s),
{
    assert(s =~= s.take(n) + s.skip(n));
    lemma_byte_len_concat(s.take(n), s.skip(n));
}

/// Trimming the end keeps everything up to a character that is not whitespace.
pub proof fn lemma_trimmed_end_keeps(s: Seq<char>, i: int)
    requires
        0 <= i < s.len(),
        !is_white(s[i]),
    ensures
        trimmed_end(s).len() > i,
    decreases s.len(),
{
    if is_white(s.last()) {
        lemma_trimmed_end_keeps(s.drop_last(), i);
    }
}

/// A text that starts or ends with another holds it.
pub proof fn lemma_occurs_concat(a: Seq<char>, pat: Seq<char>, b: Seq<char>)
    ensures
        occurs(a + pat + b, pat),
        occurs(a + pat, pat),
        occurs(pat + b, pat),
{
    assert((a + pat + b).subrange(a.len() as int, (a.len() + pat.len()) as int) =~= pat);
    assert(occurs_at(a + pat + b, pat, a.len() as int));
    assert((a + pat).subrange(a.len() as int, (a.len() + pat.len()) as int) =~= pat);
    assert(occurs_at(a + pat, pat, a.len() as int));
    assert((pat + b).subrange(0, pat.len() as int) =~= pat);
    assert(occurs_at(pat + b, pat, 0));
}

/// What occurs in a part occurs in the whole.
pub proof fn lemma_occurs_within(a: Seq<char>, part: Seq<char>, b: Seq<char>, pat: Seq<char>)
    requires
        occurs(part, pat),
    ensures
        occurs(a + part + b, pat),
        occurs(a + part, pat),
        occurs(part + b, pat),
{
    let i = choose|i: int| occurs_at(part, pat, i);
    assert((a + part + b).subrange(a.len() + i, a.len() + i + pat.len()) =~= part.subrange(
        i,
        i + pat.len(),
    ));
    assert(occurs_at(a + part + b, pat, a.len() + i));
    assert((a + part).subrange(a.len() + i, a.len() + i + pat.len()) =~= part.subrange(
        i,
        i + pat.len(),
    ));
    assert(occurs_at(a + part, pat, a.len() + i));
    assert((part + b).subrange(i, i + pat.len()) =~= part.subrange(i, i + pat.len()));
    assert(occurs_at(part + b, pat, i));
}

/// Texts that are joined start with the first of them, joined.
pub proof fn lemma_joined_starts(parts: Seq<Seq<char>>, sep: Seq<char>, n: int)
    requires
        0 < n <= parts.len(),
    ensures
        begins(joined(parts, sep), joined(parts.take(n), sep)),
    decreases parts.len(),
{
    let first = joined(parts.take(n), sep);
    if n == parts.len() {
        assert(parts.take(n) =~= parts);
        assert(first.subrange(0, first.len() as int) =~= first);
    } else {
        let rest = parts.drop_last();
        assert(rest.take(n) =~= parts.take(n));
        lemma_joined_starts(rest, sep, n);
        let all = joined(parts, sep);
        assert(all.subrange(0, first.len() as int) =~= joined(rest, sep).subrange(
            0,
            first.len() as int,
        ));
    }
}

/// Joined parts start with the first part.
pub proof fn lemma_joined_begins(parts: Seq<Seq<char>>, sep: Seq<char>)
    requires
        parts.len() > 0,
    ensures
        begins(joined(parts, sep), parts[0]),
    decreases parts.len(),
{
    if parts.len() == 1 {
        assert(parts[0].subrange(0, parts[0].len() as int) =~= parts[0]);
    } else {
        let rest = joined(parts.drop_last(), sep);
        lemma_joined_begins(parts.drop_last(), sep);
        assert((rest + sep + parts.last()).subrange(0, parts[0].len() as int) =~= rest.subrange(
            0,
            parts[0].len() as int,
        ));
    }
}

/// What one part holds, the joined parts hold.
pub proof fn lemma_joined_holds(parts: Seq<Seq<char>>, sep: Seq<char>, i: int, pat: Seq<char>)
    requires
        0 <= i < parts.len(),
        occurs(parts[i], pat),
    ensures
        occurs(joined(parts, sep), pat),
    decreases parts.len(),
{
    if parts.len() > 1 {
        let rest = joined(parts.drop_last(), sep);
        if i == parts.len() - 1 {
            lemma_occurs_within(rest + sep, parts.last(), Seq::empty(), pat);
        } else {
            lemma_joined_holds(parts.drop_last(), sep, i, pat);
            lemma_occurs_within(Seq::empty(), rest, sep + parts.last(), pat);
            assert(rest + (sep + parts.last()) =~= rest + sep + parts.last());
        }
    }
}

// ---------------------------------------------------------------------------
// ASCII case
// ---------------------------------------------------------------------------

/// The ASCII lowercase form of a character.
pub open spec fn ascii_lower(c: char) -> char {
    if 'A' <= c && c <= 'Z' {
        (c as u32 + 32) as char
    } else {
        c
    }
}

/// The ASCII uppercase form of a character.
pub open spec fn ascii_upper(c: char) -> char {
    if 'a' <= c && c <= 'z' {
        (c as u32 - 32) as char
    } else {
        c
    }
}

/// The text with its ASCII letters in lower case.
pub open spec fn lowered(s: Seq<char>) -> Seq<char> {
    Seq::new(s.len(), |i: int| ascii_lower(s[i]))
}

/// The text with its ASCII letters in upper case.
pub open spec fn raised(s: Seq<char>) -> Seq<char> {
    Seq::new(s.len(), |i: int| ascii_upper(s[i]))
}

/// A character, in lower case if it is an ASCII letter.
pub fn lower_char(c: char) -> (r: char)
    ensures
        r == ascii_lower(c),
{
    if 'A' <= c && c <= 'Z' {
        let n: u8 = c as u8;
        (n + 32) as char
    } else {
        c
    }
}

/// A character, in upper case if it is an ASCII letter.
pub fn upper_char(c: char) -> (r: char)
    ensures
        r == ascii_upper(c),
{
    if 'a' <= c && c <= 'z' {
        let n: u8 = c as u8;
        (n - 32) as char
    } else {
        c
    }
}

/// The text with its ASCII letters in lower case.
pub fn to_ascii_lowercase(s: &str) -> (r: String)
    ensures
        r@ == lowered(s@),
{
    let mut out: String = String::new();
    for c in it: s.chars()
        invariant
            out@ == lowered(s@.take(it.index())),
            it.seq() == s@,
    {
        out.push(lower_char(c));
        proof {
            let i = it.index();
            assert(s@.take(i + 1) =~= s@.take(i).push(c));
            assert(lowered(s@.take(i + 1)) =~= lowered(s@.take(i)).push(ascii_lower(c)));
        }
    }
    proof {
        assert(s@.take(s@.len() as int) =~= s@);
    }
    out
}

/// The text with its ASCII letters in upper case.
pub fn to_ascii_uppercase(s: &str) -> (r: String)
    ensures
        r@ == raised(s@),
{
    let mut out: String = String::new();
    for c in it: s.chars()
        invariant
            out@ == raised(s@.take(it.index())),
            it.seq() == s@,
    {
        out.push(upper_char(c));
        proof {
            let i = it.index();
            assert(s@.take(i + 1) =~= s@.take(i).push(c));
            assert(raised(s@.take(i + 1)) =~= raised(s@.take(i)).push(ascii_upper(c)));
        }
    }
    proof {
        assert(s@.take(s@.len() as int) =~= s@);
    }
    out
}

/// Whether two texts differ in ASCII case at most.
pub fn same_ignoring_case(a: &str, b: &str) -> (r: bool)
    ensures
        r == (lowered(a@) == lowered(b@)),
{
    let x: String = to_ascii_lowercase(a);
    let y: String = to_ascii_lowercase(b);
    same(x.as_str(), y.as_str())
}

// ---------------------------------------------------------------------------
// Numbers
// ---------------------------------------------------------------------------

/// A decimal digit.
pub open spec fn digit(d: nat) -> char
    recommends
        d < 10,
{
    (48 + d) as char
}

/// A number in decimal.
pub open spec fn decimal(n: nat) -> Seq<char>
    decreases n,
{
    if n < 10 {
        seq![digit(n)]
    } else {
        decimal(n / 10).push(digit(n % 10))
    }
}

/// A signed number in decimal.
pub open spec fn signed_decimal(n: int) -> Seq<char> {
    if n < 0 {
        seq!['-'] + decimal((-n) as nat)
    } else {
        decimal(n as nat)
    }
}

/// A number in decimal.
pub fn decimal_text(n: u64) -> (r: String)
    ensures
        r@ == decimal(n as nat),
    decreases n,
{
    let d: u8 = (n % 10) as u8;
    let c: char = (48 + d) as char;
    if n < 10 {
        let mut s: String = String::new();
        s.push(c);
        proof {
            assert(s@ =~= seq![digit(n as nat)]);
        }
        s
    } else {
        let mut s: String = decimal_text(n / 10);
        s.push(c);
        s
    }
}

/// A number in decimal.
pub fn usize_text(n: usize) -> (r: String)
    ensures
        r@ == decimal(n as nat),
{
    decimal_text(n as u64)
}

/// A signed number in decimal.
pub fn signed_text(n: i64) -> (r: String)
    ensures
        r@ == signed_decimal(n as int),
{
    if n < 0 {
        let magnitude: u64 = (-(n + 1)) as u64 + 1;
        let mut s: String = String::new();
        s.push('-');
        let digits: String = decimal_text(magnitude);
        proof {
            assert(s@ =~= seq!['-']);
        }
        s.append(digits.as_str());
        s
    } else {
        decimal_text(n as u64)
    }
}

/// The value of a decimal digit.
pub open spec fn digit_value(c: char) -> Option<nat> {
    if '0' <= c && c <= '9' {
        Some((c as u32 - 48) as nat)
    } else {
        None
    }
}

/// The value of a text of decimal digits.
pub open spec fn digits_value(s: Seq<char>) -> Option<nat>
    decreases s.len(),
{
    if s.len() == 0 {
        Some(0)
    } else {
        match (digits_value(s.drop_last()), digit_value(s.last())) {
            (Some(n), Some(d)) => Some(n * 10 + d),
            _ => None,
        }
    }
}

/// A number that is written in decimal is read back.
pub proof fn law_numbers_are_read_back(n: nat)
    ensures
        digits_value(decimal(n)) == Some(n),
    decreases n,
{
    if n < 10 {
        let s = decimal(n);
        assert(s.drop_last() =~= Seq::empty());
        assert(s.last() == digit(n));
        reveal_with_fuel(digits_value, 2);
    } else {
        law_numbers_are_read_back(n / 10);
        let s = decimal(n);
        assert(s.drop_last() =~= decimal(n / 10));
        assert(s.last() == digit(n % 10));
    }
}

/// The number that a text stands for: decimal digits, with or without a plus sign
/// before them, that fit into 64 bits.
pub open spec fn unsigned_value(s: Seq<char>) -> Option<u64> {
    let body = if s.len() > 0 && s[0] == '+' {
        s.skip(1)
    } else {
        s
    };
    match digits_value(body) {
        Some(n) => if body.len() > 0 && n <= u64::MAX {
            Some(n as u64)
        } else {
            None
        },
        None => None,
    }
}

/// More digits do not make a number smaller.
proof fn lemma_digits_grow(s: Seq<char>, n: int)
    requires
        0 <= n <= s.len(),
    ensures
        digits_value(s) is Some ==> digits_value(s.take(n)) is Some && digits_value(s.take(n))->0
            <= digits_value(s)->0,
    decreases s.len(),
{
    if n == s.len() {
        assert(s.take(n) =~= s);
    } else {
        lemma_digits_grow(s.drop_last(), n);
        assert(s.drop_last().take(n) =~= s.take(n));
    }
}

/// The number that a text stands for.
pub fn parse_u64(s: &str) -> (r: Option<u64>)
    ensures
        r == unsigned_value(s@),
{
    let chars: Vec<char> = chars_of(s);
    let start: usize = if chars.len() > 0 && chars[0] == '+' {
        1
    } else {
        0
    };
    let ghost body = chars@.skip(start as int);
    proof {
        assert(chars@.skip(0) =~= chars@);
    }
    if start == chars.len() {
        return None;
    }
    let mut n: u64 = 0;
    let mut i: usize = start;
    while i < chars.len()
        invariant
            start <= i <= chars.len(),
            start < chars.len(),
            body == chars@.skip(start as int),
            body == if s@.len() > 0 && s@[0] == '+' {
                s@.skip(1)
            } else {
                s@
            },
            digits_value(body.take(i - start)) == Some(n as nat),
        decreases chars.len() - i,
    {
        let c: char = chars[i];
        proof {
            assert(body.take(i - start + 1).drop_last() =~= body.take(i - start));
            assert(body.take(i - start + 1).last() == c);
            lemma_digits_grow(body, i - start + 1);
        }
        if !('0' <= c && c <= '9') {
            return None;
        }
        let d: u64 = (c as u32 - 48) as u64;
        if n > (u64::MAX - d) / 10 {
            return None;
        }
        n = n * 10 + d;
        i = i + 1;
    }
    proof {
        assert(body.take(i - start) =~= body);
    }
    Some(n)
}

/// The number that a text stands for: decimal digits, with or without a sign before
/// them, that fit into 64 bits.
pub open spec fn signed_value(s: Seq<char>) -> Option<i64> {
    if s.len() > 0 && s[0] == '-' {
        let body = s.skip(1);
        match digits_value(body) {
            Some(n) => if body.len() > 0 && n <= 0x8000_0000_0000_0000 {
                Some((0 - n) as i64)
            } else {
                None
            },
            None => None,
        }
    } else {
        match unsigned_value(s) {
            Some(n) => if n <= i64::MAX {
                Some(n as i64)
            } else {
                None
            },
            None => None,
        }
    }
}

/// A text with a plus sign at its start has no value as digits.
proof fn lemma_plus_is_no_digit(s: Seq<char>)
    requires
        s.len() > 0,
        s[0] == '+',
    ensures
        digits_value(s) is None,
    decreases s.len(),
{
    if s.len() > 1 {
        lemma_plus_is_no_digit(s.drop_last());
    }
}

/// The number that a text stands for.
pub fn parse_i64(s: &str) -> (r: Option<i64>)
    ensures
        r == signed_value(s@),
{
    let chars: Vec<char> = chars_of(s);
    if chars.len() > 0 && chars[0] == '-' {
        let body: String = string_of(&chars, 1, chars.len());
        proof {
            assert(body@ =~= s@.skip(1));
            if body@.len() > 0 && body@[0] == '+' {
                lemma_plus_is_no_digit(body@);
            }
        }
        if chars.len() > 1 && chars[1] == '+' {
            return None;
        }
        match parse_u64(body.as_str()) {
            Some(n) => {
                if n == 0x8000_0000_0000_0000 {
                    Some(i64::MIN)
                } else if n < 0x8000_0000_0000_0000 {
                    Some(-(n as i64))
                } else {
                    None
                }
            },
            None => None,
        }
    } else {
        match parse_u64(s) {
            Some(n) => if n <= i64::MAX as u64 {
                Some(n as i64)
            } else {
                None
            },
            None => None,
        }
    }
}

/// The text of a literal, as an owned string.
pub fn owned(s: &str) -> (r: String)
    ensures
        r@ == s@,
{
    s.to_owned()
}

/// Two texts, one after the other.
pub fn concat(a: &str, b: &str) -> (r: String)
    ensures
        r@ == a@ + b@,
{
    let mut s: String = a.to_owned();
    s.append(b);
    s
}

/// Three texts, one after the other.
pub fn concat3(a: &str, b: &str, c: &str) -> (r: String)
    ensures
        r@ == a@ + b@ + c@,
{
    let mut s: String = concat(a, b);
    s.append(c);
    s
}

} // verus!
