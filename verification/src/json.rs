//! JSON values: what they hold, how they are read, and how they are taken from and
//! handed to `serde_json`.
use vstd::prelude::*;

use crate::table::{
    find_key, in_order, keys, keys_of, lemma_put_last, lookup, put, put_entry, without,
};
use crate::text::{
    decimal, decimal_text, opt_str, opt_text, signed_decimal, signed_text, trim, trimmed,
};

verus! {

/// A number: an integer of 64 bits, or the text of any other number.
#[derive(Debug)]
pub enum JsonNumber {
    Unsigned(u64),
    Negative(i64),
    Decimal(String),
}

/// A JSON value. The entries of an object stand in the order of their keys.
#[derive(Debug)]
pub enum Json {
    Null,
    Bool(bool),
    Number(JsonNumber),
    Text(String),
    Array(Vec<Json>),
    Object(Vec<(String, Json)>),
}

/// What a number is.
pub enum NumberView {
    Unsigned(u64),
    Negative(i64),
    Decimal(Seq<char>),
}

/// What a JSON value holds.
pub enum JsonView {
    Null,
    Bool(bool),
    Number(NumberView),
    Text(Seq<char>),
    Array(Seq<JsonView>),
    Object(Seq<(Seq<char>, JsonView)>),
}

impl View for JsonNumber {
    type V = NumberView;

    open spec fn view(&self) -> NumberView {
        match self {
            JsonNumber::Unsigned(n) => NumberView::Unsigned(*n),
            JsonNumber::Negative(n) => NumberView::Negative(*n),
            JsonNumber::Decimal(t) => NumberView::Decimal(t@),
        }
    }
}

/// What a value holds.
pub open spec fn contents(json: Json) -> JsonView
    decreases json,
{
    match json {
        Json::Null => JsonView::Null,
        Json::Bool(b) => JsonView::Bool(b),
        Json::Number(n) => JsonView::Number(n@),
        Json::Text(t) => JsonView::Text(t@),
        Json::Array(items) => JsonView::Array(
            Seq::new(
                items@.len(),
                |i: int|
                    if 0 <= i < items@.len() {
                        contents(items@[i])
                    } else {
                        JsonView::Null
                    },
            ),
        ),
        Json::Object(items) => JsonView::Object(
            Seq::new(
                items@.len(),
                |i: int|
                    if 0 <= i < items@.len() {
                        (items@[i].0@, contents(items@[i].1))
                    } else {
                        (Seq::empty(), JsonView::Null)
                    },
            ),
        ),
    }
}

impl View for Json {
    type V = JsonView;

    open spec fn view(&self) -> JsonView {
        contents(*self)
    }
}

/// What the items of an array hold.
pub open spec fn views(items: Seq<Json>) -> Seq<JsonView> {
    Seq::new(items.len(), |i: int| items[i]@)
}

/// What the entries of an object hold.
pub open spec fn entry_views(entries: Seq<(String, Json)>) -> Seq<(Seq<char>, JsonView)> {
    Seq::new(entries.len(), |i: int| (entries[i].0@, entries[i].1@))
}

/// What an optional value holds.
pub open spec fn opt_view(json: Option<Json>) -> Option<JsonView> {
    match json {
        Some(j) => Some(j@),
        None => None,
    }
}

/// What an optional reference to a value holds.
pub open spec fn ref_view(json: Option<&Json>) -> Option<JsonView> {
    match json {
        Some(j) => Some(j@),
        None => None,
    }
}

/// The view of an array is that of its items.
pub broadcast proof fn lemma_array_view(items: Vec<Json>)
    ensures
        #[trigger] Json::Array(items)@ == JsonView::Array(views(items@)),
{
    reveal_with_fuel(contents, 2);
    assert(Json::Array(items)@->Array_0 =~= views(items@));
}

/// The view of an object is that of its entries.
pub broadcast proof fn lemma_object_view(entries: Vec<(String, Json)>)
    ensures
        #[trigger] Json::Object(entries)@ == JsonView::Object(entry_views(entries@)),
{
    reveal_with_fuel(contents, 2);
    assert(Json::Object(entries)@->Object_0 =~= entry_views(entries@));
}

/// The keys of the views are the views of the keys.
pub broadcast proof fn lemma_entry_keys(entries: Seq<(String, Json)>)
    ensures
        #[trigger] keys(entry_views(entries)) == keys_of(entries),
{
    assert(keys(entry_views(entries)) =~= keys_of(entries));
}

pub broadcast group group_json_views {
    lemma_array_view,
    lemma_object_view,
    lemma_entry_keys,
}

impl NumberView {
    /// The number as an unsigned integer of 64 bits.
    pub open spec fn as_u64(self) -> Option<u64> {
        match self {
            NumberView::Unsigned(n) => Some(n),
            _ => None,
        }
    }

    /// The number as a signed integer of 64 bits.
    pub open spec fn as_i64(self) -> Option<i64> {
        match self {
            NumberView::Unsigned(n) => if n <= i64::MAX {
                Some(n as i64)
            } else {
                None
            },
            NumberView::Negative(n) => Some(n),
            NumberView::Decimal(_) => None,
        }
    }

    /// The number as it is written.
    pub open spec fn written(self) -> Seq<char> {
        match self {
            NumberView::Unsigned(n) => decimal(n as nat),
            NumberView::Negative(n) => signed_decimal(n as int),
            NumberView::Decimal(t) => t,
        }
    }
}

impl JsonView {
    /// The value under `key`, if this is an object that has the key.
    pub open spec fn get(self, key: Seq<char>) -> Option<JsonView> {
        match self {
            JsonView::Object(entries) => lookup(entries, key),
            _ => None,
        }
    }

    /// The text, if this is one.
    pub open spec fn text(self) -> Option<Seq<char>> {
        match self {
            JsonView::Text(t) => Some(t),
            _ => None,
        }
    }

    /// The items, if this is an array.
    pub open spec fn items(self) -> Option<Seq<JsonView>> {
        match self {
            JsonView::Array(items) => Some(items),
            _ => None,
        }
    }

    /// The entries, if this is an object.
    pub open spec fn fields(self) -> Option<Seq<(Seq<char>, JsonView)>> {
        match self {
            JsonView::Object(entries) => Some(entries),
            _ => None,
        }
    }

    /// The truth value, if this is one.
    pub open spec fn truth(self) -> Option<bool> {
        match self {
            JsonView::Bool(b) => Some(b),
            _ => None,
        }
    }

    /// The unsigned integer, if this is one.
    pub open spec fn as_u64(self) -> Option<u64> {
        match self {
            JsonView::Number(n) => n.as_u64(),
            _ => None,
        }
    }

    /// The signed integer, if this is one.
    pub open spec fn as_i64(self) -> Option<i64> {
        match self {
            JsonView::Number(n) => n.as_i64(),
            _ => None,
        }
    }
}

/// The value under `key` of an optional value.
pub open spec fn opt_get(json: Option<JsonView>, key: Seq<char>) -> Option<JsonView> {
    match json {
        Some(j) => j.get(key),
        None => None,
    }
}

/// The text of an optional value.
pub open spec fn opt_json_text(json: Option<JsonView>) -> Option<Seq<char>> {
    match json {
        Some(j) => j.text(),
        None => None,
    }
}

/// The items of an optional value.
pub open spec fn opt_items(json: Option<JsonView>) -> Option<Seq<JsonView>> {
    match json {
        Some(j) => j.items(),
        None => None,
    }
}

/// The first of two optional values that is there.
pub open spec fn first_of<T>(a: Option<T>, b: Option<T>) -> Option<T> {
    match a {
        Some(_) => a,
        None => b,
    }
}

/// The value at the end of a path of keys.
pub open spec fn at_path(json: JsonView, path: Seq<Seq<char>>) -> Option<JsonView>
    decreases path.len(),
{
    if path.len() == 0 {
        Some(json)
    } else {
        match json.get(path[0]) {
            Some(next) => at_path(next, path.skip(1)),
            None => None,
        }
    }
}

impl JsonNumber {
    /// A copy of the number.
    pub fn copy(&self) -> (r: JsonNumber)
        ensures
            r@ == self@,
    {
        match self {
            JsonNumber::Unsigned(n) => JsonNumber::Unsigned(*n),
            JsonNumber::Negative(n) => JsonNumber::Negative(*n),
            JsonNumber::Decimal(t) => JsonNumber::Decimal(t.clone()),
        }
    }

    /// The number as it is written.
    pub fn to_text(&self) -> (r: String)
        ensures
            r@ == self@.written(),
    {
        match self {
            JsonNumber::Unsigned(n) => decimal_text(*n),
            JsonNumber::Negative(n) => signed_text(*n),
            JsonNumber::Decimal(t) => t.clone(),
        }
    }
}

/// The integer `n` as a JSON number.
pub open spec fn integer(n: int) -> NumberView {
    if n < 0 {
        NumberView::Negative(n as i64)
    } else {
        NumberView::Unsigned(n as u64)
    }
}

/// An optional unsigned integer, or null.
pub open spec fn opt_number(n: Option<u64>) -> JsonView {
    match n {
        Some(n) => JsonView::Number(NumberView::Unsigned(n)),
        None => JsonView::Null,
    }
}

impl Json {
    /// A text.
    pub fn text(s: &str) -> (r: Json)
        ensures
            r@ == JsonView::Text(s@),
    {
        Json::Text(s.to_owned())
    }

    /// An optional text, or null.
    pub fn opt_text(s: &Option<String>) -> (r: Json)
        ensures
            r@ == match *s {
                Some(t) => JsonView::Text(t@),
                None => JsonView::Null,
            },
    {
        match s {
            Some(t) => Json::Text(t.clone()),
            None => Json::Null,
        }
    }

    /// An unsigned integer.
    pub fn unsigned(n: u64) -> (r: Json)
        ensures
            r@ == JsonView::Number(NumberView::Unsigned(n)),
    {
        Json::Number(JsonNumber::Unsigned(n))
    }

    /// An optional unsigned integer, or null.
    pub fn opt_unsigned(n: Option<u64>) -> (r: Json)
        ensures
            r@ == opt_number(n),
    {
        match n {
            Some(n) => Json::unsigned(n),
            None => Json::Null,
        }
    }

    /// A signed integer.
    pub fn signed(n: i64) -> (r: Json)
        ensures
            r@ == JsonView::Number(integer(n as int)),
    {
        if n < 0 {
            Json::Number(JsonNumber::Negative(n))
        } else {
            Json::Number(JsonNumber::Unsigned(n as u64))
        }
    }

    /// An array of one item.
    pub fn array1(item: Json) -> (r: Json)
        ensures
            r@ == JsonView::Array(seq![item@]),
    {
        broadcast use group_json_views;

        let items: Vec<Json> = vec![item];
        proof {
            assert(views(items@) =~= seq![item@]);
        }
        Json::Array(items)
    }

    /// An object without entries.
    pub fn empty_object() -> (r: Json)
        ensures
            r@ == JsonView::Object(Seq::empty()),
    {
        broadcast use group_json_views;

        let entries: Vec<(String, Json)> = Vec::new();
        proof {
            assert(entry_views(entries@) =~= Seq::empty());
        }
        Json::Object(entries)
    }

    /// An object of one entry.
    pub fn object1(key: &str, value: Json) -> (r: Json)
        ensures
            r@ == JsonView::Object(seq![(key@, value@)]),
    {
        broadcast use group_json_views;

        let mut entries: Vec<(String, Json)> = Vec::new();
        entries.push((key.to_owned(), value));
        proof {
            assert(entry_views(entries@) =~= seq![(key@, value@)]);
        }
        Json::Object(entries)
    }

    /// An object of two entries, in this order.
    pub fn object2(k1: &str, v1: Json, k2: &str, v2: Json) -> (r: Json)
        ensures
            r@ == JsonView::Object(seq![(k1@, v1@), (k2@, v2@)]),
    {
        broadcast use group_json_views;

        let mut entries: Vec<(String, Json)> = Vec::new();
        entries.push((k1.to_owned(), v1));
        entries.push((k2.to_owned(), v2));
        proof {
            assert(entry_views(entries@) =~= seq![(k1@, v1@), (k2@, v2@)]);
        }
        Json::Object(entries)
    }

    /// An object of three entries, in this order.
    pub fn object3(k1: &str, v1: Json, k2: &str, v2: Json, k3: &str, v3: Json) -> (r: Json)
        ensures
            r@ == JsonView::Object(seq![(k1@, v1@), (k2@, v2@), (k3@, v3@)]),
    {
        broadcast use group_json_views;

        let mut entries: Vec<(String, Json)> = Vec::new();
        entries.push((k1.to_owned(), v1));
        entries.push((k2.to_owned(), v2));
        entries.push((k3.to_owned(), v3));
        proof {
            assert(entry_views(entries@) =~= seq![(k1@, v1@), (k2@, v2@), (k3@, v3@)]);
        }
        Json::Object(entries)
    }

    /// An object of four entries, in this order.
    pub fn object4(k1: &str, v1: Json, k2: &str, v2: Json, k3: &str, v3: Json, k4: &str, v4: Json) -> (r: Json)
        ensures
            r@ == JsonView::Object(seq![(k1@, v1@), (k2@, v2@), (k3@, v3@), (k4@, v4@)]),
    {
        broadcast use group_json_views;

        let mut entries: Vec<(String, Json)> = Vec::new();
        entries.push((k1.to_owned(), v1));
        entries.push((k2.to_owned(), v2));
        entries.push((k3.to_owned(), v3));
        entries.push((k4.to_owned(), v4));
        proof {
            assert(entry_views(entries@) =~= seq![(k1@, v1@), (k2@, v2@), (k3@, v3@), (k4@, v4@)]);
        }
        Json::Object(entries)
    }

    /// An object of five entries, in this order.
    pub fn object5(k1: &str, v1: Json, k2: &str, v2: Json, k3: &str, v3: Json, k4: &str, v4: Json, k5: &str, v5: Json) -> (r: Json)
        ensures
            r@ == JsonView::Object(seq![(k1@, v1@), (k2@, v2@), (k3@, v3@), (k4@, v4@), (k5@, v5@)]),
    {
        broadcast use group_json_views;

        let mut entries: Vec<(String, Json)> = Vec::new();
        entries.push((k1.to_owned(), v1));
        entries.push((k2.to_owned(), v2));
        entries.push((k3.to_owned(), v3));
        entries.push((k4.to_owned(), v4));
        entries.push((k5.to_owned(), v5));
        proof {
            assert(entry_views(entries@) =~= seq![(k1@, v1@), (k2@, v2@), (k3@, v3@), (k4@, v4@), (k5@, v5@)]);
        }
        Json::Object(entries)
    }

    /// An object of six entries, in this order.
    pub fn object6(k1: &str, v1: Json, k2: &str, v2: Json, k3: &str, v3: Json, k4: &str, v4: Json, k5: &str, v5: Json, k6: &str, v6: Json) -> (r: Json)
        ensures
            r@ == JsonView::Object(seq![(k1@, v1@), (k2@, v2@), (k3@, v3@), (k4@, v4@), (k5@, v5@), (k6@, v6@)]),
    {
        broadcast use group_json_views;

        let mut entries: Vec<(String, Json)> = Vec::new();
        entries.push((k1.to_owned(), v1));
        entries.push((k2.to_owned(), v2));
        entries.push((k3.to_owned(), v3));
        entries.push((k4.to_owned(), v4));
        entries.push((k5.to_owned(), v5));
        entries.push((k6.to_owned(), v6));
        proof {
            assert(entry_views(entries@) =~= seq![(k1@, v1@), (k2@, v2@), (k3@, v3@), (k4@, v4@), (k5@, v5@), (k6@, v6@)]);
        }
        Json::Object(entries)
    }

    /// This object with `value` under `key`; any other value becomes an object of
    /// this one entry.
    pub fn with(self, key: &str, value: Json) -> (r: Json)
        ensures
            r@ == JsonView::Object(
                put(
                    match self@.fields() {
                        Some(entries) => entries,
                        None => Seq::empty(),
                    },
                    key@,
                    value@,
                ),
            ),
    {
        broadcast use group_json_views;

        let mut entries: Vec<(String, Json)> = match self {
            Json::Object(entries) => entries,
            _ => Vec::new(),
        };
        proof {
            assert(self@.fields() is None ==> entry_views(entries@) =~= Seq::empty());
        }
        insert(&mut entries, key.to_owned(), value);
        Json::Object(entries)
    }

    /// A copy of the value.
    pub fn copy(&self) -> (r: Json)
        ensures
            r@ == self@,
        decreases self@,
    {
        broadcast use group_json_views;

        match self {
            Json::Null => Json::Null,
            Json::Bool(b) => Json::Bool(*b),
            Json::Number(n) => Json::Number(n.copy()),
            Json::Text(t) => Json::Text(t.clone()),
            Json::Array(items) => {
                let mut out: Vec<Json> = Vec::new();
                let mut i: usize = 0;
                while i < items.len()
                    invariant
                        i <= items.len(),
                        *self == Json::Array(*items),
                        views(out@) == views(items@).take(i as int),
                    decreases items.len() - i,
                {
                    proof {
                        assert(self@->Array_0[i as int] == items@[i as int]@);
                        assert(decreases_to!(self@ => self@->Array_0[i as int]));
                    }
                    let item: Json = items[i].copy();
                    let ghost had = out@;
                    out.push(item);
                    proof {
                        assert(views(out@) =~= views(had).push(item@));
                        assert(views(items@).take(i + 1) =~= views(items@).take(i as int).push(
                            items@[i as int]@,
                        ));
                    }
                    i = i + 1;
                }
                proof {
                    assert(views(items@).take(i as int) =~= views(items@));
                }
                Json::Array(out)
            },
            Json::Object(entries) => {
                let mut out: Vec<(String, Json)> = Vec::new();
                let mut i: usize = 0;
                while i < entries.len()
                    invariant
                        i <= entries.len(),
                        *self == Json::Object(*entries),
                        entry_views(out@) == entry_views(entries@).take(i as int),
                    decreases entries.len() - i,
                {
                    let key: String = entries[i].0.clone();
                    proof {
                        assert(self@->Object_0[i as int].1 == entries@[i as int].1@);
                        assert(decreases_to!(self@ => self@->Object_0[i as int]));
                        assert(decreases_to!(self@ => self@->Object_0[i as int].1));
                    }
                    let value: Json = entries[i].1.copy();
                    let ghost had = out@;
                    out.push((key, value));
                    proof {
                        assert(entry_views(out@) =~= entry_views(had).push((key@, value@)));
                        assert(entry_views(entries@).take(i + 1) =~= entry_views(entries@).take(
                            i as int,
                        ).push((entries@[i as int].0@, entries@[i as int].1@)));
                    }
                    i = i + 1;
                }
                proof {
                    assert(entry_views(entries@).take(i as int) =~= entry_views(entries@));
                }
                Json::Object(out)
            },
        }
    }

    /// The value under `key`, if this is an object that has the key.
    pub fn get(&self, key: &str) -> (r: Option<&Json>)
        ensures
            ref_view(r) == self@.get(key@),
    {
        broadcast use group_json_views;

        match self {
            Json::Object(entries) => get_entry(entries, key),
            _ => None,
        }
    }

    /// Whether this is an object that has the key.
    pub fn has(&self, key: &str) -> (r: bool)
        ensures
            r == (self@.get(key@) is Some),
    {
        match self.get(key) {
            Some(_) => true,
            None => false,
        }
    }

    /// The text, if this is one.
    pub fn as_str(&self) -> (r: Option<&str>)
        ensures
            opt_str(r) == self@.text(),
    {
        match self {
            Json::Text(t) => Some(t.as_str()),
            _ => None,
        }
    }

    /// The items, if this is an array.
    pub fn as_array(&self) -> (r: Option<&Vec<Json>>)
        ensures
            r is Some <==> self@.items() is Some,
            r matches Some(items) ==> self@.items() == Some(views(items@)) && *self == Json::Array(
                *items,
            ),
    {
        broadcast use group_json_views;

        match self {
            Json::Array(items) => Some(items),
            _ => None,
        }
    }

    /// The entries, if this is an object.
    pub fn as_object(&self) -> (r: Option<&Vec<(String, Json)>>)
        ensures
            r is Some <==> self@.fields() is Some,
            r matches Some(entries) ==> self@.fields() == Some(entry_views(entries@)) && *self
                == Json::Object(*entries),
    {
        broadcast use group_json_views;

        match self {
            Json::Object(entries) => Some(entries),
            _ => None,
        }
    }

    /// The truth value, if this is one.
    pub fn as_bool(&self) -> (r: Option<bool>)
        ensures
            r == self@.truth(),
    {
        match self {
            Json::Bool(b) => Some(*b),
            _ => None,
        }
    }

    /// The unsigned integer, if this is one.
    pub fn as_u64(&self) -> (r: Option<u64>)
        ensures
            r == self@.as_u64(),
    {
        match self {
            Json::Number(JsonNumber::Unsigned(n)) => Some(*n),
            _ => None,
        }
    }

    /// The signed integer, if this is one.
    pub fn as_i64(&self) -> (r: Option<i64>)
        ensures
            r == self@.as_i64(),
    {
        match self {
            Json::Number(JsonNumber::Unsigned(n)) => if *n <= i64::MAX as u64 {
                Some(*n as i64)
            } else {
                None
            },
            Json::Number(JsonNumber::Negative(n)) => Some(*n),
            _ => None,
        }
    }

    /// Whether this is null.
    pub fn is_null(&self) -> (r: bool)
        ensures
            r == (self@ == JsonView::Null),
    {
        match self {
            Json::Null => true,
            _ => false,
        }
    }
}

/// The value under `key`.
pub fn get_entry<'a>(entries: &'a Vec<(String, Json)>, key: &str) -> (r: Option<&'a Json>)
    ensures
        ref_view(r) == lookup(entry_views(entries@), key@),
{
    broadcast use group_json_views;

    let i: usize = find_key(entries, key);
    if i < entries.len() {
        Some(&entries[i].1)
    } else {
        None
    }
}

/// Puts `value` under `key`.
pub fn insert(entries: &mut Vec<(String, Json)>, key: String, value: Json)
    ensures
        entry_views(final(entries)@) == put(entry_views(old(entries)@), key@, value@),
{
    broadcast use group_json_views;

    let ghost was = entries@;
    proof {
        crate::table::lemma_key_slot(keys_of(was), key@);
    }
    put_entry(entries, key, value);
    proof {
        assert(entry_views(entries@) =~= put(entry_views(was), key@, value@));
    }
}

/// Takes the entry under `key` out.
pub fn remove(entries: &mut Vec<(String, Json)>, key: &str)
    ensures
        entry_views(final(entries)@) == without(entry_views(old(entries)@), key@),
{
    broadcast use group_json_views;

    let ghost was = entries@;
    let i: usize = find_key(entries, key);
    if i < entries.len() {
        let _removed = entries.remove(i);
        proof {
            assert(entry_views(entries@) =~= without(entry_views(was), key@));
        }
    }
}

/// A copy of a list of entries.
pub fn copy_entries(entries: &Vec<(String, Json)>) -> (out: Vec<(String, Json)>)
    ensures
        entry_views(out@) == entry_views(entries@),
{
    let mut out: Vec<(String, Json)> = Vec::new();
    let mut i: usize = 0;
    while i < entries.len()
        invariant
            i <= entries.len(),
            entry_views(out@) == entry_views(entries@).take(i as int),
        decreases entries.len() - i,
    {
        let key: String = entries[i].0.clone();
        let value: Json = entries[i].1.copy();
        let ghost had = out@;
        out.push((key, value));
        proof {
            assert(entry_views(out@) =~= entry_views(had).push((key@, value@)));
            assert(entry_views(entries@).take(i + 1) =~= entry_views(entries@).take(i as int).push(
                (entries@[i as int].0@, entries@[i as int].1@),
            ));
        }
        i = i + 1;
    }
    proof {
        assert(entry_views(entries@).take(i as int) =~= entry_views(entries@));
    }
    out
}

/// A copy of an optional value.
pub fn copy_opt(json: &Option<Json>) -> (r: Option<Json>)
    ensures
        opt_view(r) == opt_view(*json),
{
    match json {
        Some(j) => Some(j.copy()),
        None => None,
    }
}

/// A copy of an optional reference.
pub fn copy_ref(json: Option<&Json>) -> (r: Option<Json>)
    ensures
        opt_view(r) == ref_view(json),
{
    match json {
        Some(j) => Some(j.copy()),
        None => None,
    }
}

/// The identifier that a value stands for: a text without surrounding whitespace that
/// is not empty, or a number as it is written.
pub open spec fn id_text(json: Option<JsonView>) -> Option<Seq<char>> {
    match json {
        Some(JsonView::Text(t)) => if trimmed(t).len() > 0 {
            Some(trimmed(t))
        } else {
            None
        },
        Some(JsonView::Number(n)) => Some(n.written()),
        _ => None,
    }
}

/// The identifier that a value stands for.
pub fn id_string(json: Option<&Json>) -> (r: Option<String>)
    ensures
        opt_text(r) == id_text(ref_view(json)),
{
    match json {
        Some(Json::Text(t)) => {
            let id: String = trim(t.as_str());
            if id.as_str().is_empty() {
                None
            } else {
                Some(id)
            }
        },
        Some(Json::Number(n)) => Some(n.to_text()),
        _ => None,
    }
}

// ---------------------------------------------------------------------------
// `serde_json`
// ---------------------------------------------------------------------------

/// `serde_json::Value`.
#[verifier::external_type_specification]
#[verifier::external_body]
pub struct ExValue(serde_json::Value);

/// What a `serde_json::Value` holds.
pub uninterp spec fn value_contents(value: serde_json::Value) -> JsonView;

/// What the values of a list hold.
pub open spec fn all_contents(values: Seq<serde_json::Value>) -> Seq<JsonView> {
    Seq::new(values.len(), |i: int| value_contents(values[i]))
}

/// What the entries of a list hold.
pub open spec fn entry_contents(entries: Seq<(String, serde_json::Value)>) -> Seq<
    (Seq<char>, JsonView),
> {
    Seq::new(entries.len(), |i: int| (entries[i].0@, value_contents(entries[i].1)))
}

/// What an ordered map holds once the entries have been put into it one by one.
pub open spec fn collected(entries: Seq<(Seq<char>, JsonView)>) -> Seq<(Seq<char>, JsonView)>
    decreases entries.len(),
{
    if entries.len() == 0 {
        Seq::empty()
    } else {
        put(collected(entries.drop_last()), entries.last().0, entries.last().1)
    }
}

/// A `serde_json::Value`, taken apart.
pub enum Opened {
    Null,
    Bool(bool),
    Number { unsigned: Option<u64>, signed: Option<i64>, text: String },
    Text(String),
    Array(Vec<serde_json::Value>),
    Object(Vec<(String, serde_json::Value)>),
}

/// What a `serde_json::Value` is made from.
pub enum Parts {
    Null,
    Bool(bool),
    Unsigned(u64),
    Signed(i64),
    Decimal(String),
    Text(String),
    Array(Vec<serde_json::Value>),
    Object(Vec<(String, serde_json::Value)>),
}

/// What `serde_json::from_str` reads from a text: a value, or the reason why the text
/// is not JSON.
pub uninterp spec fn parsed(text: Seq<char>) -> Result<JsonView, Seq<char>>;

/// What the text of a number stands for as a JSON value: what `serde_json::from_str`
/// reads from it, or the text itself where that is no JSON.
pub open spec fn reread(text: Seq<char>) -> JsonView {
    match parsed(text) {
        Ok(json) => json,
        Err(_) => JsonView::Text(text),
    }
}

/// `serde_json::from_str`, whose result is a function of the text alone.
#[verifier::external_body]
fn parse_value(text: &str) -> (r: Result<serde_json::Value, String>)
    ensures
        parsed(text@) == match r {
            Ok(value) => Ok::<JsonView, Seq<char>>(value_contents(value)),
            Err(reason) => Err::<JsonView, Seq<char>>(reason@),
        },
{
    serde_json::from_str(text).map_err(|error| error.to_string())
}

/// What `serde_json::from_slice` reads from bytes: a value, or the reason why they are not
/// JSON in UTF-8.
pub uninterp spec fn parsed_bytes(bytes: Seq<u8>) -> Result<JsonView, Seq<char>>;

/// `serde_json::from_slice`, whose result is a function of the bytes alone.
#[verifier::external_body]
fn parse_byte_value(bytes: &Vec<u8>) -> (r: Result<serde_json::Value, String>)
    ensures
        parsed_bytes(bytes@) == match r {
            Ok(value) => Ok::<JsonView, Seq<char>>(value_contents(value)),
            Err(reason) => Err::<JsonView, Seq<char>>(reason@),
        },
{
    serde_json::from_slice(bytes).map_err(|error| error.to_string())
}

/// Takes a `serde_json::Value` apart by its variants. `Number::as_u64` gives every
/// number of at least zero that is an integer of 64 bits, and `Number::as_i64` the
/// negative ones too; `Number` prints any other number as a decimal.
#[verifier::external_body]
fn open_value(value: serde_json::Value) -> (r: Opened)
    ensures
        value_contents(value) == match r {
            Opened::Null => JsonView::Null,
            Opened::Bool(b) => JsonView::Bool(b),
            Opened::Number { unsigned, signed, text } => JsonView::Number(
                match (unsigned, signed) {
                    (Some(n), _) => NumberView::Unsigned(n),
                    (None, Some(n)) => NumberView::Negative(n),
                    (None, None) => NumberView::Decimal(text@),
                },
            ),
            Opened::Text(t) => JsonView::Text(t@),
            Opened::Array(items) => JsonView::Array(all_contents(items@)),
            Opened::Object(entries) => JsonView::Object(entry_contents(entries@)),
        },
{
    match value {
        serde_json::Value::Null => Opened::Null,
        serde_json::Value::Bool(b) => Opened::Bool(b),
        serde_json::Value::Number(n) => Opened::Number {
            unsigned: n.as_u64(),
            signed: n.as_i64(),
            text: n.to_string(),
        },
        serde_json::Value::String(t) => Opened::Text(t),
        serde_json::Value::Array(items) => Opened::Array(items),
        serde_json::Value::Object(entries) => Opened::Object(entries.into_iter().collect()),
    }
}

/// Makes a `serde_json::Value` by its variants. Integers go through `Value::from`, a
/// decimal through `serde_json::from_str`, and the entries of an object into the
/// ordered `serde_json::Map`, where the last entry under a key counts.
#[verifier::external_body]
fn make_value(parts: Parts) -> (r: serde_json::Value)
    ensures
        value_contents(r) == match parts {
            Parts::Null => JsonView::Null,
            Parts::Bool(b) => JsonView::Bool(b),
            Parts::Unsigned(n) => JsonView::Number(NumberView::Unsigned(n)),
            Parts::Signed(n) => JsonView::Number(integer(n as int)),
            Parts::Decimal(t) => reread(t@),
            Parts::Text(t) => JsonView::Text(t@),
            Parts::Array(items) => JsonView::Array(all_contents(items@)),
            Parts::Object(entries) => JsonView::Object(collected(entry_contents(entries@))),
        },
{
    match parts {
        Parts::Null => serde_json::Value::Null,
        Parts::Bool(b) => serde_json::Value::Bool(b),
        Parts::Unsigned(n) => serde_json::Value::from(n),
        Parts::Signed(n) => serde_json::Value::from(n),
        Parts::Decimal(t) => serde_json::from_str(&t).unwrap_or(serde_json::Value::String(t)),
        Parts::Text(t) => serde_json::Value::String(t),
        Parts::Array(items) => serde_json::Value::Array(items),
        Parts::Object(entries) => serde_json::Value::Object(entries.into_iter().collect()),
    }
}

/// What the `Display` of a `serde_json::Value` prints: its JSON text without spaces.
pub uninterp spec fn compact(json: JsonView) -> Seq<char>;

/// What `serde_json::to_string_pretty` prints: its JSON text with line breaks and
/// indentation.
pub uninterp spec fn pretty(json: JsonView) -> Seq<char>;

/// Whether a text is the JSON text of a value.
pub open spec fn reads_as(text: Seq<char>, json: JsonView) -> bool {
    parsed(text) == Ok::<JsonView, Seq<char>>(json)
}

/// How many arrays and objects `serde_json::from_str` reads inside each other.
pub open spec fn deepest() -> nat {
    127
}

/// The key that marks an object as a raw JSON text to `serde_json::from_str`, where it
/// comes first. What is written under it is read in place of the object.
pub open spec fn raw_value_key() -> Seq<char> {
    "$serde_json::private::RawValue"@
}

/// Whether `serde_json::from_str` takes an object for a raw JSON text.
pub open spec fn is_raw_value(entries: Seq<(Seq<char>, JsonView)>) -> bool {
    entries.len() > 0 && entries[0].0 == raw_value_key()
}

/// Whether a value holds no decimals, its objects are in the order of their keys and none
/// of them marks a raw JSON text, and no more than `depth` arrays and objects are inside
/// each other.
pub open spec fn is_plain(json: JsonView, depth: nat) -> bool
    decreases json,
{
    match json {
        JsonView::Number(NumberView::Negative(n)) => n < 0,
        JsonView::Number(NumberView::Decimal(_)) => false,
        JsonView::Array(items) => depth > 0 && forall|i: int|
            0 <= i < items.len() ==> is_plain(#[trigger] items[i], (depth - 1) as nat),
        JsonView::Object(entries) => depth > 0 && in_order(entries) && !is_raw_value(entries)
            && forall|i: int|
            0 <= i < entries.len() ==> is_plain((#[trigger] entries[i]).1, (depth - 1) as nat),
        _ => true,
    }
}

/// The `Display` of `serde_json::Value`, whose result is a function of what the value
/// holds. `serde_json::from_str` reads a plain value back as it was; a decimal may be read
/// back as its neighbour.
#[verifier::external_body]
fn value_text(value: &serde_json::Value) -> (r: String)
    ensures
        r@ == compact(value_contents(*value)),
        is_plain(value_contents(*value), deepest()) ==> reads_as(r@, value_contents(*value)),
{
    value.to_string()
}

/// `serde_json::to_string_pretty`, whose result is a function of what the value
/// holds. On a `serde_json::Value` it does not fail; the compact text would stand in
/// for it. `serde_json::from_str` reads a plain value back as it was.
#[verifier::external_body]
fn value_pretty_text(value: &serde_json::Value) -> (r: String)
    ensures
        r@ == pretty(value_contents(*value)),
        is_plain(value_contents(*value), deepest()) ==> reads_as(r@, value_contents(*value)),
{
    serde_json::to_string_pretty(value).unwrap_or_else(|_| value.to_string())
}

/// The value as `serde_json` holds it: each decimal as it is read back, and the
/// entries of each object in an ordered map.
pub open spec fn as_stored(json: JsonView) -> JsonView
    decreases json,
{
    match json {
        JsonView::Number(NumberView::Negative(n)) => JsonView::Number(integer(n as int)),
        JsonView::Number(NumberView::Decimal(t)) => reread(t),
        JsonView::Array(items) => JsonView::Array(stored_items(items)),
        JsonView::Object(entries) => JsonView::Object(collected(stored_entries(entries))),
        _ => json,
    }
}

/// The items of an array as `serde_json` holds them.
pub open spec fn stored_items(items: Seq<JsonView>) -> Seq<JsonView>
    decreases items,
{
    Seq::new(
        items.len(),
        |i: int|
            if 0 <= i < items.len() {
                as_stored(items[i])
            } else {
                JsonView::Null
            },
    )
}

/// The entries of an object, each value as `serde_json` holds it.
pub open spec fn stored_entries(entries: Seq<(Seq<char>, JsonView)>) -> Seq<(Seq<char>, JsonView)>
    decreases entries,
{
    Seq::new(
        entries.len(),
        |i: int|
            if 0 <= i < entries.len() {
                (entries[i].0, as_stored(entries[i].1))
            } else {
                (Seq::empty(), JsonView::Null)
            },
    )
}

/// The value that a `serde_json::Value` holds.
fn from_value(value: serde_json::Value) -> (r: Json)
    ensures
        r@ == value_contents(value),
    decreases value_contents(value),
{
    broadcast use group_json_views;

    let ghost whole = value_contents(value);
    match open_value(value) {
        Opened::Null => Json::Null,
        Opened::Bool(b) => Json::Bool(b),
        Opened::Number { unsigned, signed, text } => Json::Number(
            match unsigned {
                Some(n) => JsonNumber::Unsigned(n),
                None => match signed {
                    Some(n) => JsonNumber::Negative(n),
                    None => JsonNumber::Decimal(text),
                },
            },
        ),
        Opened::Text(t) => Json::Text(t),
        Opened::Array(items) => {
            let mut out: Vec<Json> = Vec::new();
            let ghost all = items@;
            for item in it: items
                invariant
                    it.seq() == all,
                    whole == JsonView::Array(all_contents(all)),
                    whole == value_contents(value),
                    views(out@) == all_contents(all).take(it.index()),
            {
                proof {
                    assert(item == all[it.index()]);
                    assert(all_contents(all)[it.index()] == value_contents(item));
                    assert(decreases_to!(whole => whole->Array_0[it.index()]));
                }
                let json: Json = from_value(item);
                let ghost had = out@;
                out.push(json);
                proof {
                    assert(views(out@) =~= views(had).push(json@));
                    assert(all_contents(all).take(it.index() + 1) =~= all_contents(all).take(
                        it.index(),
                    ).push(value_contents(item)));
                }
            }
            proof {
                assert(all_contents(all).take(all.len() as int) =~= all_contents(all));
            }
            Json::Array(out)
        },
        Opened::Object(entries) => {
            let mut out: Vec<(String, Json)> = Vec::new();
            let ghost all = entries@;
            for entry in it: entries
                invariant
                    it.seq() == all,
                    whole == JsonView::Object(entry_contents(all)),
                    whole == value_contents(value),
                    entry_views(out@) == entry_contents(all).take(it.index()),
            {
                proof {
                    assert(entry == all[it.index()]);
                    assert(entry_contents(all)[it.index()] == (entry.0@, value_contents(entry.1)));
                    assert(decreases_to!(whole => whole->Object_0[it.index()]));
                    assert(decreases_to!(whole => whole->Object_0[it.index()].1));
                }
                let (key, item) = entry;
                let json: Json = from_value(item);
                let ghost had = out@;
                out.push((key, json));
                proof {
                    assert(entry_views(out@) =~= entry_views(had).push((key@, json@)));
                    assert(entry_contents(all).take(it.index() + 1) =~= entry_contents(all).take(
                        it.index(),
                    ).push((key@, value_contents(item))));
                }
            }
            proof {
                assert(entry_contents(all).take(all.len() as int) =~= entry_contents(all));
            }
            Json::Object(out)
        },
    }
}

/// The `serde_json::Value` that holds what a value holds.
pub(crate) fn to_value(json: &Json) -> (r: serde_json::Value)
    ensures
        value_contents(r) == as_stored(json@),
    decreases json@,
{
    broadcast use group_json_views;

    match json {
        Json::Null => make_value(Parts::Null),
        Json::Bool(b) => make_value(Parts::Bool(*b)),
        Json::Number(JsonNumber::Unsigned(n)) => make_value(Parts::Unsigned(*n)),
        Json::Number(JsonNumber::Negative(n)) => make_value(Parts::Signed(*n)),
        Json::Number(JsonNumber::Decimal(t)) => make_value(Parts::Decimal(t.clone())),
        Json::Text(t) => make_value(Parts::Text(t.clone())),
        Json::Array(items) => {
            let mut out: Vec<serde_json::Value> = Vec::new();
            let mut i: usize = 0;
            while i < items.len()
                invariant
                    i <= items.len(),
                    *json == Json::Array(*items),
                    out@.len() == i,
                    forall|k: int|
                        0 <= k < i ==> value_contents(#[trigger] out@[k]) == as_stored(items@[k]@),
                decreases items.len() - i,
            {
                proof {
                    assert(json@->Array_0[i as int] == items@[i as int]@);
                    assert(decreases_to!(json@ => json@->Array_0[i as int]));
                }
                let value: serde_json::Value = to_value(&items[i]);
                out.push(value);
                i = i + 1;
            }
            proof {
                reveal_with_fuel(stored_items, 2);
                assert(all_contents(out@) =~= stored_items(views(items@)));
            }
            make_value(Parts::Array(out))
        },
        Json::Object(entries) => {
            let mut out: Vec<(String, serde_json::Value)> = Vec::new();
            let mut i: usize = 0;
            while i < entries.len()
                invariant
                    i <= entries.len(),
                    *json == Json::Object(*entries),
                    out@.len() == i,
                    forall|k: int|
                        0 <= k < i ==> (#[trigger] out@[k]).0@ == entries@[k].0@ && value_contents(
                            out@[k].1,
                        ) == as_stored(entries@[k].1@),
                decreases entries.len() - i,
            {
                proof {
                    assert(json@->Object_0[i as int].1 == entries@[i as int].1@);
                    assert(decreases_to!(json@ => json@->Object_0[i as int]));
                    assert(decreases_to!(json@ => json@->Object_0[i as int].1));
                }
                let value: serde_json::Value = to_value(&entries[i].1);
                out.push((entries[i].0.clone(), value));
                i = i + 1;
            }
            proof {
                reveal_with_fuel(stored_entries, 2);
                assert(entry_contents(out@) =~= stored_entries(entry_views(entries@)));
            }
            make_value(Parts::Object(out))
        },
    }
}

/// What a parse returns.
pub open spec fn parse_result(r: Result<Json, String>) -> Result<JsonView, Seq<char>> {
    match r {
        Ok(json) => Ok(json@),
        Err(reason) => Err(reason@),
    }
}

/// The value that a JSON text holds, or the reason why the text is not JSON.
pub fn parse(text: &str) -> (r: Result<Json, String>)
    ensures
        parse_result(r) == parsed(text@),
{
    match parse_value(text) {
        Ok(value) => Ok(from_value(value)),
        Err(reason) => Err(reason),
    }
}

/// The value that bytes hold as JSON, or the reason why they are not JSON in UTF-8.
pub fn parse_bytes(bytes: &Vec<u8>) -> (r: Result<Json, String>)
    ensures
        parse_result(r) == parsed_bytes(bytes@),
{
    match parse_byte_value(bytes) {
        Ok(value) => Ok(from_value(value)),
        Err(reason) => Err(reason),
    }
}

/// The JSON text of a value, without spaces.
pub open spec fn compact_of(json: JsonView) -> Seq<char> {
    compact(as_stored(json))
}

/// The JSON text of a value, with line breaks and indentation.
pub open spec fn pretty_of(json: JsonView) -> Seq<char> {
    pretty(as_stored(json))
}

/// Entries in the order of their keys are the same in an ordered map.
proof fn lemma_collected_in_order(entries: Seq<(Seq<char>, JsonView)>)
    requires
        in_order(entries),
    ensures
        collected(entries) == entries,
    decreases entries.len(),
{
    if entries.len() > 0 {
        let earlier = entries.drop_last();
        assert(in_order(earlier));
        lemma_collected_in_order(earlier);
        lemma_put_last(earlier, entries.last().0, entries.last().1);
        assert(earlier.push(entries.last()) =~= entries);
    }
}

/// A plain value is held by `serde_json` as it is.
proof fn lemma_plain_is_stored(json: JsonView, depth: nat)
    requires
        is_plain(json, depth),
    ensures
        as_stored(json) == json,
    decreases json,
{
    match json {
        JsonView::Array(items) => {
            assert forall|i: int| 0 <= i < items.len() implies as_stored(#[trigger] items[i])
                == items[i] by {
                assert(decreases_to!(json => json->Array_0[i]));
                lemma_plain_is_stored(items[i], (depth - 1) as nat);
            }
            reveal_with_fuel(stored_items, 2);
            assert(stored_items(items) =~= items);
        },
        JsonView::Object(entries) => {
            assert forall|i: int| 0 <= i < entries.len() implies as_stored(
                (#[trigger] entries[i]).1,
            ) == entries[i].1 by {
                assert(decreases_to!(json => json->Object_0[i]));
                assert(decreases_to!(json => json->Object_0[i].1));
                lemma_plain_is_stored(entries[i].1, (depth - 1) as nat);
            }
            reveal_with_fuel(stored_entries, 2);
            assert(stored_entries(entries) =~= entries);
            lemma_collected_in_order(entries);
        },
        _ => {},
    }
}

/// The JSON text of a value, without spaces. A plain value is read back from it.
pub fn to_text(json: &Json) -> (r: String)
    ensures
        r@ == compact_of(json@),
        is_plain(json@, deepest()) ==> reads_as(r@, json@),
{
    let value: serde_json::Value = to_value(json);
    proof {
        if is_plain(json@, deepest()) {
            lemma_plain_is_stored(json@, deepest());
        }
    }
    value_text(&value)
}

/// The JSON text of a value, with line breaks and indentation. A plain value is read back
/// from it.
pub fn to_pretty_text(json: &Json) -> (r: String)
    ensures
        r@ == pretty_of(json@),
        is_plain(json@, deepest()) ==> reads_as(r@, json@),
{
    let value: serde_json::Value = to_value(json);
    proof {
        if is_plain(json@, deepest()) {
            lemma_plain_is_stored(json@, deepest());
        }
    }
    value_pretty_text(&value)
}

} // verus!
