//! JSON documents, and the calls into `serde_json` that read and write them.

use vstd::arithmetic::power2::*;
use vstd::prelude::*;

use crate::single;
use crate::text;

verus! {

broadcast use vstd::string::group_string_axioms;

/// `serde_json::Value`: an owned JSON document.
#[verifier::external_type_specification]
#[verifier::external_body]
pub struct ExValue(serde_json::Value);

/// `serde_json::Number`: a JSON number.
#[verifier::external_type_specification]
#[verifier::external_body]
pub struct ExNumber(serde_json::Number);

/// What a JSON number is: the integer it is, as far as it fits each type, and
/// the bit pattern of the double nearest to it.
pub struct NumberView {
    pub unsigned: Option<u64>,
    pub signed: Option<i64>,
    pub double: u64,
}

/// A JSON document as a mathematical value.
pub enum JsonView {
    Null,
    Bool(bool),
    Number(NumberView),
    Text(Seq<char>),
    Array(Seq<JsonView>),
    Object(Map<Seq<char>, JsonView>),
}

/// The document that a `serde_json::Value` holds.
pub uninterp spec fn value_view(value: serde_json::Value) -> JsonView;

/// The number that a `serde_json::Number` holds.
pub uninterp spec fn number_view(number: serde_json::Number) -> NumberView;

/// The exponent of two at the leading bit of `n`.
pub open spec fn leading_bit(n: nat) -> nat
    decreases n,
{
    if n < 2 {
        0
    } else {
        1 + leading_bit(n / 2)
    }
}

/// The bit pattern of the double nearest to `n`, ties to even.
pub open spec fn integer_double(n: i64) -> u64 {
    let magnitude: nat = if n < 0 {
        -n as nat
    } else {
        n as nat
    };
    let exponent = leading_bit(magnitude);
    let sign: nat = if n < 0 {
        0x8000_0000_0000_0000
    } else {
        0
    };
    if n == 0 {
        0
    } else {
        (sign + (1022 + exponent) * 0x10_0000_0000_0000 + single::half_even(
            magnitude * 0x10_0000_0000_0000,
            pow2(exponent),
        )) as u64
    }
}

/// What `serde_json` reads in a text: a document, or the text of an error.
pub uninterp spec fn parsed(text: Seq<char>) -> Result<JsonView, Seq<char>>;

/// The text that `serde_json` writes for a document on one line.
pub uninterp spec fn compact_text(document: JsonView) -> Seq<char>;

/// The text that `serde_json` writes for a document with indentation.
pub uninterp spec fn pretty_text(document: JsonView) -> Seq<char>;

/// The number `n`.
pub open spec fn integer_view(n: i64) -> NumberView {
    NumberView {
        unsigned: if n >= 0 {
            Some(n as u64)
        } else {
            None
        },
        signed: Some(n),
        double: integer_double(n),
    }
}

/// A JSON document. Where an object repeats a key, the last entry counts.
#[derive(Debug, PartialEq)]
pub enum Json {
    Null,
    Bool(bool),
    Number(serde_json::Number),
    Text(String),
    Array(Vec<Json>),
    Object(Vec<(String, Json)>),
}

/// The members that the entries of an object amount to.
pub open spec fn members(entries: Seq<(String, Json)>) -> Map<Seq<char>, JsonView>
    decreases entries,
{
    if entries.len() == 0 {
        Map::empty()
    } else {
        members(entries.drop_last()).insert(entries.last().0@, entries.last().1.view())
    }
}

/// The documents of a list.
pub open spec fn items(list: Seq<Json>) -> Seq<JsonView>
    decreases list,
{
    if list.len() == 0 {
        Seq::empty()
    } else {
        items(list.drop_last()).push(list.last().view())
    }
}

impl Json {
    /// The document that this value stands for.
    pub open spec fn view(self) -> JsonView
        decreases self,
    {
        match self {
            Json::Null => JsonView::Null,
            Json::Bool(b) => JsonView::Bool(b),
            Json::Number(n) => JsonView::Number(number_view(n)),
            Json::Text(s) => JsonView::Text(s@),
            Json::Array(list) => JsonView::Array(items(list@)),
            Json::Object(entries) => JsonView::Object(members(entries@)),
        }
    }
}

/// One level of a `serde_json::Value`.
pub(crate) enum Shape {
    Null,
    Bool(bool),
    Number(serde_json::Number),
    Text(String),
    Array(Vec<serde_json::Value>),
    Object(Vec<(String, serde_json::Value)>),
}

/// The members that the entries of an outside object amount to.
pub(crate) open spec fn value_members(entries: Seq<(String, serde_json::Value)>) -> Map<
    Seq<char>,
    JsonView,
>
    decreases entries.len(),
{
    if entries.len() == 0 {
        Map::empty()
    } else {
        value_members(entries.drop_last()).insert(entries.last().0@, value_view(entries.last().1))
    }
}

/// The document that one level with its parts amounts to.
pub(crate) open spec fn shape_view(shape: Shape) -> JsonView {
    match shape {
        Shape::Null => JsonView::Null,
        Shape::Bool(b) => JsonView::Bool(b),
        Shape::Number(n) => JsonView::Number(number_view(n)),
        Shape::Text(s) => JsonView::Text(s@),
        Shape::Array(list) => JsonView::Array(
            list@.map_values(|item: serde_json::Value| value_view(item)),
        ),
        Shape::Object(entries) => JsonView::Object(value_members(entries@)),
    }
}

/// No two entries have the same key.
pub(crate) open spec fn distinct_keys(entries: Seq<(String, serde_json::Value)>) -> bool {
    forall|i: int, j: int|
        0 <= i < j < entries.len() ==> (#[trigger] entries[i]).0@ != (#[trigger] entries[j]).0@
}

/// Tells the variants of `serde_json::Value` apart and moves the parts out. An
/// object has one entry for each of its keys.
#[verifier::external_body]
fn open_value(value: serde_json::Value) -> (shape: Shape)
    ensures
        shape_view(shape) == value_view(value),
        shape matches Shape::Object(entries) ==> distinct_keys(entries@),
{
    match value {
        serde_json::Value::Null => Shape::Null,
        serde_json::Value::Bool(b) => Shape::Bool(b),
        serde_json::Value::Number(n) => Shape::Number(n),
        serde_json::Value::String(s) => Shape::Text(s),
        serde_json::Value::Array(list) => Shape::Array(list),
        serde_json::Value::Object(object) => Shape::Object(object.into_iter().collect()),
    }
}

/// Makes a `serde_json::Value` of one level and its parts. An object is
/// collected from its entries, and the last entry of a key counts.
#[verifier::external_body]
fn close_value(shape: Shape) -> (value: serde_json::Value)
    ensures
        value_view(value) == shape_view(shape),
{
    match shape {
        Shape::Null => serde_json::Value::Null,
        Shape::Bool(b) => serde_json::Value::Bool(b),
        Shape::Number(n) => serde_json::Value::Number(n),
        Shape::Text(s) => serde_json::Value::String(s),
        Shape::Array(list) => serde_json::Value::Array(list),
        Shape::Object(entries) => serde_json::Value::Object(entries.into_iter().collect()),
    }
}

/// `serde_json::from_str` into a `serde_json::Value`; an error is given as the
/// text that it displays. Both depend on the text alone.
#[verifier::external_body]
fn read_value(text: &str) -> (result: Result<serde_json::Value, String>)
    ensures
        match (result, parsed(text@)) {
            (Ok(value), Ok(document)) => value_view(value) == document,
            (Err(message), Err(shown)) => message@ == shown,
            _ => false,
        },
{
    serde_json::from_str(text).map_err(|error| error.to_string())
}

/// `serde_json::Value` displayed, which writes it on one line: a line feed in a
/// text is escaped, and there is no other.
#[verifier::external_body]
fn write_value(value: &serde_json::Value) -> (text: String)
    ensures
        text@ == compact_text(value_view(*value)),
        !text@.contains('\n'),
{
    value.to_string()
}

/// `serde_json::to_string_pretty` of a `serde_json::Value`, which does not fail.
#[verifier::external_body]
fn write_value_pretty(value: &serde_json::Value) -> (text: String)
    ensures
        text@ == pretty_text(value_view(*value)),
{
    serde_json::to_string_pretty(value).unwrap_or_default()
}

/// `Number::as_u64` of `serde_json`: the number, if it is an integer from zero
/// to the largest `u64`.
#[verifier::external_body]
fn number_unsigned(number: &serde_json::Number) -> (n: Option<u64>)
    ensures
        n == number_view(*number).unsigned,
{
    number.as_u64()
}

/// `Number::as_f64` of `serde_json`, as a bit pattern. Every number has a
/// double, and it is finite.
#[verifier::external_body]
fn number_double(number: &serde_json::Number) -> (bits: Option<u64>)
    ensures
        bits == Some(number_view(*number).double),
        bits->0 % 0x8000_0000_0000_0000 < 0x7ff0_0000_0000_0000,
{
    number.as_f64().map(|double| double.to_bits())
}

/// `Number::from` of `serde_json` for an `i64`: the integer, whose double is the
/// nearest, ties to even.
#[verifier::external_body]
fn number_of(n: i64) -> (number: serde_json::Number)
    ensures
        number_view(number) == integer_view(n),
{
    serde_json::Number::from(n)
}

/// `Number::clone` of `serde_json`: the same number.
pub assume_specification[ <serde_json::Number as Clone>::clone ](
    number: &serde_json::Number,
) -> (copy: serde_json::Number)
    ensures
        number_view(copy) == number_view(*number),
;

/// A list of documents, one by one.
pub proof fn lemma_items(list: Seq<Json>)
    ensures
        items(list).len() == list.len(),
        forall|i: int| 0 <= i < list.len() ==> items(list)[i] == (#[trigger] list[i]).view(),
    decreases list.len(),
{
    if list.len() > 0 {
        lemma_items(list.drop_last());
        assert forall|i: int| 0 <= i < list.len() implies items(list)[i] == (
        #[trigger] list[i]).view() by {
            if i < list.len() - 1 {
                assert(list.drop_last()[i] == list[i]);
            }
        }
    }
}

proof fn lemma_value_members(entries: Seq<(String, serde_json::Value)>, at: int)
    requires
        distinct_keys(entries),
        0 <= at < entries.len(),
    ensures
        value_members(entries).dom().finite(),
        value_members(entries).contains_key(entries[at].0@),
        value_members(entries)[entries[at].0@] == value_view(entries[at].1),
    decreases entries.len(),
{
    let shorter = entries.drop_last();
    assert(distinct_keys(shorter)) by {
        assert forall|i: int, j: int| 0 <= i < j < shorter.len() implies (
        #[trigger] shorter[i]).0@ != (#[trigger] shorter[j]).0@ by {
            assert(entries[i].0@ != entries[j].0@);
        }
    }
    if shorter.len() > 0 {
        if at < shorter.len() {
            assert(shorter[at] == entries[at]);
            lemma_value_members(shorter, at);
            assert(entries[at].0@ != entries[entries.len() - 1].0@);
        } else {
            lemma_value_members(shorter, 0);
        }
    } else {
        assert(value_members(shorter) =~= Map::empty());
    }
}

/// What a value holds under `key`.
pub open spec fn member(document: JsonView, key: Seq<char>) -> Option<JsonView> {
    match document {
        JsonView::Object(object) => if object.contains_key(key) {
            Some(object[key])
        } else {
            None
        },
        _ => None,
    }
}

/// The text that a document is.
pub open spec fn text_in(document: Option<JsonView>) -> Option<Seq<char>> {
    match document {
        Some(JsonView::Text(s)) => Some(s),
        _ => None,
    }
}

/// The unsigned integer that a document is.
pub open spec fn unsigned_in(document: Option<JsonView>) -> Option<u64> {
    match document {
        Some(JsonView::Number(n)) => n.unsigned,
        _ => None,
    }
}

/// The bit pattern of the double that a document is.
pub open spec fn double_in(document: Option<JsonView>) -> Option<u64> {
    match document {
        Some(JsonView::Number(n)) => Some(n.double),
        _ => None,
    }
}

/// The document behind an optional reference.
pub open spec fn maybe(document: Option<&Json>) -> Option<JsonView> {
    match document {
        Some(d) => Some(d.view()),
        None => None,
    }
}

/// The entry that counts for `key`.
pub fn find<'a>(entries: &'a Vec<(String, Json)>, key: &str) -> (found: Option<&'a Json>)
    ensures
        maybe(found) == member(JsonView::Object(members(entries@)), key@),
{
    let mut i: usize = entries.len();
    assert(entries@.take(entries@.len() as int) =~= entries@);
    while i > 0
        invariant
            i <= entries@.len(),
            member(JsonView::Object(members(entries@)), key@) == member(
                JsonView::Object(members(entries@.take(i as int))),
                key@,
            ),
        decreases i,
    {
        proof {
            let prefix = entries@.take(i as int);
            assert(prefix.drop_last() =~= entries@.take(i - 1));
            assert(prefix.last() == entries@[i - 1]);
        }
        i = i - 1;
        if text::same_text(entries[i].0.as_str(), key) {
            return Some(&entries[i].1);
        }
    }
    assert(entries@.take(0) =~= Seq::empty());
    None
}

/// Adds an entry to an object.
pub fn put(entries: &mut Vec<(String, Json)>, key: &str, value: Json)
    ensures
        members(final(entries)@) == members(old(entries)@).insert(key@, value.view()),
        final(entries)@.len() == old(entries)@.len() + 1,
{
    let ghost before = entries@;
    entries.push((key.to_owned(), value));
    assert(entries@.drop_last() =~= before);
}

impl Json {
    /// The text.
    pub fn text(s: &str) -> (json: Json)
        ensures
            json.view() == JsonView::Text(s@),
    {
        Json::Text(s.to_owned())
    }

    /// The number.
    pub fn integer(n: i64) -> (json: Json)
        ensures
            json.view() == JsonView::Number(integer_view(n)),
    {
        Json::Number(number_of(n))
    }

    /// An object with one member.
    pub fn single(key: &str, value: Json) -> (json: Json)
        ensures
            json.view() == JsonView::Object(Map::empty().insert(key@, value.view())),
    {
        let mut entries: Vec<(String, Json)> = Vec::new();
        put(&mut entries, key, value);
        Json::Object(entries)
    }

    /// What stands under `key`, if this is an object that has it.
    pub fn get(&self, key: &str) -> (found: Option<&Json>)
        ensures
            maybe(found) == member(self.view(), key@),
    {
        match self {
            Json::Object(entries) => find(entries, key),
            _ => None,
        }
    }

    /// The characters, if this is a text.
    pub fn as_str(&self) -> (s: Option<&str>)
        ensures
            match (s, text_in(Some(self.view()))) {
                (Some(a), Some(b)) => a@ == b,
                (None, None) => true,
                _ => false,
            },
    {
        match self {
            Json::Text(s) => Some(s.as_str()),
            _ => None,
        }
    }

    /// The truth value, if this is one.
    pub fn as_bool(&self) -> (b: Option<bool>)
        ensures
            b == (match self.view() {
                JsonView::Bool(b) => Some(b),
                _ => None,
            }),
    {
        match self {
            Json::Bool(b) => Some(*b),
            _ => None,
        }
    }

    /// The unsigned integer, if this is one.
    pub fn as_u64(&self) -> (n: Option<u64>)
        ensures
            n == unsigned_in(Some(self.view())),
    {
        match self {
            Json::Number(n) => number_unsigned(n),
            _ => None,
        }
    }

    /// The bit pattern of the double nearest to the number, if this is one.
    pub fn as_double_bits(&self) -> (bits: Option<u64>)
        ensures
            bits == double_in(Some(self.view())),
            bits matches Some(b) ==> b % 0x8000_0000_0000_0000 < 0x7ff0_0000_0000_0000,
    {
        match self {
            Json::Number(n) => number_double(n),
            _ => None,
        }
    }

    /// True for `null`.
    pub fn is_null(&self) -> (null: bool)
        ensures
            null == (self.view() == JsonView::Null),
    {
        match self {
            Json::Null => true,
            _ => false,
        }
    }

    /// The document in a `serde_json::Value`.
    pub fn from_value(value: serde_json::Value) -> (json: Json)
        ensures
            json.view() == value_view(value),
        decreases value_view(value),
    {
        match open_value(value) {
            Shape::Null => Json::Null,
            Shape::Bool(b) => Json::Bool(b),
            Shape::Number(n) => Json::Number(n),
            Shape::Text(s) => Json::Text(s),
            Shape::Array(list) => {
                let ghost all = list@;
                let ghost views = all.map_values(|item: serde_json::Value| value_view(item));
                let mut out: Vec<Json> = Vec::new();
                for item in iter: list
                    invariant
                        iter.seq() == all,
                        views == all.map_values(|item: serde_json::Value| value_view(item)),
                        value_view(value) == JsonView::Array(views),
                        items(out@) =~= views.take(iter.index() as int),
                {
                    let ghost at = iter.index() as int;
                    let ghost before = out@;
                    assert(views[at] == value_view(item));
                    assert(decreases_to!(value_view(value) => value_view(value)->Array_0));
                    assert(decreases_to!(views => views[at]));
                    out.push(Json::from_value(item));
                    assert(out@.drop_last() =~= before);
                }
                assert(views.take(views.len() as int) =~= views);
                Json::Array(out)
            },
            Shape::Object(entries) => {
                let ghost all = entries@;
                let mut out: Vec<(String, Json)> = Vec::new();
                for entry in iter: entries
                    invariant
                        iter.seq() == all,
                        value_view(value) == JsonView::Object(value_members(all)),
                        members(out@) == value_members(all.take(iter.index() as int)),
                        distinct_keys(all),
                {
                    let ghost at = iter.index() as int;
                    let ghost before = out@;
                    proof {
                        assert(all.take(at + 1).drop_last() =~= all.take(at));
                        lemma_value_members(all, at);
                        let object = value_members(all);
                        assert(decreases_to!(value_view(value) => value_view(value)->Object_0));
                        assert(decreases_to!(object => object[entry.0@]));
                    }
                    let (key, item) = entry;
                    out.push((key, Json::from_value(item)));
                    assert(out@.drop_last() =~= before);
                }
                assert(all.take(all.len() as int) =~= all);
                Json::Object(out)
            },
        }
    }

    /// The `serde_json::Value` that holds the document.
    pub fn to_value(&self) -> (value: serde_json::Value)
        ensures
            value_view(value) == self.view(),
        decreases self,
    {
        match self {
            Json::Null => close_value(Shape::Null),
            Json::Bool(b) => close_value(Shape::Bool(*b)),
            Json::Number(n) => close_value(Shape::Number(n.clone())),
            Json::Text(s) => close_value(Shape::Text(s.clone())),
            Json::Array(list) => {
                let mut out: Vec<serde_json::Value> = Vec::new();
                for i in 0..list.len()
                    invariant
                        self == Json::Array(*list),
                        out@.len() == i,
                        forall|k: int|
                            0 <= k < i ==> value_view(#[trigger] out@[k]) == list@[k].view(),
                {
                    assert(decreases_to!(self => self->Array_0));
                    assert(decreases_to!(self->Array_0 => self->Array_0@));
                    assert(decreases_to!(list@ => list@[i as int]));
                    out.push(list[i].to_value());
                }
                proof {
                    lemma_items(list@);
                    assert(out@.map_values(|item: serde_json::Value| value_view(item))
                        =~= items(list@));
                }
                close_value(Shape::Array(out))
            },
            Json::Object(entries) => {
                let mut out: Vec<(String, serde_json::Value)> = Vec::new();
                for i in 0..entries.len()
                    invariant
                        self == Json::Object(*entries),
                        value_members(out@) == members(entries@.take(i as int)),
                {
                    let ghost before = out@;
                    proof {
                        assert(entries@.take(i + 1).drop_last() =~= entries@.take(i as int));
                    }
                    assert(decreases_to!(self => self->Object_0));
                    assert(decreases_to!(self->Object_0 => self->Object_0@));
                    assert(decreases_to!(entries@ => entries@[i as int]));
                    assert(decreases_to!(entries@[i as int] => entries@[i as int].1));
                    out.push((entries[i].0.clone(), entries[i].1.to_value()));
                    assert(out@.drop_last() =~= before);
                }
                assert(entries@.take(entries@.len() as int) =~= entries@);
                close_value(Shape::Object(out))
            },
        }
    }

    /// Reads a document, or gives the text of the error.
    pub fn parse(text: &str) -> (result: Result<Json, String>)
        ensures
            match (result, parsed(text@)) {
                (Ok(json), Ok(document)) => json.view() == document,
                (Err(message), Err(shown)) => message@ == shown,
                _ => false,
            },
    {
        match read_value(text) {
            Ok(value) => Ok(Json::from_value(value)),
            Err(message) => Err(message),
        }
    }

    /// The document written on one line.
    pub fn to_text(&self) -> (text: String)
        ensures
            text@ == compact_text(self.view()),
            !text@.contains('\n'),
    {
        write_value(&self.to_value())
    }

    /// The document written with indentation.
    pub fn to_pretty(&self) -> (text: String)
        ensures
            text@ == pretty_text(self.view()),
    {
        write_value_pretty(&self.to_value())
    }
}

impl Clone for Json {
    fn clone(&self) -> (copy: Json)
        ensures
            copy.view() == self.view(),
        decreases self,
    {
        match self {
            Json::Null => Json::Null,
            Json::Bool(b) => Json::Bool(*b),
            Json::Number(n) => Json::Number(n.clone()),
            Json::Text(s) => Json::Text(s.clone()),
            Json::Array(list) => {
                let mut out: Vec<Json> = Vec::new();
                for i in 0..list.len()
                    invariant
                        self == Json::Array(*list),
                        items(out@) == items(list@.take(i as int)),
                {
                    let ghost before = out@;
                    assert(list@.take(i + 1).drop_last() =~= list@.take(i as int));
                    assert(decreases_to!(self => self->Array_0));
                    assert(decreases_to!(self->Array_0 => self->Array_0@));
                    assert(decreases_to!(list@ => list@[i as int]));
                    out.push(list[i].clone());
                    assert(out@.drop_last() =~= before);
                }
                assert(list@.take(list@.len() as int) =~= list@);
                Json::Array(out)
            },
            Json::Object(entries) => {
                let mut out: Vec<(String, Json)> = Vec::new();
                for i in 0..entries.len()
                    invariant
                        self == Json::Object(*entries),
                        members(out@) == members(entries@.take(i as int)),
                {
                    let ghost before = out@;
                    assert(entries@.take(i + 1).drop_last() =~= entries@.take(i as int));
                    assert(decreases_to!(self => self->Object_0));
                    assert(decreases_to!(self->Object_0 => self->Object_0@));
                    assert(decreases_to!(entries@ => entries@[i as int]));
                    assert(decreases_to!(entries@[i as int] => entries@[i as int].1));
                    out.push((entries[i].0.clone(), entries[i].1.clone()));
                    assert(out@.drop_last() =~= before);
                }
                assert(entries@.take(entries@.len() as int) =~= entries@);
                Json::Object(out)
            },
        }
    }
}

/// A document is a text, an integer or a number for a caller only if it is one, and
/// only an object has members; what is put under a key is found there, and nothing
/// else moves.
pub proof fn law_parts_of_documents(
    document: JsonView,
    object: Map<Seq<char>, JsonView>,
    key: Seq<char>,
    value: JsonView,
    other: Seq<char>,
    s: Seq<char>,
)
    ensures
        text_in(Some(document)) == Some(s) <==> document == JsonView::Text(s),
        unsigned_in(Some(document)) is Some ==> document is Number,
        document is Number ==> unsigned_in(Some(document)) == document->Number_0.unsigned
            && double_in(Some(document)) == Some(document->Number_0.double),
        !(document is Number) ==> double_in(Some(document)) is None,
        text_in(None) is None && unsigned_in(None) is None && double_in(None) is None,
        member(document, key) is Some ==> document is Object,
        member(JsonView::Object(object.insert(key, value)), key) == Some(value),
        other != key ==> member(JsonView::Object(object.insert(key, value)), other) == member(
            JsonView::Object(object),
            other,
        ),
        member(JsonView::Object(object.remove(key)), key) is None,
{
}

} // verus!
