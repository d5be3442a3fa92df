//! JSON documents as plain values.
use vstd::prelude::*;
use vstd::string::*;

use crate::chars::same_text;

verus! {

// ---------------------------------------------------------------------------
// Plain values
// ---------------------------------------------------------------------------

/// A JSON value. A number is known by its value only where it is a whole number from 0 to the
/// greatest `u64`. Of fields with one name, the first counts.
#[derive(Debug)]
pub enum Json {
    Null,
    Bool(bool),
    Number(Option<u64>),
    Text(String),
    Array(Vec<Json>),
    Object(Vec<(String, Json)>),
}

/// The contents of a [`Json`].
pub enum JsonTree {
    Null,
    Bool(bool),
    Number(Option<u64>),
    Text(Seq<char>),
    Array(Seq<JsonTree>),
    Object(Seq<(Seq<char>, JsonTree)>),
}

/// The contents of a plain JSON value.
pub open spec fn tree_of(json: Json) -> JsonTree
    decreases json,
{
    match json {
        Json::Null => JsonTree::Null,
        Json::Bool(b) => JsonTree::Bool(b),
        Json::Number(n) => JsonTree::Number(n),
        Json::Text(s) => JsonTree::Text(s@),
        Json::Array(items) => JsonTree::Array(
            Seq::new(
                items@.len(),
                |i: int|
                    if 0 <= i < items@.len() {
                        tree_of(items@[i])
                    } else {
                        JsonTree::Null
                    },
            ),
        ),
        Json::Object(fields) => JsonTree::Object(
            Seq::new(
                fields@.len(),
                |i: int|
                    if 0 <= i < fields@.len() {
                        (fields@[i].0@, tree_of(fields@[i].1))
                    } else {
                        (Seq::empty(), JsonTree::Null)
                    },
            ),
        ),
    }
}

impl View for Json {
    type V = JsonTree;

    open spec fn view(&self) -> JsonTree {
        tree_of(*self)
    }
}

/// The value of the first field called `key`.
pub open spec fn field_from(
    fields: Seq<(Seq<char>, JsonTree)>,
    key: Seq<char>,
    from: int,
) -> Option<JsonTree>
    decreases fields.len() - from,
{
    if from < 0 || from >= fields.len() {
        None
    } else if fields[from].0 == key {
        Some(fields[from].1)
    } else {
        field_from(fields, key, from + 1)
    }
}

/// The value of the field `key`, where the value is an object that has one.
pub open spec fn field(tree: JsonTree, key: Seq<char>) -> Option<JsonTree> {
    match tree {
        JsonTree::Object(fields) => field_from(fields, key, 0),
        _ => None,
    }
}

/// The text that a value is.
pub open spec fn as_text(tree: JsonTree) -> Option<Seq<char>> {
    match tree {
        JsonTree::Text(s) => Some(s),
        _ => None,
    }
}

/// The items of the array that a value is.
pub open spec fn as_items(tree: JsonTree) -> Option<Seq<JsonTree>> {
    match tree {
        JsonTree::Array(items) => Some(items),
        _ => None,
    }
}

impl Json {
    /// The value of the field `key`, where this is an object that has one.
    pub fn get(&self, key: &str) -> (r: Option<&Json>)
        ensures
            match r {
                Some(value) => field(self@, key@) == Some(value@),
                None => field(self@, key@) is None,
            },
    {
        match self {
            Json::Object(fields) => {
                let ghost trees = self@->Object_0;
                let mut i: usize = 0;
                while i < fields.len()
                    invariant
                        self@ == JsonTree::Object(trees),
                        self == Json::Object(*fields),
                        trees.len() == fields@.len(),
                        i <= fields.len(),
                        field_from(trees, key@, 0) == field_from(trees, key@, i as int),
                    decreases fields.len() - i,
                {
                    assert(trees[i as int] == (fields@[i as int].0@, fields@[i as int].1@));
                    if same_text(fields[i].0.as_str(), key) {
                        return Some(&fields[i].1);
                    }
                    i = i + 1;
                }
                None
            },
            _ => None,
        }
    }

    /// The text that this value is, if it is one.
    pub fn as_str(&self) -> (r: Option<&str>)
        ensures
            match r {
                Some(s) => as_text(self@) == Some(s@),
                None => as_text(self@) is None,
            },
    {
        match self {
            Json::Text(s) => Some(s.as_str()),
            _ => None,
        }
    }

    /// The items of the array that this value is, if it is one.
    pub fn as_array(&self) -> (r: Option<&Vec<Json>>)
        ensures
            match r {
                Some(items) => as_items(self@) is Some && as_items(self@)->0.len() == items@.len()
                    && forall|i: int|
                    0 <= i < items@.len() ==> (#[trigger] as_items(self@)->0[i]) == items@[i]@,
                None => as_items(self@) is None,
            },
    {
        match self {
            Json::Array(items) => Some(items),
            _ => None,
        }
    }
}

// ---------------------------------------------------------------------------
// Reading a text
// ---------------------------------------------------------------------------

/// A value as `serde_json` holds it.
#[verifier::external_type_specification]
#[verifier::external_body]
pub struct ExValue(serde_json::Value);

/// Why `serde_json` could not read a text.
#[verifier::external_type_specification]
#[verifier::external_body]
pub struct ExJsonError(serde_json::Error);

/// What a `serde_json::Value` holds, through all its levels.
pub uninterp spec fn value_tree(value: serde_json::Value) -> JsonTree;

/// The JSON value that a text denotes according to `serde_json::from_str`, if it denotes one.
pub uninterp spec fn json_document(text: Seq<char>) -> Option<JsonTree>;

/// The outermost level of a `serde_json::Value`.
enum JsonLayer {
    Null,
    Bool(bool),
    Number(Option<u64>),
    Text(String),
    Array(Vec<serde_json::Value>),
    Object(Vec<(String, serde_json::Value)>),
}

/// Whether a value's outermost level is that of a tree.
spec fn layer_matches(layer: JsonLayer, tree: JsonTree) -> bool {
    match (layer, tree) {
        (JsonLayer::Null, JsonTree::Null) => true,
        (JsonLayer::Bool(b), JsonTree::Bool(t)) => b == t,
        (JsonLayer::Number(n), JsonTree::Number(t)) => n == t,
        (JsonLayer::Text(s), JsonTree::Text(t)) => s@ == t,
        (JsonLayer::Array(items), JsonTree::Array(t)) => items@.len() == t.len() && forall|i: int|
            0 <= i < t.len() ==> value_tree(items@[i]) == #[trigger] t[i],
        (JsonLayer::Object(fields), JsonTree::Object(t)) => fields@.len() == t.len() && forall|
            i: int,
        |
            0 <= i < t.len() ==> (#[trigger] t[i]).0 == fields@[i].0@ && t[i].1 == value_tree(
                fields@[i].1,
            ),
        _ => false,
    }
}

/// `serde_json::from_str`, for `serde_json::Value`: whether the text is accepted, and what value
/// comes out, depends on the text alone.
#[verifier::external_body]
fn read_value(text: &str) -> (r: Result<serde_json::Value, serde_json::Error>)
    ensures
        match r {
            Ok(value) => json_document(text@) == Some(value_tree(value)),
            Err(_) => json_document(text@) is None,
        },
{
    serde_json::from_str::<serde_json::Value>(text)
}

/// Tells the variants of `serde_json::Value` apart and hands out what each holds. A number gives
/// what `serde_json::Number::as_u64` says of it; an object gives its entries, in the order of
/// the map that holds them.
#[verifier::external_body]
fn open_value(value: serde_json::Value) -> (layer: JsonLayer)
    ensures
        layer_matches(layer, value_tree(value)),
{
    match value {
        serde_json::Value::Null => JsonLayer::Null,
        serde_json::Value::Bool(b) => JsonLayer::Bool(b),
        serde_json::Value::Number(n) => JsonLayer::Number(n.as_u64()),
        serde_json::Value::String(s) => JsonLayer::Text(s),
        serde_json::Value::Array(items) => JsonLayer::Array(items),
        serde_json::Value::Object(fields) => JsonLayer::Object(fields.into_iter().collect()),
    }
}

/// The plain form of a `serde_json::Value`.
fn plain(value: serde_json::Value) -> (json: Json)
    ensures
        json@ == value_tree(value),
    decreases value_tree(value),
{
    let ghost tree = value_tree(value);
    match open_value(value) {
        JsonLayer::Null => Json::Null,
        JsonLayer::Bool(b) => Json::Bool(b),
        JsonLayer::Number(n) => Json::Number(n),
        JsonLayer::Text(s) => Json::Text(s),
        JsonLayer::Array(items) => {
            let ghost trees = tree->Array_0;
            let mut out: Vec<Json> = Vec::new();
            for item in it: items
                invariant
                    it.seq() == items@,
                    tree == JsonTree::Array(trees),
                    tree == value_tree(value),
                    layer_matches(JsonLayer::Array(items), tree),
                    out@.len() == it.index(),
                    forall|i: int| 0 <= i < out@.len() ==> (#[trigger] out@[i])@ == trees[i],
            {
                assert(value_tree(item) == trees[it.index()]);
                assert(decreases_to!(tree => trees[it.index()]));
                out.push(plain(item));
            }
            let json = Json::Array(out);
            assert(json@->Array_0 =~= trees);
            json
        },
        JsonLayer::Object(fields) => {
            let ghost trees = tree->Object_0;
            let mut out: Vec<(String, Json)> = Vec::new();
            for entry in it: fields
                invariant
                    it.seq() == fields@,
                    tree == JsonTree::Object(trees),
                    tree == value_tree(value),
                    layer_matches(JsonLayer::Object(fields), tree),
                    out@.len() == it.index(),
                    forall|i: int|
                        0 <= i < out@.len() ==> (#[trigger] out@[i]).0@ == trees[i].0
                            && out@[i].1@ == trees[i].1,
            {
                let (key, inner) = entry;
                assert(trees[it.index()].1 == value_tree(inner));
                assert(decreases_to!(tree => trees[it.index()].1));
                out.push((key, plain(inner)));
            }
            let json = Json::Object(out);
            assert(json@->Object_0 =~= trees);
            json
        },
    }
}

/// The JSON value that `text` denotes, if it denotes one.
pub fn parse_json(text: &str) -> (r: Option<Json>)
    ensures
        match r {
            Some(json) => json_document(text@) == Some(json@),
            None => json_document(text@) is None,
        },
{
    match read_value(text) {
        Ok(value) => Some(plain(value)),
        Err(_) => None,
    }
}

// ---------------------------------------------------------------------------
// Writing a text
// ---------------------------------------------------------------------------

/// No two fields have one name.
pub open spec fn distinct_names(fields: Seq<(Seq<char>, JsonTree)>) -> bool {
    forall|i: int, j: int|
        0 <= i < j < fields.len() ==> (#[trigger] fields[i]).0 != (#[trigger] fields[j]).0
}

/// A value that can be written and read back: its arrays and objects stand in one another at
/// most `levels` deep, its numbers are whole, and no object has two fields with one name.
pub open spec fn writable(tree: JsonTree, levels: nat) -> bool
    decreases levels,
{
    match tree {
        JsonTree::Number(n) => n is Some,
        JsonTree::Array(items) => levels > 0 && forall|i: int|
            0 <= i < items.len() ==> writable(#[trigger] items[i], (levels - 1) as nat),
        JsonTree::Object(fields) => levels > 0 && distinct_names(fields) && forall|i: int|
            0 <= i < fields.len() ==> writable((#[trigger] fields[i]).1, (levels - 1) as nat),
        _ => true,
    }
}

/// How deep the arrays and objects of a text may stand in one another for `serde_json::from_str`.
pub const LEVELS: usize = 127;

/// The text that `serde_json::to_string_pretty` writes of a value.
pub uninterp spec fn pretty_json(tree: JsonTree) -> Seq<char>;

/// Makes a `serde_json::Value` of its outermost level: the variant, a number by
/// `serde_json::Value::from`, an object by collecting its entries into a `serde_json::Map`, which
/// with the feature `preserve_order` keeps them in the order in which they come.
#[verifier::external_body]
fn seal_value(layer: JsonLayer) -> (value: serde_json::Value)
    requires
        layer matches JsonLayer::Number(n) ==> n is Some,
        layer matches JsonLayer::Object(fields) ==> forall|i: int, j: int|
            0 <= i < j < fields@.len() ==> (#[trigger] fields@[i]).0@ != (#[trigger] fields@[j]).0@,
    ensures
        layer_matches(layer, value_tree(value)),
{
    match layer {
        JsonLayer::Null => serde_json::Value::Null,
        JsonLayer::Bool(b) => serde_json::Value::Bool(b),
        JsonLayer::Number(n) => serde_json::Value::from(n),
        JsonLayer::Text(s) => serde_json::Value::String(s),
        JsonLayer::Array(items) => serde_json::Value::Array(items),
        JsonLayer::Object(fields) => serde_json::Value::Object(fields.into_iter().collect()),
    }
}

/// `serde_json::to_string_pretty`, for `serde_json::Value`: a value is always written, since its
/// keys are texts and the text is written to memory. The text depends on what the value holds
/// alone, and `serde_json::from_str` reads that back from it. The text of an object begins with
/// the object's opening brace and ends with its closing one.
#[verifier::external_body]
fn write_value(value: &serde_json::Value) -> (r: Result<String, serde_json::Error>)
    requires
        writable(value_tree(*value), LEVELS as nat),
    ensures
        r is Ok,
        r matches Ok(text) ==> {
            &&& text@ == pretty_json(value_tree(*value))
            &&& json_document(text@) == Some(value_tree(*value))
            &&& value_tree(*value) is Object ==> text@.len() >= 2 && text@[0] == '{' && text@.last()
                == '}'
        },
{
    serde_json::to_string_pretty(value)
}

/// The `serde_json::Value` of a plain value.
fn sealed(json: Json, Ghost(levels): Ghost<nat>) -> (value: serde_json::Value)
    requires
        writable(json@, levels),
    ensures
        value_tree(value) == json@,
    decreases json@,
{
    let ghost tree = json@;
    match json {
        Json::Null => seal_value(JsonLayer::Null),
        Json::Bool(b) => seal_value(JsonLayer::Bool(b)),
        Json::Number(n) => seal_value(JsonLayer::Number(n)),
        Json::Text(s) => seal_value(JsonLayer::Text(s)),
        Json::Array(items) => {
            let ghost trees = tree->Array_0;
            let mut out: Vec<serde_json::Value> = Vec::new();
            for item in it: items
                invariant
                    it.seq() == items@,
                    tree == json@,
                    json == Json::Array(items),
                    tree == JsonTree::Array(trees),
                    trees.len() == items@.len(),
                    writable(tree, levels),
                    out@.len() == it.index(),
                    forall|i: int|
                        0 <= i < out@.len() ==> value_tree(#[trigger] out@[i]) == trees[i],
            {
                let ghost i = it.index();
                assert(tree->Array_0 == trees);
                assert(writable(trees[i], (levels - 1) as nat));
                assert(item@ == trees[i]);
                assert(decreases_to!(tree => trees[i]));
                out.push(sealed(item, Ghost((levels - 1) as nat)));
            }
            let value = seal_value(JsonLayer::Array(out));
            assert(value_tree(value)->Array_0 =~= trees);
            value
        },
        Json::Object(fields) => {
            let ghost trees = tree->Object_0;
            let mut out: Vec<(String, serde_json::Value)> = Vec::new();
            for entry in it: fields
                invariant
                    it.seq() == fields@,
                    tree == json@,
                    json == Json::Object(fields),
                    tree == JsonTree::Object(trees),
                    trees.len() == fields@.len(),
                    writable(tree, levels),
                    out@.len() == it.index(),
                    forall|i: int|
                        0 <= i < out@.len() ==> (#[trigger] out@[i]).0@ == trees[i].0
                            && value_tree(out@[i].1) == trees[i].1,
            {
                let (key, inner) = entry;
                assert(trees[it.index()] == (key@, inner@));
                assert(decreases_to!(tree => trees[it.index()].1));
                out.push((key, sealed(inner, Ghost((levels - 1) as nat))));
            }
            let value = seal_value(JsonLayer::Object(out));
            assert(value_tree(value)->Object_0 =~= trees);
            value
        },
    }
}

/// Writes a value, with line breaks and indentation. What is written is read back as the value.
pub fn write_json(json: Json) -> (r: String)
    requires
        writable(json@, LEVELS as nat),
    ensures
        r@ == pretty_json(json@),
        json_document(r@) == Some(json@),
        json@ is Object ==> r@.len() >= 2 && r@[0] == '{' && r@.last() == '}',
{
    let value: serde_json::Value = sealed(json, Ghost(LEVELS as nat));
    write_value(&value).unwrap()
}

/// The field with a name is the first that has it; where none has it, there is none, and only
/// objects have fields.
pub proof fn law_first_field_counts(fields: Seq<(Seq<char>, JsonTree)>, key: Seq<char>)
    ensures
        forall|i: int|
            0 <= i < fields.len() && (#[trigger] fields[i]).0 == key && (forall|j: int|
                0 <= j < i ==> (#[trigger] fields[j]).0 != key) ==> field(
                JsonTree::Object(fields),
                key,
            ) == Some(fields[i].1),
        (forall|i: int| 0 <= i < fields.len() ==> (#[trigger] fields[i]).0 != key) ==> field(
            JsonTree::Object(fields),
            key,
        ) is None,
        forall|tree: JsonTree| !(tree is Object) ==> #[trigger] field(tree, key) is None,
{
    lemma_first_field(fields, key, 0);
}

proof fn lemma_first_field(fields: Seq<(Seq<char>, JsonTree)>, key: Seq<char>, from: int)
    requires
        0 <= from <= fields.len(),
    ensures
        forall|i: int|
            from <= i < fields.len() && (#[trigger] fields[i]).0 == key && (forall|j: int|
                from <= j < i ==> (#[trigger] fields[j]).0 != key) ==> field_from(fields, key, from)
                == Some(fields[i].1),
        (forall|i: int| from <= i < fields.len() ==> (#[trigger] fields[i]).0 != key) ==> field_from(
            fields,
            key,
            from,
        ) is None,
    decreases fields.len() - from,
{
    if from < fields.len() && fields[from].0 != key {
        lemma_first_field(fields, key, from + 1);
    }
}

} // verus!
