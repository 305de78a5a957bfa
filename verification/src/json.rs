//! JSON documents: what the gateways read from them, and how payloads are written.

use serde_json::Value;
use vstd::prelude::*;

use crate::text::same_text;

verus! {

/// A JSON document as a mathematical value.
///
/// `OtherNumber` stands for every number that is not an unsigned 64-bit integer: nothing here
/// reads one.
pub enum JsonTree {
    Null,
    Bool(bool),
    UInt(u64),
    OtherNumber,
    Str(Seq<char>),
    Array(Seq<JsonTree>),
    Object(Map<Seq<char>, JsonTree>),
}

impl JsonTree {
    /// The member `key` of an object; null where there is none, or no object.
    pub open spec fn get(self, key: Seq<char>) -> JsonTree {
        match self {
            JsonTree::Object(members) => if members.dom().contains(key) {
                members[key]
            } else {
                JsonTree::Null
            },
            _ => JsonTree::Null,
        }
    }

    /// The number, where it is an unsigned 64-bit integer.
    pub open spec fn as_u64(self) -> Option<u64> {
        match self {
            JsonTree::UInt(n) => Some(n),
            _ => None,
        }
    }

    /// The characters of a string.
    pub open spec fn as_str(self) -> Option<Seq<char>> {
        match self {
            JsonTree::Str(text) => Some(text),
            _ => None,
        }
    }

    /// The characters of a string, or none at all for anything else.
    pub open spec fn str_or_empty(self) -> Seq<char> {
        match self {
            JsonTree::Str(text) => text,
            _ => Seq::empty(),
        }
    }

    /// The items of an array.
    pub open spec fn as_array(self) -> Option<Seq<JsonTree>> {
        match self {
            JsonTree::Array(items) => Some(items),
            _ => None,
        }
    }

    /// Whether arrays and objects nest at most `depth` deep and every number is an unsigned
    /// 64-bit integer.
    pub open spec fn plain_within(self, depth: nat) -> bool
        decreases depth,
    {
        match self {
            JsonTree::OtherNumber => false,
            JsonTree::Array(items) => depth > 0 && forall|i: int|
                0 <= i < items.len() ==> (#[trigger] items[i]).plain_within((depth - 1) as nat),
            JsonTree::Object(members) => depth > 0 && forall|key: Seq<char>|
                members.dom().contains(key) ==> (#[trigger] members[key]).plain_within(
                    (depth - 1) as nat,
                ),
            _ => true,
        }
    }
}

/// A JSON document as the gateways read it. Where a key occurs twice in an object, the last
/// occurrence counts.
pub enum Json {
    Null,
    Bool(bool),
    UInt(u64),
    OtherNumber,
    Str(String),
    Array(Vec<Json>),
    Object(Vec<(String, Json)>),
}

impl Json {
    pub open spec fn tree(self) -> JsonTree
        decreases self,
    {
        match self {
            Json::Null => JsonTree::Null,
            Json::Bool(b) => JsonTree::Bool(b),
            Json::UInt(n) => JsonTree::UInt(n),
            Json::OtherNumber => JsonTree::OtherNumber,
            Json::Str(text) => JsonTree::Str(text@),
            Json::Array(items) => JsonTree::Array(item_trees(items@)),
            Json::Object(members) => JsonTree::Object(member_trees(members@)),
        }
    }
}

/// The trees of the items of an array.
pub open spec fn item_trees(items: Seq<Json>) -> Seq<JsonTree>
    decreases items,
{
    if items.len() == 0 {
        Seq::empty()
    } else {
        item_trees(items.drop_last()).push(items.last().tree())
    }
}

/// The trees of the members of an object, by key.
pub open spec fn member_trees(members: Seq<(String, Json)>) -> Map<Seq<char>, JsonTree>
    decreases members,
{
    if members.len() == 0 {
        Map::empty()
    } else {
        member_trees(members.drop_last()).insert(members.last().0@, members.last().1.tree())
    }
}

impl View for Json {
    type V = JsonTree;

    open spec fn view(&self) -> JsonTree {
        self.tree()
    }
}

/// `item_trees` goes item by item.
pub proof fn lemma_item_trees(items: Seq<Json>)
    ensures
        item_trees(items).len() == items.len(),
        forall|i: int| 0 <= i < items.len() ==> #[trigger] item_trees(items)[i] == items[i]@,
    decreases items.len(),
{
    if items.len() > 0 {
        lemma_item_trees(items.drop_last());
        assert forall|i: int| 0 <= i < items.len() implies #[trigger] item_trees(items)[i]
            == items[i]@ by {
            if i < items.len() - 1 {
                assert(items.drop_last()[i] == items[i]);
            }
        }
    }
}

impl Json {
    /// The member `key` of an object; null where there is none, or no object.
    pub fn get(&self, key: &str) -> (member: &Json)
        ensures
            member@ == self@.get(key@),
    {
        match self {
            Json::Object(members) => {
                let mut i: usize = members.len();
                assert(members@.take(i as int) == members@);
                while i > 0
                    invariant
                        i <= members.len(),
                        self@.get(key@) == JsonTree::Object(
                            member_trees(members@.take(i as int)),
                        ).get(key@),
                    decreases i,
                {
                    i = i - 1;
                    let ghost shorter = members@.take(i as int);
                    let ghost longer = members@.take(i + 1);
                    assert(longer.drop_last() == shorter);
                    assert(longer.last() == members@[i as int]);
                    if same_text(members[i].0.as_str(), key) {
                        return &members[i].1;
                    }
                }
                assert(members@.take(0).len() == 0);
                &Json::Null
            },
            _ => &Json::Null,
        }
    }

    /// The number, where it is an unsigned 64-bit integer.
    pub fn as_u64(&self) -> (number: Option<u64>)
        ensures
            number == self@.as_u64(),
    {
        match self {
            Json::UInt(n) => Some(*n),
            _ => None,
        }
    }

    /// The characters of a string.
    pub fn as_str(&self) -> (text: Option<&str>)
        ensures
            crate::text::opt_str_view(text) == self@.as_str(),
    {
        match self {
            Json::Str(text) => Some(text.as_str()),
            _ => None,
        }
    }

    /// A copy of the characters of a string, or an empty string for anything else.
    pub fn str_or_empty(&self) -> (text: String)
        ensures
            text@ == self@.str_or_empty(),
    {
        match self {
            Json::Str(text) => text.clone(),
            _ => String::new(),
        }
    }

    /// Whether this is the null value.
    pub fn is_null(&self) -> (null: bool)
        ensures
            null == (self@ is Null),
    {
        match self {
            Json::Null => true,
            _ => false,
        }
    }

    /// The items of an array.
    pub fn as_array(&self) -> (items: Option<&Vec<Json>>)
        ensures
            items is Some == self@.as_array() is Some,
            items matches Some(v) ==> item_trees(v@) == self@.as_array()->0,
    {
        match self {
            Json::Array(items) => Some(items),
            _ => None,
        }
    }
}

/// The document type of the `serde_json` crate.
#[verifier::external_type_specification]
#[verifier::external_body]
pub struct ExValue(serde_json::Value);

/// What a `serde_json::Value` holds: its members and items, down to the leaves.
pub uninterp spec fn value_tree(value: serde_json::Value) -> JsonTree;

/// What `serde_json::from_str` reads in a text: a document, or nothing where the text is none.
pub uninterp spec fn json_parsed(text: Seq<char>) -> Option<JsonTree>;

/// How `serde_json::Value` displays itself.
pub uninterp spec fn json_rendered(tree: JsonTree) -> Seq<char>;

/// The outermost layer of a `serde_json::Value`.
pub enum ValueLayer<'a> {
    Null,
    Bool(bool),
    UInt(u64),
    OtherNumber,
    Str(&'a str),
    Array(&'a Vec<Value>),
    Object(Vec<(&'a String, &'a Value)>),
}

/// The trees of the members of an object, by key.
pub open spec fn layer_trees(members: Seq<(&String, &Value)>) -> Map<Seq<char>, JsonTree>
    decreases members.len(),
{
    if members.len() == 0 {
        Map::empty()
    } else {
        layer_trees(members.drop_last()).insert(
            members.last().0@,
            value_tree(*members.last().1),
        )
    }
}

impl ValueLayer<'_> {
    /// The tree of the value that this is the outermost layer of.
    pub open spec fn tree(self) -> JsonTree {
        match self {
            ValueLayer::Null => JsonTree::Null,
            ValueLayer::Bool(b) => JsonTree::Bool(b),
            ValueLayer::UInt(n) => JsonTree::UInt(n),
            ValueLayer::OtherNumber => JsonTree::OtherNumber,
            ValueLayer::Str(text) => JsonTree::Str(text@),
            ValueLayer::Array(items) => JsonTree::Array(
                Seq::new(items@.len(), |i: int| value_tree(items@[i])),
            ),
            ValueLayer::Object(members) => JsonTree::Object(layer_trees(members@)),
        }
    }

    /// Whether no key occurs twice.
    pub open spec fn keys_distinct(self) -> bool {
        self matches ValueLayer::Object(members) ==> forall|i: int, j: int|
            0 <= i < j < members@.len() ==> (#[trigger] members@[i]).0@ != (
            #[trigger] members@[j]).0@
    }
}

/// Tells the variants of `serde_json::Value` apart and hands out what the variant holds. A number
/// is a `UInt` exactly where `serde_json::Number::as_u64` gives its value. The members of an
/// object come from `serde_json::Map::iter`, which visits each key once.
#[verifier::external_body]
fn open_value(value: &Value) -> (layer: ValueLayer<'_>)
    ensures
        layer.tree() == value_tree(*value),
        layer.keys_distinct(),
{
    match value {
        Value::Null => ValueLayer::Null,
        Value::Bool(b) => ValueLayer::Bool(*b),
        Value::Number(n) => n.as_u64().map_or(ValueLayer::OtherNumber, ValueLayer::UInt),
        Value::String(text) => ValueLayer::Str(text),
        Value::Array(items) => ValueLayer::Array(items),
        Value::Object(members) => ValueLayer::Object(members.iter().collect()),
    }
}

/// Calls `serde_json::from_str`: the document that the text holds, or nothing where
/// `from_str` reports an error.
#[verifier::external_body]
fn parse_value(text: &str) -> (value: Option<Value>)
    ensures
        value is Some == json_parsed(text@) is Some,
        value matches Some(v) ==> value_tree(v) == json_parsed(text@)->0,
{
    serde_json::from_str(text).ok()
}

/// With distinct keys, each member of an object is found under its key.
proof fn lemma_layer_member(members: Seq<(&String, &Value)>, i: int)
    requires
        0 <= i < members.len(),
        forall|a: int, b: int|
            0 <= a < b < members.len() ==> (#[trigger] members[a]).0@ != (
            #[trigger] members[b]).0@,
    ensures
        layer_trees(members).dom().finite(),
        layer_trees(members).dom().contains(members[i].0@),
        layer_trees(members)[members[i].0@] == value_tree(*members[i].1),
    decreases members.len(),
{
    let shorter = members.drop_last();
    if shorter.len() > 0 {
        let k = if i < shorter.len() {
            i
        } else {
            0
        };
        lemma_layer_member(shorter, k);
        if i < shorter.len() {
            assert(members[i] == shorter[i]);
            assert(members[i].0@ != members.last().0@);
        }
    } else {
        assert(layer_trees(shorter) == Map::<Seq<char>, JsonTree>::empty());
    }
}

impl Json {
    /// The document that a `serde_json::Value` holds.
    fn from_value(value: &Value) -> (json: Json)
        ensures
            json@ == value_tree(*value),
        decreases value_tree(*value),
    {
        match open_value(value) {
            ValueLayer::Null => Json::Null,
            ValueLayer::Bool(b) => Json::Bool(b),
            ValueLayer::UInt(n) => Json::UInt(n),
            ValueLayer::OtherNumber => Json::OtherNumber,
            ValueLayer::Str(text) => Json::Str(text.to_owned()),
            ValueLayer::Array(items) => {
                let mut copies: Vec<Json> = Vec::new();
                let ghost trees = value_tree(*value)->Array_0;
                for i in 0..items.len()
                    invariant
                        value_tree(*value) == JsonTree::Array(trees),
                        trees.len() == items.len(),
                        forall|k: int| 0 <= k < trees.len() ==> trees[k] == value_tree(items@[k]),
                        copies.len() == i,
                        item_trees(copies@) == trees.take(i as int),
                {
                    let ghost before = copies@;
                    assert(decreases_to!(value_tree(*value) => value_tree(*value)->Array_0));
                    assert(decreases_to!(trees => trees[i as int]));
                    copies.push(Json::from_value(&items[i]));
                    assert(copies@.drop_last() == before);
                    assert(trees.take(i + 1) == trees.take(i as int).push(trees[i as int]));
                }
                assert(trees.take(trees.len() as int) == trees);
                Json::Array(copies)
            },
            ValueLayer::Object(members) => {
                let mut copies: Vec<(String, Json)> = Vec::new();
                let ghost trees = value_tree(*value)->Object_0;
                for i in 0..members.len()
                    invariant
                        value_tree(*value) == JsonTree::Object(trees),
                        trees == layer_trees(members@),
                        forall|a: int, b: int|
                            0 <= a < b < members.len() ==> (#[trigger] members@[a]).0@ != (
                            #[trigger] members@[b]).0@,
                        copies.len() == i,
                        member_trees(copies@) == layer_trees(members@.take(i as int)),
                {
                    let ghost before = copies@;
                    proof {
                        lemma_layer_member(members@, i as int);
                        assert(decreases_to!(value_tree(*value) => value_tree(*value)->Object_0));
                        assert(decreases_to!(trees => trees[members@[i as int].0@]));
                    }
                    copies.push((members[i].0.clone(), Json::from_value(members[i].1)));
                    assert(copies@.drop_last() == before);
                    assert(members@.take(i + 1).drop_last() == members@.take(i as int));
                }
                assert(members@.take(members@.len() as int) == members@);
                Json::Object(copies)
            },
        }
    }

    /// The document that a text holds, if it holds one.
    pub fn parse(text: &str) -> (json: Option<Json>)
        ensures
            json is Some == json_parsed(text@) is Some,
            json matches Some(j) ==> j@ == json_parsed(text@)->0,
    {
        match parse_value(text) {
            Some(value) => Some(Json::from_value(&value)),
            None => None,
        }
    }
}

/// What a `serde_json::Value` is made of.
pub enum ValueParts {
    Null,
    Bool(bool),
    UInt(u64),
    Str(String),
    Object(Vec<(String, Value)>),
}

/// The trees of the members of an object, by key.
pub open spec fn part_trees(members: Seq<(String, Value)>) -> Map<Seq<char>, JsonTree>
    decreases members.len(),
{
    if members.len() == 0 {
        Map::empty()
    } else {
        part_trees(members.drop_last()).insert(members.last().0@, value_tree(members.last().1))
    }
}

impl ValueParts {
    /// The tree of the value that these are the parts of.
    pub open spec fn tree(self) -> JsonTree {
        match self {
            ValueParts::Null => JsonTree::Null,
            ValueParts::Bool(b) => JsonTree::Bool(b),
            ValueParts::UInt(n) => JsonTree::UInt(n),
            ValueParts::Str(text) => JsonTree::Str(text@),
            ValueParts::Object(members) => JsonTree::Object(part_trees(members@)),
        }
    }

    /// Whether no key occurs twice.
    pub open spec fn keys_distinct(self) -> bool {
        self matches ValueParts::Object(members) ==> forall|i: int, j: int|
            0 <= i < j < members@.len() ==> (#[trigger] members@[i]).0@ != (
            #[trigger] members@[j]).0@
    }
}

/// Builds a `serde_json::Value` from its parts. The members of an object are collected into a
/// `serde_json::Map`, which holds each of them under its key.
#[verifier::external_body]
pub(crate) fn close_value(parts: ValueParts) -> (value: Value)
    requires
        parts.keys_distinct(),
    ensures
        value_tree(value) == parts.tree(),
{
    match parts {
        ValueParts::Null => Value::Null,
        ValueParts::Bool(b) => Value::Bool(b),
        ValueParts::UInt(n) => Value::from(n),
        ValueParts::Str(text) => Value::String(text),
        ValueParts::Object(members) => Value::Object(members.into_iter().collect()),
    }
}

/// Displays a `serde_json::Value` in its compact form. The value nests no deeper than
/// `serde_json::from_str` allows and holds no number but unsigned integers; the text then depends
/// on the value's tree alone, and `from_str` reads that tree back from it.
#[verifier::external_body]
pub(crate) fn render_value(value: &Value) -> (text: String)
    requires
        value_tree(*value).plain_within(127),
    ensures
        text@ == json_rendered(value_tree(*value)),
        json_parsed(text@) == Some(value_tree(*value)),
{
    value.to_string()
}

/// The member that an object holds under a key is what is found there, and null everywhere else.
pub proof fn members_are_found_under_their_keys(
    members: Map<Seq<char>, JsonTree>,
    key: Seq<char>,
    other: JsonTree,
)
    requires
        !(other is Object),
    ensures
        members.dom().contains(key) ==> JsonTree::Object(members).get(key) == members[key],
        !members.dom().contains(key) ==> JsonTree::Object(members).get(key) == JsonTree::Null,
        other.get(key) == JsonTree::Null,
{
}

/// Numbers, texts and lists are read as they are, and only from themselves.
pub proof fn values_are_read_as_they_are(
    number: u64,
    text: Seq<char>,
    items: Seq<JsonTree>,
    tree: JsonTree,
)
    ensures
        JsonTree::UInt(number).as_u64() == Some(number),
        JsonTree::Str(text).as_str() == Some(text),
        JsonTree::Str(text).str_or_empty() == text,
        JsonTree::Array(items).as_array() == Some(items),
        tree.as_u64() matches Some(n) ==> tree == JsonTree::UInt(n),
        tree.as_str() matches Some(t) ==> tree == JsonTree::Str(t),
        tree.as_array() matches Some(a) ==> tree == JsonTree::Array(a),
        !(tree is UInt) ==> tree.as_u64() is None,
        !(tree is Str) ==> tree.as_str() is None,
        !(tree is Array) ==> tree.as_array() is None,
        !(tree is Str) ==> tree.str_or_empty().len() == 0,
{
}

/// The leaves of a document are seen as they are, and the items of a list one by one.
pub proof fn documents_are_seen_whole(
    b: bool,
    number: u64,
    text: String,
    items: Vec<Json>,
    i: int,
)
    ensures
        Json::Null@ == JsonTree::Null,
        Json::Bool(b)@ == JsonTree::Bool(b),
        Json::UInt(number)@ == JsonTree::UInt(number),
        Json::OtherNumber@ == JsonTree::OtherNumber,
        Json::Str(text)@ == JsonTree::Str(text@),
        Json::Array(items)@ is Array,
        Json::Array(items)@->Array_0.len() == items@.len(),
        0 <= i < items@.len() ==> Json::Array(items)@->Array_0[i] == items@[i]@,
{
    lemma_item_trees(items@);
}

/// Of the members with a key, the last one counts.
pub proof fn last_member_counts(members: Vec<(String, Json)>, key: Seq<char>, i: int)
    requires
        -1 <= i < members@.len(),
        i >= 0 ==> members@[i].0@ == key,
        forall|k: int| i < k < members@.len() ==> (#[trigger] members@[k]).0@ != key,
    ensures
        i >= 0 ==> Json::Object(members)@.get(key) == members@[i].1@,
        i == -1 ==> Json::Object(members)@.get(key) == JsonTree::Null,
{
    lemma_last_member(members@, key, i);
}

proof fn lemma_last_member(members: Seq<(String, Json)>, key: Seq<char>, i: int)
    requires
        -1 <= i < members.len(),
        i >= 0 ==> members[i].0@ == key,
        forall|k: int| i < k < members.len() ==> (#[trigger] members[k]).0@ != key,
    ensures
        i >= 0 ==> member_trees(members).dom().contains(key) && member_trees(members)[key]
            == members[i].1@,
        i == -1 ==> !member_trees(members).dom().contains(key),
    decreases members.len(),
{
    if members.len() > 0 {
        assert(members.last() == members[members.len() - 1]);
        if i < members.len() - 1 {
            let shorter = members.drop_last();
            assert forall|k: int| i < k < shorter.len() implies (#[trigger] shorter[k]).0@
                != key by {
                assert(shorter[k] == members[k]);
            }
            if i >= 0 {
                assert(shorter[i] == members[i]);
            }
            lemma_last_member(shorter, key, i);
        }
    }
}

} // verus!
