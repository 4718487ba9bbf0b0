//! JSON documents as trees of plain values.
//!
//! Reading and writing JSON text is the work of `serde_json`; this module
//! holds the tree that the rest of the library inspects and builds.

use crate::search::{first_match, lemma_first_match_step};
use vstd::prelude::*;

verus! {

/// `serde_json::Error`, of which nothing is known but that it is an error.
#[verifier::external_type_specification]
#[verifier::external_body]
pub struct ExJsonError(serde_json::Error);

/// `serde_json::Number`, which is carried through and never looked into.
#[verifier::external_type_specification]
#[verifier::external_body]
pub struct ExJsonNumber(serde_json::Number);

/// `serde_json::Value`, which only the conversions to and from
/// [`JsonValue`] handle.
#[verifier::external_type_specification]
#[verifier::external_body]
pub struct ExJsonTree(serde_json::Value);

/// The deepest nesting of arrays and objects that is written out. It is the
/// limit that `serde_json` sets itself when it reads, so every document that
/// was read can be written.
pub const MAX_NESTING: usize = 128;

/// A JSON document held as plain values.
///
/// The members of an object keep the order in which `serde_json` hands them
/// out. Numbers are carried as `serde_json` made them and never looked into.
#[derive(Debug, PartialEq, Eq)]
pub enum JsonValue {
    Null,
    Bool(bool),
    Number(serde_json::Number),
    String(String),
    Array(Vec<JsonValue>),
    Object(Vec<(String, JsonValue)>),
}

/// The mathematical model of a [`JsonValue`].
pub ghost enum JsonDoc {
    Null,
    Bool(bool),
    Number(serde_json::Number),
    String(Seq<char>),
    Array(Seq<JsonDoc>),
    Object(Seq<(Seq<char>, JsonDoc)>),
}

impl JsonValue {
    /// The document that the value stands for.
    pub open spec fn model(&self) -> JsonDoc
        decreases self,
    {
        match self {
            JsonValue::Null => JsonDoc::Null,
            JsonValue::Bool(b) => JsonDoc::Bool(*b),
            JsonValue::Number(n) => JsonDoc::Number(*n),
            JsonValue::String(s) => JsonDoc::String(s@),
            JsonValue::Array(items) => JsonDoc::Array(
                Seq::new(
                    items@.len(),
                    |i: int|
                        if 0 <= i < items@.len() {
                            items@[i].model()
                        } else {
                            JsonDoc::Null
                        },
                ),
            ),
            JsonValue::Object(members) => JsonDoc::Object(
                Seq::new(
                    members@.len(),
                    |i: int|
                        if 0 <= i < members@.len() {
                            (members@[i].0@, members@[i].1.model())
                        } else {
                            (Seq::empty(), JsonDoc::Null)
                        },
                ),
            ),
        }
    }
}

impl View for JsonValue {
    type V = JsonDoc;

    open spec fn view(&self) -> JsonDoc {
        self.model()
    }
}

impl DeepView for JsonValue {
    type V = JsonDoc;

    open spec fn deep_view(&self) -> JsonDoc {
        self@
    }
}

/// The value of the first member that has the key, if any has it.
pub open spec fn first_with_key(members: Seq<(Seq<char>, JsonDoc)>, key: Seq<char>) -> Option<
    JsonDoc,
> {
    match first_match(members, |member: (Seq<char>, JsonDoc)| member.0 == key) {
        Some(member) => Some(member.1),
        None => None,
    }
}

impl JsonDoc {
    /// The text of a JSON string; nothing for any other kind of value.
    pub open spec fn text(self) -> Option<Seq<char>> {
        match self {
            JsonDoc::String(text) => Some(text),
            _ => None,
        }
    }

    /// The elements of a JSON array; nothing for any other kind of value.
    pub open spec fn items(self) -> Option<Seq<JsonDoc>> {
        match self {
            JsonDoc::Array(items) => Some(items),
            _ => None,
        }
    }

    /// The value under `key` in a JSON object; nothing where the key is
    /// absent or the value is no object.
    pub open spec fn member(self, key: Seq<char>) -> Option<JsonDoc> {
        match self {
            JsonDoc::Object(members) => first_with_key(members, key),
            _ => None,
        }
    }

    /// The texts of a JSON array whose elements are all strings; nothing for
    /// any other value.
    pub open spec fn text_list(self) -> Option<Seq<Seq<char>>> {
        match self {
            JsonDoc::Array(items) => if forall|i: int|
                0 <= i < items.len() ==> (#[trigger] items[i]) is String {
                Some(Seq::new(items.len(), |i: int| items[i]->String_0))
            } else {
                None
            },
            _ => None,
        }
    }

    /// The text under `key` in a JSON object; nothing where the key is absent
    /// or its value is no string.
    pub open spec fn text_at(self, key: Seq<char>) -> Option<Seq<char>> {
        match self.member(key) {
            Some(value) => value.text(),
            None => None,
        }
    }

    /// The texts under `key` in a JSON object; nothing where the key is
    /// absent or its value is no array of strings.
    pub open spec fn text_list_at(self, key: Seq<char>) -> Option<Seq<Seq<char>>> {
        match self.member(key) {
            Some(value) => value.text_list(),
            None => None,
        }
    }

    /// The array of JSON strings that holds the given texts in order.
    pub open spec fn of_texts(texts: Seq<Seq<char>>) -> JsonDoc {
        JsonDoc::Array(Seq::new(texts.len(), |i: int| JsonDoc::String(texts[i])))
    }

    /// Whether arrays and objects are nested at most `depth` deep: a value
    /// that is neither is nested 0 deep, an empty array 1 deep.
    pub open spec fn nested_within(self, depth: nat) -> bool
        decreases depth,
    {
        match self {
            JsonDoc::Array(items) => depth > 0 && forall|i: int|
                0 <= i < items.len() ==> (#[trigger] items[i]).nested_within((depth - 1) as nat),
            JsonDoc::Object(members) => depth > 0 && forall|i: int|
                0 <= i < members.len() ==> (#[trigger] members[i]).1.nested_within(
                    (depth - 1) as nat,
                ),
            _ => true,
        }
    }
}

/// A document that is nested within a depth is nested within every greater
/// depth.
pub proof fn lemma_nested_within_more(doc: JsonDoc, depth: nat, more: nat)
    requires
        doc.nested_within(depth),
        depth <= more,
    ensures
        doc.nested_within(more),
    decreases depth,
{
    match doc {
        JsonDoc::Array(items) => {
            assert forall|i: int| 0 <= i < items.len() implies (#[trigger] items[i]).nested_within(
                (more - 1) as nat,
            ) by {
                lemma_nested_within_more(items[i], (depth - 1) as nat, (more - 1) as nat);
            }
        },
        JsonDoc::Object(members) => {
            assert forall|i: int| 0 <= i < members.len() implies (#[trigger] members[i]).1
                .nested_within((more - 1) as nat) by {
                lemma_nested_within_more(members[i].1, (depth - 1) as nat, (more - 1) as nat);
            }
        },
        _ => {},
    }
}

/// An array of strings is nested 1 deep.
pub proof fn lemma_texts_nested(texts: Seq<Seq<char>>)
    ensures
        JsonDoc::of_texts(texts).nested_within(1),
{
    let items = JsonDoc::of_texts(texts)->Array_0;
    assert forall|i: int| 0 <= i < items.len() implies (#[trigger] items[i]).nested_within(0) by {
        assert(items[i] == JsonDoc::String(texts[i]));
    }
}

/// What `serde_json` reads out of a text: the document, or nothing where the
/// text is not one well-formed JSON value.
pub uninterp spec fn json_document(text: Seq<char>) -> Option<JsonDoc>;

/// The compact JSON text that `serde_json` writes for a document.
pub uninterp spec fn json_text(doc: JsonDoc) -> Seq<char>;

/// Moves a `serde_json::Value` into a [`JsonValue`], variant by variant;
/// object members come in the order in which the map yields them.
#[verifier::external_body]
fn lift(tree: serde_json::Value) -> (value: JsonValue) {
    match tree {
        serde_json::Value::Null => JsonValue::Null,
        serde_json::Value::Bool(b) => JsonValue::Bool(b),
        serde_json::Value::Number(n) => JsonValue::Number(n),
        serde_json::Value::String(s) => JsonValue::String(s),
        serde_json::Value::Array(items) => JsonValue::Array(items.into_iter().map(lift).collect()),
        serde_json::Value::Object(members) => JsonValue::Object(
            members.into_iter().map(|(k, v)| (k, lift(v))).collect(),
        ),
    }
}

/// Copies a [`JsonValue`] into a `serde_json::Value`, variant by variant.
#[verifier::external_body]
fn lower(value: &JsonValue) -> (tree: serde_json::Value) {
    match value {
        JsonValue::Null => serde_json::Value::Null,
        JsonValue::Bool(b) => serde_json::Value::Bool(*b),
        JsonValue::Number(n) => serde_json::Value::Number(n.clone()),
        JsonValue::String(s) => serde_json::Value::String(s.clone()),
        JsonValue::Array(items) => serde_json::Value::Array(items.iter().map(lower).collect()),
        JsonValue::Object(members) => serde_json::Value::Object(
            members.iter().map(|(k, v)| (k.clone(), lower(v))).collect(),
        ),
    }
}

/// Calls `serde_json::from_str` for a `serde_json::Value`.
///
/// The contract claims only that the outcome is a function of the text: the
/// same text always gives the same document, or always an error.
#[verifier::external_body]
fn parse_document(text: &str) -> (parsed: Result<JsonValue, serde_json::Error>)
    ensures
        match parsed {
            Ok(value) => json_document(text@) == Some(value@),
            Err(_) => json_document(text@) is None,
        },
{
    serde_json::from_str::<serde_json::Value>(text).map(lift)
}

/// Writes a document through the `Display` impl of `serde_json::Value`, which
/// gives compact JSON.
///
/// The contract claims only that the text is a function of the document.
/// Writing a `Value` into a `String` has no way to fail. The writer calls
/// itself once for each level of nesting, so only documents that are nested
/// no deeper than `serde_json` reads are admitted.
#[verifier::external_body]
pub(crate) fn render_document(value: &JsonValue) -> (text: String)
    requires
        value@.nested_within(MAX_NESTING as nat),
    ensures
        text@ == json_text(value@),
{
    lower(value).to_string()
}

impl JsonValue {
    /// Reads a text as one JSON document; nothing where it is not well-formed.
    pub fn parse(text: &str) -> (parsed: Option<JsonValue>)
        ensures
            parsed.deep_view() == json_document(text@),
    {
        match parse_document(text) {
            Ok(value) => Some(value),
            Err(_) => None,
        }
    }

    /// Whether arrays and objects are nested at most `depth` deep.
    pub fn is_nested_within(&self, depth: usize) -> (within: bool)
        ensures
            within == self@.nested_within(depth as nat),
        decreases depth,
    {
        match self {
            JsonValue::Array(items) => {
                if depth == 0 {
                    return false;
                }
                let ghost docs = self@->Array_0;
                let mut i: usize = 0;
                while i < items.len()
                    invariant
                        i <= items.len(),
                        depth > 0,
                        self@ is Array,
                        docs == self@->Array_0,
                        docs.len() == items.len(),
                        forall|j: int| 0 <= j < items.len() ==> #[trigger] docs[j] == items[j]@,
                        forall|j: int|
                            0 <= j < i ==> (#[trigger] docs[j]).nested_within((depth - 1) as nat),
                    decreases items.len() - i,
                {
                    if !items[i].is_nested_within(depth - 1) {
                        assert(!docs[i as int].nested_within((depth - 1) as nat));
                        return false;
                    }
                    i += 1;
                }
                true
            },
            JsonValue::Object(members) => {
                if depth == 0 {
                    return false;
                }
                let ghost docs = self@->Object_0;
                let mut i: usize = 0;
                while i < members.len()
                    invariant
                        i <= members.len(),
                        depth > 0,
                        self@ is Object,
                        docs == self@->Object_0,
                        docs.len() == members.len(),
                        forall|j: int|
                            0 <= j < members.len() ==> (#[trigger] docs[j]).1 == members[j].1@,
                        forall|j: int|
                            0 <= j < i ==> (#[trigger] docs[j]).1.nested_within(
                                (depth - 1) as nat,
                            ),
                    decreases members.len() - i,
                {
                    if !members[i].1.is_nested_within(depth - 1) {
                        assert(!docs[i as int].1.nested_within((depth - 1) as nat));
                        return false;
                    }
                    i += 1;
                }
                true
            },
            _ => true,
        }
    }

    /// Writes the document as compact JSON text; nothing where the document
    /// is nested deeper than [`MAX_NESTING`].
    pub fn render(&self) -> (text: Option<String>)
        ensures
            text.deep_view() == if self@.nested_within(MAX_NESTING as nat) {
                Some(json_text(self@))
            } else {
                None
            },
    {
        if self.is_nested_within(MAX_NESTING) {
            Some(render_document(self))
        } else {
            None
        }
    }

    /// The text of a JSON string.
    pub fn text(&self) -> (text: Option<&String>)
        ensures
            text.deep_view() == self@.text(),
    {
        match self {
            JsonValue::String(s) => Some(s),
            _ => None,
        }
    }

    /// The elements of a JSON array.
    pub fn items(&self) -> (items: Option<&Vec<JsonValue>>)
        ensures
            items.deep_view() == self@.items(),
    {
        match self {
            JsonValue::Array(items) => {
                assert(self@->Array_0 =~= items.deep_view());
                Some(items)
            },
            _ => None,
        }
    }

    /// The value under `key` in a JSON object: that of the first member with
    /// this key.
    pub fn member(&self, key: &str) -> (found: Option<&JsonValue>)
        ensures
            found.deep_view() == self@.member(key@),
    {
        match self {
            JsonValue::Object(members) => {
                let wanted = key.to_owned();
                let ghost docs = self@->Object_0;
                let ghost has_key = |member: (Seq<char>, JsonDoc)| member.0 == key@;
                let mut i: usize = 0;
                assert(docs.skip(0) =~= docs);
                while i < members.len()
                    invariant
                        i <= members.len(),
                        wanted@ == key@,
                        has_key == |member: (Seq<char>, JsonDoc)| member.0 == key@,
                        self@ == JsonDoc::Object(docs),
                        docs.len() == members.len(),
                        forall|j: int|
                            0 <= j < members.len() ==> #[trigger] docs[j] == (
                                members[j].0@,
                                members[j].1@,
                            ),
                        first_match(docs, has_key) == first_match(docs.skip(i as int), has_key),
                    decreases members.len() - i,
                {
                    proof {
                        lemma_first_match_step(docs, has_key, i as int);
                    }
                    if members[i].0 == wanted {
                        return Some(&members[i].1);
                    }
                    i += 1;
                }
                None
            },
            _ => None,
        }
    }

    /// The texts of a JSON array of strings, in order.
    pub fn text_list(&self) -> (list: Option<Vec<String>>)
        ensures
            list.deep_view() == self@.text_list(),
    {
        match self {
            JsonValue::Array(items) => {
                let ghost docs = self@->Array_0;
                let mut texts: Vec<String> = Vec::new();
                let mut i: usize = 0;
                while i < items.len()
                    invariant
                        i <= items.len(),
                        self@ == JsonDoc::Array(docs),
                        docs.len() == items.len(),
                        forall|j: int| 0 <= j < items.len() ==> #[trigger] docs[j] == items[j]@,
                        texts.len() == i,
                        forall|j: int| 0 <= j < i ==> (#[trigger] docs[j]) is String,
                        forall|j: int| 0 <= j < i ==> (#[trigger] texts[j])@ == docs[j]->String_0,
                    decreases items.len() - i,
                {
                    match &items[i] {
                        JsonValue::String(s) => {
                            texts.push(s.clone());
                        },
                        _ => {
                            assert(!(docs[i as int] is String));
                            return None;
                        },
                    }
                    i += 1;
                }
                assert(texts.deep_view() =~= Seq::new(docs.len(), |i: int| docs[i]->String_0));
                Some(texts)
            },
            _ => None,
        }
    }

    /// The text under `key` in a JSON object.
    pub fn text_at(&self, key: &str) -> (text: Option<&String>)
        ensures
            text.deep_view() == self@.text_at(key@),
    {
        match self.member(key) {
            Some(value) => value.text(),
            None => None,
        }
    }

    /// The texts under `key` in a JSON object.
    pub fn text_list_at(&self, key: &str) -> (list: Option<Vec<String>>)
        ensures
            list.deep_view() == self@.text_list_at(key@),
    {
        match self.member(key) {
            Some(value) => value.text_list(),
            None => None,
        }
    }

    /// The JSON array of strings that holds the given texts in order.
    pub fn of_texts(texts: &Vec<String>) -> (value: JsonValue)
        ensures
            value@ == JsonDoc::of_texts(texts.deep_view()),
    {
        let mut items: Vec<JsonValue> = Vec::new();
        let mut i: usize = 0;
        while i < texts.len()
            invariant
                i <= texts.len(),
                items.len() == i,
                forall|j: int| 0 <= j < i ==> (#[trigger] items[j])@ == JsonDoc::String(texts[j]@),
            decreases texts.len() - i,
        {
            items.push(JsonValue::String(texts[i].clone()));
            i += 1;
        }
        let value = JsonValue::Array(items);
        assert(value@->Array_0 =~= JsonDoc::of_texts(texts.deep_view())->Array_0);
        value
    }
}

} // verus!
