//! JSON documents as values of the library: what a line from the model
//! process holds, and what a line to it is made from.

use vstd::prelude::*;
use crate::text::{opt_text, str_eq};

verus! {

/// Makes `serde_json::Value` known as a type of which nothing is seen
/// inside.
#[verifier::external_type_specification]
#[verifier::external_body]
pub struct ExValue(serde_json::Value);

/// A JSON number: a whole number that fits 64 unsigned bits, or any other
/// number as the text that stands for it.
#[derive(Debug)]
pub enum Number {
    /// A whole number from 0 to 2^64 - 1.
    Whole(u64),
    /// A negative number, a fraction or a number with an exponent, as JSON
    /// text.
    Other(String),
}

/// A JSON document.
#[derive(Debug)]
pub enum Json {
    /// `null`.
    Null,
    /// `true` or `false`.
    Bool(bool),
    /// A number.
    Number(Number),
    /// A string.
    Text(String),
    /// An array.
    List(Vec<Json>),
    /// An object: its members in order, each key once.
    Object(Vec<(String, Json)>),
}

/// A JSON number as a mathematical value.
pub ghost enum NumberModel {
    Whole(nat),
    Other(Seq<char>),
}

/// A JSON document as a mathematical value.
pub ghost enum JsonModel {
    Null,
    Bool(bool),
    Number(NumberModel),
    Text(Seq<char>),
    List(Seq<JsonModel>),
    Object(Seq<(Seq<char>, JsonModel)>),
}

impl View for Number {
    type V = NumberModel;

    open spec fn view(&self) -> NumberModel {
        match self {
            Number::Whole(n) => NumberModel::Whole(*n as nat),
            Number::Other(t) => NumberModel::Other(t@),
        }
    }
}

/// The mathematical value of a document.
pub open spec fn model_of(doc: Json) -> JsonModel
    decreases doc,
{
    match doc {
        Json::Null => JsonModel::Null,
        Json::Bool(b) => JsonModel::Bool(b),
        Json::Number(n) => JsonModel::Number(n@),
        Json::Text(t) => JsonModel::Text(t@),
        Json::List(items) => JsonModel::List(
            Seq::new(
                items@.len(),
                |i: int|
                    if 0 <= i < items@.len() {
                        model_of(items@[i])
                    } else {
                        JsonModel::Null
                    },
            ),
        ),
        Json::Object(members) => JsonModel::Object(
            Seq::new(
                members@.len(),
                |i: int|
                    if 0 <= i < members@.len() {
                        (members@[i].0@, model_of(members@[i].1))
                    } else {
                        (Seq::empty(), JsonModel::Null)
                    },
            ),
        ),
    }
}

impl View for Json {
    type V = JsonModel;

    open spec fn view(&self) -> JsonModel {
        model_of(*self)
    }
}

/// The document that a text parses to, if the text is JSON.
pub uninterp spec fn parsed_json(text: Seq<char>) -> Option<JsonModel>;

/// The text that a document is written as, on one line.
pub uninterp spec fn printed_json(doc: JsonModel) -> Seq<char>;

/// Turns a `serde_json::Value` into a document, variant by variant. A
/// number is asked with `Number::as_u64` whether it is a whole number that
/// fits; any other number is kept as the text that `Number` displays.
/// Nothing is promised of the result by itself.
#[verifier::external_body]
fn json_of_value(v: &serde_json::Value) -> Json {
    match v {
        serde_json::Value::Null => Json::Null,
        serde_json::Value::Bool(b) => Json::Bool(*b),
        serde_json::Value::Number(n) => Json::Number(
            match n.as_u64() {
                Some(u) => Number::Whole(u),
                None => Number::Other(n.to_string()),
            },
        ),
        serde_json::Value::String(s) => Json::Text(s.clone()),
        serde_json::Value::Array(a) => Json::List(a.iter().map(json_of_value).collect()),
        serde_json::Value::Object(o) => Json::Object(
            o.iter().map(|(k, v)| (k.clone(), json_of_value(v))).collect(),
        ),
    }
}

/// Parses a text with `serde_json::from_str` into a `serde_json::Value`
/// and turns that into a document. The result depends on the text alone;
/// it is named, not described.
#[verifier::external_body]
pub(crate) fn parse_json(text: &str) -> (r: Option<Json>)
    ensures
        match r {
            Some(doc) => parsed_json(text@) == Some(doc@),
            None => parsed_json(text@) is None,
        },
{
    match serde_json::from_str::<serde_json::Value>(text) {
        Ok(v) => Some(json_of_value(&v)),
        Err(_) => None,
    }
}

/// Turns a document into a `serde_json::Value`, variant by variant. A
/// number given as text is read back from that text with
/// `serde_json::from_str`, and is `null` where the text is no JSON.
/// Nothing is promised of the result by itself.
#[verifier::external_body]
fn value_of_json(doc: &Json) -> serde_json::Value {
    match doc {
        Json::Null => serde_json::Value::Null,
        Json::Bool(b) => serde_json::Value::Bool(*b),
        Json::Number(Number::Whole(n)) => serde_json::Value::from(*n),
        Json::Number(Number::Other(t)) => serde_json::from_str(t).unwrap_or(serde_json::Value::Null),
        Json::Text(t) => serde_json::Value::String(t.clone()),
        Json::List(items) => serde_json::Value::Array(items.iter().map(value_of_json).collect()),
        Json::Object(members) => serde_json::Value::Object(
            members.iter().map(|(k, v)| (k.clone(), value_of_json(v))).collect(),
        ),
    }
}

/// Writes a document as `serde_json::Value` displays it, which is its
/// compact form. The result depends on the document alone; it is named,
/// not described.
#[verifier::external_body]
pub(crate) fn print_json(doc: &Json) -> (r: String)
    ensures
        r@ == printed_json(doc@),
{
    value_of_json(doc).to_string()
}

/// The model of an object lists the models of its members.
pub proof fn lemma_object_view(members: Vec<(String, Json)>)
    ensures
        Json::Object(members)@ matches JsonModel::Object(all) && all.len() == members@.len()
            && forall|k: int|
            0 <= k < members@.len() ==> #[trigger] all[k] == (members@[k].0@, members@[k].1@),
{
    reveal_with_fuel(model_of, 2);
}

/// The model of an array lists the models of its items.
pub proof fn lemma_list_view(items: Vec<Json>)
    ensures
        Json::List(items)@ matches JsonModel::List(all) && all.len() == items@.len() && forall|k: int|
            0 <= k < items@.len() ==> #[trigger] all[k] == items@[k]@,
{
    reveal_with_fuel(model_of, 2);
}

/// The value of the first member of an object that has the given key.
pub open spec fn member_of(members: Seq<(Seq<char>, JsonModel)>, key: Seq<char>) -> Option<JsonModel>
    decreases members.len(),
{
    if members.len() == 0 {
        None
    } else if members[0].0 == key {
        Some(members[0].1)
    } else {
        member_of(members.drop_first(), key)
    }
}

impl JsonModel {
    /// The member of an object with the given key; nothing for a missing
    /// member and for a document that is no object.
    pub open spec fn get(self, key: Seq<char>) -> Option<JsonModel> {
        match self {
            JsonModel::Object(members) => member_of(members, key),
            _ => None,
        }
    }

    /// The member with the given key unless it is missing or `null`.
    pub open spec fn present(self, key: Seq<char>) -> Option<JsonModel> {
        match self.get(key) {
            Some(JsonModel::Null) => None,
            other => other,
        }
    }

    /// The text of a string.
    pub open spec fn as_text(self) -> Option<Seq<char>> {
        match self {
            JsonModel::Text(t) => Some(t),
            _ => None,
        }
    }

    /// The value of a boolean.
    pub open spec fn as_bool(self) -> Option<bool> {
        match self {
            JsonModel::Bool(b) => Some(b),
            _ => None,
        }
    }

    /// The value of a whole number.
    pub open spec fn as_whole(self) -> Option<nat> {
        match self {
            JsonModel::Number(NumberModel::Whole(n)) => Some(n),
            _ => None,
        }
    }

    /// The value of a number.
    pub open spec fn as_number(self) -> Option<NumberModel> {
        match self {
            JsonModel::Number(n) => Some(n),
            _ => None,
        }
    }

    /// The items of an array.
    pub open spec fn as_list(self) -> Option<Seq<JsonModel>> {
        match self {
            JsonModel::List(items) => Some(items),
            _ => None,
        }
    }

    /// The text of the string member with the given key.
    pub open spec fn text_at(self, key: Seq<char>) -> Option<Seq<char>> {
        match self.get(key) {
            Some(v) => v.as_text(),
            None => None,
        }
    }

    /// The value of the boolean member with the given key.
    pub open spec fn bool_at(self, key: Seq<char>) -> Option<bool> {
        match self.get(key) {
            Some(v) => v.as_bool(),
            None => None,
        }
    }

    /// The value of the whole-number member with the given key.
    pub open spec fn whole_at(self, key: Seq<char>) -> Option<nat> {
        match self.get(key) {
            Some(v) => v.as_whole(),
            None => None,
        }
    }

    /// The value of the number member with the given key.
    pub open spec fn number_at(self, key: Seq<char>) -> Option<NumberModel> {
        match self.get(key) {
            Some(v) => v.as_number(),
            None => None,
        }
    }
}

/// The model of an optional document.
pub open spec fn doc_model(doc: Option<&Json>) -> Option<JsonModel> {
    match doc {
        Some(d) => Some(d@),
        None => None,
    }
}

/// The model of an optional number.
pub open spec fn opt_number(n: Option<Number>) -> Option<NumberModel> {
    match n {
        Some(v) => Some(v@),
        None => None,
    }
}

impl Number {
    /// A copy of the number.
    pub fn duplicate(&self) -> (r: Number)
        ensures
            r@ == self@,
    {
        match self {
            Number::Whole(n) => Number::Whole(*n),
            Number::Other(t) => Number::Other(t.clone()),
        }
    }
}

impl Json {
    /// The member of an object with the given key; nothing for a missing
    /// member and for a document that is no object.
    pub fn get(&self, key: &str) -> (r: Option<&Json>)
        ensures
            doc_model(r) == self@.get(key@),
    {
        match self {
            Json::Object(members) => {
                proof {
                    lemma_object_view(*members);
                }
                let ghost all = self@->Object_0;
                let mut i: usize = 0;
                assert(all.skip(0) =~= all);
                while i < members.len()
                    invariant
                        i <= members@.len(),
                        all.len() == members@.len(),
                        forall|k: int|
                            0 <= k < members@.len() ==> #[trigger] all[k] == (
                                members@[k].0@,
                                members@[k].1@,
                            ),
                        self@.get(key@) == member_of(all, key@),
                        member_of(all, key@) == member_of(all.skip(i as int), key@),
                    decreases members@.len() - i,
                {
                    proof {
                        assert(all.skip(i as int).drop_first() =~= all.skip(i + 1));
                        assert(all.skip(i as int)[0] == all[i as int]);
                    }
                    if str_eq(members[i].0.as_str(), key) {
                        return Some(&members[i].1);
                    }
                    i = i + 1;
                }
                assert(all.skip(i as int).len() == 0);
                None
            },
            _ => None,
        }
    }

    /// The member with the given key unless it is missing or `null`.
    pub fn present(&self, key: &str) -> (r: Option<&Json>)
        ensures
            doc_model(r) == self@.present(key@),
    {
        match self.get(key) {
            Some(Json::Null) => None,
            other => other,
        }
    }

    /// The text of a string.
    pub fn as_text(&self) -> (r: Option<String>)
        ensures
            opt_text(r) == self@.as_text(),
    {
        match self {
            Json::Text(t) => Some(t.clone()),
            _ => None,
        }
    }

    /// The value of a boolean.
    pub fn as_bool(&self) -> (r: Option<bool>)
        ensures
            r == self@.as_bool(),
    {
        match self {
            Json::Bool(b) => Some(*b),
            _ => None,
        }
    }

    /// The value of a whole number.
    pub fn as_whole(&self) -> (r: Option<u64>)
        ensures
            match r {
                Some(n) => self@.as_whole() == Some(n as nat),
                None => self@.as_whole() is None,
            },
    {
        match self {
            Json::Number(Number::Whole(n)) => Some(*n),
            _ => None,
        }
    }

    /// The value of a number.
    pub fn as_number(&self) -> (r: Option<Number>)
        ensures
            opt_number(r) == self@.as_number(),
    {
        match self {
            Json::Number(n) => Some(n.duplicate()),
            _ => None,
        }
    }

    /// The items of an array.
    pub fn as_list(&self) -> (r: Option<&Vec<Json>>)
        ensures
            match r {
                Some(items) => self@.as_list() matches Some(models) && models.len() == items@.len()
                    && forall|i: int| 0 <= i < items@.len() ==> #[trigger] models[i] == items@[i]@,
                None => self@.as_list() is None,
            },
    {
        match self {
            Json::List(items) => {
                proof {
                    lemma_list_view(*items);
                }
                Some(items)
            },
            _ => None,
        }
    }

    /// The text of the string member with the given key.
    pub fn text_at(&self, key: &str) -> (r: Option<String>)
        ensures
            opt_text(r) == self@.text_at(key@),
    {
        match self.get(key) {
            Some(v) => v.as_text(),
            None => None,
        }
    }

    /// The value of the boolean member with the given key.
    pub fn bool_at(&self, key: &str) -> (r: Option<bool>)
        ensures
            r == self@.bool_at(key@),
    {
        match self.get(key) {
            Some(v) => v.as_bool(),
            None => None,
        }
    }

    /// The value of the number member with the given key.
    pub fn number_at(&self, key: &str) -> (r: Option<Number>)
        ensures
            opt_number(r) == self@.number_at(key@),
    {
        match self.get(key) {
            Some(v) => v.as_number(),
            None => None,
        }
    }
}

} // verus!
