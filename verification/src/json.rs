//! JSON values as the protocol logic reads and writes them.
use vstd::prelude::*;

use crate::text;

verus! {

/// A parsed JSON document of `serde_json`. Its content stays unseen here: such
/// a value is only carried from a request or a database to a reply.
#[verifier::external_type_specification]
#[verifier::external_body]
pub struct ExValue(serde_json::Value);

/// A JSON value. Of an object's fields with one name, the last counts.
#[derive(Debug, PartialEq)]
pub enum Json {
    Null,
    Bool(bool),
    Int(i64),
    Text(String),
    List(Vec<Json>),
    Object(Vec<(String, Json)>),
    /// A value that is carried through without being read.
    Raw(serde_json::Value),
}

/// What a JSON value means.
#[verifier::ext_equal]
pub enum JsonView {
    Null,
    Bool(bool),
    Int(i64),
    Text(Seq<char>),
    List(Seq<JsonView>),
    Object(Map<Seq<char>, JsonView>),
    Raw(serde_json::Value),
}

/// What each of `items` means.
pub open spec fn list_view(items: Seq<Json>) -> Seq<JsonView>
    decreases items,
{
    if items.len() == 0 {
        Seq::empty()
    } else {
        list_view(items.drop_last()).push(items.last().view())
    }
}

/// What the object with these fields means.
pub open spec fn fields_view(fields: Seq<(String, Json)>) -> Map<Seq<char>, JsonView>
    decreases fields,
{
    if fields.len() == 0 {
        Map::empty()
    } else {
        fields_view(fields.drop_last()).insert(fields.last().0@, fields.last().1.view())
    }
}

impl Json {
    pub open spec fn view(&self) -> JsonView
        decreases self,
    {
        match *self {
            Json::Null => JsonView::Null,
            Json::Bool(b) => JsonView::Bool(b),
            Json::Int(i) => JsonView::Int(i),
            Json::Text(s) => JsonView::Text(s@),
            Json::List(v) => JsonView::List(list_view(v@)),
            Json::Object(f) => JsonView::Object(fields_view(f@)),
            Json::Raw(v) => JsonView::Raw(v),
        }
    }
}

/// Adds a field to an object.
pub fn put(fields: &mut Vec<(String, Json)>, name: &str, value: Json)
    ensures
        fields_view(final(fields)@) == fields_view(old(fields)@).insert(name@, value@),
{
    let ghost before = fields@;
    let name: String = name.to_owned();
    fields.push((name, value));
    assert(fields@.drop_last() =~= before);
}

/// Adds a text field to an object.
pub fn put_text(fields: &mut Vec<(String, Json)>, name: &str, value: &str)
    ensures
        fields_view(final(fields)@) == fields_view(old(fields)@).insert(
            name@,
            JsonView::Text(value@),
        ),
{
    put(fields, name, Json::Text(value.to_owned()));
}

/// Adds a value to a list.
pub fn push_item(items: &mut Vec<Json>, value: Json)
    ensures
        list_view(final(items)@) == list_view(old(items)@).push(value@),
{
    let ghost before = items@;
    items.push(value);
    assert(items@.drop_last() =~= before);
}

/// Each value of a list means what it means by itself.
pub proof fn lemma_list_view(items: Seq<Json>)
    ensures
        list_view(items).len() == items.len(),
        forall|i: int| 0 <= i < items.len() ==> (#[trigger] list_view(items)[i]) == items[i].view(),
    decreases items.len(),
{
    if items.len() > 0 {
        lemma_list_view(items.drop_last());
    }
}

/// The value of the field `name`, where `v` is an object with that field.
pub open spec fn field(v: JsonView, name: Seq<char>) -> Option<JsonView> {
    match v {
        JsonView::Object(m) => if m.contains_key(name) {
            Some(m[name])
        } else {
            None
        },
        _ => None,
    }
}

/// The text of the field `name`; no characters where there is no such text.
pub open spec fn field_text(v: JsonView, name: Seq<char>) -> Seq<char> {
    match field(v, name) {
        Some(JsonView::Text(s)) => s,
        _ => Seq::empty(),
    }
}

impl Json {
    /// The value of the field `name`.
    pub fn get(&self, name: &str) -> (r: Option<&Json>)
        ensures
            match r {
                Some(v) => field(self@, name@) == Some(v@),
                None => field(self@, name@) is None,
            },
    {
        match self {
            Json::Object(fields) => {
                let mut i: usize = fields.len();
                assert(fields@.take(i as int) =~= fields@);
                while i > 0
                    invariant
                        i <= fields.len(),
                        fields_view(fields@).contains_key(name@) == fields_view(
                            fields@.take(i as int),
                        ).contains_key(name@),
                        fields_view(fields@)[name@] == fields_view(fields@.take(i as int))[name@],
                        *self == Json::Object(*fields),
                    decreases i,
                {
                    i = i - 1;
                    assert(fields@.take(i + 1).drop_last() =~= fields@.take(i as int));
                    assert(fields@.take(i + 1).last() == fields@[i as int]);
                    if text::same_text(fields[i].0.as_str(), name) {
                        return Some(&fields[i].1);
                    }
                }
                assert(fields@.take(0) =~= Seq::empty());
                None
            },
            _ => None,
        }
    }

    /// The text of a text value.
    pub fn as_str(&self) -> (r: Option<&str>)
        ensures
            match r {
                Some(s) => self@ == JsonView::Text(s@),
                None => !(self@ is Text),
            },
    {
        match self {
            Json::Text(s) => Some(s.as_str()),
            _ => None,
        }
    }

    /// The truth value of a boolean.
    pub fn as_bool(&self) -> (r: Option<bool>)
        ensures
            match r {
                Some(b) => self@ == JsonView::Bool(b),
                None => !(self@ is Bool),
            },
    {
        match self {
            Json::Bool(b) => Some(*b),
            _ => None,
        }
    }

    /// The values of a list.
    pub fn as_array(&self) -> (r: Option<&Vec<Json>>)
        ensures
            match r {
                Some(v) => self@ == JsonView::List(list_view(v@)),
                None => !(self@ is List),
            },
    {
        match self {
            Json::List(v) => Some(v),
            _ => None,
        }
    }

    /// The text of the field `name`, or no text.
    pub fn text_field(&self, name: &str) -> (r: String)
        ensures
            r@ == field_text(self@, name@),
    {
        if let Some(v) = self.get(name) {
            if let Some(s) = v.as_str() {
                return s.to_owned();
            }
        }
        String::new()
    }
}

} // verus!
