//! JSON documents as plain values, read through `serde_json`.

use vstd::prelude::*;

verus! {

/// `serde_json::Value`, a parsed JSON value.  Nothing inside it is visible
/// to proofs; [`Json`] is the copy that they read.
#[verifier::external_type_specification]
#[verifier::external_body]
pub struct ExValue(serde_json::Value);

/// A JSON value.  An object keeps its members as a list of pairs.
#[derive(Debug, PartialEq, Eq)]
pub enum Json {
    Null,
    Bool(bool),
    /// A number, as text.
    Number(String),
    Text(String),
    Array(Vec<Json>),
    Object(Vec<Member>),
}

/// A named member of a JSON object.
#[derive(Debug, PartialEq, Eq)]
pub struct Member {
    pub name: String,
    pub value: Json,
}

/// The mathematical content of a [`Json`] value.
pub enum JsonView {
    Null,
    Bool(bool),
    Number(Seq<char>),
    Text(Seq<char>),
    Array(Seq<JsonView>),
    Object(Seq<MemberView>),
}

/// The mathematical content of a [`Member`].
pub struct MemberView {
    pub name: Seq<char>,
    pub value: JsonView,
}

impl View for Json {
    type V = JsonView;

    open spec fn view(&self) -> JsonView
        decreases self,
    {
        match self {
            Json::Null => JsonView::Null,
            Json::Bool(b) => JsonView::Bool(*b),
            Json::Number(n) => JsonView::Number(n@),
            Json::Text(s) => JsonView::Text(s@),
            Json::Array(items) => JsonView::Array(
                Seq::new(
                    items@.len(),
                    |i: int|
                        if 0 <= i < items@.len() {
                            items@[i].view()
                        } else {
                            JsonView::Null
                        },
                ),
            ),
            Json::Object(members) => JsonView::Object(
                Seq::new(
                    members@.len(),
                    |i: int|
                        if 0 <= i < members@.len() {
                            MemberView { name: members@[i].name@, value: members@[i].value.view() }
                        } else {
                            MemberView { name: Seq::empty(), value: JsonView::Null }
                        },
                ),
            ),
        }
    }
}

impl View for Member {
    type V = MemberView;

    open spec fn view(&self) -> MemberView {
        MemberView { name: self.name@, value: self.value@ }
    }
}

impl JsonView {
    /// The member named `key` of an object: the first one in the list of
    /// members.  Anything that is not an object has no members.
    pub open spec fn member(self, key: Seq<char>) -> Option<JsonView> {
        match self {
            JsonView::Object(members) => first_named(members, key),
            _ => None,
        }
    }

    /// The text of a string value.
    pub open spec fn text(self) -> Option<Seq<char>> {
        match self {
            JsonView::Text(s) => Some(s),
            _ => None,
        }
    }

    /// The elements of an array value.
    pub open spec fn elements(self) -> Option<Seq<JsonView>> {
        match self {
            JsonView::Array(items) => Some(items),
            _ => None,
        }
    }
}

/// The value of the first pair in `members` whose name is `key`.
pub open spec fn first_named(members: Seq<MemberView>, key: Seq<char>) -> Option<JsonView>
    decreases members.len(),
{
    if members.len() == 0 {
        None
    } else if members[0].name == key {
        Some(members[0].value)
    } else {
        first_named(members.drop_first(), key)
    }
}

/// What `serde_json` makes of a text: the document it denotes, or the
/// message of the error with which parsing fails.
pub uninterp spec fn json_document(text: Seq<char>) -> Result<JsonView, Seq<char>>;

/// The content of a `serde_json` value, as this crate models it: members of
/// an object in the order in which the value's map yields them, a number as
/// the text that the value displays for it.
pub uninterp spec fn json_content(value: serde_json::Value) -> JsonView;

/// `serde_json::from_str` at type `Value`.  The result is the parsed value,
/// or the display text of the error; both depend on the text alone.
#[verifier::external_body]
fn read_value(text: &str) -> (r: Result<serde_json::Value, String>)
    ensures
        match r {
            Ok(value) => json_document(text@) == Ok::<JsonView, Seq<char>>(json_content(value)),
            Err(message) => json_document(text@) == Err::<JsonView, Seq<char>>(message@),
        },
{
    serde_json::from_str::<serde_json::Value>(text).map_err(|e| e.to_string())
}

/// Copies a `serde_json::Value` into a [`Json`], variant by variant.
#[verifier::external_body]
fn copy_value(value: &serde_json::Value) -> (r: Json)
    ensures
        r@ == json_content(*value),
{
    match value {
        serde_json::Value::Null => Json::Null,
        serde_json::Value::Bool(b) => Json::Bool(*b),
        serde_json::Value::Number(n) => Json::Number(n.to_string()),
        serde_json::Value::String(s) => Json::Text(s.clone()),
        serde_json::Value::Array(items) => Json::Array(items.iter().map(copy_value).collect()),
        serde_json::Value::Object(members) => Json::Object(
            members.iter().map(|(k, v)| Member { name: k.clone(), value: copy_value(v) }).collect(),
        ),
    }
}

/// Parses a JSON text.
pub fn parse_json(text: &str) -> (r: Result<Json, String>)
    ensures
        match r {
            Ok(doc) => json_document(text@) == Ok::<JsonView, Seq<char>>(doc@),
            Err(message) => json_document(text@) == Err::<JsonView, Seq<char>>(message@),
        },
{
    match read_value(text) {
        Ok(value) => Ok(copy_value(&value)),
        Err(message) => Err(message),
    }
}

impl Json {
    /// The member named `key`, if this is an object that has one.
    pub fn member(&self, key: &str) -> (r: Option<&Json>)
        ensures
            match r {
                Some(found) => self@.member(key@) == Some(found@),
                None => self@.member(key@) is None,
            },
    {
        match self {
            Json::Object(members) => {
                let wanted = key.to_owned();
                let ghost all = member_views(members@);
                proof {
                    lemma_object_view(*members);
                }
                assert(all.skip(0) =~= all);
                let mut i: usize = 0;
                while i < members.len()
                    invariant
                        i <= members.len(),
                        wanted@ == key@,
                        self@ == JsonView::Object(all),
                        all == member_views(members@),
                        first_named(all, key@) == first_named(all.skip(i as int), key@),
                    decreases members.len() - i,
                {
                    assert(all.skip(i as int).drop_first() =~= all.skip(i + 1));
                    assert(all.skip(i as int)[0] == all[i as int]);
                    assert(all[i as int] == members@[i as int]@);
                    if members[i].name == wanted {
                        return Some(&members[i].value);
                    }
                    i += 1;
                }
                assert(all.skip(members.len() as int) =~= Seq::empty());
                None
            },
            _ => None,
        }
    }

    /// The text, if this is a string.
    pub fn text(&self) -> (r: Option<&String>)
        ensures
            match r {
                Some(s) => self@.text() == Some(s@),
                None => self@.text() is None,
            },
    {
        match self {
            Json::Text(s) => Some(s),
            _ => None,
        }
    }

    /// The elements, if this is an array.
    pub fn elements(&self) -> (r: Option<&Vec<Json>>)
        ensures
            match r {
                Some(items) => self@.elements() == Some(views(items@)),
                None => self@.elements() is None,
            },
    {
        match self {
            Json::Array(items) => {
                proof {
                    lemma_array_view(*items);
                }
                Some(items)
            },
            _ => None,
        }
    }
}

/// The content of an array is the list of its elements' contents.
pub proof fn lemma_array_view(items: Vec<Json>)
    ensures
        Json::Array(items)@ == JsonView::Array(views(items@)),
{
    assert(Json::Array(items)@->Array_0 =~= views(items@));
}

/// The content of an object is the list of its members' names and contents.
pub proof fn lemma_object_view(members: Vec<Member>)
    ensures
        Json::Object(members)@ == JsonView::Object(member_views(members@)),
{
    assert(Json::Object(members)@->Object_0 =~= member_views(members@));
}

/// The names and contents of a list of members.
pub open spec fn member_views(members: Seq<Member>) -> Seq<MemberView> {
    Seq::new(members.len(), |i: int| members[i]@)
}

/// The contents of a list of values.
pub open spec fn views(items: Seq<Json>) -> Seq<JsonView> {
    Seq::new(items.len(), |i: int| items[i]@)
}

} // verus!
