use vstd::prelude::*;
use vstd::string::*;

verus! {

/// One `"key": value` pair of a JSON object.
#[derive(Debug, PartialEq, Eq)]
pub struct Member {
    pub key: String,
    pub value: Json,
}

/// A JSON document as a tree of plain values.
///
/// A number keeps its text; an object keeps its members as a list.
#[derive(Debug, PartialEq, Eq)]
pub enum Json {
    Null,
    Bool(bool),
    Number(String),
    Text(String),
    Array(Vec<Json>),
    Object(Vec<Member>),
}

/// The value of the first member of `members`, from position `from` on,
/// whose key is `key`.
pub open spec fn member_from(members: Seq<Member>, key: Seq<char>, from: int) -> Option<Json>
    decreases members.len() - from,
{
    if from < 0 || from >= members.len() {
        None
    } else if members[from].key@ == key {
        Some(members[from].value)
    } else {
        member_from(members, key, from + 1)
    }
}

impl Json {
    /// The member `key` of an object: the first one of that name. `None` for
    /// a value that is no object, or an object without such a member.
    pub open spec fn field(self, key: Seq<char>) -> Option<Json> {
        match self {
            Json::Object(members) => member_from(members@, key, 0),
            _ => None,
        }
    }

    /// The text of a JSON string; `None` for every other value.
    pub open spec fn text(self) -> Option<Seq<char>> {
        match self {
            Json::Text(s) => Some(s@),
            _ => None,
        }
    }

    /// The elements of a JSON array; `None` for every other value.
    pub open spec fn items(self) -> Option<Seq<Json>> {
        match self {
            Json::Array(v) => Some(v@),
            _ => None,
        }
    }

    /// Looks a member of an object up by its key.
    pub fn get(&self, key: &str) -> (r: Option<&Json>)
        ensures
            match r {
                Some(v) => self.field(key@) == Some(*v),
                None => self.field(key@).is_none(),
            },
    {
        match self {
            Json::Object(members) => {
                let wanted = String::from_str(key);
                let mut i: usize = 0;
                while i < members.len()
                    invariant
                        i <= members.len(),
                        wanted@ == key@,
                        self.field(key@) == member_from(members@, key@, 0),
                        member_from(members@, key@, 0) == member_from(members@, key@, i as int),
                    decreases members.len() - i,
                {
                    if members[i].key == wanted {
                        return Some(&members[i].value);
                    }
                    i = i + 1;
                }
                None
            },
            _ => None,
        }
    }

    /// The text, if this is a JSON string.
    pub fn as_text(&self) -> (r: Option<&String>)
        ensures
            match r {
                Some(s) => self.text() == Some(s@),
                None => self.text().is_none(),
            },
    {
        match self {
            Json::Text(s) => Some(s),
            _ => None,
        }
    }

    /// The elements, if this is a JSON array.
    pub fn as_items(&self) -> (r: Option<&Vec<Json>>)
        ensures
            match r {
                Some(v) => self.items() == Some(v@),
                None => self.items().is_none(),
            },
    {
        match self {
            Json::Array(v) => Some(v),
            _ => None,
        }
    }

    /// Whether this is JSON's `null`.
    pub fn is_null(&self) -> (r: bool)
        ensures
            r == (*self == Json::Null),
    {
        match self {
            Json::Null => true,
            _ => false,
        }
    }
}

/// The members of an object, in their order; none for any other value.
pub open spec fn members_of(j: Json) -> Seq<Member> {
    match j {
        Json::Object(members) => members@,
        _ => Seq::empty(),
    }
}

/// `wider` is the object `j` with one more member, `extra`, at position `at`.
pub open spec fn widened(j: Json, wider: Json, at: int, extra: Member) -> bool {
    &&& j is Object
    &&& wider is Object
    &&& 0 <= at <= members_of(j).len()
    &&& members_of(wider) == members_of(j).insert(at, extra)
}

/// Behind a new member every lookup finds what it found one position earlier.
proof fn lookup_behind_new_member(
    members: Seq<Member>,
    at: int,
    extra: Member,
    key: Seq<char>,
    from: int,
)
    requires
        0 <= at <= from <= members.len(),
    ensures
        member_from(members.insert(at, extra), key, from + 1) == member_from(members, key, from),
    decreases members.len() - from,
{
    if from < members.len() {
        lookup_behind_new_member(members, at, extra, key, from + 1);
    }
}

/// From a position before a new member, a lookup of another key finds what
/// it found without the member.
proof fn lookup_before_new_member(
    members: Seq<Member>,
    at: int,
    extra: Member,
    key: Seq<char>,
    from: int,
)
    requires
        0 <= from <= at <= members.len(),
        extra.key@ != key,
    ensures
        member_from(members.insert(at, extra), key, from) == member_from(members, key, from),
    decreases at - from,
{
    if from == at {
        lookup_behind_new_member(members, at, extra, key, at);
    } else {
        lookup_before_new_member(members, at, extra, key, from + 1);
    }
}

/// A member put into an object changes no lookup of another key.
pub proof fn other_member_keeps_field(
    j: Json,
    wider: Json,
    at: int,
    extra: Member,
    key: Seq<char>,
)
    requires
        widened(j, wider, at, extra),
        extra.key@ != key,
    ensures
        wider.field(key) == j.field(key),
{
    lookup_before_new_member(members_of(j), at, extra, key, 0);
}

/// `serde_json::Value`, carried from the reader to the conversion and not
/// looked into.
#[verifier::external_type_specification]
#[verifier::external_body]
pub struct ExValue(serde_json::Value);

/// `serde_json::Error`: why a text is no JSON. Only its presence is used.
#[verifier::external_type_specification]
#[verifier::external_body]
pub struct ExParseError(serde_json::Error);

/// The tree that a `serde_json::Value` holds.
pub uninterp spec fn tree_of(value: serde_json::Value) -> Json;

/// The document that `serde_json::from_str` reads from `text`: `None` where
/// it reports an error.
pub uninterp spec fn document_of(text: Seq<char>) -> Option<Json>;

/// `serde_json::from_str`, at the type `serde_json::Value`.
///
/// Trusted: it succeeds exactly on the texts that have a document, and the
/// value then holds that document.
#[verifier::external_body]
fn read_value(text: &str) -> (r: Result<serde_json::Value, serde_json::Error>)
    ensures
        r.is_ok() == document_of(text@).is_some(),
        r.is_ok() ==> document_of(text@) == Some(tree_of(r.unwrap())),
{
    serde_json::from_str::<serde_json::Value>(text)
}

/// Takes a `serde_json::Value` apart, variant by variant, into a [`Json`];
/// a `serde_json::Number` goes through its `to_string`, a `serde_json::Map`
/// through its `into_iter`, which hands the members out in the map's order.
///
/// Trusted: the result is the tree that the value holds.
#[verifier::external_body]
fn into_json(value: serde_json::Value) -> (r: Json)
    ensures
        r == tree_of(value),
{
    match value {
        serde_json::Value::Null => Json::Null,
        serde_json::Value::Bool(b) => Json::Bool(b),
        serde_json::Value::Number(n) => Json::Number(n.to_string()),
        serde_json::Value::String(s) => Json::Text(s),
        serde_json::Value::Array(a) => Json::Array(a.into_iter().map(into_json).collect()),
        serde_json::Value::Object(o) => Json::Object(
            o.into_iter().map(|(key, v)| Member { key, value: into_json(v) }).collect(),
        ),
    }
}

/// Reads a JSON text into a tree.
pub fn parse_json(text: &str) -> (r: Option<Json>)
    ensures
        r == document_of(text@),
{
    match read_value(text) {
        Ok(value) => Some(into_json(value)),
        Err(_) => None,
    }
}

} // verus!
