//! A JSON document model, and typed reads of its members.
use vstd::prelude::*;

verus! {

#[verifier::external_type_specification]
#[verifier::external_body]
pub struct ExValue(serde_json::Value);

/// A JSON document.
#[derive(Debug)]
pub enum Json {
    /// `null`.
    Null,
    /// `true` or `false`.
    Bool(bool),
    /// A number, kept in the decimal text that the parser printed for it.
    Number(String),
    /// A string.
    Str(String),
    /// An array of values.
    Array(Vec<Json>),
    /// An object's members as name and value; a lookup finds the first of a name.
    Object(Vec<(String, Json)>),
}

/// What `serde_json` parses `text` into; `None` where `text` is no JSON document.
pub uninterp spec fn parsed_json(text: Seq<char>) -> Option<Json>;

/// Relies on `serde_json::from_str` into `serde_json::Value`: the outcome depends on
/// the text alone.
#[verifier::external_body]
fn parse_value(text: &str) -> (r: Option<Json>)
    ensures
        r == parsed_json(text@),
{
    serde_json::from_str::<serde_json::Value>(text).ok().map(from_value)
}

/// Moves a parsed `serde_json::Value` into the library's model, variant for variant.
#[verifier::external_body]
fn from_value(v: serde_json::Value) -> Json {
    match v {
        serde_json::Value::Null => Json::Null,
        serde_json::Value::Bool(b) => Json::Bool(b),
        serde_json::Value::Number(n) => Json::Number(n.to_string()),
        serde_json::Value::String(s) => Json::Str(s),
        serde_json::Value::Array(a) => Json::Array(a.into_iter().map(from_value).collect()),
        serde_json::Value::Object(m) => Json::Object(
            m.into_iter().map(|(k, x)| (k, from_value(x))).collect(),
        ),
    }
}

/// The value of the first member named `key`.
pub open spec fn member_of(fields: Seq<(String, Json)>, key: Seq<char>) -> Option<Json>
    decreases fields.len(),
{
    if fields.len() == 0 {
        None
    } else if fields[0].0@ == key {
        Some(fields[0].1)
    } else {
        member_of(fields.drop_first(), key)
    }
}

/// The member `key` of `j`, where `j` is an object that has one.
pub open spec fn field(j: Json, key: Seq<char>) -> Option<Json> {
    match j {
        Json::Object(fields) => member_of(fields@, key),
        _ => None,
    }
}

/// The text of a string value.
pub open spec fn text_of(v: Option<Json>) -> Option<Seq<char>> {
    match v {
        Some(Json::Str(s)) => Some(s@),
        _ => None,
    }
}

/// An optional string member: absent or `null` reads as `Some(None)`, a string as
/// `Some(Some(..))`, anything else does not read.
pub open spec fn opt_text_of(v: Option<Json>) -> Option<Option<Seq<char>>> {
    match v {
        None => Some(None),
        Some(Json::Null) => Some(None),
        Some(Json::Str(s)) => Some(Some(s@)),
        _ => None,
    }
}

/// The value that an optional reference points to.
pub open spec fn deref(v: Option<&Json>) -> Option<Json> {
    match v {
        Some(x) => Some(*x),
        None => None,
    }
}

/// The text of an optional string.
pub open spec fn opt_view(o: Option<String>) -> Option<Seq<char>> {
    match o {
        Some(s) => Some(s@),
        None => None,
    }
}

/// Looking a key up in an object with one more member at its end.
pub broadcast proof fn lemma_member_of_push(
    fields: Seq<(String, Json)>,
    p: (String, Json),
    key: Seq<char>,
)
    ensures
        #[trigger] member_of(fields.push(p), key) == if member_of(fields, key) is Some {
            member_of(fields, key)
        } else if p.0@ == key {
            Some(p.1)
        } else {
            None
        },
    decreases fields.len(),
{
    if fields.len() == 0 {
        assert(fields.push(p).drop_first() =~= Seq::<(String, Json)>::empty());
        assert(member_of(fields.push(p).drop_first(), key) is None);
    } else {
        assert(fields.push(p)[0] == fields[0]);
        assert(fields.push(p).drop_first() =~= fields.drop_first().push(p));
        lemma_member_of_push(fields.drop_first(), p, key);
    }
}

/// Appends the member `key: value` to an object's members.
pub fn put(fields: &mut Vec<(String, Json)>, key: &str, value: Json)
    ensures
        final(fields)@ == old(fields)@.push(final(fields)@.last()),
        final(fields)@.last().0@ == key@,
        final(fields)@.last().1 == value,
{
    fields.push((String::from_str(key), value));
}

/// A string value, or `null` for none.
pub fn opt_str(o: &Option<String>) -> (r: Json)
    ensures
        opt_text_of(Some(r)) == Some(opt_view(*o)),
{
    match o {
        Some(s) => Json::Str(s.clone()),
        None => Json::Null,
    }
}

proof fn lemma_member_skip(fields: Seq<(String, Json)>, i: int, key: Seq<char>)
    requires
        0 <= i < fields.len(),
        fields[i].0@ != key,
    ensures
        member_of(fields.subrange(i, fields.len() as int), key) == member_of(
            fields.subrange(i + 1, fields.len() as int),
            key,
        ),
{
    let s = fields.subrange(i, fields.len() as int);
    assert(s.drop_first() =~= fields.subrange(i + 1, fields.len() as int));
}

/// Where the first member named `key` stands.
fn position(fields: &Vec<(String, Json)>, key: &str) -> (r: Option<usize>)
    ensures
        match r {
            Some(i) => i < fields@.len() && member_of(fields@, key@) == Some(fields@[i as int].1),
            None => member_of(fields@, key@) is None,
        },
{
    let k = String::from_str(key);
    let mut i: usize = 0;
    assert(fields@.subrange(0, fields@.len() as int) =~= fields@);
    while i < fields.len()
        invariant
            0 <= i <= fields.len(),
            k@ == key@,
            member_of(fields@, key@) == member_of(
                fields@.subrange(i as int, fields@.len() as int),
                key@,
            ),
        decreases fields.len() - i,
    {
        if fields[i].0 == k {
            assert(fields@.subrange(i as int, fields@.len() as int)[0] == fields@[i as int]);
            return Some(i);
        }
        proof {
            lemma_member_skip(fields@, i as int, key@);
        }
        i = i + 1;
    }
    None
}

impl Json {
    /// Parses a JSON document.
    pub fn parse(text: &str) -> (r: Option<Json>)
        ensures
            r == parsed_json(text@),
    {
        parse_value(text)
    }

    /// The member `key` of this value, where it is an object that has one.
    pub fn get(&self, key: &str) -> (r: Option<&Json>)
        ensures
            match r {
                Some(v) => field(*self, key@) == Some(*v),
                None => field(*self, key@) is None,
            },
    {
        match self {
            Json::Object(fields) => match position(fields, key) {
                Some(i) => Some(&fields[i].1),
                None => None,
            },
            _ => None,
        }
    }

    /// Takes the member `key` out of this value, where it is an object that has one.
    pub fn take(self, key: &str) -> (r: Option<Json>)
        ensures
            r == field(self, key@),
    {
        match self {
            Json::Object(mut fields) => match position(&fields, key) {
                Some(i) => Some(fields.remove(i).1),
                None => None,
            },
            _ => None,
        }
    }

    /// The string member `key`, where there is one.
    pub fn text(&self, key: &str) -> (r: Option<String>)
        ensures
            match r {
                Some(s) => text_of(field(*self, key@)) == Some(s@),
                None => text_of(field(*self, key@)) is None,
            },
    {
        match self.get(key) {
            Some(Json::Str(s)) => Some(s.clone()),
            _ => None,
        }
    }

    /// The optional string member `key`: `Some(None)` where it is absent or `null`.
    pub fn opt_text(&self, key: &str) -> (r: Option<Option<String>>)
        ensures
            match r {
                Some(Some(s)) => opt_text_of(field(*self, key@)) == Some(Some(s@)),
                Some(None) => opt_text_of(field(*self, key@)) == Some(None::<Seq<char>>),
                None => opt_text_of(field(*self, key@)) is None,
            },
    {
        match self.get(key) {
            None => Some(None),
            Some(Json::Null) => Some(None),
            Some(Json::Str(s)) => Some(Some(s.clone())),
            _ => None,
        }
    }
}

} // verus!
