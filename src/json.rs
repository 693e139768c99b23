//! The JSON values that travel between the client and the server.
use vstd::prelude::*;

verus! {

/// A JSON value as the protocol exchanges it.
///
/// An object keeps its members in order, each key at most once where the value came from the
/// server.
#[derive(Debug, PartialEq)]
pub enum Json {
    Null,
    Boolean(bool),
    I64(i64),
    U64(u64),
    /// A number written with a fraction or an exponent, held as its whole part in the way a
    /// saturating cast to `i64` gives it: NaN becomes 0.
    Real(i64),
    Str(String),
    Array(Vec<Json>),
    Object(Vec<(String, Json)>),
}

/// The mathematical value of a `Json`: strings as character sequences.
pub enum JsonView {
    Null,
    Boolean(bool),
    I64(i64),
    U64(u64),
    Real(i64),
    Str(Seq<char>),
    Array(Seq<JsonView>),
    Object(Seq<(Seq<char>, JsonView)>),
}

impl Json {
    /// The value of `self` with its strings as character sequences.
    pub open spec fn model(self) -> JsonView
        decreases self,
    {
        match self {
            Json::Null => JsonView::Null,
            Json::Boolean(b) => JsonView::Boolean(b),
            Json::I64(n) => JsonView::I64(n),
            Json::U64(n) => JsonView::U64(n),
            Json::Real(n) => JsonView::Real(n),
            Json::Str(s) => JsonView::Str(s@),
            Json::Array(items) => JsonView::Array(
                Seq::new(
                    items@.len(),
                    |i: int|
                        if 0 <= i < items@.len() {
                            items@[i].model()
                        } else {
                            JsonView::Null
                        },
                ),
            ),
            Json::Object(fields) => JsonView::Object(
                Seq::new(
                    fields@.len(),
                    |i: int|
                        if 0 <= i < fields@.len() {
                            (fields@[i].0@, fields@[i].1.model())
                        } else {
                            (Seq::empty(), JsonView::Null)
                        },
                ),
            ),
        }
    }
}

/// Whether position `i` holds the first member of `fields` named `key`.
pub open spec fn first_key_at(fields: Seq<(String, Json)>, key: Seq<char>, i: int) -> bool {
    &&& 0 <= i < fields.len()
    &&& fields[i].0@ == key
    &&& forall|j: int| 0 <= j < i ==> fields[j].0@ != key
}

/// Whether `fields` has a member named `key`.
pub open spec fn has_key(fields: Seq<(String, Json)>, key: Seq<char>) -> bool {
    exists|i: int| 0 <= i < fields.len() && fields[i].0@ == key
}

/// The value of the first member of `fields` named `key`.
pub open spec fn field(fields: Seq<(String, Json)>, key: Seq<char>) -> Option<Json> {
    if has_key(fields, key) {
        Some(fields[choose|i: int| first_key_at(fields, key, i)].1)
    } else {
        None
    }
}

/// `fields` without its first member named `key`.
pub open spec fn without(fields: Seq<(String, Json)>, key: Seq<char>) -> Seq<(String, Json)> {
    if has_key(fields, key) {
        fields.remove(choose|i: int| first_key_at(fields, key, i))
    } else {
        fields
    }
}

/// The string that `field(fields, key)` holds, if it holds one.
pub open spec fn str_field(fields: Seq<(String, Json)>, key: Seq<char>) -> Option<Seq<char>> {
    match field(fields, key) {
        Some(Json::Str(s)) => Some(s@),
        _ => None,
    }
}

/// A member named `key` has a first position, and only one.
pub proof fn lemma_first_key(fields: Seq<(String, Json)>, key: Seq<char>, i: int)
    requires
        first_key_at(fields, key, i),
    ensures
        has_key(fields, key),
        field(fields, key) == Some(fields[i].1),
        without(fields, key) == fields.remove(i),
{
    let k = choose|k: int| first_key_at(fields, key, k);
    assert(first_key_at(fields, key, k));
    if k < i {
        assert(fields[k].0@ != key);
    }
    if i < k {
        assert(fields[i].0@ != key);
    }
}

/// Finds the first member of `fields` named `key`.
pub fn find_key(fields: &Vec<(String, Json)>, key: &str) -> (r: Option<usize>)
    ensures
        match r {
            Some(i) => first_key_at(fields@, key@, i as int),
            None => !has_key(fields@, key@),
        },
{
    let mut i: usize = 0;
    while i < fields.len()
        invariant
            0 <= i <= fields@.len(),
            forall|j: int| 0 <= j < i ==> fields@[j].0@ != key@,
        decreases fields@.len() - i,
    {
        if crate::text::str_eq(fields[i].0.as_str(), key) {
            return Some(i);
        }
        i = i + 1;
    }
    None
}

/// The value of the first member named `key`.
pub fn get_field<'a>(fields: &'a Vec<(String, Json)>, key: &str) -> (r: Option<&'a Json>)
    ensures
        match r {
            Some(v) => field(fields@, key@) == Some(*v),
            None => field(fields@, key@) is None,
        },
{
    match find_key(fields, key) {
        Some(i) => {
            proof {
                lemma_first_key(fields@, key@, i as int);
            }
            Some(&fields[i].1)
        },
        None => None,
    }
}

/// The string held by the first member named `key`, if it holds one.
pub fn get_str<'a>(fields: &'a Vec<(String, Json)>, key: &str) -> (r: Option<&'a String>)
    ensures
        match r {
            Some(s) => str_field(fields@, key@) == Some(s@),
            None => str_field(fields@, key@) is None,
        },
{
    match get_field(fields, key) {
        Some(Json::Str(s)) => Some(s),
        _ => None,
    }
}

/// Removes the first member named `key` and hands back its value.
pub fn take_field(fields: &mut Vec<(String, Json)>, key: &str) -> (r: Option<Json>)
    ensures
        r == field(old(fields)@, key@),
        final(fields)@ == without(old(fields)@, key@),
{
    match find_key(fields, key) {
        Some(i) => {
            proof {
                lemma_first_key(fields@, key@, i as int);
            }
            let (_, v) = fields.remove(i);
            Some(v)
        },
        None => None,
    }
}

/// An object of a single member.
pub fn single(key: &str, value: Json) -> (r: Json)
    ensures
        r matches Json::Object(f) && f@.len() == 1 && f@[0].0@ == key@ && f@[0].1 == value,
{
    Json::Object(vec![(key.to_owned(), value)])
}

} // verus!
