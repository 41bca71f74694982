//! JSON documents: the tree that request bodies are built as, its mathematical
//! model, and the encoding of the scalar and container types that every payload
//! is made of.

use vstd::prelude::*;

verus! {

/// An IEEE 754 binary64 number, held by its bit pattern.
#[derive(Clone, Copy, Debug, PartialEq, Eq, Default)]
pub struct Double {
    pub bits: u64,
}

impl Double {
    /// The number with the given bit pattern.
    pub fn from_bits(bits: u64) -> (d: Double)
        ensures
            d.bits == bits,
    {
        Double { bits }
    }

    /// The bit pattern of the number.
    pub fn to_bits(&self) -> (bits: u64)
        ensures
            bits == self.bits,
    {
        self.bits
    }
}

/// A JSON document as a mathematical value. The members of an object keep the
/// order in which they were written.
pub enum JsonValue {
    Null,
    Bool(bool),
    Int(int),
    Real(Double),
    Str(Seq<char>),
    Array(Seq<JsonValue>),
    Object(Seq<(Seq<char>, JsonValue)>),
}

/// A JSON document in memory.
#[derive(Debug, PartialEq)]
pub enum Json {
    Null,
    Bool(bool),
    Int(i64),
    Real(Double),
    Str(String),
    Array(Vec<Json>),
    Object(Vec<(String, Json)>),
}

impl Json {
    /// The document that the tree holds.
    pub open spec fn model(&self) -> JsonValue
        decreases self,
    {
        match self {
            Json::Null => JsonValue::Null,
            Json::Bool(b) => JsonValue::Bool(*b),
            Json::Int(i) => JsonValue::Int(*i as int),
            Json::Real(d) => JsonValue::Real(*d),
            Json::Str(s) => JsonValue::Str(s@),
            Json::Array(items) => JsonValue::Array(
                Seq::new(
                    items@.len(),
                    |i: int|
                        if 0 <= i < items@.len() {
                            items@[i].model()
                        } else {
                            JsonValue::Null
                        },
                ),
            ),
            Json::Object(members) => JsonValue::Object(
                Seq::new(
                    members@.len(),
                    |i: int|
                        if 0 <= i < members@.len() {
                            (members@[i].0@, members@[i].1.model())
                        } else {
                            (Seq::empty(), JsonValue::Null)
                        },
                ),
            ),
        }
    }
}

impl View for Json {
    type V = JsonValue;

    open spec fn view(&self) -> JsonValue {
        self.model()
    }
}

/// The models of a list of documents, one for one.
pub open spec fn items(list: Seq<Json>) -> Seq<JsonValue> {
    Seq::new(list.len(), |i: int| list[i]@)
}

/// The models of a list of object members, one for one.
pub open spec fn entries(members: Seq<(String, Json)>) -> Seq<(Seq<char>, JsonValue)> {
    Seq::new(members.len(), |i: int| (members[i].0@, members[i].1@))
}

/// A value that has a JSON encoding.
pub trait ToJson {
    /// The document that the value is written as.
    spec fn json(&self) -> JsonValue;

    /// Writes the value as a document.
    fn to_json(&self) -> (j: Json)
        ensures
            j@ == self.json(),
    ;
}

/// The array of the given documents.
pub fn array(list: Vec<Json>) -> (j: Json)
    ensures
        j@ == JsonValue::Array(items(list@)),
{
    let j = Json::Array(list);
    assert(j@->Array_0 =~= items(list@));
    j
}

/// The object of the given members.
pub fn object(members: Vec<(String, Json)>) -> (j: Json)
    ensures
        j@ == JsonValue::Object(entries(members@)),
{
    let j = Json::Object(members);
    assert(j@->Object_0 =~= entries(members@));
    j
}

/// The member that a value present under `key` contributes to an object.
pub open spec fn field<T: ToJson>(key: Seq<char>, value: T) -> Seq<(Seq<char>, JsonValue)> {
    seq![(key, value.json())]
}

/// The member that an optional value contributes to an object: none when it
/// is unset.
pub open spec fn opt_field<T: ToJson>(key: Seq<char>, value: Option<T>) -> Seq<
    (Seq<char>, JsonValue),
> {
    match value {
        Some(v) => seq![(key, v.json())],
        None => Seq::empty(),
    }
}

/// A field that is not set leaves no member behind, not even a `null`: the
/// members before it are all there is.
pub proof fn lemma_unset_field_is_left_out<T: ToJson>(
    members: Seq<(Seq<char>, JsonValue)>,
    key: Seq<char>,
)
    ensures
        members + opt_field::<T>(key, None) == members,
{
    assert(members + opt_field::<T>(key, None) =~= members);
}

/// A field that is set adds one member, under its key, behind the members
/// before it.
pub proof fn lemma_set_field_is_written<T: ToJson>(
    members: Seq<(Seq<char>, JsonValue)>,
    key: Seq<char>,
    value: T,
)
    ensures
        members + opt_field(key, Some(value)) == members.push((key, value.json())),
{
    assert(members + opt_field(key, Some(value)) =~= members.push((key, value.json())));
}

/// Appends the member `key: value`.
pub fn put<T: ToJson>(members: &mut Vec<(String, Json)>, key: &str, value: &T)
    ensures
        entries(final(members)@) == entries(old(members)@) + field(key@, *value),
{
    let document = value.to_json();
    members.push((key.to_owned(), document));
    assert(entries(members@) =~= entries(old(members)@) + field(key@, *value));
}

/// Appends the member `key: value` when the value is set, and nothing when it
/// is unset.
pub fn put_opt<T: ToJson>(members: &mut Vec<(String, Json)>, key: &str, value: &Option<T>)
    ensures
        entries(final(members)@) == entries(old(members)@) + opt_field(key@, *value),
{
    match value {
        Some(v) => {
            let document = v.to_json();
            members.push((key.to_owned(), document));
        },
        None => {},
    }
    assert(entries(members@) =~= entries(old(members)@) + opt_field(key@, *value));
}

impl ToJson for bool {
    open spec fn json(&self) -> JsonValue {
        JsonValue::Bool(*self)
    }

    fn to_json(&self) -> (j: Json) {
        Json::Bool(*self)
    }
}

impl ToJson for i32 {
    open spec fn json(&self) -> JsonValue {
        JsonValue::Int(*self as int)
    }

    fn to_json(&self) -> (j: Json) {
        Json::Int(*self as i64)
    }
}

impl ToJson for i64 {
    open spec fn json(&self) -> JsonValue {
        JsonValue::Int(*self as int)
    }

    fn to_json(&self) -> (j: Json) {
        Json::Int(*self)
    }
}

impl ToJson for Double {
    open spec fn json(&self) -> JsonValue {
        JsonValue::Real(*self)
    }

    fn to_json(&self) -> (j: Json) {
        Json::Real(*self)
    }
}

impl ToJson for String {
    open spec fn json(&self) -> JsonValue {
        JsonValue::Str(self@)
    }

    fn to_json(&self) -> (j: Json) {
        Json::Str(self.clone())
    }
}

/// An unset value that is written out is written as `null`.
impl<T: ToJson> ToJson for Option<T> {
    open spec fn json(&self) -> JsonValue {
        match self {
            Some(v) => v.json(),
            None => JsonValue::Null,
        }
    }

    fn to_json(&self) -> (j: Json) {
        match self {
            Some(v) => v.to_json(),
            None => Json::Null,
        }
    }
}

impl<T: ToJson> ToJson for Vec<T> {
    open spec fn json(&self) -> JsonValue {
        JsonValue::Array(Seq::new(self@.len(), |i: int| self@[i].json()))
    }

    fn to_json(&self) -> (j: Json) {
        let mut list: Vec<Json> = Vec::new();
        let mut i: usize = 0;
        while i < self.len()
            invariant
                i <= self.len(),
                list@.len() == i,
                forall|k: int| 0 <= k < i ==> (#[trigger] list@[k])@ == self@[k].json(),
            decreases self.len() - i,
        {
            list.push(self[i].to_json());
            i += 1;
        }
        let j = array(list);
        assert(j@->Array_0 =~= Seq::new(self@.len(), |i: int| self@[i].json()));
        j
    }
}

/// Whether two documents are the same.
pub fn same_document(a: &Json, b: &Json) -> (same: bool)
    ensures
        same == (a@ == b@),
    decreases a,
{
    match (a, b) {
        (Json::Null, Json::Null) => true,
        (Json::Bool(x), Json::Bool(y)) => *x == *y,
        (Json::Int(x), Json::Int(y)) => *x == *y,
        (Json::Real(x), Json::Real(y)) => x.bits == y.bits,
        (Json::Str(x), Json::Str(y)) => *x == *y,
        (Json::Array(x), Json::Array(y)) => {
            if x.len() != y.len() {
                assert(a@->Array_0.len() != b@->Array_0.len());
                return false;
            }
            let mut i: usize = 0;
            while i < x.len()
                invariant
                    i <= x.len() == y.len(),
                    *a == Json::Array(*x),
                    *b == Json::Array(*y),
                    forall|k: int| 0 <= k < i ==> (#[trigger] x@[k])@ == y@[k]@,
                decreases x.len() - i,
            {
                if !same_document(&x[i], &y[i]) {
                    assert(a@->Array_0[i as int] != b@->Array_0[i as int]);
                    return false;
                }
                i += 1;
            }
            assert(a@->Array_0 =~= b@->Array_0);
            true
        },
        (Json::Object(x), Json::Object(y)) => {
            if x.len() != y.len() {
                assert(a@->Object_0.len() != b@->Object_0.len());
                return false;
            }
            let mut i: usize = 0;
            while i < x.len()
                invariant
                    i <= x.len() == y.len(),
                    *a == Json::Object(*x),
                    *b == Json::Object(*y),
                    forall|k: int|
                        0 <= k < i ==> (#[trigger] x@[k]).0@ == y@[k].0@ && x@[k].1@ == y@[k].1@,
                decreases x.len() - i,
            {
                if x[i].0 != y[i].0 || !same_document(&x[i].1, &y[i].1) {
                    assert(a@->Object_0[i as int] != b@->Object_0[i as int]);
                    return false;
                }
                i += 1;
            }
            assert(a@->Object_0 =~= b@->Object_0);
            true
        },
        _ => false,
    }
}

/// Whether one of the items is written as the same document as `item`.
pub open spec fn holds<T: ToJson>(list: Seq<T>, item: T) -> bool {
    exists|i: int| 0 <= i < list.len() && (#[trigger] list[i]).json() == item.json()
}

/// An item that was put behind a list is held by it: what is added once is
/// found when it is added again.
pub proof fn lemma_added_item_is_held<T: ToJson>(list: Seq<T>, item: T)
    ensures
        holds(list.push(item), item),
        forall|other: T| holds(list, other) ==> holds(list.push(item), other),
{
    assert(list.push(item)[list.len() as int].json() == item.json());
    assert forall|other: T| holds(list, other) implies holds(list.push(item), other) by {
        let i = choose|i: int| 0 <= i < list.len() && (#[trigger] list[i]).json() == other.json();
        assert(list.push(item)[i].json() == other.json());
    }
}

/// Whether one of the items is written as the same document as `item`.
pub fn contains<T: ToJson>(list: &Vec<T>, item: &T) -> (found: bool)
    ensures
        found == holds(list@, *item),
{
    let document = item.to_json();
    let mut i: usize = 0;
    while i < list.len()
        invariant
            i <= list.len(),
            document@ == item.json(),
            forall|k: int| 0 <= k < i ==> (#[trigger] list@[k]).json() != item.json(),
        decreases list.len() - i,
    {
        let other = list[i].to_json();
        if same_document(&other, &document) {
            return true;
        }
        i += 1;
    }
    false
}

} // verus!
