//! JSON documents as the library sees them: a tree of plain values with a
//! mathematical view, read from text by `serde_json` and then walked by
//! verified code only.

use vstd::prelude::*;
use crate::assoc::{entry_views, find_entry, get};

verus! {

/// A JSON number: a non-negative integer, a negative integer, or a binary64
/// floating-point value kept as its IEEE-754 bit pattern.
#[derive(Clone, Copy, Debug, PartialEq, Eq, Hash)]
pub enum JsonNumber {
    PosInt(u64),
    NegInt(i64),
    Float(u64),
}

/// Whether a binary64 bit pattern stands for a finite value: its exponent
/// field is not all ones.
pub open spec fn finite_bits(bits: u64) -> bool {
    bits & 0x7ff0_0000_0000_0000u64 != 0x7ff0_0000_0000_0000u64
}

impl JsonNumber {
    /// A number that has a JSON form: anything but a floating-point value
    /// that is not finite.
    pub open spec fn writable(self) -> bool {
        self matches JsonNumber::Float(bits) ==> finite_bits(bits)
    }

    /// The number as an unsigned integer, where it is one.
    pub open spec fn unsigned(self) -> Option<u64> {
        match self {
            JsonNumber::PosInt(u) => Some(u),
            _ => None,
        }
    }

    /// Decides [`JsonNumber::writable`].
    pub fn is_writable(&self) -> (r: bool)
        ensures
            r == self.writable(),
    {
        match self {
            JsonNumber::Float(bits) => *bits & 0x7ff0_0000_0000_0000u64
                != 0x7ff0_0000_0000_0000u64,
            _ => true,
        }
    }

    /// The number as an unsigned integer, where it is one.
    pub fn as_u64(&self) -> (r: Option<u64>)
        ensures
            r == self.unsigned(),
    {
        match self {
            JsonNumber::PosInt(u) => Some(*u),
            _ => None,
        }
    }
}

/// A JSON value. An object keeps its members in order, as pairs of key and
/// value; looking a key up finds its first member.
#[derive(Debug, PartialEq)]
pub enum Json {
    Null,
    Bool(bool),
    Number(JsonNumber),
    String(String),
    Array(Vec<Json>),
    Object(Vec<(String, Json)>),
}

/// The mathematical value of a [`Json`].
pub enum JsonView {
    Null,
    Bool(bool),
    Number(JsonNumber),
    String(Seq<char>),
    Array(Seq<JsonView>),
    Object(Seq<(Seq<char>, JsonView)>),
}

impl JsonView {
    /// The member `key` of an object; `None` for a missing key and for
    /// anything that is not an object.
    pub open spec fn field(self, key: Seq<char>) -> Option<JsonView> {
        match self {
            JsonView::Object(members) => get(members, key),
            _ => None,
        }
    }

    /// The characters of a string value.
    pub open spec fn text(self) -> Option<Seq<char>> {
        match self {
            JsonView::String(s) => Some(s),
            _ => None,
        }
    }

    /// The elements of an array.
    pub open spec fn items(self) -> Option<Seq<JsonView>> {
        match self {
            JsonView::Array(items) => Some(items),
            _ => None,
        }
    }

    /// The number of a numeric value.
    pub open spec fn number(self) -> Option<JsonNumber> {
        match self {
            JsonView::Number(n) => Some(n),
            _ => None,
        }
    }

    /// The value of a non-negative integer.
    pub open spec fn unsigned(self) -> Option<u64> {
        match self {
            JsonView::Number(n) => n.unsigned(),
            _ => None,
        }
    }

    /// The value of a boolean.
    pub open spec fn boolean(self) -> Option<bool> {
        match self {
            JsonView::Bool(b) => Some(b),
            _ => None,
        }
    }

    /// The characters of the string member `key`.
    pub open spec fn text_field(self, key: Seq<char>) -> Option<Seq<char>> {
        match self.field(key) {
            Some(v) => v.text(),
            None => None,
        }
    }

    /// The number of the member `key`.
    pub open spec fn number_field(self, key: Seq<char>) -> Option<JsonNumber> {
        match self.field(key) {
            Some(v) => v.number(),
            None => None,
        }
    }

    /// The non-negative integer of the member `key`.
    pub open spec fn unsigned_field(self, key: Seq<char>) -> Option<u64> {
        match self.field(key) {
            Some(v) => v.unsigned(),
            None => None,
        }
    }

    /// The boolean of the member `key`.
    pub open spec fn boolean_field(self, key: Seq<char>) -> Option<bool> {
        match self.field(key) {
            Some(v) => v.boolean(),
            None => None,
        }
    }

    /// The member `key` where it may be left out: `Some(None)` for a missing
    /// member and for `null`, `Some(Some(n))` for a non-negative integer, and
    /// `None` for anything else.
    pub open spec fn optional_unsigned_field(self, key: Seq<char>) -> Option<Option<u64>> {
        match self.field(key) {
            None => Some(None),
            Some(JsonView::Null) => Some(None),
            Some(v) => match v.unsigned() {
                Some(n) => Some(Some(n)),
                None => None,
            },
        }
    }

    /// The member `key` where it may be left out: `Some(None)` for a missing
    /// member and for `null`, `Some(Some(n))` for a number, and `None` for
    /// anything else.
    pub open spec fn optional_number_field(self, key: Seq<char>) -> Option<Option<JsonNumber>> {
        match self.field(key) {
            None => Some(None),
            Some(JsonView::Null) => Some(None),
            Some(v) => match v.number() {
                Some(n) => Some(Some(n)),
                None => None,
            },
        }
    }
}

/// The views of the elements of an array.
pub open spec fn items_view(items: Seq<Json>) -> Seq<JsonView> {
    Seq::new(items.len(), |i: int| items[i]@)
}

impl Json {
    /// The tree as a mathematical value.
    pub open spec fn model(&self) -> JsonView
        decreases self,
    {
        match self {
            Json::Null => JsonView::Null,
            Json::Bool(b) => JsonView::Bool(*b),
            Json::Number(n) => JsonView::Number(*n),
            Json::String(s) => JsonView::String(s@),
            Json::Array(items) => JsonView::Array(
                Seq::new(
                    items@.len(),
                    |i: int|
                        if 0 <= i < items@.len() {
                            items@[i].model()
                        } else {
                            JsonView::Null
                        },
                ),
            ),
            Json::Object(members) => JsonView::Object(
                Seq::new(
                    members@.len(),
                    |i: int|
                        if 0 <= i < members@.len() {
                            (members@[i].0@, members@[i].1.model())
                        } else {
                            (Seq::empty(), JsonView::Null)
                        },
                ),
            ),
        }
    }
}

impl View for Json {
    type V = JsonView;

    open spec fn view(&self) -> JsonView {
        self.model()
    }
}

/// An array's view is the sequence of its elements' views.
pub proof fn lemma_array_view(items: Vec<Json>)
    ensures
        Json::Array(items)@ == JsonView::Array(items_view(items@)),
{
    assert(Json::Array(items)@ matches JsonView::Array(s) && s =~= items_view(items@));
}

/// An object's view is the sequence of its members' views.
pub proof fn lemma_object_view(members: Vec<(String, Json)>)
    ensures
        Json::Object(members)@ == JsonView::Object(entry_views(members@)),
{
    assert(Json::Object(members)@ matches JsonView::Object(s) && s =~= entry_views(members@));
}

impl Json {
    /// The member `key` of an object.
    pub fn get(&self, key: &str) -> (r: Option<&Json>)
        ensures
            match r {
                Some(v) => self@.field(key@) == Some(v@),
                None => self@.field(key@) is None,
            },
    {
        match self {
            Json::Object(members) => {
                proof {
                    lemma_object_view(*members);
                }
                find_entry(members, key)
            },
            _ => None,
        }
    }

    /// The characters of a string value.
    pub fn as_str(&self) -> (r: Option<&str>)
        ensures
            match r {
                Some(s) => self@.text() == Some(s@),
                None => self@.text() is None,
            },
    {
        match self {
            Json::String(s) => Some(s.as_str()),
            _ => None,
        }
    }

    /// The elements of an array.
    pub fn as_array(&self) -> (r: Option<&Vec<Json>>)
        ensures
            match r {
                Some(items) => self@.items() == Some(items_view(items@)),
                None => self@.items() is None,
            },
    {
        match self {
            Json::Array(items) => {
                proof {
                    lemma_array_view(*items);
                }
                Some(items)
            },
            _ => None,
        }
    }

    /// The number of a numeric value.
    pub fn as_number(&self) -> (r: Option<JsonNumber>)
        ensures
            r == self@.number(),
    {
        match self {
            Json::Number(n) => Some(*n),
            _ => None,
        }
    }

    /// The value of a non-negative integer.
    pub fn as_u64(&self) -> (r: Option<u64>)
        ensures
            r == self@.unsigned(),
    {
        match self {
            Json::Number(n) => n.as_u64(),
            _ => None,
        }
    }

    /// The value of a boolean.
    pub fn as_bool(&self) -> (r: Option<bool>)
        ensures
            r == self@.boolean(),
    {
        match self {
            Json::Bool(b) => Some(*b),
            _ => None,
        }
    }

    /// Whether the value is `null`.
    pub fn is_null(&self) -> (r: bool)
        ensures
            r == (self@ is Null),
    {
        match self {
            Json::Null => true,
            _ => false,
        }
    }

    /// Whether the value is an object.
    pub fn is_object(&self) -> (r: bool)
        ensures
            r == (self@ is Object),
    {
        match self {
            Json::Object(_) => true,
            _ => false,
        }
    }

    /// The characters of the string member `key`.
    pub fn get_str(&self, key: &str) -> (r: Option<&str>)
        ensures
            match r {
                Some(s) => self@.text_field(key@) == Some(s@),
                None => self@.text_field(key@) is None,
            },
    {
        match self.get(key) {
            Some(v) => v.as_str(),
            None => None,
        }
    }

    /// The number of the member `key`.
    pub fn get_number(&self, key: &str) -> (r: Option<JsonNumber>)
        ensures
            r == self@.number_field(key@),
    {
        match self.get(key) {
            Some(v) => v.as_number(),
            None => None,
        }
    }

    /// The non-negative integer of the member `key`.
    pub fn get_u64(&self, key: &str) -> (r: Option<u64>)
        ensures
            r == self@.unsigned_field(key@),
    {
        match self.get(key) {
            Some(v) => v.as_u64(),
            None => None,
        }
    }

    /// The boolean of the member `key`.
    pub fn get_bool(&self, key: &str) -> (r: Option<bool>)
        ensures
            r == self@.boolean_field(key@),
    {
        match self.get(key) {
            Some(v) => v.as_bool(),
            None => None,
        }
    }

    /// A copy of the whole tree.
    pub fn deep_clone(&self) -> (r: Json)
        ensures
            r@ == self@,
        decreases self,
    {
        match self {
            Json::Null => Json::Null,
            Json::Bool(b) => Json::Bool(*b),
            Json::Number(n) => Json::Number(*n),
            Json::String(s) => Json::String(s.clone()),
            Json::Array(items) => {
                let mut out: Vec<Json> = Vec::new();
                let mut i: usize = 0;
                while i < items.len()
                    invariant
                        i <= items.len(),
                        out@.len() == i,
                        *self matches Json::Array(x) && x == *items,
                        forall|k: int| 0 <= k < i ==> (#[trigger] out@[k])@ == items@[k]@,
                    decreases items.len() - i,
                {
                    proof {
                        assert(decreases_to!(*self => self->Array_0));
                        assert(decreases_to!(self->Array_0 => self->Array_0[i as int]));
                    }
                    let item = items[i].deep_clone();
                    out.push(item);
                    i += 1;
                }
                proof {
                    lemma_array_view(*items);
                    lemma_array_view(out);
                    assert(items_view(out@) =~= items_view(items@));
                }
                Json::Array(out)
            },
            Json::Object(members) => {
                let mut out: Vec<(String, Json)> = Vec::new();
                let mut i: usize = 0;
                while i < members.len()
                    invariant
                        i <= members.len(),
                        out@.len() == i,
                        *self matches Json::Object(x) && x == *members,
                        forall|k: int|
                            0 <= k < i ==> (#[trigger] out@[k]).0@ == members@[k].0@ && out@[k].1@
                                == members@[k].1@,
                    decreases members.len() - i,
                {
                    proof {
                        assert(decreases_to!(*self => self->Object_0));
                        assert(decreases_to!(self->Object_0 => self->Object_0[i as int]));
                        assert(decreases_to!(self->Object_0[i as int] => self->Object_0[i as int].1));
                    }
                    let key = members[i].0.clone();
                    let value = members[i].1.deep_clone();
                    out.push((key, value));
                    i += 1;
                }
                proof {
                    lemma_object_view(*members);
                    lemma_object_view(out);
                    assert(entry_views(out@) =~= entry_views(members@));
                }
                Json::Object(out)
            },
        }
    }
}

/// `serde_json::Value`, as an opaque type: verified code sees a value of it
/// only through [`value_contents`].
#[verifier::external_type_specification]
#[verifier::external_body]
pub struct ExValue(serde_json::Value);

/// `serde_json::Number`, as an opaque type: verified code sees a value of it
/// only through [`number_contents`].
#[verifier::external_type_specification]
#[verifier::external_body]
pub struct ExNumber(serde_json::Number);

/// What `serde_json::from_str` makes of a text: the document it holds, or
/// the message of the error that refuses it. The parser reads the text and
/// nothing else, so the same text always gives the same outcome. It refuses,
/// among others, text after the document and nesting beyond its depth
/// limit.
pub uninterp spec fn json_document(text: Seq<char>) -> Result<JsonView, Seq<char>>;

/// The tree that a `serde_json::Value` holds. The members of an object
/// stand in the order in which its map walks them.
pub uninterp spec fn value_contents(v: serde_json::Value) -> JsonView;

/// The number that a `serde_json::Number` holds: which of its three forms
/// it has, and the value in that form.
pub uninterp spec fn number_contents(n: serde_json::Number) -> JsonNumber;

/// One level of a `serde_json::Value`, with what lies below still in the
/// outside crate's own types.
enum Shape<'a> {
    Null,
    Bool(bool),
    Number(&'a serde_json::Number),
    Text(&'a String),
    Items(&'a Vec<serde_json::Value>),
    Members(Vec<(&'a String, &'a serde_json::Value)>),
}

spec fn items_contents(items: Seq<serde_json::Value>) -> Seq<JsonView> {
    Seq::new(items.len(), |i: int| value_contents(items[i]))
}

spec fn members_contents(members: Seq<(&String, &serde_json::Value)>) -> Seq<
    (Seq<char>, JsonView),
> {
    Seq::new(members.len(), |i: int| (members[i].0@, value_contents(*members[i].1)))
}

spec fn shape_contents(s: Shape<'_>) -> JsonView {
    match s {
        Shape::Null => JsonView::Null,
        Shape::Bool(b) => JsonView::Bool(b),
        Shape::Number(n) => JsonView::Number(number_contents(*n)),
        Shape::Text(t) => JsonView::String(t@),
        Shape::Items(items) => JsonView::Array(items_contents(items@)),
        Shape::Members(members) => JsonView::Object(members_contents(members@)),
    }
}

/// `serde_json::from_str` at the type `serde_json::Value`: parses a whole
/// text as one JSON document. The contract names the outcome; the error is
/// handed out as the text that its `Display` gives.
#[verifier::external_body]
fn parse_value(text: &str) -> (r: Result<serde_json::Value, String>)
    ensures
        match r {
            Ok(v) => json_document(text@) == Ok::<JsonView, Seq<char>>(value_contents(v)),
            Err(message) => json_document(text@) == Err::<JsonView, Seq<char>>(message@),
        },
{
    match serde_json::from_str::<serde_json::Value>(text) {
        Ok(v) => Ok(v),
        Err(e) => Err(e.to_string()),
    }
}

/// Takes a `serde_json::Value` apart by its own variants, one level deep,
/// moving nothing but references. The members of an object come as
/// `serde_json::Map::iter` hands them out.
#[verifier::external_body]
fn value_shape(v: &serde_json::Value) -> (s: Shape<'_>)
    ensures
        shape_contents(s) == value_contents(*v),
{
    match v {
        serde_json::Value::Null => Shape::Null,
        serde_json::Value::Bool(b) => Shape::Bool(*b),
        serde_json::Value::Number(n) => Shape::Number(n),
        serde_json::Value::String(t) => Shape::Text(t),
        serde_json::Value::Array(items) => Shape::Items(items),
        serde_json::Value::Object(map) => Shape::Members(map.iter().collect()),
    }
}

/// `serde_json::Number::as_u64`: the value of a non-negative integer, and
/// `None` for a negative integer or a floating-point number.
pub assume_specification[ serde_json::Number::as_u64 ](n: &serde_json::Number) -> (r: Option<u64>)
    ensures
        r == number_contents(*n).unsigned(),
;

/// `serde_json::Number::as_i64`: the value of an integer that fits `i64`,
/// and `None` for a larger one or a floating-point number.
pub assume_specification[ serde_json::Number::as_i64 ](n: &serde_json::Number) -> (r: Option<i64>)
    ensures
        r == (match number_contents(*n) {
            JsonNumber::PosInt(u) => if u <= i64::MAX {
                Some(u as i64)
            } else {
                None
            },
            JsonNumber::NegInt(i) => Some(i),
            JsonNumber::Float(_) => None,
        }),
;

/// `serde_json::Number::as_f64`, handed out as bits: for a floating-point
/// number, the value that it holds. Nothing is claimed of what it gives for
/// an integer.
#[verifier::external_body]
fn number_float_bits(n: &serde_json::Number) -> (r: Option<u64>)
    ensures
        number_contents(*n) matches JsonNumber::Float(bits) ==> r == Some(bits),
{
    n.as_f64().map(|x| x.to_bits())
}

fn lift_number(n: &serde_json::Number) -> (r: JsonNumber)
    ensures
        r == number_contents(*n),
{
    if let Some(u) = n.as_u64() {
        JsonNumber::PosInt(u)
    } else if let Some(i) = n.as_i64() {
        JsonNumber::NegInt(i)
    } else {
        match number_float_bits(n) {
            Some(bits) => JsonNumber::Float(bits),
            None => JsonNumber::Float(0),
        }
    }
}

fn lift_value(v: &serde_json::Value) -> (j: Json)
    ensures
        j@ == value_contents(*v),
    decreases value_contents(*v),
{
    match value_shape(v) {
        Shape::Null => Json::Null,
        Shape::Bool(b) => Json::Bool(b),
        Shape::Number(n) => Json::Number(lift_number(n)),
        Shape::Text(t) => Json::String(t.clone()),
        Shape::Items(items) => {
            let mut out: Vec<Json> = Vec::new();
            let mut i: usize = 0;
            while i < items.len()
                invariant
                    i <= items.len(),
                    out@.len() == i,
                    value_contents(*v) == JsonView::Array(items_contents(items@)),
                    forall|k: int| 0 <= k < i ==> (#[trigger] out@[k])@ == value_contents(items@[k]),
                decreases items.len() - i,
            {
                proof {
                    let whole = value_contents(*v);
                    assert(whole->Array_0[i as int] == value_contents(items@[i as int]));
                    assert(decreases_to!(whole => whole->Array_0));
                    assert(decreases_to!(whole->Array_0 => whole->Array_0[i as int]));
                }
                let item = lift_value(&items[i]);
                out.push(item);
                i += 1;
            }
            proof {
                lemma_array_view(out);
                assert(items_view(out@) =~= items_contents(items@));
            }
            Json::Array(out)
        },
        Shape::Members(members) => {
            let mut out: Vec<(String, Json)> = Vec::new();
            let mut i: usize = 0;
            while i < members.len()
                invariant
                    i <= members.len(),
                    out@.len() == i,
                    value_contents(*v) == JsonView::Object(members_contents(members@)),
                    forall|k: int|
                        0 <= k < i ==> (#[trigger] out@[k]).0@ == members@[k].0@ && out@[k].1@
                            == value_contents(*members@[k].1),
                decreases members.len() - i,
            {
                proof {
                    let whole = value_contents(*v);
                    assert(whole->Object_0[i as int].1 == value_contents(*members@[i as int].1));
                    assert(decreases_to!(whole => whole->Object_0));
                    assert(decreases_to!(whole->Object_0 => whole->Object_0[i as int]));
                    assert(decreases_to!(whole->Object_0[i as int] => whole->Object_0[i as int].1));
                }
                let key = members[i].0.clone();
                let value = lift_value(members[i].1);
                out.push((key, value));
                i += 1;
            }
            proof {
                lemma_object_view(out);
                assert(entry_views(out@) =~= members_contents(members@));
            }
            Json::Object(out)
        },
    }
}

impl Json {
    /// Reads `text` as one JSON document. Success and failure, the document
    /// and the failure's message are those of `serde_json`.
    pub fn parse(text: &str) -> (r: Result<Json, String>)
        ensures
            match r {
                Ok(j) => json_document(text@) == Ok::<JsonView, Seq<char>>(j@),
                Err(message) => json_document(text@) == Err::<JsonView, Seq<char>>(message@),
            },
    {
        match parse_value(text) {
            Ok(v) => Ok(lift_value(&v)),
            Err(message) => Err(message),
        }
    }
}

} // verus!
