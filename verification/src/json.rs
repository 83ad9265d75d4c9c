//! An in-memory JSON document model and its mathematical view.
//!
//! Every protocol message, tool argument and tool result of this crate is a
//! [`JsonValue`]. Its view, a [`Json`], is what the contracts speak of.

use vstd::prelude::*;

verus! {

/// The mathematical value of a JSON document.
///
/// Numbers are kept as the text by which they are written; object members are
/// kept in document order.
pub enum Json {
    Null,
    Bool(bool),
    Number(Seq<char>),
    Str(Seq<char>),
    Array(Seq<Json>),
    Object(Seq<(Seq<char>, Json)>),
}

/// A JSON number, held as the text by which it is written.
#[derive(Debug, PartialEq, Eq)]
pub struct JsonNumber {
    repr: String,
}

impl View for JsonNumber {
    type V = Seq<char>;

    closed spec fn view(&self) -> Seq<char> {
        self.repr@
    }
}

/// An executable JSON value.
#[derive(Debug, PartialEq, Eq)]
pub enum JsonValue {
    Null,
    Bool(bool),
    Number(JsonNumber),
    String(String),
    Array(Vec<JsonValue>),
    Object(Vec<(String, JsonValue)>),
}

/// The views of a sequence of values, in order.
pub open spec fn view_items(items: Seq<JsonValue>) -> Seq<Json>
    decreases items,
{
    if items.len() == 0 {
        Seq::empty()
    } else {
        view_items(items.drop_last()).push(json_view(items.last()))
    }
}

/// The views of a sequence of object members, in order.
pub open spec fn view_members(members: Seq<(String, JsonValue)>) -> Seq<(Seq<char>, Json)>
    decreases members,
{
    if members.len() == 0 {
        Seq::empty()
    } else {
        view_members(members.drop_last()).push((members.last().0@, json_view(members.last().1)))
    }
}

/// The mathematical value of an executable JSON value.
pub open spec fn json_view(v: JsonValue) -> Json
    decreases v,
{
    match v {
        JsonValue::Null => Json::Null,
        JsonValue::Bool(b) => Json::Bool(b),
        JsonValue::Number(n) => Json::Number(n@),
        JsonValue::String(s) => Json::Str(s@),
        JsonValue::Array(items) => Json::Array(view_items(items@)),
        JsonValue::Object(members) => Json::Object(view_members(members@)),
    }
}

impl View for JsonValue {
    type V = Json;

    open spec fn view(&self) -> Json {
        json_view(*self)
    }
}

/// The value of the last member named `key`, which is the one a JSON map keeps
/// when a document names a member twice.
pub open spec fn member_lookup(members: Seq<(Seq<char>, Json)>, key: Seq<char>) -> Option<Json>
    decreases members.len(),
{
    if members.len() == 0 {
        None
    } else if members.last().0 == key {
        Some(members.last().1)
    } else {
        member_lookup(members.drop_last(), key)
    }
}

/// `j[key]` where `j` is an object that names `key`; `None` otherwise.
pub open spec fn json_get(j: Json, key: Seq<char>) -> Option<Json> {
    match j {
        Json::Object(members) => member_lookup(members, key),
        _ => None,
    }
}

/// The text of a JSON string, `None` for every other kind of value.
pub open spec fn json_as_str(j: Option<Json>) -> Option<Seq<char>> {
    match j {
        Some(Json::Str(s)) => Some(s),
        _ => None,
    }
}

/// The character of a decimal digit.
pub open spec fn digit_char(d: nat) -> char {
    if d == 0 {
        '0'
    } else if d == 1 {
        '1'
    } else if d == 2 {
        '2'
    } else if d == 3 {
        '3'
    } else if d == 4 {
        '4'
    } else if d == 5 {
        '5'
    } else if d == 6 {
        '6'
    } else if d == 7 {
        '7'
    } else if d == 8 {
        '8'
    } else {
        '9'
    }
}

/// The decimal digits of a natural number, most significant first, with no
/// leading zero.
pub open spec fn decimal(n: nat) -> Seq<char>
    decreases n,
{
    if n < 10 {
        seq![digit_char(n)]
    } else {
        decimal(n / 10).push(digit_char(n % 10))
    }
}

/// The decimal text of an integer, with a leading `-` when it is negative.
pub open spec fn signed_decimal(n: int) -> Seq<char> {
    if n < 0 {
        seq!['-'] + decimal((-n) as nat)
    } else {
        decimal(n as nat)
    }
}

/// An object with no members.
pub open spec fn empty_object() -> Json {
    Json::Object(Seq::empty())
}

pub proof fn lemma_view_items(items: Seq<JsonValue>)
    ensures
        view_items(items).len() == items.len(),
        forall|i: int| 0 <= i < items.len() ==> #[trigger] view_items(items)[i] == json_view(items[i]),
    decreases items.len(),
{
    if items.len() > 0 {
        lemma_view_items(items.drop_last());
    }
}

pub proof fn lemma_view_items_push(items: Seq<JsonValue>, v: JsonValue)
    ensures
        view_items(items.push(v)) == view_items(items).push(json_view(v)),
{
    assert(items.push(v).drop_last() =~= items);
}

pub proof fn lemma_view_members(members: Seq<(String, JsonValue)>)
    ensures
        view_members(members).len() == members.len(),
        forall|i: int|
            0 <= i < members.len() ==> #[trigger] view_members(members)[i] == (
            members[i].0@,
            json_view(members[i].1),
        ),
    decreases members.len(),
{
    if members.len() > 0 {
        lemma_view_members(members.drop_last());
    }
}

pub proof fn lemma_view_members_push(members: Seq<(String, JsonValue)>, m: (String, JsonValue))
    ensures
        view_members(members.push(m)) == view_members(members).push((m.0@, json_view(m.1))),
{
    assert(members.push(m).drop_last() =~= members);
}

/// The digit `d` as a one-character string.
fn digit_text(d: u64) -> (r: &'static str)
    requires
        d < 10,
    ensures
        r@ == seq![digit_char(d as nat)],
{
    if d == 0 {
        proof { reveal_strlit("0"); }
        "0"
    } else if d == 1 {
        proof { reveal_strlit("1"); }
        "1"
    } else if d == 2 {
        proof { reveal_strlit("2"); }
        "2"
    } else if d == 3 {
        proof { reveal_strlit("3"); }
        "3"
    } else if d == 4 {
        proof { reveal_strlit("4"); }
        "4"
    } else if d == 5 {
        proof { reveal_strlit("5"); }
        "5"
    } else if d == 6 {
        proof { reveal_strlit("6"); }
        "6"
    } else if d == 7 {
        proof { reveal_strlit("7"); }
        "7"
    } else if d == 8 {
        proof { reveal_strlit("8"); }
        "8"
    } else {
        proof { reveal_strlit("9"); }
        "9"
    }
}

/// The decimal text of `n`.
pub fn decimal_text(n: u64) -> (r: String)
    ensures
        r@ == decimal(n as nat),
    decreases n,
{
    if n < 10 {
        String::from_str(digit_text(n))
    } else {
        let mut r = decimal_text(n / 10);
        r.append(digit_text(n % 10));
        r
    }
}

impl JsonNumber {
    /// The number `n`.
    pub fn from_u64(n: u64) -> (r: JsonNumber)
        ensures
            r@ == decimal(n as nat),
    {
        JsonNumber { repr: decimal_text(n) }
    }

    /// The number `n`.
    pub fn from_i64(n: i64) -> (r: JsonNumber)
        ensures
            r@ == signed_decimal(n as int),
    {
        if n < 0 {
            let magnitude: u64 = if n == i64::MIN {
                9223372036854775808u64
            } else {
                (-n) as u64
            };
            let mut repr = String::from_str("-");
            proof { reveal_strlit("-"); }
            repr.append(decimal_text(magnitude).as_str());
            JsonNumber { repr }
        } else {
            JsonNumber { repr: decimal_text(n as u64) }
        }
    }

    /// The text by which this number is written.
    pub fn as_text(&self) -> (r: &str)
        ensures
            r@ == self@,
    {
        self.repr.as_str()
    }

    /// A number read from a JSON document, given by its text. The text must be
    /// the one a JSON reader produced for a number.
    pub(crate) fn from_text(repr: String) -> (r: JsonNumber)
        ensures
            r@ == repr@,
    {
        JsonNumber { repr }
    }

    /// A copy of this number.
    pub fn duplicate(&self) -> (r: JsonNumber)
        ensures
            r@ == self@,
    {
        JsonNumber { repr: self.repr.clone() }
    }
}

/// Whether two texts are equal.
pub fn text_eq(a: &str, b: &str) -> (r: bool)
    ensures
        r == (a@ == b@),
{
    let n = a.unicode_len();
    if n != b.unicode_len() {
        return false;
    }
    let mut i: usize = 0;
    while i < n
        invariant
            n == a@.len(),
            n == b@.len(),
            i <= n,
            forall|k: int| 0 <= k < i ==> a@[k] == b@[k],
        decreases n - i,
    {
        if a.get_char(i) != b.get_char(i) {
            return false;
        }
        i = i + 1;
    }
    assert(a@ =~= b@);
    true
}

impl JsonValue {
    /// A string value.
    pub fn from_str(s: &str) -> (r: JsonValue)
        ensures
            r@ == Json::Str(s@),
    {
        JsonValue::String(String::from_str(s))
    }

    /// An integer value.
    pub fn from_i64(n: i64) -> (r: JsonValue)
        ensures
            r@ == Json::Number(signed_decimal(n as int)),
    {
        JsonValue::Number(JsonNumber::from_i64(n))
    }

    /// An object with no members.
    pub fn empty_object() -> (r: JsonValue)
        ensures
            r@ == empty_object(),
    {
        let members: Vec<(String, JsonValue)> = Vec::new();
        proof {
            assert(view_members(members@) =~= Seq::<(Seq<char>, Json)>::empty());
        }
        JsonValue::Object(members)
    }

    /// Whether this value is an array.
    pub fn is_array(&self) -> (r: bool)
        ensures
            r == (self@ is Array),
    {
        match self {
            JsonValue::Array(_) => true,
            _ => false,
        }
    }

    /// The text of this value when it is a string.
    pub fn as_str(&self) -> (r: Option<&str>)
        ensures
            r matches Some(s) ==> self@ == Json::Str(s@),
            r is None ==> !(self@ is Str),
    {
        match self {
            JsonValue::String(s) => Some(s.as_str()),
            _ => None,
        }
    }

    /// `self[key]` when this value is an object that names `key`.
    pub fn get(&self, key: &str) -> (r: Option<&JsonValue>)
        ensures
            r matches Some(v) ==> json_get(self@, key@) == Some(v@),
            r is None ==> json_get(self@, key@) is None,
    {
        match self {
            JsonValue::Object(members) => {
                let ghost view = view_members(members@);
                assert(self@ == Json::Object(view));
                proof {
                    lemma_view_members(members@);
                }
                let mut i = members.len();
                assert(view.subrange(0, i as int) =~= view);
                while i > 0
                    invariant
                        i <= members.len(),
                        self@ == Json::Object(view),
                        view == view_members(members@),
                        view.len() == members.len(),
                        forall|k: int|
                            0 <= k < members.len() ==> #[trigger] view[k] == (
                            members@[k].0@,
                            json_view(members@[k].1),
                        ),
                        member_lookup(view, key@) == member_lookup(view.subrange(0, i as int), key@),
                    decreases i,
                {
                    let m = &members[i - 1];
                    let ghost prefix = view.subrange(0, i as int);
                    assert(prefix.drop_last() =~= view.subrange(0, i - 1));
                    assert(prefix.last() == view[i - 1]);
                    assert(view[i - 1] == (members@[i - 1].0@, json_view(members@[i - 1].1)));
                    if text_eq(m.0.as_str(), key) {
                        return Some(&m.1);
                    }
                    i = i - 1;
                }
                assert(view.subrange(0, 0) =~= Seq::<(Seq<char>, Json)>::empty());
                None
            },
            _ => None,
        }
    }

    /// A copy of this value.
    pub fn duplicate(&self) -> (r: JsonValue)
        ensures
            r@ == self@,
        decreases self,
    {
        match self {
            JsonValue::Null => JsonValue::Null,
            JsonValue::Bool(b) => JsonValue::Bool(*b),
            JsonValue::Number(n) => JsonValue::Number(n.duplicate()),
            JsonValue::String(s) => JsonValue::String(s.clone()),
            JsonValue::Array(items) => {
                let mut copy: Vec<JsonValue> = Vec::new();
                let mut i: usize = 0;
                while i < items.len()
                    invariant
                        i <= items.len(),
                        *self == JsonValue::Array(*items),
                        view_items(copy@) == view_items(items@.subrange(0, i as int)),
                    decreases items.len() - i,
                {
                    proof {
                        vstd::std_specs::vec::axiom_vec_index_decreases(*items, i as int);
                        assert(*self == JsonValue::Array(*items));
                        assert(decreases_to!(*self => self->Array_0));
                        assert(decreases_to!(*self => items[i as int]));
                    }
                    let item = items[i].duplicate();
                    proof {
                        lemma_view_items_push(copy@, item);
                        lemma_view_items_push(items@.subrange(0, i as int), items@[i as int]);
                        assert(items@.subrange(0, i as int).push(items@[i as int]) =~= items@.subrange(
                            0,
                            i + 1,
                        ));
                    }
                    copy.push(item);
                    i = i + 1;
                }
                assert(items@.subrange(0, items.len() as int) =~= items@);
                JsonValue::Array(copy)
            },
            JsonValue::Object(members) => {
                let mut copy: Vec<(String, JsonValue)> = Vec::new();
                let mut i: usize = 0;
                while i < members.len()
                    invariant
                        i <= members.len(),
                        *self == JsonValue::Object(*members),
                        view_members(copy@) == view_members(members@.subrange(0, i as int)),
                    decreases members.len() - i,
                {
                    proof {
                        vstd::std_specs::vec::axiom_vec_index_decreases(*members, i as int);
                        assert(*self == JsonValue::Object(*members));
                        assert(decreases_to!(*self => self->Object_0));
                        assert(decreases_to!(*self => members[i as int]));
                        assert(decreases_to!(*self => members[i as int].1));
                    }
                    let m = (members[i].0.clone(), members[i].1.duplicate());
                    proof {
                        lemma_view_members_push(copy@, m);
                        lemma_view_members_push(members@.subrange(0, i as int), members@[i as int]);
                        assert(members@.subrange(0, i as int).push(members@[i as int])
                            =~= members@.subrange(0, i + 1));
                    }
                    copy.push(m);
                    i = i + 1;
                }
                assert(members@.subrange(0, members.len() as int) =~= members@);
                JsonValue::Object(copy)
            },
        }
    }
}

/// Append the member `key: value` to an object under construction.
pub fn push_member(members: &mut Vec<(String, JsonValue)>, key: &str, value: JsonValue)
    ensures
        view_members(final(members)@) == view_members(old(members)@).push((key@, value@)),
{
    let m = (String::from_str(key), value);
    proof {
        lemma_view_members_push(members@, m);
    }
    members.push(m);
}

/// Append `value` to an array under construction.
pub fn push_item(items: &mut Vec<JsonValue>, value: JsonValue)
    ensures
        view_items(final(items)@) == view_items(old(items)@).push(value@),
{
    proof {
        lemma_view_items_push(items@, value);
    }
    items.push(value);
}

} // verus!
