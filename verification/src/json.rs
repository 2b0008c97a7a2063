//! JSON values as the bridge reads and writes them, with their mathematical model.
use vstd::prelude::*;

use crate::outbox::hex_digit;
use crate::text::same;

verus! {

/// A JSON value. An object keeps its members in order; a number that is not an
/// integer of 64 bits is kept by its decimal text.
#[derive(Debug, PartialEq, Eq)]
pub enum Json {
    Null,
    Bool(bool),
    UInt(u64),
    NegInt(i64),
    Real(String),
    Str(String),
    Array(Vec<Json>),
    Object(Vec<(String, Json)>),
}

/// The model of a JSON value.
#[verifier::ext_equal]
pub enum JsonV {
    Null,
    Bool(bool),
    UInt(u64),
    NegInt(i64),
    Real(Seq<char>),
    Str(Seq<char>),
    Array(Seq<JsonV>),
    Object(Seq<(Seq<char>, JsonV)>),
}

/// The members of an object in the model.
pub type Members = Seq<(Seq<char>, JsonV)>;

impl Json {
    /// The model of a value.
    pub open spec fn model(&self) -> JsonV
        decreases self,
    {
        match self {
            Json::Null => JsonV::Null,
            Json::Bool(b) => JsonV::Bool(*b),
            Json::UInt(n) => JsonV::UInt(*n),
            Json::NegInt(n) => JsonV::NegInt(*n),
            Json::Real(t) => JsonV::Real(t@),
            Json::Str(t) => JsonV::Str(t@),
            Json::Array(items) => JsonV::Array(
                Seq::new(
                    items@.len(),
                    |i: int|
                        if 0 <= i < items@.len() {
                            items@[i].model()
                        } else {
                            JsonV::Null
                        },
                ),
            ),
            Json::Object(members) => JsonV::Object(
                Seq::new(
                    members@.len(),
                    |i: int|
                        if 0 <= i < members@.len() {
                            (members@[i].0@, members@[i].1.model())
                        } else {
                            (Seq::empty(), JsonV::Null)
                        },
                ),
            ),
        }
    }
}

impl View for Json {
    type V = JsonV;

    open spec fn view(&self) -> JsonV {
        self.model()
    }
}

impl DeepView for Json {
    type V = JsonV;

    open spec fn deep_view(&self) -> JsonV {
        self.model()
    }
}

/// The value of the first member named `key`, looking from index `i` on.
pub open spec fn lookup_from(members: Members, key: Seq<char>, i: nat) -> Option<JsonV>
    decreases members.len() - i,
{
    if i >= members.len() {
        None
    } else if members[i as int].0 == key {
        Some(members[i as int].1)
    } else {
        lookup_from(members, key, i + 1)
    }
}

/// The value of the first member named `key`.
pub open spec fn lookup(members: Members, key: Seq<char>) -> Option<JsonV> {
    lookup_from(members, key, 0)
}

/// The member `key` of an object; nothing for any other value.
pub open spec fn member(v: JsonV, key: Seq<char>) -> Option<JsonV> {
    match v {
        JsonV::Object(members) => lookup(members, key),
        _ => None,
    }
}

/// The member `key` of a value that may be missing.
pub open spec fn opt_member(v: Option<JsonV>, key: Seq<char>) -> Option<JsonV> {
    match v {
        Some(w) => member(w, key),
        None => None,
    }
}

/// The text of a string value.
pub open spec fn text_value(v: Option<JsonV>) -> Option<Seq<char>> {
    match v {
        Some(JsonV::Str(t)) => Some(t),
        _ => None,
    }
}

/// The value of a number that is an unsigned integer.
pub open spec fn uint_value(v: Option<JsonV>) -> Option<u64> {
    match v {
        Some(JsonV::UInt(n)) => Some(n),
        _ => None,
    }
}

/// The truth value of a boolean.
pub open spec fn bool_value(v: Option<JsonV>) -> Option<bool> {
    match v {
        Some(JsonV::Bool(b)) => Some(b),
        _ => None,
    }
}

/// The items of an array.
pub open spec fn array_value(v: Option<JsonV>) -> Option<Seq<JsonV>> {
    match v {
        Some(JsonV::Array(items)) => Some(items),
        _ => None,
    }
}

/// The text of the member `key`.
pub open spec fn text_member(v: JsonV, key: Seq<char>) -> Option<Seq<char>> {
    text_value(member(v, key))
}

/// The value, or null where it is missing.
pub open spec fn or_null(v: Option<JsonV>) -> JsonV {
    match v {
        Some(w) => w,
        None => JsonV::Null,
    }
}

/// A text, or null where it is missing.
pub open spec fn text_or_null(t: Option<Seq<char>>) -> JsonV {
    match t {
        Some(s) => JsonV::Str(s),
        None => JsonV::Null,
    }
}

/// A number, or null where it is missing.
pub open spec fn uint_or_null(n: Option<u64>) -> JsonV {
    match n {
        Some(v) => JsonV::UInt(v),
        None => JsonV::Null,
    }
}

/// A signed integer as a JSON number.
pub open spec fn int_json(n: i64) -> JsonV {
    if n < 0 {
        JsonV::NegInt(n)
    } else {
        JsonV::UInt(n as u64)
    }
}

/// An array of texts.
pub open spec fn text_array(items: Seq<Seq<char>>) -> JsonV {
    JsonV::Array(items.map_values(|t: Seq<char>| JsonV::Str(t)))
}

/// The members with `key` set to `value`: in its place where it is there, else at the end.
pub open spec fn with_member(members: Members, key: Seq<char>, value: JsonV) -> Members {
    with_member_from(members, key, value, 0)
}

/// `with_member`, looking for `key` from index `i` on.
pub open spec fn with_member_from(members: Members, key: Seq<char>, value: JsonV, i: nat) -> Members
    decreases members.len() - i,
{
    if i >= members.len() {
        members.push((key, value))
    } else if members[i as int].0 == key {
        members.update(i as int, (key, value))
    } else {
        with_member_from(members, key, value, i + 1)
    }
}

/// The object with `key` set to `value`; any other value stays as it is.
pub open spec fn set_member(v: JsonV, key: Seq<char>, value: JsonV) -> JsonV {
    match v {
        JsonV::Object(members) => JsonV::Object(with_member(members, key, value)),
        _ => v,
    }
}

/// Writing through an index: null becomes an object, and a member is set.
pub open spec fn index_set(v: JsonV, key: Seq<char>, value: JsonV) -> JsonV {
    match v {
        JsonV::Null => JsonV::Object(with_member(Seq::empty(), key, value)),
        _ => set_member(v, key, value),
    }
}

/// A member is found by its name: the first one that has it.
pub proof fn members_are_found_by_name(members: Members, key: Seq<char>, i: int)
    requires
        0 <= i < members.len(),
        members[i].0 == key,
        forall|k: int| 0 <= k < i ==> (#[trigger] members[k]).0 != key,
    ensures
        lookup(members, key) == Some(members[i].1),
        member(JsonV::Object(members), key) == Some(members[i].1),
{
    lemma_found_from(members, key, i, 0);
}

proof fn lemma_found_from(members: Members, key: Seq<char>, i: int, from: nat)
    requires
        from <= i < members.len(),
        members[i].0 == key,
        forall|k: int| 0 <= k < i ==> (#[trigger] members[k]).0 != key,
    ensures
        lookup_from(members, key, from) == Some(members[i].1),
    decreases i - from,
{
    if from < i {
        lemma_found_from(members, key, i, from + 1);
    }
}

/// A name that no member has is not found.
pub proof fn strange_names_are_not_found(members: Members, key: Seq<char>)
    requires
        forall|k: int| 0 <= k < members.len() ==> (#[trigger] members[k]).0 != key,
    ensures
        lookup(members, key) is None,
        member(JsonV::Object(members), key) is None,
{
    lemma_missed_from(members, key, 0);
}

proof fn lemma_missed_from(members: Members, key: Seq<char>, from: nat)
    requires
        forall|k: int| 0 <= k < members.len() ==> (#[trigger] members[k]).0 != key,
    ensures
        lookup_from(members, key, from) is None,
    decreases members.len() - from,
{
    if from < members.len() {
        lemma_missed_from(members, key, from + 1);
    }
}

/// An object without members has none.
pub broadcast proof fn empty_objects_have_no_members(key: Seq<char>)
    ensures
        #[trigger] lookup(Seq::empty(), key) is None,
{
}

/// A member behind the others is found where none of them has its name.
pub broadcast proof fn pushed_members_are_found(
    members: Members,
    last: (Seq<char>, JsonV),
    key: Seq<char>,
)
    ensures
        #[trigger] lookup(members.push(last), key) == (match lookup(members, key) {
            Some(v) => Some(v),
            None => if last.0 == key {
                Some(last.1)
            } else {
                None
            },
        }),
{
    lemma_pushed_from(members, last, key, 0);
}

proof fn lemma_pushed_from(
    members: Members,
    last: (Seq<char>, JsonV),
    key: Seq<char>,
    from: nat,
)
    requires
        from <= members.len(),
    ensures
        lookup_from(members.push(last), key, from) == (match lookup_from(members, key, from) {
            Some(v) => Some(v),
            None => if last.0 == key {
                Some(last.1)
            } else {
                None
            },
        }),
    decreases members.len() - from,
{
    let after = members.push(last);
    if from < members.len() {
        assert(after[from as int] == members[from as int]);
        lemma_pushed_from(members, last, key, from + 1);
    } else {
        assert(after[from as int] == last);
        assert(lookup_from(after, key, from + 1) is None);
    }
}

/// A member that was set is found again, and the other members are as before.
pub proof fn member_after_set(members: Members, key: Seq<char>, value: JsonV, other: Seq<char>)
    ensures
        lookup(with_member(members, key, value), key) == Some(value),
        other != key ==> lookup(with_member(members, key, value), other) == lookup(members, other),
{
    lemma_set_from(members, key, value, other, 0);
}

proof fn lemma_set_from(
    members: Members,
    key: Seq<char>,
    value: JsonV,
    other: Seq<char>,
    i: nat,
)
    requires
        i <= members.len(),
        forall|k: int| 0 <= k < i ==> members[k].0 != key,
    ensures
        lookup_from(with_member_from(members, key, value, i), key, i) == Some(value),
        other != key ==> lookup_from(with_member_from(members, key, value, i), other, i)
            == lookup_from(members, other, i),
    decreases members.len() - i,
{
    let after = with_member_from(members, key, value, i);
    if i >= members.len() {
        assert(after[i as int] == (key, value));
        assert(lookup_from(after, other, i + 1) is None);
    } else if members[i as int].0 == key {
        assert(after[i as int] == (key, value));
        if other != key {
            lemma_lookup_update(members, i, (key, value), other, i + 1);
        }
    } else {
        lemma_set_from(members, key, value, other, i + 1);
        lemma_set_keeps(members, key, value, i + 1, i as int);
    }
}

proof fn lemma_lookup_update(
    members: Members,
    at: nat,
    entry: (Seq<char>, JsonV),
    other: Seq<char>,
    i: nat,
)
    requires
        at < i,
        at < members.len(),
    ensures
        lookup_from(members.update(at as int, entry), other, i) == lookup_from(members, other, i),
    decreases members.len() - i,
{
    if i < members.len() {
        lemma_lookup_update(members, at, entry, other, i + 1);
    }
}

proof fn lemma_set_keeps(members: Members, key: Seq<char>, value: JsonV, i: nat, k: int)
    requires
        0 <= k < i,
        k < members.len(),
    ensures
        with_member_from(members, key, value, i).len() >= members.len(),
        with_member_from(members, key, value, i)[k] == members[k],
    decreases members.len() - i,
{
    if i < members.len() && members[i as int].0 != key {
        lemma_set_keeps(members, key, value, i + 1, k);
    }
}

/// The model of an array is the sequence of the models of its items.
pub broadcast proof fn array_model(items: Vec<Json>)
    ensures
        #[trigger] Json::Array(items).model() == JsonV::Array(items.deep_view()),
{
    let got = Json::Array(items).model()->Array_0;
    assert forall|i: int| 0 <= i < got.len() implies got[i] == items.deep_view()[i] by {
        assert(items@[i].deep_view() == items@[i].model());
    }
    assert(got =~= items.deep_view());
}

/// The model of an object is the sequence of the models of its members.
pub broadcast proof fn object_model(members: Vec<(String, Json)>)
    ensures
        #[trigger] Json::Object(members).model() == JsonV::Object(members.deep_view()),
{
    let got = Json::Object(members).model()->Object_0;
    assert forall|i: int| 0 <= i < got.len() implies got[i] == members.deep_view()[i] by {
        assert(members@[i].deep_view() == (members@[i].0@, members@[i].1.model()));
    }
    assert(got =~= members.deep_view());
}

impl Clone for Json {
    fn clone(&self) -> (r: Json)
        ensures
            r@ == self@,
        decreases self,
    {
        broadcast use {array_model, object_model};

        match self {
            Json::Null => Json::Null,
            Json::Bool(b) => Json::Bool(*b),
            Json::UInt(n) => Json::UInt(*n),
            Json::NegInt(n) => Json::NegInt(*n),
            Json::Real(t) => Json::Real(t.clone()),
            Json::Str(t) => Json::Str(t.clone()),
            Json::Array(items) => {
                let mut out: Vec<Json> = Vec::new();
                let mut i: usize = 0;
                while i < items.len()
                    invariant
                        i <= items@.len(),
                        *self == Json::Array(*items),
                        out@.len() == i,
                        forall|k: int| 0 <= k < i ==> (#[trigger] out@[k])@ == items@[k]@,
                    decreases items@.len() - i,
                {
                    proof {
                        assert(self->Array_0 == *items);
                        assert(decreases_to!(*self => self->Array_0@));
                        assert(decreases_to!(items@ => items@[i as int]));
                    }
                    let copy = items[i].clone();
                    out.push(copy);
                    i += 1;
                }
                assert(out.deep_view() =~= items.deep_view());
                Json::Array(out)
            },
            Json::Object(members) => {
                let mut out: Vec<(String, Json)> = Vec::new();
                let mut i: usize = 0;
                while i < members.len()
                    invariant
                        i <= members@.len(),
                        *self == Json::Object(*members),
                        out@.len() == i,
                        forall|k: int|
                            0 <= k < i ==> (#[trigger] out@[k]).0@ == members@[k].0@ && out@[k].1@
                                == members@[k].1@,
                    decreases members@.len() - i,
                {
                    proof {
                        assert(self->Object_0 == *members);
                        assert(decreases_to!(*self => self->Object_0@));
                        assert(decreases_to!(members@ => members@[i as int]));
                        assert(decreases_to!(members@[i as int] => members@[i as int].1));
                    }
                    let copy = members[i].1.clone();
                    out.push((members[i].0.clone(), copy));
                    i += 1;
                }
                assert(out.deep_view() =~= members.deep_view());
                Json::Object(out)
            },
        }
    }
}

/// The index of the first member named `key`.
fn find_member(members: &Vec<(String, Json)>, key: &str) -> (r: Option<usize>)
    ensures
        match r {
            Some(i) => {
                &&& i < members@.len()
                &&& lookup(members.deep_view(), key@) == Some(members@[i as int].1@)
                &&& forall|v: JsonV| #[trigger]
                    with_member(members.deep_view(), key@, v) == members.deep_view().update(
                        i as int,
                        (key@, v),
                    )
            },
            None => {
                &&& lookup(members.deep_view(), key@) is None
                &&& forall|v: JsonV| #[trigger]
                    with_member(members.deep_view(), key@, v) == members.deep_view().push((key@, v))
            },
        },
{
    let ghost m = members.deep_view();
    let mut i: usize = 0;
    while i < members.len()
        invariant
            i <= members@.len(),
            m == members.deep_view(),
            lookup(m, key@) == lookup_from(m, key@, i as nat),
            forall|v: JsonV| #[trigger]
                with_member(m, key@, v) == with_member_from(m, key@, v, i as nat),
        decreases members@.len() - i,
    {
        assert(m[i as int] == (members@[i as int].0@, members@[i as int].1@));
        if same(members[i].0.as_str(), key) {
            return Some(i);
        }
        i += 1;
    }
    None
}

/// The text of a borrowed string, if any.
pub open spec fn borrowed_text(t: Option<&str>) -> Option<Seq<char>> {
    match t {
        Some(s) => Some(s@),
        None => None,
    }
}

impl Json {
    /// A string value.
    pub fn text(t: &str) -> (r: Json)
        ensures
            r@ == JsonV::Str(t@),
    {
        Json::Str(t.to_owned())
    }

    /// A string value, or null.
    pub fn opt_text(t: &Option<String>) -> (r: Json)
        ensures
            r@ == text_or_null(t.deep_view()),
    {
        match t {
            Some(s) => Json::Str(s.clone()),
            None => Json::Null,
        }
    }

    /// An unsigned number, or null.
    pub fn opt_uint(n: Option<u64>) -> (r: Json)
        ensures
            r@ == uint_or_null(n),
    {
        match n {
            Some(v) => Json::UInt(v),
            None => Json::Null,
        }
    }

    /// A signed number.
    pub fn signed(n: i64) -> (r: Json)
        ensures
            r@ == int_json(n),
    {
        if n < 0 {
            Json::NegInt(n)
        } else {
            Json::UInt(n as u64)
        }
    }

    /// A value, or null.
    pub fn opt(v: Option<Json>) -> (r: Json)
        ensures
            r@ == or_null(v.deep_view()),
    {
        match v {
            Some(w) => w,
            None => Json::Null,
        }
    }

    /// An array.
    pub fn array(items: Vec<Json>) -> (r: Json)
        ensures
            r@ == JsonV::Array(items.deep_view()),
    {
        broadcast use array_model;

        Json::Array(items)
    }

    /// An array without items.
    pub fn empty_array() -> (r: Json)
        ensures
            r@ == JsonV::Array(Seq::empty()),
    {
        let items: Vec<Json> = Vec::new();
        assert(items.deep_view() =~= Seq::<JsonV>::empty());
        Json::array(items)
    }

    /// An array of one item.
    pub fn list_of_one(item: Json) -> (r: Json)
        ensures
            r@ == JsonV::Array(Seq::empty().push(item@)),
    {
        let mut items: Vec<Json> = Vec::new();
        items.push(item);
        assert(items.deep_view() =~= Seq::empty().push(item@));
        Json::array(items)
    }

    /// A borrowed string value, or null.
    pub fn opt_str(t: Option<&str>) -> (r: Json)
        ensures
            r@ == text_or_null(t.deep_view()),
    {
        match t {
            Some(s) => Json::text(s),
            None => Json::Null,
        }
    }

    /// An array of strings.
    pub fn texts(items: &Vec<String>) -> (r: Json)
        ensures
            r@ == text_array(items.deep_view()),
    {
        let mut out: Vec<Json> = Vec::new();
        let mut i: usize = 0;
        while i < items.len()
            invariant
                i <= items@.len(),
                out@.len() == i,
                forall|k: int| 0 <= k < i ==> (#[trigger] out@[k])@ == JsonV::Str(items@[k]@),
            decreases items@.len() - i,
        {
            out.push(Json::Str(items[i].clone()));
            i += 1;
        }
        assert(out.deep_view() =~= items.deep_view().map_values(|t: Seq<char>| JsonV::Str(t)));
        Json::array(out)
    }

    /// The member `key` of an object.
    pub fn get(&self, key: &str) -> (r: Option<&Json>)
        ensures
            r.deep_view() == member(self@, key@),
    {
        broadcast use object_model;

        match self {
            Json::Object(members) => match find_member(members, key) {
                Some(i) => Some(&members[i].1),
                None => None,
            },
            _ => None,
        }
    }

    /// The text of a string value.
    pub fn as_str(&self) -> (r: Option<&str>)
        ensures
            borrowed_text(r) == text_value(Some(self@)),
    {
        match self {
            Json::Str(t) => Some(t.as_str()),
            _ => None,
        }
    }

    /// The value of an unsigned number.
    pub fn as_u64(&self) -> (r: Option<u64>)
        ensures
            r == uint_value(Some(self@)),
    {
        match self {
            Json::UInt(n) => Some(*n),
            _ => None,
        }
    }

    /// The truth value of a boolean.
    pub fn as_bool(&self) -> (r: Option<bool>)
        ensures
            r == bool_value(Some(self@)),
    {
        match self {
            Json::Bool(b) => Some(*b),
            _ => None,
        }
    }

    /// The items of an array.
    pub fn as_array(&self) -> (r: Option<&Vec<Json>>)
        ensures
            r.deep_view() == array_value(Some(self@)),
    {
        broadcast use array_model;

        match self {
            Json::Array(items) => Some(items),
            _ => None,
        }
    }

    /// The text of the member `key`.
    pub fn get_text(&self, key: &str) -> (r: Option<&str>)
        ensures
            borrowed_text(r) == text_member(self@, key@),
    {
        match self.get(key) {
            Some(v) => v.as_str(),
            None => None,
        }
    }

    /// A copy of the text of the member `key`.
    pub fn text_of_member(&self, key: &str) -> (r: Option<String>)
        ensures
            r.deep_view() == text_member(self@, key@),
    {
        match self.get_text(key) {
            Some(t) => Some(t.to_owned()),
            None => None,
        }
    }

    /// The unsigned number of the member `key`.
    pub fn get_u64(&self, key: &str) -> (r: Option<u64>)
        ensures
            r == uint_value(member(self@, key@)),
    {
        match self.get(key) {
            Some(v) => v.as_u64(),
            None => None,
        }
    }

    /// A copy of the member `key`, or null.
    pub fn get_or_null(&self, key: &str) -> (r: Json)
        ensures
            r@ == or_null(member(self@, key@)),
    {
        match self.get(key) {
            Some(v) => v.clone(),
            None => Json::Null,
        }
    }

    /// Sets a member of an object; any other value stays as it is.
    pub fn set(&mut self, key: &str, value: Json)
        ensures
            final(self)@ == set_member(old(self)@, key@, value@),
    {
        broadcast use object_model;

        match self {
            Json::Object(members) => {
                let ghost before = members.deep_view();
                match find_member(members, key) {
                    Some(i) => {
                        members[i] = (key.to_owned(), value);
                        assert(members.deep_view() =~= before.update(i as int, (key@, value@)));
                    },
                    None => {
                        members.push((key.to_owned(), value));
                        assert(members.deep_view() =~= before.push((key@, value@)));
                    },
                }
            },
            _ => {},
        }
    }
}

impl Json {
    /// Sets a member of an object; null becomes an object with it.
    pub fn set_index(&mut self, key: &str, value: Json)
        requires
            old(self)@ is Object || old(self)@ is Null,
        ensures
            final(self)@ == index_set(old(self)@, key@, value@),
    {
        match self {
            Json::Null => {
                *self = Object::new().done();
            },
            _ => {},
        }
        self.set(key, value);
    }
}

/// An object under construction.
pub struct Object {
    pub members: Vec<(String, Json)>,
}

impl View for Object {
    type V = Members;

    open spec fn view(&self) -> Members {
        self.members.deep_view()
    }
}

impl Object {
    /// No members yet.
    pub fn new() -> (r: Object)
        ensures
            r@ == Members::empty(),
    {
        let r = Object { members: Vec::new() };
        assert(r@ =~= Members::empty());
        r
    }

    /// One more member, at the end.
    pub fn with(self, key: &str, value: Json) -> (r: Object)
        ensures
            r@ == self@.push((key@, value@)),
    {
        let mut members = self.members;
        members.push((key.to_owned(), value));
        let r = Object { members };
        assert(r@ =~= self@.push((key@, value@)));
        r
    }

    /// The object.
    pub fn done(self) -> (r: Json)
        ensures
            r@ == JsonV::Object(self@),
    {
        broadcast use object_model;

        Json::Object(self.members)
    }
}

// ---------------------------------------------------------------------------
// Strings as they are written
// ---------------------------------------------------------------------------

/// A character inside a string of JSON text.
pub open spec fn json_char(c: char) -> Seq<char> {
    if c == '"' {
        seq!['\\', '"']
    } else if c == '\\' {
        seq!['\\', '\\']
    } else if c == '\u{8}' {
        seq!['\\', 'b']
    } else if c == '\u{c}' {
        seq!['\\', 'f']
    } else if c == '\n' {
        seq!['\\', 'n']
    } else if c == '\r' {
        seq!['\\', 'r']
    } else if c == '\t' {
        seq!['\\', 't']
    } else if (c as u32) < 0x20 {
        seq!['\\', 'u', '0', '0', hex_digit((c as u32 / 16) as int), hex_digit((c as u32 % 16) as int)]
    } else {
        seq![c]
    }
}

/// The first `n` characters inside a string of JSON text.
pub open spec fn json_chars(s: Seq<char>, n: nat) -> Seq<char>
    decreases n,
{
    if n == 0 || n > s.len() {
        Seq::empty()
    } else {
        json_chars(s, (n - 1) as nat) + json_char(s[n - 1])
    }
}

/// A text as a string of JSON text.
pub open spec fn json_string(s: Seq<char>) -> Seq<char> {
    seq!['"'] + json_chars(s, s.len()) + seq!['"']
}

/// Calls `serde_json::to_string` on a text. What it gives is claimed to be the text between
/// quotation marks, with quotation marks, backslashes and the control characters below the
/// space escaped: those with a short escape by it, the others by four hexadecimal digits.
#[verifier::external_body]
pub(crate) fn write_json_string(text: &str) -> (r: String)
    ensures
        r@ == json_string(text@),
{
    serde_json::to_string(text).expect("a text is always written")
}

} // verus!
