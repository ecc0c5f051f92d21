//! The JSON data model that messages, params and errors are built from.
use vstd::prelude::*;

verus! {

broadcast use vstd::std_specs::vec::axiom_vec_index_decreases;

/// A JSON number, kept in the three forms a JSON reader produces: a
/// non-negative integer, a negative integer, or a number with a fraction or
/// exponent, held by its decimal text.
#[derive(Debug, PartialEq)]
pub enum JsonNumber {
    PosInt(u64),
    NegInt(i64),
    Float(String),
}

/// A JSON value.
#[derive(Debug, PartialEq)]
pub enum Json {
    Null,
    Bool(bool),
    Number(JsonNumber),
    Str(String),
    Array(Vec<Json>),
    Object(JsonMap),
}

/// A JSON object: its members in order, no two with the same name.
#[derive(Debug, PartialEq)]
pub struct JsonMap {
    pub(crate) entries: Vec<(String, Json)>,
}

/// The mathematical value of a JSON number.
pub enum NumberV {
    PosInt(u64),
    NegInt(i64),
    Float(Seq<char>),
}

/// The mathematical value of a JSON value: strings as character sequences,
/// arrays as sequences, objects as sequences of named members.
pub enum JsonV {
    Null,
    Bool(bool),
    Number(NumberV),
    Str(Seq<char>),
    Array(Seq<JsonV>),
    Object(Seq<(Seq<char>, JsonV)>),
}

/// The value of the first member named `key` in `entries`, from position `i` on.
pub open spec fn get_from<V>(entries: Seq<(Seq<char>, V)>, key: Seq<char>, i: int) -> Option<V>
    decreases entries.len() - i,
{
    if i < 0 || i >= entries.len() {
        None
    } else if entries[i].0 == key {
        Some(entries[i].1)
    } else {
        get_from(entries, key, i + 1)
    }
}

/// The position of the first member named `key` in `entries`, from position
/// `i` on.
pub open spec fn position_from<V>(entries: Seq<(Seq<char>, V)>, key: Seq<char>, i: int) -> Option<int>
    decreases entries.len() - i,
{
    if i < 0 || i >= entries.len() {
        None
    } else if entries[i].0 == key {
        Some(i)
    } else {
        position_from(entries, key, i + 1)
    }
}

/// No two members share a name.
pub open spec fn unique_names<V>(entries: Seq<(Seq<char>, V)>) -> bool {
    forall|i: int, j: int| 0 <= i < j < entries.len() ==> entries[i].0 != entries[j].0
}

/// The value of the first member named `key`.
pub open spec fn obj_get(entries: Seq<(Seq<char>, JsonV)>, key: Seq<char>) -> Option<JsonV> {
    get_from(entries, key, 0)
}

impl View for JsonNumber {
    type V = NumberV;

    open spec fn view(&self) -> NumberV {
        match self {
            JsonNumber::PosInt(n) => NumberV::PosInt(*n),
            JsonNumber::NegInt(n) => NumberV::NegInt(*n),
            JsonNumber::Float(t) => NumberV::Float(t@),
        }
    }
}

/// The mathematical value of `j`.
pub open spec fn json_view(j: Json) -> JsonV
    decreases j,
{
    match j {
        Json::Null => JsonV::Null,
        Json::Bool(b) => JsonV::Bool(b),
        Json::Number(n) => JsonV::Number(n@),
        Json::Str(s) => JsonV::Str(s@),
        Json::Array(items) => JsonV::Array(
            Seq::new(
                items@.len(),
                |i: int|
                    if 0 <= i < items@.len() {
                        json_view(items@[i])
                    } else {
                        JsonV::Null
                    },
            ),
        ),
        Json::Object(map) => JsonV::Object(members_view(map)),
    }
}

/// The members of `map`, each name with the value of its value.
pub closed spec fn members_view(map: JsonMap) -> Seq<(Seq<char>, JsonV)>
    decreases map,
{
    Seq::new(
        map.entries@.len(),
        |i: int|
            if 0 <= i < map.entries@.len() {
                (map.entries@[i].0@, json_view(map.entries@[i].1))
            } else {
                (Seq::empty(), JsonV::Null)
            },
    )
}

impl View for Json {
    type V = JsonV;

    open spec fn view(&self) -> JsonV {
        json_view(*self)
    }
}


impl View for JsonMap {
    type V = Seq<(Seq<char>, JsonV)>;

    open spec fn view(&self) -> Seq<(Seq<char>, JsonV)> {
        members_view(*self)
    }
}

/// An object's value is the sequence of its members' values.
pub broadcast proof fn lemma_object_view(m: JsonMap)
    ensures
        #[trigger] json_view(Json::Object(m)) == JsonV::Object(m@),
{
}


/// An array's value is the sequence of its items' values.
pub broadcast proof fn lemma_array_view(items: Vec<Json>)
    ensures
        #[trigger] json_view(Json::Array(items)) == JsonV::Array(items@.map_values(|x: Json| x@)),
{
    assert(json_view(Json::Array(items))->Array_0 =~= items@.map_values(|x: Json| x@));
}

pub broadcast group group_json_view {
    lemma_object_view,
    lemma_array_view,
}

/// `o` seen through the values of its contents.
pub open spec fn opt_view(o: Option<Json>) -> Option<JsonV> {
    match o {
        Some(v) => Some(v@),
        None => None,
    }
}

impl JsonNumber {
    /// A copy of this number.
    pub fn copy(&self) -> (r: JsonNumber)
        ensures
            r@ == self@,
    {
        match self {
            JsonNumber::PosInt(n) => JsonNumber::PosInt(*n),
            JsonNumber::NegInt(n) => JsonNumber::NegInt(*n),
            JsonNumber::Float(text) => JsonNumber::Float(text.clone()),
        }
    }
}

impl JsonV {
    /// The number as a `u64`, when this is a non-negative integer.
    pub open spec fn spec_as_u64(self) -> Option<u64> {
        match self {
            JsonV::Number(NumberV::PosInt(n)) => Some(n),
            _ => None,
        }
    }
}

impl Json {
    /// A copy of this value.
    #[verifier::loop_isolation(false)]
    pub fn copy(&self) -> (r: Json)
        ensures
            r@ == self@,
        decreases self,
    {
        broadcast use group_json_view;
        match self {
            Json::Null => Json::Null,
            Json::Bool(b) => Json::Bool(*b),
            Json::Number(n) => Json::Number(n.copy()),
            Json::Str(s) => Json::Str(s.clone()),
            Json::Array(items) => {
                let mut out: Vec<Json> = Vec::new();
                let mut i: usize = 0;
                while i < items.len()
                    invariant
                        i <= items@.len(),
                        out@.len() == i,
                        forall|j: int| 0 <= j < i ==> out@[j]@ == items@[j]@,
                    decreases items@.len() - i,
                {
                    assert(decreases_to!(*self => *items));
                    assert(decreases_to!(*items => items[i as int]));
                    let item = items[i].copy();
                    out.push(item);
                    i = i + 1;
                }
                assert(out@.map_values(|x: Json| x@) =~= items@.map_values(|x: Json| x@));
                Json::Array(out)
            },
            Json::Object(map) => {
                assert(decreases_to!(self => map));
                Json::Object(map.copy_map())
            },
        }
    }

    pub fn as_u64(&self) -> (r: Option<u64>)
        ensures
            r == self@.spec_as_u64(),
    {
        match self {
            Json::Number(JsonNumber::PosInt(n)) => Some(*n),
            _ => None,
        }
    }

    /// The string `text` as a value.
    pub fn from_str(text: &str) -> (r: Json)
        ensures
            r@ == JsonV::Str(text@),
    {
        Json::Str(String::from_str(text))
    }
}

/// `members` with member `key` set to `value`: the first member of that name
/// gets the value in place, or the member is appended when none has the name.
pub open spec fn insert_member(
    members: Seq<(Seq<char>, JsonV)>,
    key: Seq<char>,
    value: JsonV,
) -> Seq<(Seq<char>, JsonV)> {
    match position_from(members, key, 0) {
        Some(i) => members.update(i, (key, value)),
        None => members.push((key, value)),
    }
}

/// The members of an object built by setting each of `members` in turn.
pub open spec fn inserted(members: Seq<(Seq<char>, JsonV)>) -> Seq<(Seq<char>, JsonV)>
    decreases members.len(),
{
    if members.len() == 0 {
        Seq::empty()
    } else {
        let last = members.last();
        insert_member(inserted(members.drop_last()), last.0, last.1)
    }
}

/// The names and values of members as held.
pub open spec fn pairs_view(pairs: Seq<(String, Json)>) -> Seq<(Seq<char>, JsonV)> {
    Seq::new(pairs.len(), |i: int| (pairs[i].0@, pairs[i].1@))
}

/// The members of a map are those it holds.
proof fn lemma_members(m: JsonMap)
    ensures
        m@ == pairs_view(m.entries@),
{
    assert(m@ =~= pairs_view(m.entries@));
}

impl JsonMap {
    /// No two members share a name.
    #[verifier::type_invariant]
    spec fn names_distinct(self) -> bool {
        unique_names(self@)
    }

    /// The empty object.
    pub fn new() -> (m: JsonMap)
        ensures
            m@ == Seq::<(Seq<char>, JsonV)>::empty(),
    {
        let entries: Vec<(String, Json)> = Vec::new();
        proof {
            lemma_members(JsonMap { entries: entries });
        }
        let m = JsonMap { entries };
        assert(m@ =~= Seq::<(Seq<char>, JsonV)>::empty());
        m
    }

    /// The object with each of `members` set in turn (see [`JsonMap::insert`]):
    /// a later member of a name replaces the value of the earlier one, which
    /// keeps its place.
    pub fn from_members(members: Vec<(String, Json)>) -> (m: JsonMap)
        ensures
            m@ == inserted(pairs_view(members@)),
    {
        let ghost all = pairs_view(members@);
        let mut m = JsonMap::new();
        let mut rest = members;
        let n: usize = rest.len();
        let mut i: usize = 0;
        while rest.len() > 0
            invariant
                i <= n,
                n == all.len(),
                rest@.len() == n - i,
                forall|j: int| 0 <= j < n - i ==> (#[trigger] rest@[j]).0@ == all[j + i].0 && rest@[j].1@ == all[j + i].1,
                m@ == inserted(all.subrange(0, i as int)),
            decreases rest@.len(),
        {
            let (k, v) = rest.remove(0);
            assert(all.subrange(0, i + 1).drop_last() =~= all.subrange(0, i as int));
            m.insert(k, v);
            i = i + 1;
        }
        assert(all.subrange(0, n as int) =~= all);
        m
    }

    /// The members, in order.
    pub fn members(&self) -> (r: &Vec<(String, Json)>)
        ensures
            pairs_view(r@) == self@,
    {
        proof {
            lemma_members(*self);
        }
        &self.entries
    }

    /// The number of members.
    pub fn len(&self) -> (n: usize)
        ensures
            n == self@.len(),
    {
        proof {
            lemma_members(*self);
        }
        self.entries.len()
    }

    /// A copy of this object.
    pub fn copy_map(&self) -> (r: JsonMap)
        ensures
            r@ == self@,
        decreases *self,
    {
        proof {
            use_type_invariant(self);
            lemma_members(*self);
        }
        let mut out: Vec<(String, Json)> = Vec::new();
        let mut i: usize = 0;
        while i < self.entries.len()
            invariant
                i <= self.entries@.len(),
                out@.len() == i,
                forall|j: int| 0 <= j < i ==> out@[j].0@ == self.entries@[j].0@ && out@[j].1@ == self.entries@[j].1@,
            decreases self.entries@.len() - i,
        {
            assert(decreases_to!(*self => self.entries@[i as int].1));
            let name = self.entries[i].0.clone();
            let value = self.entries[i].1.copy();
            out.push((name, value));
            i = i + 1;
        }
        assert(pairs_view(out@) =~= self@);
        proof {
            lemma_members(JsonMap { entries: out });
        }
        JsonMap { entries: out }
    }

    fn index_of(&self, key: &String) -> (r: Option<usize>)
        ensures
            self@.len() == self.entries@.len(),
            match r {
                Some(i) => i < self@.len() && self@[i as int].0 == key@
                    && forall|j: int| 0 <= j < i ==> self@[j].0 != key@,
                None => forall|j: int| 0 <= j < self@.len() ==> self@[j].0 != key@,
            },
    {
        proof {
            lemma_members(*self);
        }
        let mut i: usize = 0;
        while i < self.entries.len()
            invariant
                i <= self@.len(),
                self@.len() == self.entries@.len(),
                self@ == pairs_view(self.entries@),
                forall|j: int| 0 <= j < i ==> self@[j].0 != key@,
            decreases self.entries@.len() - i,
        {
            if self.entries[i].0 == *key {
                return Some(i);
            }
            i = i + 1;
        }
        None
    }

    /// The value of the first member named `key`, copied.
    pub fn get(&self, key: &str) -> (r: Option<Json>)
        ensures
            opt_view(r) == obj_get(self@, key@),
    {
        let key = String::from_str(key);
        match self.index_of(&key) {
            Some(i) => {
                proof {
                    lemma_get_first(self@, key@, i as int, 0);
                    lemma_members(*self);
                }
                Some(self.entries[i].1.copy())
            },
            None => {
                proof {
                    lemma_get_none(self@, key@, 0);
                }
                None
            },
        }
    }

    /// Whether a member is named `key`.
    pub fn contains_key(&self, key: &str) -> (r: bool)
        ensures
            r == obj_get(self@, key@) is Some,
    {
        let key = String::from_str(key);
        match self.index_of(&key) {
            Some(i) => {
                proof {
                    lemma_get_first(self@, key@, i as int, 0);
                }
                true
            },
            None => {
                proof {
                    lemma_get_none(self@, key@, 0);
                }
                false
            },
        }
    }

    /// Set member `key` to `value`: the member of that name gets the value in
    /// place, or a new member is appended when there is none.
    pub fn insert(&mut self, key: String, value: Json)
        ensures
            obj_get(final(self)@, key@) == Some(value@),
            forall|k: Seq<char>| k != key@ ==> obj_get(final(self)@, k) == obj_get(old(self)@, k),
            final(self)@ == insert_member(old(self)@, key@, value@),
    {
        proof {
            use_type_invariant(&*self);
        }
        let ghost k0 = key@;
        let ghost v0 = value@;
        let ghost before = self@;
        let found = self.index_of(&key);
        let mut entries: Vec<(String, Json)> = Vec::new();
        proof {
            lemma_members(JsonMap { entries: entries });
            lemma_members(*self);
        }
        std::mem::swap(&mut entries, &mut self.entries);
        assert(before == pairs_view(entries@));
        match found {
            Some(i) => {
                entries.set(i, (key, value));
                proof {
                    let after = pairs_view(entries@);
                    assert(after =~= before.update(i as int, (k0, v0)));
                    lemma_get_first(after, k0, i as int, 0);
                    lemma_position_first(before, k0, i as int, 0);
                    assert forall|k: Seq<char>| k != k0 implies
                        get_from(after, k, 0) == get_from(before, k, 0) by {
                        lemma_get_same_except(before, after, k, i as int, 0);
                    }
                    assert forall|a: int, b: int| 0 <= a < b < after.len() implies after[a].0 != after[b].0 by {
                        if a != i && b != i {
                            assert(before[a].0 != before[b].0);
                        }
                    }
                }
            },
            None => {
                proof {
                    lemma_position_none(before, k0, 0);
                }
                entries.push((key, value));
                proof {
                    let after = pairs_view(entries@);
                    assert(after =~= before.push((k0, v0)));
                    lemma_get_first(after, k0, before.len() as int, 0);
                    assert forall|k: Seq<char>| k != k0 implies
                        get_from(after, k, 0) == get_from(before, k, 0) by {
                        lemma_get_push(before, after, k, 0);
                    }
                }
            },
        }
        proof {
            lemma_members(JsonMap { entries: entries });
        }
        self.entries = entries;
    }

    /// Append member `key` with `value`, for a name no member has.
    pub(crate) fn push_new(&mut self, key: String, value: Json)
        requires
            forall|j: int| 0 <= j < old(self)@.len() ==> old(self)@[j].0 != key@,
        ensures
            final(self)@ == old(self)@.push((key@, value@)),
    {
        proof {
            lemma_position_none(self@, key@, 0);
        }
        self.insert(key, value);
    }
}

pub proof fn lemma_get_first<V>(entries: Seq<(Seq<char>, V)>, key: Seq<char>, i: int, from: int)
    requires
        0 <= from <= i < entries.len(),
        entries[i].0 == key,
        forall|j: int| from <= j < i ==> entries[j].0 != key,
    ensures
        get_from(entries, key, from) == Some(entries[i].1),
    decreases i - from,
{
    if from < i {
        lemma_get_first(entries, key, i, from + 1);
    }
}

pub proof fn lemma_position_first<V>(entries: Seq<(Seq<char>, V)>, key: Seq<char>, i: int, from: int)
    requires
        0 <= from <= i < entries.len(),
        entries[i].0 == key,
        forall|j: int| from <= j < i ==> entries[j].0 != key,
    ensures
        position_from(entries, key, from) == Some(i),
    decreases i - from,
{
    if from < i {
        lemma_position_first(entries, key, i, from + 1);
    }
}

pub proof fn lemma_position_none<V>(entries: Seq<(Seq<char>, V)>, key: Seq<char>, from: int)
    requires
        0 <= from <= entries.len(),
        forall|j: int| from <= j < entries.len() ==> entries[j].0 != key,
    ensures
        position_from(entries, key, from) is None,
    decreases entries.len() - from,
{
    if from < entries.len() {
        lemma_position_none(entries, key, from + 1);
    }
}

pub proof fn lemma_get_none<V>(entries: Seq<(Seq<char>, V)>, key: Seq<char>, from: int)
    requires
        0 <= from <= entries.len(),
        forall|j: int| from <= j < entries.len() ==> entries[j].0 != key,
    ensures
        get_from(entries, key, from) is None,
    decreases entries.len() - from,
{
    if from < entries.len() {
        lemma_get_none(entries, key, from + 1);
    }
}

pub proof fn lemma_get_same_except<V>(
    before: Seq<(Seq<char>, V)>,
    after: Seq<(Seq<char>, V)>,
    k: Seq<char>,
    i: int,
    from: int,
)
    requires
        0 <= i < before.len(),
        after.len() == before.len(),
        0 <= from,
        before[i].0 != k,
        after[i].0 == before[i].0,
        forall|j: int| 0 <= j < before.len() && j != i ==> after[j] == before[j],
    ensures
        get_from(after, k, from) == get_from(before, k, from),
    decreases before.len() - from,
{
    if from < before.len() {
        lemma_get_same_except(before, after, k, i, from + 1);
    }
}

pub proof fn lemma_get_push<V>(before: Seq<(Seq<char>, V)>, after: Seq<(Seq<char>, V)>, k: Seq<char>, from: int)
    requires
        after.len() == before.len() + 1,
        0 <= from,
        after[before.len() as int].0 != k,
        forall|j: int| 0 <= j < before.len() ==> after[j] == before[j],
    ensures
        get_from(after, k, from) == get_from(before, k, from),
    decreases after.len() - from,
{
    if from < after.len() {
        lemma_get_push(before, after, k, from + 1);
    }
}

} // verus!
