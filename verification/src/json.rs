use vstd::prelude::*;
use vstd::string::*;

use crate::text::{copy_string, owned, str_eq};

verus! {

broadcast use vstd::std_specs::vec::group_vec_axioms;

/// A JSON number as the wire holds it: an unsigned or a negative integer, or another number
/// kept as its text.
#[derive(Debug)]
pub enum JsonNumber {
    PosInt(u64),
    NegInt(i64),
    Float(String),
}

/// A JSON value. Object members keep their order; a key is looked up at its first member.
#[derive(Debug)]
pub enum Json {
    Null,
    Bool(bool),
    Number(JsonNumber),
    Str(String),
    Array(Vec<Json>),
    Object(Vec<(String, Json)>),
}

#[verifier::ext_equal]
pub enum NumberV {
    PosInt(u64),
    NegInt(i64),
    Float(Seq<char>),
}

/// The mathematical model of a JSON value.
#[verifier::ext_equal]
pub enum JsonV {
    Null,
    Bool(bool),
    Number(NumberV),
    Str(Seq<char>),
    Array(Seq<JsonV>),
    Object(Seq<(Seq<char>, JsonV)>),
}

pub open spec fn number_view(n: JsonNumber) -> NumberV {
    match n {
        JsonNumber::PosInt(u) => NumberV::PosInt(u),
        JsonNumber::NegInt(i) => NumberV::NegInt(i),
        JsonNumber::Float(t) => NumberV::Float(t@),
    }
}

pub open spec fn json_view(j: Json) -> JsonV
    decreases j,
{
    match j {
        Json::Null => JsonV::Null,
        Json::Bool(b) => JsonV::Bool(b),
        Json::Number(n) => JsonV::Number(number_view(n)),
        Json::Str(s) => JsonV::Str(s@),
        Json::Array(v) => JsonV::Array(
            Seq::new(
                v.len() as nat,
                |i: int|
                    if 0 <= i < v.len() {
                        json_view(v[i])
                    } else {
                        JsonV::Null
                    },
            ),
        ),
        Json::Object(v) => JsonV::Object(
            Seq::new(
                v.len() as nat,
                |i: int|
                    if 0 <= i < v.len() {
                        (v[i].0@, json_view(v[i].1))
                    } else {
                        (Seq::empty(), JsonV::Null)
                    },
            ),
        ),
    }
}

impl View for Json {
    type V = JsonV;

    open spec fn view(&self) -> JsonV {
        json_view(*self)
    }
}

/// The member value at the first member named `key`.
pub open spec fn lookup(members: Seq<(Seq<char>, JsonV)>, key: Seq<char>) -> Option<JsonV>
    decreases members.len(),
{
    if members.len() == 0 {
        None
    } else if members[0].0 == key {
        Some(members[0].1)
    } else {
        lookup(members.drop_first(), key)
    }
}

/// `Value::get` with a string key: the member of an object, nothing for other values.
pub open spec fn jget(j: JsonV, key: Seq<char>) -> Option<JsonV> {
    match j {
        JsonV::Object(m) => lookup(m, key),
        _ => None,
    }
}

/// Follows object keys one after the other (`Value::pointer` with a path of keys).
pub open spec fn jpath(j: JsonV, keys: Seq<Seq<char>>) -> Option<JsonV>
    decreases keys.len(),
{
    if keys.len() == 0 {
        Some(j)
    } else {
        match jget(j, keys[0]) {
            Some(c) => jpath(c, keys.drop_first()),
            None => None,
        }
    }
}

/// `Value::as_str`.
pub open spec fn jstr(j: Option<JsonV>) -> Option<Seq<char>> {
    match j {
        Some(JsonV::Str(s)) => Some(s),
        _ => None,
    }
}

/// `Value::as_u64`.
pub open spec fn ju64(j: Option<JsonV>) -> Option<u64> {
    match j {
        Some(JsonV::Number(NumberV::PosInt(u))) => Some(u),
        _ => None,
    }
}

/// `Value::as_array`.
pub open spec fn jarray(j: Option<JsonV>) -> Option<Seq<JsonV>> {
    match j {
        Some(JsonV::Array(a)) => Some(a),
        _ => None,
    }
}

/// A missing value serialised as `null` (an `Option<&Value>` inside `json!`).
pub open spec fn or_null(j: Option<JsonV>) -> JsonV {
    match j {
        Some(v) => v,
        None => JsonV::Null,
    }
}

/// An optional string serialised by `json!`: the string, or `null`.
pub open spec fn str_or_null(s: Option<Seq<char>>) -> JsonV {
    match s {
        Some(t) => JsonV::Str(t),
        None => JsonV::Null,
    }
}

/// The view of an optional string.
pub open spec fn opt_str(s: Option<String>) -> Option<Seq<char>> {
    match s {
        Some(t) => Some(t@),
        None => None,
    }
}

/// An object member set (`map[key] = value` on an object): the first member named `key` takes
/// the value, or the member is appended.
pub open spec fn set_member(m: Seq<(Seq<char>, JsonV)>, key: Seq<char>, v: JsonV) -> Seq<
    (Seq<char>, JsonV),
>
    decreases m.len(),
{
    if m.len() == 0 {
        seq![(key, v)]
    } else if m[0].0 == key {
        m.update(0, (key, v))
    } else {
        seq![m[0]] + set_member(m.drop_first(), key, v)
    }
}

pub proof fn lemma_view_array(v: Vec<Json>)
    ensures
        Json::Array(v)@ == JsonV::Array(v@.map_values(|x: Json| x@)),
{
    assert(Json::Array(v)@->Array_0 =~= v@.map_values(|x: Json| x@));
}

pub proof fn lemma_view_object(v: Vec<(String, Json)>)
    ensures
        Json::Object(v)@ == JsonV::Object(v@.map_values(|e: (String, Json)| (e.0@, e.1@))),
{
    assert(Json::Object(v)@->Object_0 =~= v@.map_values(|e: (String, Json)| (e.0@, e.1@)));
}

impl Json {
    /// A JSON string holding the characters of `s`.
    pub fn text(s: &str) -> (r: Json)
        ensures
            r@ == JsonV::Str(s@),
    {
        Json::Str(owned(s))
    }

    /// A JSON unsigned integer.
    pub fn uint(n: u64) -> (r: Json)
        ensures
            r@ == JsonV::Number(NumberV::PosInt(n)),
    {
        Json::Number(JsonNumber::PosInt(n))
    }

    /// An optional string: the string, or `null`.
    pub fn opt_text(s: &Option<String>) -> (r: Json)
        ensures
            r@ == str_or_null(opt_str(*s)),
    {
        match s {
            Some(t) => Json::Str(copy_string(t)),
            None => Json::Null,
        }
    }

    /// A copy of the value.
    #[verifier::loop_isolation(false)]
    pub fn deep_clone(&self) -> (r: Json)
        ensures
            r@ == self@,
        decreases self,
    {
        match self {
            Json::Null => Json::Null,
            Json::Bool(b) => Json::Bool(*b),
            Json::Number(n) => Json::Number(
                match n {
                    JsonNumber::PosInt(u) => JsonNumber::PosInt(*u),
                    JsonNumber::NegInt(i) => JsonNumber::NegInt(*i),
                    JsonNumber::Float(t) => JsonNumber::Float(copy_string(t)),
                },
            ),
            Json::Str(s) => Json::Str(copy_string(s)),
            Json::Array(v) => {
                let mut out: Vec<Json> = Vec::new();
                let mut i: usize = 0;
                while i < v.len()
                    invariant
                        i <= v.len(),
                        out@.len() == i,
                        forall|k: int| 0 <= k < i ==> (#[trigger] out@[k])@ == v@[k]@,
                    decreases v.len() - i,
                {
                    assert(decreases_to!(v => v[i as int]));
                    let c = v[i].deep_clone();
                    out.push(c);
                    i = i + 1;
                }
                let r = Json::Array(out);
                proof {
                    lemma_view_array(out);
                    lemma_view_array(*v);
                    assert(out@.map_values(|x: Json| x@) =~= v@.map_values(|x: Json| x@));
                }
                r
            },
            Json::Object(v) => {
                let mut out: Vec<(String, Json)> = Vec::new();
                let mut i: usize = 0;
                while i < v.len()
                    invariant
                        i <= v.len(),
                        out@.len() == i,
                        forall|k: int|
                            0 <= k < i ==> (#[trigger] out@[k]).0@ == v@[k].0@ && out@[k].1@
                                == v@[k].1@,
                    decreases v.len() - i,
                {
                    assert(decreases_to!(v => v[i as int]));
                    assert(decreases_to!(v[i as int] => v[i as int].1));
                    let k = copy_string(&v[i].0);
                    let c = v[i].1.deep_clone();
                    out.push((k, c));
                    i = i + 1;
                }
                let r = Json::Object(out);
                proof {
                    lemma_view_object(out);
                    lemma_view_object(*v);
                    assert(out@.map_values(|e: (String, Json)| (e.0@, e.1@)) =~= v@.map_values(
                        |e: (String, Json)| (e.0@, e.1@),
                    ));
                }
                r
            },
        }
    }

    /// `Value::get`: the first member named `key` of an object.
    pub fn get(&self, key: &str) -> (r: Option<&Json>)
        ensures
            match r {
                Some(c) => jget(self@, key@) == Some(c@),
                None => jget(self@, key@) is None,
            },
    {
        match self {
            Json::Object(v) => {
                proof { lemma_view_object(*v); }
                let ghost m = v@.map_values(|e: (String, Json)| (e.0@, e.1@));
                assert(self@ == JsonV::Object(m));
                let mut i: usize = 0;
                assert(m.skip(0) =~= m);
                while i < v.len()
                    invariant
                        i <= v.len(),
                        m == v@.map_values(|e: (String, Json)| (e.0@, e.1@)),
                        self@ == JsonV::Object(m),
                        lookup(m, key@) == lookup(m.skip(i as int), key@),
                    decreases v.len() - i,
                {
                    assert(m.skip(i as int).drop_first() =~= m.skip(i + 1));
                    assert(m.skip(i as int)[0] == (v@[i as int].0@, v@[i as int].1@));
                    if str_eq(v[i].0.as_str(), key) {
                        return Some(&v[i].1);
                    }
                    i = i + 1;
                }
                None
            },
            _ => None,
        }
    }

    /// `Value::pointer` for a path of object keys.
    pub fn path(&self, keys: &[&str]) -> (r: Option<&Json>)
        ensures
            match r {
                Some(c) => jpath(self@, keys@.map_values(|k: &str| k@)) == Some(c@),
                None => jpath(self@, keys@.map_values(|k: &str| k@)) is None,
            },
    {
        let ghost ks = keys@.map_values(|k: &str| k@);
        let mut cur: &Json = self;
        let mut i: usize = 0;
        assert(ks.skip(0) =~= ks);
        while i < keys.len()
            invariant
                i <= keys.len(),
                ks == keys@.map_values(|k: &str| k@),
                jpath(self@, ks) == jpath(cur@, ks.skip(i as int)),
            decreases keys.len() - i,
        {
            assert(ks.skip(i as int).drop_first() =~= ks.skip(i + 1));
            assert(ks.skip(i as int)[0] == keys@[i as int]@);
            match cur.get(keys[i]) {
                Some(c) => {
                    cur = c;
                },
                None => {
                    return None;
                },
            }
            i = i + 1;
        }
        assert(ks.skip(i as int).len() == 0);
        Some(cur)
    }

    /// `Value::as_str`.
    pub fn as_str(&self) -> (r: Option<&str>)
        ensures
            match r {
                Some(s) => jstr(Some(self@)) == Some(s@),
                None => jstr(Some(self@)) is None,
            },
    {
        match self {
            Json::Str(s) => Some(s.as_str()),
            _ => None,
        }
    }

    /// `Value::as_u64`.
    pub fn as_u64(&self) -> (r: Option<u64>)
        ensures
            r == ju64(Some(self@)),
    {
        match self {
            Json::Number(JsonNumber::PosInt(u)) => Some(*u),
            _ => None,
        }
    }

    /// `Value::as_array`.
    pub fn as_array(&self) -> (r: Option<&Vec<Json>>)
        ensures
            match r {
                Some(a) => jarray(Some(self@)) == Some(a@.map_values(|x: Json| x@)),
                None => jarray(Some(self@)) is None,
            },
    {
        match self {
            Json::Array(v) => {
                proof { lemma_view_array(*v); }
                Some(v)
            },
            _ => None,
        }
    }

    /// The value is an object.
    pub fn is_object(&self) -> (r: bool)
        ensures
            r == (self@ is Object),
    {
        match self {
            Json::Object(_) => true,
            _ => false,
        }
    }

    /// The value of a member, or `null` when absent (`value["key"]`).
    pub fn member_or_null(&self, key: &str) -> (r: Json)
        ensures
            r@ == or_null(jget(self@, key@)),
    {
        match self.get(key) {
            Some(c) => c.deep_clone(),
            None => Json::Null,
        }
    }

    /// A copy of an optional value, or `null` when absent.
    pub fn cloned_or_null(j: Option<&Json>) -> (r: Json)
        ensures
            r@ == or_null(
                match j {
                    Some(c) => Some(c@),
                    None => None,
                },
            ),
    {
        match j {
            Some(c) => c.deep_clone(),
            None => Json::Null,
        }
    }
}

/// The views of a list of values.
pub open spec fn jsons(v: Seq<Json>) -> Seq<JsonV> {
    v.map_values(|x: Json| x@)
}

/// The views of a list of strings.
pub open spec fn strs(v: Seq<String>) -> Seq<Seq<char>> {
    v.map_values(|s: String| s@)
}

/// A list of strings as JSON.
pub open spec fn str_array(v: Seq<Seq<char>>) -> JsonV {
    JsonV::Array(v.map_values(|s: Seq<char>| JsonV::Str(s)))
}

/// An optional value as JSON: the value or `null`.
pub open spec fn opt_or_null(v: Option<JsonV>) -> JsonV {
    match v {
        Some(x) => x,
        None => JsonV::Null,
    }
}

/// A copy of a list of values as a JSON array.
pub fn json_array(items: &Vec<Json>) -> (r: Json)
    ensures
        r@ == JsonV::Array(jsons(items@)),
{
    let mut out: Vec<Json> = Vec::new();
    let mut i: usize = 0;
    while i < items.len()
        invariant
            i <= items.len(),
            out@.len() == i,
            forall|k: int| 0 <= k < i ==> (#[trigger] out@[k])@ == items@[k]@,
        decreases items.len() - i,
    {
        out.push(items[i].deep_clone());
        i = i + 1;
    }
    proof {
        lemma_view_array(out);
        assert(out@.map_values(|x: Json| x@) =~= jsons(items@));
    }
    Json::Array(out)
}

/// A list of strings as a JSON array.
pub fn string_array(items: &Vec<String>) -> (r: Json)
    ensures
        r@ == str_array(strs(items@)),
{
    let mut out: Vec<Json> = Vec::new();
    let mut i: usize = 0;
    while i < items.len()
        invariant
            i <= items.len(),
            out@.len() == i,
            forall|k: int| 0 <= k < i ==> (#[trigger] out@[k])@ == JsonV::Str(items@[k]@),
        decreases items.len() - i,
    {
        out.push(Json::Str(copy_string(&items[i])));
        i = i + 1;
    }
    proof {
        lemma_view_array(out);
        assert(out@.map_values(|x: Json| x@) =~= strs(items@).map_values(
            |s: Seq<char>| JsonV::Str(s),
        ));
    }
    Json::Array(out)
}

/// A copy of an optional value, or `null`.
pub fn opt_json(v: &Option<Json>) -> (r: Json)
    ensures
        r@ == opt_or_null(
            match v {
                Some(x) => Some(x@),
                None => None,
            },
        ),
{
    match v {
        Some(x) => x.deep_clone(),
        None => Json::Null,
    }
}

/// The views of an optional value.
pub open spec fn opt_view(v: Option<Json>) -> Option<JsonV> {
    match v {
        Some(x) => Some(x@),
        None => None,
    }
}

/// An object under construction.
pub struct ObjectBuilder {
    pub members: Vec<(String, Json)>,
}

pub open spec fn members_view(v: Seq<(String, Json)>) -> Seq<(Seq<char>, JsonV)> {
    v.map_values(|e: (String, Json)| (e.0@, e.1@))
}

impl ObjectBuilder {
    pub open spec fn model(&self) -> Seq<(Seq<char>, JsonV)> {
        members_view(self.members@)
    }

    pub fn new() -> (r: ObjectBuilder)
        ensures
            r.model() == Seq::<(Seq<char>, JsonV)>::empty(),
    {
        let r = ObjectBuilder { members: Vec::new() };
        assert(r.model() =~= Seq::<(Seq<char>, JsonV)>::empty());
        r
    }

    /// Appends a member.
    pub fn add(&mut self, key: &str, value: Json)
        ensures
            final(self).model() == old(self).model().push((key@, value@)),
    {
        let k = owned(key);
        self.members.push((k, value));
        assert(self.model() =~= old(self).model().push((key@, value@)));
    }

    /// The finished object.
    pub fn build(self) -> (r: Json)
        ensures
            r@ == JsonV::Object(self.model()),
    {
        proof { lemma_view_object(self.members); }
        Json::Object(self.members)
    }
}

proof fn lemma_set_member_at(m: Seq<(Seq<char>, JsonV)>, key: Seq<char>, v: JsonV, i: int)
    requires
        0 <= i < m.len(),
        m[i].0 == key,
        forall|k: int| 0 <= k < i ==> (#[trigger] m[k]).0 != key,
    ensures
        set_member(m, key, v) == m.update(i, (key, v)),
    decreases i,
{
    if i > 0 {
        let t = m.drop_first();
        assert forall|k: int| 0 <= k < i - 1 implies (#[trigger] t[k]).0 != key by {
            assert(t[k] == m[k + 1]);
        }
        lemma_set_member_at(t, key, v, i - 1);
        assert(m.update(i, (key, v)) =~= seq![m[0]] + t.update(i - 1, (key, v)));
    }
}

proof fn lemma_set_member_absent(m: Seq<(Seq<char>, JsonV)>, key: Seq<char>, v: JsonV)
    requires
        forall|k: int| 0 <= k < m.len() ==> (#[trigger] m[k]).0 != key,
    ensures
        set_member(m, key, v) == m.push((key, v)),
    decreases m.len(),
{
    if m.len() > 0 {
        let t = m.drop_first();
        assert forall|k: int| 0 <= k < t.len() implies (#[trigger] t[k]).0 != key by {
            assert(t[k] == m[k + 1]);
        }
        lemma_set_member_absent(t, key, v);
        assert(m.push((key, v)) =~= seq![m[0]] + t.push((key, v)));
    }
}

/// The index of the first member named `key`.
fn find_key(v: &Vec<(String, Json)>, key: &str) -> (r: Option<usize>)
    ensures
        match r {
            Some(i) => i < v.len() && v@[i as int].0@ == key@ && forall|k: int|
                0 <= k < i ==> (#[trigger] v@[k]).0@ != key@,
            None => forall|k: int| 0 <= k < v.len() ==> (#[trigger] v@[k]).0@ != key@,
        },
{
    let mut i: usize = 0;
    while i < v.len()
        invariant
            i <= v.len(),
            forall|k: int| 0 <= k < i ==> (#[trigger] v@[k]).0@ != key@,
        decreases v.len() - i,
    {
        if str_eq(v[i].0.as_str(), key) {
            return Some(i);
        }
        i = i + 1;
    }
    None
}

/// Sets a member of an object (`map[key] = value`); a non-object value is left unchanged.
pub fn set_key(target: &mut Json, key: &str, value: Json)
    ensures
        match old(target)@ {
            JsonV::Object(m) => final(target)@ == JsonV::Object(set_member(m, key@, value@)),
            _ => final(target)@ == old(target)@,
        },
{
    if let Json::Object(v) = target {
        proof { lemma_view_object(*v); }
        let ghost m0 = members_view(v@);
        let ghost vv = value@;
        match find_key(v, key) {
            Some(i) => {
                proof {
                    assert forall|k: int| 0 <= k < i implies (#[trigger] m0[k]).0 != key@ by {
                        assert(m0[k].0 == v@[k].0@);
                    }
                    lemma_set_member_at(m0, key@, vv, i as int);
                }
                let k = owned(key);
                v.set(i, (k, value));
                proof {
                    lemma_view_object(*v);
                    assert(members_view(v@) =~= m0.update(i as int, (key@, vv)));
                }
            },
            None => {
                proof {
                    assert forall|k: int| 0 <= k < m0.len() implies (#[trigger] m0[k]).0 != key@ by {
                        assert(m0[k].0 == v@[k].0@);
                    }
                    lemma_set_member_absent(m0, key@, vv);
                }
                let k = owned(key);
                v.push((k, value));
                proof {
                    lemma_view_object(*v);
                    assert(members_view(v@) =~= m0.push((key@, vv)));
                }
            },
        }
    }
}

} // verus!
