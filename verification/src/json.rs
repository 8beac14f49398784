//! A JSON document model: the values that Homebridge sends and that the
//! property inspector receives, with a mathematical view and object lookups.
use vstd::prelude::*;
use crate::text::same_text;


verus! {

/// A JSON number as `serde_json` distinguishes it: a non-negative integer,
/// a negative integer, or a floating-point number held by its IEEE-754 bits.
#[derive(Clone, Copy, PartialEq, Eq, Debug)]
pub enum JsonNumber {
    PosInt(u64),
    NegInt(i64),
    Float(u64),
}

/// A JSON value. An object is a list of members; lookups take the first
/// member with the key, and inserts replace it, so keys stay unique.
#[derive(Debug)]
pub enum Json {
    Null,
    Bool(bool),
    Number(JsonNumber),
    String(String),
    Array(Vec<Json>),
    Object(Vec<(String, Json)>),
}

/// The mathematical value of a `Json`: strings as character sequences.
pub enum JsonView {
    Null,
    Bool(bool),
    Number(JsonNumber),
    String(Seq<char>),
    Array(Seq<JsonView>),
    Object(Seq<(Seq<char>, JsonView)>),
}

/// The views of the first `n` items of `v`.
pub open spec fn view_items(v: Vec<Json>, n: int) -> Seq<JsonView>
    decreases v, n,
{
    if n <= 0 || n > v.len() {
        Seq::empty()
    } else {
        view_items(v, n - 1).push(view_json(v[n - 1]))
    }
}

/// The views of the first `n` members of `v`.
pub open spec fn view_members(v: Vec<(String, Json)>, n: int) -> Seq<(Seq<char>, JsonView)>
    decreases v, n,
{
    if n <= 0 || n > v.len() {
        Seq::empty()
    } else {
        view_members(v, n - 1).push((v[n - 1].0@, view_json(v[n - 1].1)))
    }
}

/// The view of a JSON value.
pub open spec fn view_json(j: Json) -> JsonView
    decreases j, 0int,
{
    match j {
        Json::Null => JsonView::Null,
        Json::Bool(b) => JsonView::Bool(b),
        Json::Number(n) => JsonView::Number(n),
        Json::String(s) => JsonView::String(s@),
        Json::Array(v) => JsonView::Array(view_items(v, v.len() as int)),
        Json::Object(v) => JsonView::Object(view_members(v, v.len() as int)),
    }
}

/// The view of all members of an object.
pub open spec fn view_object(m: Vec<(String, Json)>) -> Seq<(Seq<char>, JsonView)> {
    view_members(m, m.len() as int)
}

/// The view of all items of an array.
pub open spec fn view_array(v: Vec<Json>) -> Seq<JsonView> {
    view_items(v, v.len() as int)
}

pub proof fn lemma_view_items(v: Vec<Json>, n: int)
    requires
        0 <= n <= v.len(),
    ensures
        view_items(v, n).len() == n,
        forall|k: int| 0 <= k < n ==> #[trigger] view_items(v, n)[k] == view_json(v[k]),
    decreases n,
{
    if n > 0 {
        lemma_view_items(v, n - 1);
    }
}

pub proof fn lemma_view_members(v: Vec<(String, Json)>, n: int)
    requires
        0 <= n <= v.len(),
    ensures
        view_members(v, n).len() == n,
        forall|k: int|
            0 <= k < n ==> #[trigger] view_members(v, n)[k] == (v[k].0@, view_json(v[k].1)),
    decreases n,
{
    if n > 0 {
        lemma_view_members(v, n - 1);
    }
}

/// The items' views of an array, fully described.
pub proof fn lemma_view_array(v: Vec<Json>)
    ensures
        view_array(v).len() == v.len(),
        forall|k: int| 0 <= k < v.len() ==> #[trigger] view_array(v)[k] == view_json(v[k]),
{
    lemma_view_items(v, v.len() as int);
}

/// The members' views of an object, fully described.
pub proof fn lemma_view_object(m: Vec<(String, Json)>)
    ensures
        view_object(m).len() == m.len(),
        forall|k: int|
            0 <= k < m.len() ==> #[trigger] view_object(m)[k] == (m[k].0@, view_json(m[k].1)),
{
    lemma_view_members(m, m.len() as int);
}

// ---------------------------------------------------------------------------
// Object lookups on the view.

/// `k` is a key of the object view `m`.
pub open spec fn has_key(m: Seq<(Seq<char>, JsonView)>, k: Seq<char>) -> bool {
    exists|i: int| 0 <= i < m.len() && m[i].0 == k
}

/// `i` is the first position of key `k` in `m`.
pub open spec fn first_key_at(m: Seq<(Seq<char>, JsonView)>, k: Seq<char>, i: int) -> bool {
    &&& 0 <= i < m.len()
    &&& m[i].0 == k
    &&& forall|j: int| 0 <= j < i ==> m[j].0 != k
}

/// The value that `m` holds under `k` (`Map::get`).
pub open spec fn get(m: Seq<(Seq<char>, JsonView)>, k: Seq<char>) -> Option<JsonView> {
    if has_key(m, k) {
        Some(m[choose|i: int| first_key_at(m, k, i)].1)
    } else {
        None
    }
}

/// No key occurs twice in `m`.
pub open spec fn keys_unique(m: Seq<(Seq<char>, JsonView)>) -> bool {
    forall|i: int, j: int| 0 <= i < j < m.len() ==> m[i].0 != m[j].0
}

/// `m` with `k` bound to `v`: the first member under `k` replaced, or the
/// pair appended (`Map::insert`).
pub open spec fn put(m: Seq<(Seq<char>, JsonView)>, k: Seq<char>, v: JsonView) -> Seq<
    (Seq<char>, JsonView),
> {
    if has_key(m, k) {
        m.update(choose|i: int| first_key_at(m, k, i), (k, v))
    } else {
        m.push((k, v))
    }
}

pub proof fn lemma_first_key_unique(m: Seq<(Seq<char>, JsonView)>, k: Seq<char>, i: int, j: int)
    requires
        first_key_at(m, k, i),
        first_key_at(m, k, j),
    ensures
        i == j,
{
}

pub proof fn lemma_has_key_first(m: Seq<(Seq<char>, JsonView)>, k: Seq<char>)
    requires
        has_key(m, k),
    ensures
        exists|i: int| first_key_at(m, k, i),
    decreases m.len(),
{
    let w = choose|i: int| 0 <= i < m.len() && m[i].0 == k;
    lemma_first_before(m, k, w);
}

proof fn lemma_first_before(m: Seq<(Seq<char>, JsonView)>, k: Seq<char>, w: int)
    requires
        0 <= w < m.len(),
        m[w].0 == k,
    ensures
        exists|i: int| first_key_at(m, k, i),
    decreases w,
{
    if forall|j: int| 0 <= j < w ==> m[j].0 != k {
        assert(first_key_at(m, k, w));
    } else {
        let v = choose|j: int| 0 <= j < w && m[j].0 == k;
        lemma_first_before(m, k, v);
    }
}

/// What a lookup gives back after a `put`: the value put under its key,
/// and under every other key what the object held before.
pub proof fn law_object_read_back(m: Seq<(Seq<char>, JsonView)>, k: Seq<char>, v: JsonView, q: Seq<char>)
    ensures
        get(put(m, k, v), q) == if q == k {
            Some(v)
        } else {
            get(m, q)
        },
{
    let p = put(m, k, v);
    if has_key(m, k) {
        lemma_has_key_first(m, k);
        let i = choose|i: int| first_key_at(m, k, i);
        if q == k {
            assert(first_key_at(p, k, i));
            assert(has_key(p, q));
            let c = choose|c: int| first_key_at(p, q, c);
            lemma_first_key_unique(p, q, i, c);
        } else {
            assert forall|j: int| 0 <= j < p.len() implies (p[j].0 == q) == (m[j].0 == q) by {}
            if has_key(m, q) {
                lemma_has_key_first(m, q);
                let a = choose|a: int| first_key_at(m, q, a);
                assert(first_key_at(p, q, a));
                assert(has_key(p, q));
                let c = choose|c: int| first_key_at(p, q, c);
                lemma_first_key_unique(p, q, a, c);
            } else {
                assert(!has_key(p, q));
            }
        }
    } else {
        if q == k {
            assert(first_key_at(p, k, m.len() as int));
            assert(has_key(p, q));
            let c = choose|c: int| first_key_at(p, q, c);
            lemma_first_key_unique(p, q, m.len() as int, c);
        } else {
            if has_key(m, q) {
                lemma_has_key_first(m, q);
                let a = choose|a: int| first_key_at(m, q, a);
                assert(first_key_at(p, q, a));
                assert(has_key(p, q));
                let c = choose|c: int| first_key_at(p, q, c);
                lemma_first_key_unique(p, q, a, c);
            } else {
                assert forall|j: int| 0 <= j < p.len() implies p[j].0 != q by {
                    if j < m.len() {
                    }
                }
            }
        }
    }
}

/// A `put` keeps the keys of an object unique.
pub proof fn law_put_keeps_keys_unique(m: Seq<(Seq<char>, JsonView)>, k: Seq<char>, v: JsonView)
    requires
        keys_unique(m),
    ensures
        keys_unique(put(m, k, v)),
{
    if has_key(m, k) {
        lemma_has_key_first(m, k);
    }
}

// ---------------------------------------------------------------------------
// Executable operations.

impl JsonNumber {
    /// Whether the number is an integer (`Number::is_i64() || Number::is_u64()`).
    pub fn is_integer(&self) -> (r: bool)
        ensures
            r == !(self is Float),
    {
        match self {
            JsonNumber::Float(_) => false,
            _ => true,
        }
    }
}

impl Json {
    /// A copy of this value with the same view.
    #[verifier::loop_isolation(false)]
    pub fn duplicate(&self) -> (r: Json)
        ensures
            view_json(r) == view_json(*self),
        decreases self,
    {
        match self {
            Json::Null => Json::Null,
            Json::Bool(b) => Json::Bool(*b),
            Json::Number(n) => Json::Number(*n),
            Json::String(s) => Json::String(s.clone()),
            Json::Array(v) => {
                let mut out: Vec<Json> = Vec::new();
                let mut i: usize = 0;
                while i < v.len()
                    invariant
                        i <= v.len(),
                        out.len() == i,
                        forall|k: int| 0 <= k < i ==> view_json(#[trigger] out[k]) == view_json(v[k]),
                    decreases v.len() - i,
                {
                    proof {
                        assert(decreases_to!(*self => *v));
                        assert(decreases_to!(*v => v[i as int]));
                    }
                    let item = v[i].duplicate();
                    out.push(item);
                    i = i + 1;
                }
                proof {
                    lemma_view_array(out);
                    lemma_view_array(*v);
                    assert(view_array(out) =~= view_array(*v));
                }
                Json::Array(out)
            },
            Json::Object(m) => {
                let mut out: Vec<(String, Json)> = Vec::new();
                let mut i: usize = 0;
                while i < m.len()
                    invariant
                        i <= m.len(),
                        out.len() == i,
                        forall|k: int|
                            0 <= k < i ==> (#[trigger] out[k]).0@ == m[k].0@ && view_json(out[k].1)
                                == view_json(m[k].1),
                    decreases m.len() - i,
                {
                    proof {
                        assert(decreases_to!(*self => *m));
                        assert(decreases_to!(*m => m[i as int]));
                        assert(decreases_to!(m[i as int] => m[i as int].1));
                    }
                    let value = m[i].1.duplicate();
                    out.push((m[i].0.clone(), value));
                    i = i + 1;
                }
                proof {
                    lemma_view_object(out);
                    lemma_view_object(*m);
                    assert(view_object(out) =~= view_object(*m));
                }
                Json::Object(out)
            },
        }
    }

    /// The text of a string value (`Value::as_str`).
    pub fn as_str(&self) -> (r: Option<&String>)
        ensures
            r matches Some(s) ==> view_json(*self) == JsonView::String(s@),
            r is None ==> !(view_json(*self) is String),
    {
        match self {
            Json::String(s) => Some(s),
            _ => None,
        }
    }

    /// The value of a Boolean (`Value::as_bool`).
    pub fn as_bool(&self) -> (r: Option<bool>)
        ensures
            r == (match view_json(*self) {
                JsonView::Bool(b) => Some(b),
                _ => None,
            }),
    {
        match self {
            Json::Bool(b) => Some(*b),
            _ => None,
        }
    }

    /// Whether the value is a number (`Value::is_number`).
    pub fn is_number(&self) -> (r: bool)
        ensures
            r == (view_json(*self) is Number),
    {
        match self {
            Json::Number(_) => true,
            _ => false,
        }
    }

    /// Whether the value is a Boolean (`Value::is_boolean`).
    pub fn is_boolean(&self) -> (r: bool)
        ensures
            r == (view_json(*self) is Bool),
    {
        match self {
            Json::Bool(_) => true,
            _ => false,
        }
    }

    /// Whether the value is `null` (`Value::is_null`).
    pub fn is_null(&self) -> (r: bool)
        ensures
            r == (view_json(*self) is Null),
    {
        match self {
            Json::Null => true,
            _ => false,
        }
    }

    /// The member `key` of an object (`Value::get` with a string key).
    pub fn get(&self, key: &str) -> (r: Option<&Json>)
        ensures
            match view_json(*self) {
                JsonView::Object(m) => match get(m, key@) {
                    Some(v) => r matches Some(x) && view_json(*x) == v,
                    None => r is None,
                },
                _ => r is None,
            },
    {
        match self {
            Json::Object(m) => member(m, key),
            _ => None,
        }
    }
}

/// The position of the first member of `m` under `key`.
pub fn find_member(m: &Vec<(String, Json)>, key: &str) -> (r: Option<usize>)
    ensures
        match r {
            Some(i) => first_key_at(view_object(*m), key@, i as int),
            None => !has_key(view_object(*m), key@),
        },
{
    proof {
        lemma_view_object(*m);
    }
    let mut i: usize = 0;
    while i < m.len()
        invariant
            i <= m.len(),
            view_object(*m).len() == m.len(),
            forall|k: int| 0 <= k < m.len() ==> #[trigger] view_object(*m)[k].0 == m[k].0@,
            forall|j: int| 0 <= j < i ==> view_object(*m)[j].0 != key@,
        decreases m.len() - i,
    {
        if same_text(m[i].0.as_str(), key) {
            return Some(i);
        }
        i = i + 1;
    }
    None
}

/// The value of the first member of `m` under `key` (`Map::get`).
pub fn member<'a>(m: &'a Vec<(String, Json)>, key: &str) -> (r: Option<&'a Json>)
    ensures
        match get(view_object(*m), key@) {
            Some(v) => r matches Some(x) && view_json(*x) == v,
            None => r is None,
        },
{
    proof {
        lemma_view_object(*m);
    }
    match find_member(m, key) {
        Some(i) => {
            proof {
                let c = choose|c: int| first_key_at(view_object(*m), key@, c);
                lemma_first_key_unique(view_object(*m), key@, i as int, c);
            }
            Some(&m[i].1)
        },
        None => None,
    }
}

/// Whether `m` has a member under `key` (`Map::contains_key`).
pub fn has_member(m: &Vec<(String, Json)>, key: &str) -> (r: bool)
    ensures
        r == has_key(view_object(*m), key@),
{
    find_member(m, key).is_some()
}

/// Binds `key` to `value` in `m` (`Map::insert`).
pub fn put_member(m: &mut Vec<(String, Json)>, key: String, value: Json)
    ensures
        view_object(*final(m)) == put(view_object(*old(m)), key@, view_json(value)),
{
    proof {
        lemma_view_object(*m);
    }
    let ghost k = key@;
    let ghost v = view_json(value);
    match find_member(m, key.as_str()) {
        Some(i) => {
            m.set(i, (key, value));
            proof {
                lemma_view_object(*m);
                let c = choose|c: int| first_key_at(view_object(*old(m)), k, c);
                lemma_first_key_unique(view_object(*old(m)), k, i as int, c);
                assert(view_object(*m) =~= view_object(*old(m)).update(i as int, (k, v)));
            }
        },
        None => {
            m.push((key, value));
            proof {
                lemma_view_object(*m);
                assert(view_object(*m) =~= view_object(*old(m)).push((k, v)));
            }
        },
    }
}

} // verus!
