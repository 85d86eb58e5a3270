//! Dynamic (schema-less) attribute values: null, booleans, numbers, strings,
//! arrays and string-keyed objects.
use vstd::prelude::*;

verus! {

/// A dynamic attribute value.
///
/// A number is kept as the bit pattern of an IEEE-754 binary64 value, which is
/// how every number inside a dynamic map is carried.
#[derive(Debug, PartialEq)]
pub enum Json {
    Null,
    Bool(bool),
    Number(u64),
    String(String),
    Array(Vec<Json>),
    Object(JsonMap),
}

/// A string-keyed map of dynamic values. The entries keep the order in which
/// their keys were first inserted; that order carries no meaning.
#[derive(Debug, PartialEq)]
pub struct JsonMap {
    pub entries: Vec<(String, Json)>,
}

/// The mathematical value of a [`Json`].
pub enum JsonModel {
    Null,
    Bool(bool),
    Number(u64),
    Str(Seq<char>),
    Array(Seq<JsonModel>),
    Object(Seq<(Seq<char>, JsonModel)>),
}

pub open spec fn model_of(v: Json) -> JsonModel
    decreases v,
{
    match v {
        Json::Null => JsonModel::Null,
        Json::Bool(b) => JsonModel::Bool(b),
        Json::Number(n) => JsonModel::Number(n),
        Json::String(s) => JsonModel::Str(s@),
        Json::Array(items) => JsonModel::Array(
            Seq::new(
                items@.len(),
                |i: int|
                    if 0 <= i < items@.len() {
                        model_of(items@[i])
                    } else {
                        JsonModel::Null
                    },
            ),
        ),
        Json::Object(m) => JsonModel::Object(
            Seq::new(
                m.entries@.len(),
                |i: int|
                    if 0 <= i < m.entries@.len() {
                        (m.entries@[i].0@, model_of(m.entries@[i].1))
                    } else {
                        (Seq::empty(), JsonModel::Null)
                    },
            ),
        ),
    }
}

impl View for Json {
    type V = JsonModel;

    open spec fn view(&self) -> JsonModel {
        model_of(*self)
    }
}

impl View for JsonMap {
    type V = Seq<(Seq<char>, JsonModel)>;

    open spec fn view(&self) -> Seq<(Seq<char>, JsonModel)> {
        Seq::new(self.entries@.len(), |i: int| (self.entries@[i].0@, model_of(self.entries@[i].1)))
    }
}

pub proof fn lemma_object_model(m: JsonMap)
    ensures
        Json::Object(m)@ == JsonModel::Object(m@),
{
    assert(Json::Object(m)@->Object_0 =~= m@);
}

/// No key occurs twice.
pub open spec fn keys_unique<V>(entries: Seq<(Seq<char>, V)>) -> bool {
    forall|i: int, j: int|
        0 <= i < entries.len() && 0 <= j < entries.len() && i != j ==> entries[i].0 != entries[j].0
}

pub open spec fn has_key<V>(entries: Seq<(Seq<char>, V)>, key: Seq<char>) -> bool {
    exists|i: int| 0 <= i < entries.len() && entries[i].0 == key
}

/// The position of the first entry with the given key.
pub open spec fn first_index<V>(entries: Seq<(Seq<char>, V)>, key: Seq<char>) -> int {
    choose|i: int|
        0 <= i < entries.len() && entries[i].0 == key && forall|j: int|
            0 <= j < i ==> entries[j].0 != key
}

/// The entries after setting `key` to `value`: the entry with that key gets
/// the new value in its place, or a new entry is appended.
pub open spec fn put<V>(entries: Seq<(Seq<char>, V)>, key: Seq<char>, value: V) -> Seq<
    (Seq<char>, V),
> {
    if has_key(entries, key) {
        entries.update(first_index(entries, key), (key, value))
    } else {
        entries.push((key, value))
    }
}

impl JsonMap {
    pub open spec fn wf(&self) -> bool {
        keys_unique(self@)
    }

    pub fn new() -> (r: JsonMap)
        ensures
            r@ == Seq::<(Seq<char>, JsonModel)>::empty(),
            r.wf(),
    {
        let r = JsonMap { entries: Vec::new() };
        assert(r@ =~= Seq::<(Seq<char>, JsonModel)>::empty());
        r
    }

    pub fn len(&self) -> (r: usize)
        ensures
            r == self@.len(),
    {
        self.entries.len()
    }

    /// Sets `key` to `value`, replacing the value of an entry with that key.
    pub fn insert(&mut self, key: String, value: Json)
        ensures
            final(self)@ == put(old(self)@, key@, value@),
            old(self).wf() ==> final(self).wf(),
    {
        let ghost pre = self@;
        let ghost k = key@;
        let ghost val = value@;
        let mut i: usize = 0;
        while i < self.entries.len()
            invariant
                i <= self.entries@.len(),
                self@ == pre,
                k == key@,
                forall|j: int| 0 <= j < i ==> pre[j].0 != k,
            ensures
                i <= self.entries@.len(),
                self@ == pre,
                forall|j: int| 0 <= j < i ==> pre[j].0 != k,
                i < self.entries@.len() ==> pre[i as int].0 == k,
            decreases self.entries@.len() - i,
        {
            assert(pre[i as int].0 == self.entries@[i as int].0@);
            let same = str_eq(&self.entries[i].0, &key);
            if same {
                break;
            }
            i += 1;
        }
        if i < self.entries.len() {
            self.entries.set(i, (key, value));
            proof {
                assert(pre[i as int].0 == k);
                assert(has_key(pre, k));
                let f = first_index(pre, k);
                assert(f == i as int) by {
                    if f < i {
                    } else if f > i {
                    }
                }
                assert(self@ =~= pre.update(i as int, (k, val)));
                assert(forall|j: int| 0 <= j < pre.len() ==> self@[j].0 == pre[j].0);
            }
        } else {
            self.entries.push((key, value));
            proof {
                assert(!has_key(pre, k));
                assert(self@ =~= pre.push((k, val)));
                assert(forall|j: int| 0 <= j < pre.len() ==> self@[j].0 == pre[j].0);
            }
        }
    }
}

/// A copy of a value that shares nothing with it.
pub fn copy_value(v: &Json) -> (r: Json)
    ensures
        r@ == v@,
    decreases v,
{
    match v {
        Json::Null => Json::Null,
        Json::Bool(b) => Json::Bool(*b),
        Json::Number(n) => Json::Number(*n),
        Json::String(s) => Json::String(s.clone()),
        Json::Array(items) => {
            let mut out: Vec<Json> = Vec::new();
            let mut i: usize = 0;
            while i < items.len()
                invariant
                    *v == Json::Array(*items),
                    i <= items@.len(),
                    out@.len() == i,
                    forall|k: int| 0 <= k < i ==> (#[trigger] out@[k])@ == items@[k]@,
                decreases items@.len() - i,
            {
                proof {
                    assert(decreases_to!(*v => (*v)->Array_0));
                    assert(decreases_to!(*items => items[i as int]));
                }
                let c = copy_value(&items[i]);
                out.push(c);
                i += 1;
            }
            let r = Json::Array(out);
            assert(r@->Array_0 =~= v@->Array_0);
            r
        }
        Json::Object(m) => {
            proof {
                assert(decreases_to!(*v => (*v)->Object_0));
                assert(decreases_to!(*m => m.entries));
            }
            let r = Json::Object(copy_map(m));
            proof {
                lemma_object_model(*m);
                lemma_object_model(r->Object_0);
            }
            r
        }
    }
}

fn copy_map(m: &JsonMap) -> (r: JsonMap)
    ensures
        r@ == m@,
    decreases m,
{
    let mut out: Vec<(String, Json)> = Vec::new();
    let mut i: usize = 0;
    while i < m.entries.len()
        invariant
            i <= m.entries@.len(),
            out@.len() == i,
            forall|k: int|
                0 <= k < i ==> (#[trigger] out@[k]).0@ == m.entries@[k].0@ && out@[k].1@
                    == m.entries@[k].1@,
        decreases m.entries@.len() - i,
    {
        proof {
            assert(decreases_to!(*m => m.entries));
            assert(decreases_to!(m.entries => m.entries[i as int]));
            assert(decreases_to!(m.entries[i as int] => m.entries[i as int].1));
        }
        let key = m.entries[i].0.clone();
        let c = copy_value(&m.entries[i].1);
        out.push((key, c));
        i += 1;
    }
    let r = JsonMap { entries: out };
    assert(r@ =~= m@);
    r
}

/// A copy of the given map, or an empty map where none is given.
pub fn deep_copy(source: Option<&JsonMap>) -> (r: JsonMap)
    ensures
        match source {
            Some(m) => r@ == m@,
            None => r@.len() == 0,
        },
{
    match source {
        Some(m) => copy_map(m),
        None => JsonMap::new(),
    }
}

impl Clone for Json {
    fn clone(&self) -> (r: Json)
        ensures
            r@ == self@,
    {
        copy_value(self)
    }
}

impl Clone for JsonMap {
    fn clone(&self) -> (r: JsonMap)
        ensures
            r@ == self@,
    {
        copy_map(self)
    }
}

fn str_eq(a: &String, b: &String) -> (r: bool)
    ensures
        r == (a@ == b@),
{
    a.eq(b)
}

} // verus!
