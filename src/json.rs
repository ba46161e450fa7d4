use vstd::prelude::*;

verus! {


/// A parsed JSON document, held as plain values.
///
/// Numbers keep their decimal text; objects keep their members in order.
#[derive(Debug, PartialEq)]
pub enum Json {
    Null,
    Bool(bool),
    Number(String),
    Str(String),
    Array(Vec<Json>),
    Object(Vec<(String, Json)>),
}

/// The mathematical value of a [`Json`] document.
pub ghost enum JsonModel {
    Null,
    Bool(bool),
    Number(Seq<char>),
    Str(Seq<char>),
    Array(Seq<JsonModel>),
    Object(Seq<(Seq<char>, JsonModel)>),
}

impl Json {
    /// The mathematical value of this document.
    pub open spec fn model(&self) -> JsonModel
        decreases self,
    {
        match self {
            Json::Null => JsonModel::Null,
            Json::Bool(b) => JsonModel::Bool(*b),
            Json::Number(t) => JsonModel::Number(t@),
            Json::Str(s) => JsonModel::Str(s@),
            Json::Array(a) => JsonModel::Array(Seq::new(
                a.len() as nat,
                |i: int| if 0 <= i < a.len() { a[i].model() } else { JsonModel::Null },
            )),
            Json::Object(es) => JsonModel::Object(Seq::new(
                es.len() as nat,
                |i: int| if 0 <= i < es.len() {
                    (es[i].0@, es[i].1.model())
                } else {
                    (Seq::empty(), JsonModel::Null)
                },
            )),
        }
    }

    /// An independent copy of this document.
    pub fn deep_clone(&self) -> (r: Json)
        ensures r.model() == self.model(),
        decreases self,
    {
        match self {
            Json::Null => Json::Null,
            Json::Bool(b) => Json::Bool(*b),
            Json::Number(t) => Json::Number(t.clone()),
            Json::Str(s) => Json::Str(s.clone()),
            Json::Array(a) => {
                let mut out: Vec<Json> = Vec::new();
                let mut i: usize = 0;
                while i < a.len()
                    invariant
                        *self == Json::Array(*a),
                        i <= a.len(),
                        out.len() == i,
                        forall|k: int| 0 <= k < i ==> (#[trigger] out[k]).model() == a[k].model(),
                    decreases a.len() - i,
                {
                    proof {
                        vstd::std_specs::vec::axiom_vec_index_decreases(*a, i as int);
                        assert(decreases_to!(*self => self->Array_0));
                        assert(decreases_to!(*self => a[i as int]));
                    }
                    let c = a[i].deep_clone();
                    out.push(c);
                    i = i + 1;
                }
                let r = Json::Array(out);
                assert(r.model()->Array_0 =~= self.model()->Array_0);
                r
            }
            Json::Object(es) => {
                let mut out: Vec<(String, Json)> = Vec::new();
                let mut i: usize = 0;
                while i < es.len()
                    invariant
                        *self == Json::Object(*es),
                        i <= es.len(),
                        out.len() == i,
                        forall|k: int| 0 <= k < i ==> #[trigger] out[k].0@ == es[k].0@ && out[k].1.model() == es[k].1.model(),
                    decreases es.len() - i,
                {
                    proof {
                        vstd::std_specs::vec::axiom_vec_index_decreases(*es, i as int);
                        assert(decreases_to!(*self => self->Object_0));
                        assert(decreases_to!(es[i as int] => es[i as int].1));
                        assert(decreases_to!(*self => es[i as int].1));
                    }
                    let k = es[i].0.clone();
                    let v = es[i].1.deep_clone();
                    out.push((k, v));
                    i = i + 1;
                }
                let r = Json::Object(out);
                assert(r.model()->Object_0 =~= self.model()->Object_0);
                r
            }
        }
    }
}

/// The value of the first member of `entries` named `key`.
pub open spec fn first_member(entries: Seq<(Seq<char>, JsonModel)>, key: Seq<char>) -> Option<JsonModel>
    decreases entries.len(),
{
    if entries.len() == 0 {
        None
    } else if entries[0].0 == key {
        Some(entries[0].1)
    } else {
        first_member(entries.drop_first(), key)
    }
}

/// The member `key` of `j`, when `j` is an object that has one.
pub open spec fn member(j: JsonModel, key: Seq<char>) -> Option<JsonModel> {
    match j {
        JsonModel::Object(es) => first_member(es, key),
        _ => None,
    }
}

/// The element at `i` of `j`, when `j` is an array that long.
pub open spec fn element(j: JsonModel, i: int) -> Option<JsonModel> {
    match j {
        JsonModel::Array(items) => if 0 <= i < items.len() { Some(items[i]) } else { None },
        _ => None,
    }
}

/// The model of an optional document reference.
pub open spec fn opt_model(o: Option<&Json>) -> Option<JsonModel> {
    match o {
        Some(j) => Some(j.model()),
        None => None,
    }
}

proof fn lemma_first_member_skip(entries: Seq<(Seq<char>, JsonModel)>, key: Seq<char>, i: int)
    requires
        0 <= i < entries.len(),
        entries[i].0 != key,
    ensures
        first_member(entries.subrange(i, entries.len() as int), key)
            == first_member(entries.subrange(i + 1, entries.len() as int), key),
{
    assert(entries.subrange(i, entries.len() as int).drop_first()
        =~= entries.subrange(i + 1, entries.len() as int));
}

impl Json {
    /// The member named `key`, when this is an object that has one.
    pub fn get_member(&self, key: &String) -> (r: Option<&Json>)
        ensures
            opt_model(r) == member(self.model(), key@),
    {
        match self {
            Json::Object(es) => {
                let ghost ms = self.model()->Object_0;
                let mut i: usize = 0;
                assert(ms.subrange(0, ms.len() as int) =~= ms);
                while i < es.len()
                    invariant
                        *self == Json::Object(*es),
                        ms == self.model()->Object_0,
                        i <= es.len(),
                        first_member(ms, key@) == first_member(ms.subrange(i as int, ms.len() as int), key@),
                    decreases es.len() - i,
                {
                    if es[i].0 == *key {
                        assert(ms.subrange(i as int, ms.len() as int)[0] == ms[i as int]);
                        return Some(&es[i].1);
                    }
                    proof { lemma_first_member_skip(ms, key@, i as int); }
                    i = i + 1;
                }
                assert(ms.subrange(i as int, ms.len() as int).len() == 0);
                None
            },
            _ => None,
        }
    }

    /// The element at `i`, when this is an array that long.
    pub fn get_element(&self, i: usize) -> (r: Option<&Json>)
        ensures
            opt_model(r) == element(self.model(), i as int),
    {
        match self {
            Json::Array(items) => {
                if i < items.len() {
                    Some(&items[i])
                } else {
                    None
                }
            },
            _ => None,
        }
    }
}

} // verus!
