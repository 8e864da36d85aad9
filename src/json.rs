use vstd::prelude::*;
use vstd::string::StringExecFns;

verus! {

/// A JSON value as the service sends and receives it.
///
/// Integers that fit an `i64` are held as numbers; any other number keeps its
/// text, so that a field expecting an integer can refuse it.
#[derive(Debug)]
pub enum Json {
    Null,
    Bool(bool),
    Int(i64),
    Num(String),
    Str(String),
    Array(Vec<Json>),
    Object(Vec<(String, Json)>),
}

/// The mathematical value of a [`Json`].
pub enum JsonModel {
    Null,
    Bool(bool),
    Int(int),
    Num(Seq<char>),
    Str(Seq<char>),
    Array(Seq<JsonModel>),
    Object(Seq<(Seq<char>, JsonModel)>),
}

pub open spec fn json_model(j: Json) -> JsonModel
    decreases j,
{
    match j {
        Json::Null => JsonModel::Null,
        Json::Bool(b) => JsonModel::Bool(b),
        Json::Int(n) => JsonModel::Int(n as int),
        Json::Num(t) => JsonModel::Num(t@),
        Json::Str(s) => JsonModel::Str(s@),
        Json::Array(items) => JsonModel::Array(
            Seq::new(
                items.len() as nat,
                |i: int|
                    if 0 <= i < items.len() {
                        json_model(items[i])
                    } else {
                        JsonModel::Null
                    },
            ),
        ),
        Json::Object(fields) => JsonModel::Object(
            Seq::new(
                fields.len() as nat,
                |i: int|
                    if 0 <= i < fields.len() {
                        (fields[i].0@, json_model(fields[i].1))
                    } else {
                        (Seq::empty(), JsonModel::Null)
                    },
            ),
        ),
    }
}

impl View for Json {
    type V = JsonModel;

    open spec fn view(&self) -> JsonModel {
        json_model(*self)
    }
}


/// The value of the first entry named `key`.
#[verifier::opaque]
pub open spec fn lookup(fields: Seq<(Seq<char>, JsonModel)>, key: Seq<char>) -> Option<JsonModel>
    decreases fields.len(),
{
    if fields.len() == 0 {
        None
    } else if fields[0].0 == key {
        Some(fields[0].1)
    } else {
        lookup(fields.drop_first(), key)
    }
}

impl JsonModel {
    /// The member named `key` of an object; nothing for any other value.
    pub open spec fn field(self, key: Seq<char>) -> Option<JsonModel> {
        match self {
            JsonModel::Object(fields) => lookup(fields, key),
            _ => None,
        }
    }
}

/// The model of an object's entries.
pub open spec fn entries_model(fields: Seq<(String, Json)>) -> Seq<(Seq<char>, JsonModel)> {
    Seq::new(fields.len(), |i: int| (fields[i].0@, fields[i].1@))
}

pub proof fn lemma_object_model(fields: Vec<(String, Json)>)
    ensures
        Json::Object(fields)@ == JsonModel::Object(entries_model(fields@)),
{
    assert(entries_model(fields@) =~= match Json::Object(fields)@ {
        JsonModel::Object(m) => m,
        _ => Seq::empty(),
    });
}

pub proof fn lemma_array_model(items: Vec<Json>)
    ensures
        Json::Array(items)@ == JsonModel::Array(Seq::new(items@.len(), |i: int| items@[i]@)),
{
    assert(Seq::new(items@.len(), |i: int| items@[i]@) =~= match Json::Array(items)@ {
        JsonModel::Array(m) => m,
        _ => Seq::empty(),
    });
}

impl Json {
    /// The member named `key`, if this is an object that has one.
    pub fn field(&self, key: &str) -> (r: Option<&Json>)
        ensures
            match r {
                Some(v) => self@.field(key@) == Some(v@),
                None => self@.field(key@) is None,
            },
    {
        match self {
            Json::Object(fields) => {
                proof {
                    lemma_object_model(*fields);
                }
                let ghost all = entries_model(fields@);
                let wanted = String::from_str(key);
                let mut found: Option<&Json> = None;
                let mut i: usize = fields.len();
                proof {
                    reveal(lookup);
                }
                while i > 0
                    invariant
                        i <= fields.len(),
                        wanted@ == key@,
                        all == entries_model(fields@),
                        match found {
                            Some(v) => lookup(all.subrange(i as int, all.len() as int), key@)
                                == Some(v@),
                            None => lookup(all.subrange(i as int, all.len() as int), key@) is None,
                        },
                    decreases i,
                {
                    i = i - 1;
                    let ghost rest = all.subrange(i as int, all.len() as int);
                    assert(rest.drop_first() =~= all.subrange(i + 1, all.len() as int));
                    assert(rest[0] == all[i as int]);
                    reveal(lookup);
                    if fields[i].0 == wanted {
                        found = Some(&fields[i].1);
                    }
                }
                assert(all.subrange(0, all.len() as int) =~= all);
                reveal(lookup);
                found
            },
            _ => None,
        }
    }

    /// A copy of this value.
    #[verifier::loop_isolation(false)]
    pub fn copy(&self) -> (r: Json)
        ensures
            r@ == self@,
        decreases self,
    {
        match self {
            Json::Null => Json::Null,
            Json::Bool(b) => Json::Bool(*b),
            Json::Int(n) => Json::Int(*n),
            Json::Num(t) => Json::Num(t.clone()),
            Json::Str(s) => Json::Str(s.clone()),
            Json::Array(items) => {
                let mut out: Vec<Json> = Vec::new();
                let mut i: usize = 0;
                while i < items.len()
                    invariant
                        i <= items.len(),
                        out@.len() == i,
                        forall|k: int| 0 <= k < i ==> #[trigger] out@[k]@ == items@[k]@,
                    decreases items.len() - i,
                {
                    assert(decreases_to!(*self => (*self)->Array_0));
                    assert(decreases_to!(*items => items[i as int]));
                    let item = items[i].copy();
                    out.push(item);
                    i = i + 1;
                }
                proof {
                    lemma_array_model(*items);
                    lemma_array_model(out);
                    assert(Seq::new(out@.len(), |k: int| out@[k]@) =~= Seq::new(
                        items@.len(),
                        |k: int| items@[k]@,
                    ));
                }
                Json::Array(out)
            },
            Json::Object(fields) => {
                let mut out: Vec<(String, Json)> = Vec::new();
                let mut i: usize = 0;
                while i < fields.len()
                    invariant
                        i <= fields.len(),
                        out@.len() == i,
                        forall|k: int|
                            0 <= k < i ==> (#[trigger] out@[k]).0@ == fields@[k].0@ && out@[k].1@
                                == fields@[k].1@,
                    decreases fields.len() - i,
                {
                    assert(decreases_to!(*self => (*self)->Object_0));
                    assert(decreases_to!(*fields => fields[i as int]));
                    assert(decreases_to!(fields[i as int] => fields[i as int].1));
                    let value = fields[i].1.copy();
                    out.push((fields[i].0.clone(), value));
                    i = i + 1;
                }
                proof {
                    lemma_object_model(*fields);
                    lemma_object_model(out);
                    assert(entries_model(out@) =~= entries_model(fields@));
                }
                Json::Object(out)
            },
        }
    }
}

} // verus!
