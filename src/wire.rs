//! The mapping between typed values and their JSON form on the wire.
use crate::json::{entries_model, lemma_array_model, lemma_object_model, lookup, Json, JsonModel};
use vstd::prelude::*;
use vstd::string::StringExecFns;

verus! {

/// A type with a JSON form.
///
/// `wire_ok(j)` holds when `j` decodes to a value of the type, `wire_is(j, x)`
/// when it decodes to `x`, and `wire_of(x)` is the JSON that `x` encodes to.
pub trait Wire: Sized {
    spec fn wire_ok(j: JsonModel) -> bool;

    spec fn wire_is(j: JsonModel, x: Self) -> bool;

    spec fn wire_of(x: Self) -> JsonModel;

    fn decode(j: &Json) -> (r: Result<Self, String>)
        ensures
            r is Ok <==> Self::wire_ok(j@),
            r matches Ok(x) ==> Self::wire_is(j@, x),
    ;

    fn encode(&self) -> (r: Json)
        ensures
            r@ == Self::wire_of(*self),
    ;

    /// Encoding then decoding gives the value back: the encoding of `x`
    /// decodes, to `x`, and whatever it decodes to encodes as `x` does.
    proof fn lemma_round_trip(x: Self)
        ensures
            Self::wire_ok(Self::wire_of(x)),
            Self::wire_is(Self::wire_of(x), x),
            forall|y: Self| #[trigger]
                Self::wire_is(Self::wire_of(x), y) ==> Self::wire_of(y) == Self::wire_of(x),
    ;
}

/// Looking a key up in two runs of entries: the first run wins.
pub proof fn lemma_lookup_concat(
    a: Seq<(Seq<char>, JsonModel)>,
    b: Seq<(Seq<char>, JsonModel)>,
    key: Seq<char>,
)
    ensures
        lookup(a + b, key) == match lookup(a, key) {
            Some(v) => Some(v),
            None => lookup(b, key),
        },
    decreases a.len(),
{
    reveal(lookup);
    if a.len() == 0 {
        assert(a + b =~= b);
    } else {
        assert((a + b).drop_first() =~= a.drop_first() + b);
        assert((a + b)[0] == a[0]);
        lemma_lookup_concat(a.drop_first(), b, key);
    }
}

/// Looking a key up in the entry of a required member.
pub proof fn lemma_lookup_entry<T: Wire>(k: Seq<char>, x: T, key: Seq<char>)
    ensures
        lookup(entry(k, x), key) == if k == key {
            Some(T::wire_of(x))
        } else {
            None
        },
{
    lemma_lookup_single(k, T::wire_of(x), key);
}

/// Looking a key up in the entry of an optional member.
pub proof fn lemma_lookup_opt_entry<T: Wire>(k: Seq<char>, x: Option<T>, key: Seq<char>)
    ensures
        lookup(opt_entry(k, x), key) == if k == key {
            Some(
                match x {
                    Some(y) => T::wire_of(y),
                    None => JsonModel::Null,
                },
            )
        } else {
            None
        },
{
    lemma_lookup_single(
        k,
        match x {
            Some(y) => T::wire_of(y),
            None => JsonModel::Null,
        },
        key,
    );
}

/// Looking a key up in the entries of a member left out when `None`.
pub proof fn lemma_lookup_skip_entry<T: Wire>(k: Seq<char>, x: Option<T>, key: Seq<char>)
    ensures
        lookup(skip_entry(k, x), key) == if k == key {
            match x {
                Some(y) => Some(T::wire_of(y)),
                None => None,
            }
        } else {
            None
        },
{
    match x {
        Some(y) => lemma_lookup_single(k, T::wire_of(y), key),
        None => lemma_lookup_empty(key),
    }
}

/// Looking a key up after appending a required member: earlier entries win.
pub proof fn lemma_lookup_then_entry<T: Wire>(
    acc: Seq<(Seq<char>, JsonModel)>,
    k: Seq<char>,
    x: T,
    key: Seq<char>,
)
    ensures
        lookup(acc + entry(k, x), key) == match lookup(acc, key) {
            Some(v) => Some(v),
            None => if k == key {
                Some(T::wire_of(x))
            } else {
                None
            },
        },
{
    lemma_lookup_entry(k, x, key);
    lemma_lookup_concat(acc, entry(k, x), key);
}

/// Looking a key up after appending an optional member: earlier entries win.
pub proof fn lemma_lookup_then_opt_entry<T: Wire>(
    acc: Seq<(Seq<char>, JsonModel)>,
    k: Seq<char>,
    x: Option<T>,
    key: Seq<char>,
)
    ensures
        lookup(acc + opt_entry(k, x), key) == match lookup(acc, key) {
            Some(v) => Some(v),
            None => lookup(opt_entry(k, x), key),
        },
        lookup(opt_entry(k, x), key) == if k == key {
            Some(
                match x {
                    Some(y) => T::wire_of(y),
                    None => JsonModel::Null,
                },
            )
        } else {
            None
        },
{
    lemma_lookup_opt_entry(k, x, key);
    lemma_lookup_concat(acc, opt_entry(k, x), key);
}

/// Looking a key up after appending a member left out when `None`: earlier entries win.
pub proof fn lemma_lookup_then_skip_entry<T: Wire>(
    acc: Seq<(Seq<char>, JsonModel)>,
    k: Seq<char>,
    x: Option<T>,
    key: Seq<char>,
)
    ensures
        lookup(acc + skip_entry(k, x), key) == match lookup(acc, key) {
            Some(v) => Some(v),
            None => lookup(skip_entry(k, x), key),
        },
        lookup(skip_entry(k, x), key) == if k == key {
            match x {
                Some(y) => Some(T::wire_of(y)),
                None => None,
            }
        } else {
            None
        },
{
    lemma_lookup_skip_entry(k, x, key);
    lemma_lookup_concat(acc, skip_entry(k, x), key);
}

/// The round trip of an optional member's value, when there is one.
pub proof fn lemma_opt_round_trip<T: Wire>(x: Option<T>)
    ensures
        x matches Some(y) ==> {
            &&& T::wire_ok(T::wire_of(y))
            &&& T::wire_is(T::wire_of(y), y)
            &&& forall|z: T| #[trigger] T::wire_is(T::wire_of(y), z) ==> T::wire_of(z) == T::wire_of(y)
        },
{
    if let Some(y) = x {
        T::lemma_round_trip(y);
    }
}

/// No key is found among no entries.
pub proof fn lemma_lookup_empty(key: Seq<char>)
    ensures
        lookup(Seq::<(Seq<char>, JsonModel)>::empty(), key) is None,
{
    reveal(lookup);
}

/// Looking a key up in a single entry.
pub proof fn lemma_lookup_single(k: Seq<char>, v: JsonModel, key: Seq<char>)
    ensures
        lookup(seq![(k, v)], key) == if k == key {
            Some(v)
        } else {
            None
        },
{
    reveal_with_fuel(lookup, 2);
    let s = seq![(k, v)];
    assert(s.drop_first() =~= Seq::<(Seq<char>, JsonModel)>::empty());
    assert(lookup(s.drop_first(), key) is None);
}

/// A member that is missing, or present as `null`.
pub open spec fn absent(v: Option<JsonModel>) -> bool {
    v is None || v == Some(JsonModel::Null)
}

/// A required member that decodes.
pub open spec fn req_ok<T: Wire>(v: Option<JsonModel>) -> bool {
    v matches Some(m) && T::wire_ok(m)
}

/// A required member that decodes to `x`.
pub open spec fn req_is<T: Wire>(v: Option<JsonModel>, x: T) -> bool {
    v matches Some(m) && T::wire_is(m, x)
}

/// An optional member: absent, or one that decodes.
pub open spec fn opt_ok<T: Wire>(v: Option<JsonModel>) -> bool {
    absent(v) || req_ok::<T>(v)
}

/// An optional member that decodes to `x`: absent exactly when `x` is `None`.
pub open spec fn opt_is<T: Wire>(v: Option<JsonModel>, x: Option<T>) -> bool {
    match x {
        None => absent(v),
        Some(y) => !absent(v) && req_is::<T>(v, y),
    }
}

/// The entry that a required member encodes to.
pub open spec fn entry<T: Wire>(key: Seq<char>, x: T) -> Seq<(Seq<char>, JsonModel)> {
    seq![(key, T::wire_of(x))]
}

/// The entry that an optional member encodes to: `null` when it is `None`.
pub open spec fn opt_entry<T: Wire>(key: Seq<char>, x: Option<T>) -> Seq<(Seq<char>, JsonModel)> {
    seq![
        (key, match x {
            Some(y) => T::wire_of(y),
            None => JsonModel::Null,
        }),
    ]
}

/// The entries that an optional member encodes to when it is left out if `None`.
pub open spec fn skip_entry<T: Wire>(key: Seq<char>, x: Option<T>) -> Seq<(Seq<char>, JsonModel)> {
    match x {
        Some(y) => seq![(key, T::wire_of(y))],
        None => seq![],
    }
}

impl Wire for i64 {
    open spec fn wire_ok(j: JsonModel) -> bool {
        j is Int
    }

    open spec fn wire_is(j: JsonModel, x: i64) -> bool {
        j == JsonModel::Int(x as int)
    }

    open spec fn wire_of(x: i64) -> JsonModel {
        JsonModel::Int(x as int)
    }

    fn decode(j: &Json) -> (r: Result<i64, String>) {
        match j {
            Json::Int(n) => Ok(*n),
            _ => Err(String::from_str("expected an integer")),
        }
    }

    fn encode(&self) -> (r: Json) {
        Json::Int(*self)
    }

    proof fn lemma_round_trip(x: Self) {
    }
}

impl Wire for i32 {
    open spec fn wire_ok(j: JsonModel) -> bool {
        j matches JsonModel::Int(n) && i32::MIN <= n <= i32::MAX
    }

    open spec fn wire_is(j: JsonModel, x: i32) -> bool {
        j == JsonModel::Int(x as int)
    }

    open spec fn wire_of(x: i32) -> JsonModel {
        JsonModel::Int(x as int)
    }

    fn decode(j: &Json) -> (r: Result<i32, String>) {
        match j {
            Json::Int(n) => {
                if i32::MIN as i64 <= *n && *n <= i32::MAX as i64 {
                    Ok(*n as i32)
                } else {
                    Err(String::from_str("integer out of range for i32"))
                }
            },
            _ => Err(String::from_str("expected an integer")),
        }
    }

    fn encode(&self) -> (r: Json) {
        Json::Int(*self as i64)
    }

    proof fn lemma_round_trip(x: Self) {
    }
}

impl Wire for bool {
    open spec fn wire_ok(j: JsonModel) -> bool {
        j is Bool
    }

    open spec fn wire_is(j: JsonModel, x: bool) -> bool {
        j == JsonModel::Bool(x)
    }

    open spec fn wire_of(x: bool) -> JsonModel {
        JsonModel::Bool(x)
    }

    fn decode(j: &Json) -> (r: Result<bool, String>) {
        match j {
            Json::Bool(b) => Ok(*b),
            _ => Err(String::from_str("expected a boolean")),
        }
    }

    fn encode(&self) -> (r: Json) {
        Json::Bool(*self)
    }

    proof fn lemma_round_trip(x: Self) {
    }
}

impl Wire for String {
    open spec fn wire_ok(j: JsonModel) -> bool {
        j is Str
    }

    open spec fn wire_is(j: JsonModel, x: String) -> bool {
        j == JsonModel::Str(x@)
    }

    open spec fn wire_of(x: String) -> JsonModel {
        JsonModel::Str(x@)
    }

    fn decode(j: &Json) -> (r: Result<String, String>) {
        match j {
            Json::Str(s) => Ok(s.clone()),
            _ => Err(String::from_str("expected a string")),
        }
    }

    fn encode(&self) -> (r: Json) {
        Json::Str(self.clone())
    }

    proof fn lemma_round_trip(x: Self) {
    }
}

/// Any JSON value decodes to itself.
impl Wire for Json {
    open spec fn wire_ok(j: JsonModel) -> bool {
        true
    }

    open spec fn wire_is(j: JsonModel, x: Json) -> bool {
        x@ == j
    }

    open spec fn wire_of(x: Json) -> JsonModel {
        x@
    }

    fn decode(j: &Json) -> (r: Result<Json, String>) {
        Ok(j.copy())
    }

    fn encode(&self) -> (r: Json) {
        self.copy()
    }

    proof fn lemma_round_trip(x: Self) {
    }
}

/// Every item decodes.
pub open spec fn all_ok<T: Wire>(items: Seq<JsonModel>) -> bool {
    forall|i: int| 0 <= i < items.len() ==> T::wire_ok(#[trigger] items[i])
}

/// The items decode, one by one and in order, to `xs`.
pub open spec fn all_is<T: Wire>(items: Seq<JsonModel>, xs: Seq<T>) -> bool {
    &&& items.len() == xs.len()
    &&& forall|i: int| 0 <= i < items.len() ==> T::wire_is(#[trigger] items[i], xs[i])
}

impl<T: Wire> Wire for Vec<T> {
    open spec fn wire_ok(j: JsonModel) -> bool {
        match j {
            JsonModel::Array(items) => all_ok::<T>(items),
            _ => false,
        }
    }

    open spec fn wire_is(j: JsonModel, x: Vec<T>) -> bool {
        match j {
            JsonModel::Array(items) => all_is::<T>(items, x@),
            _ => false,
        }
    }

    open spec fn wire_of(x: Vec<T>) -> JsonModel {
        JsonModel::Array(Seq::new(x@.len(), |i: int| T::wire_of(x@[i])))
    }

    fn decode(j: &Json) -> (r: Result<Vec<T>, String>) {
        match j {
            Json::Array(items) => {
                proof {
                    lemma_array_model(*items);
                }
                let mut out: Vec<T> = Vec::new();
                let mut i: usize = 0;
                while i < items.len()
                    invariant
                        i <= items.len(),
                        j@ == JsonModel::Array(Seq::new(items@.len(), |k: int| items@[k]@)),
                        out@.len() == i,
                        forall|k: int| 0 <= k < i ==> T::wire_ok(#[trigger] items@[k]@),
                        forall|k: int| 0 <= k < i ==> T::wire_is(#[trigger] items@[k]@, out@[k]),
                    decreases items.len() - i,
                {
                    match T::decode(&items[i]) {
                        Ok(x) => out.push(x),
                        Err(e) => {
                            let ghost ms = Seq::new(items@.len(), |k: int| items@[k]@);
                            assert(ms[i as int] == items@[i as int]@);
                            return Err(e);
                        },
                    }
                    i = i + 1;
                }
                proof {
                    let ms = Seq::new(items@.len(), |k: int| items@[k]@);
                    assert forall|k: int| 0 <= k < ms.len() implies T::wire_is(#[trigger] ms[k], out@[k]) by {
                        assert(ms[k] == items@[k]@);
                    }
                    assert forall|k: int| 0 <= k < ms.len() implies T::wire_ok(#[trigger] ms[k]) by {
                        assert(ms[k] == items@[k]@);
                    }
                }
                Ok(out)
            },
            _ => Err(String::from_str("expected an array")),
        }
    }

    fn encode(&self) -> (r: Json) {
        let mut out: Vec<Json> = Vec::new();
        let mut i: usize = 0;
        while i < self.len()
            invariant
                i <= self@.len(),
                out@.len() == i,
                forall|k: int| 0 <= k < i ==> (#[trigger] out@[k])@ == T::wire_of(self@[k]),
            decreases self@.len() - i,
        {
            out.push(self[i].encode());
            i = i + 1;
        }
        proof {
            lemma_array_model(out);
            assert(Seq::new(out@.len(), |k: int| out@[k]@) =~= Seq::new(
                self@.len(),
                |k: int| T::wire_of(self@[k]),
            ));
        }
        Json::Array(out)
    }

    proof fn lemma_round_trip(x: Self) {
        let items = Seq::new(x@.len(), |i: int| T::wire_of(x@[i]));
        assert forall|i: int| 0 <= i < items.len() implies T::wire_ok(#[trigger] items[i])
            && T::wire_is(items[i], x@[i]) by {
            T::lemma_round_trip(x@[i]);
        }
        assert forall|y: Self| #[trigger] Self::wire_is(Self::wire_of(x), y) implies Self::wire_of(y)
            == Self::wire_of(x) by {
            assert forall|i: int| 0 <= i < items.len() implies T::wire_of(y@[i]) == #[trigger] items[i] by {
                T::lemma_round_trip(x@[i]);
            }
            assert(Seq::new(y@.len(), |i: int| T::wire_of(y@[i])) =~= items);
        }
    }
}

/// Whether `s` reads exactly `expected`.
pub fn text_is(s: &str, expected: &str) -> (r: bool)
    ensures
        r == (s@ == expected@),
{
    String::from_str(s) == String::from_str(expected)
}

fn field_error(key: &str) -> (r: String) {
    let mut text = String::from_str("missing or invalid field `");
    text.append(key);
    text.append("`");
    text
}

/// Decodes the required member `key` of an object.
pub fn decode_field<T: Wire>(j: &Json, key: &str) -> (r: Result<T, String>)
    ensures
        r is Ok <==> req_ok::<T>(j@.field(key@)),
        r matches Ok(x) ==> req_is::<T>(j@.field(key@), x),
{
    match j.field(key) {
        Some(v) => match T::decode(v) {
            Ok(x) => Ok(x),
            Err(_) => Err(field_error(key)),
        },
        None => Err(field_error(key)),
    }
}

/// Decodes the optional member `key` of an object: missing or `null` gives `None`.
pub fn decode_opt_field<T: Wire>(j: &Json, key: &str) -> (r: Result<Option<T>, String>)
    ensures
        r is Ok <==> opt_ok::<T>(j@.field(key@)),
        r matches Ok(x) ==> opt_is::<T>(j@.field(key@), x),
{
    match j.field(key) {
        None => Ok(None),
        Some(Json::Null) => Ok(None),
        Some(v) => match T::decode(v) {
            Ok(x) => Ok(Some(x)),
            Err(_) => Err(field_error(key)),
        },
    }
}

/// Fails unless `j` is an object.
pub fn expect_object(j: &Json) -> (r: Result<(), String>)
    ensures
        r is Ok <==> j@ is Object,
{
    match j {
        Json::Object(_) => Ok(()),
        _ => Err(String::from_str("expected an object")),
    }
}

/// Appends a required member.
pub fn push_field<T: Wire>(fields: &mut Vec<(String, Json)>, key: &str, x: &T)
    ensures
        entries_model(final(fields)@) == entries_model(old(fields)@) + entry(key@, *x),
{
    let value = x.encode();
    fields.push((String::from_str(key), value));
    assert(entries_model(fields@) =~= entries_model(old(fields)@) + entry(key@, *x));
}

/// Appends an optional member, as `null` when it is `None`.
pub fn push_opt<T: Wire>(fields: &mut Vec<(String, Json)>, key: &str, x: &Option<T>)
    ensures
        entries_model(final(fields)@) == entries_model(old(fields)@) + opt_entry(key@, *x),
{
    let value = match x {
        Some(y) => y.encode(),
        None => Json::Null,
    };
    fields.push((String::from_str(key), value));
    assert(entries_model(fields@) =~= entries_model(old(fields)@) + opt_entry(key@, *x));
}

/// Appends an optional member, leaving it out when it is `None`.
pub fn push_skip<T: Wire>(fields: &mut Vec<(String, Json)>, key: &str, x: &Option<T>)
    ensures
        entries_model(final(fields)@) == entries_model(old(fields)@) + skip_entry(key@, *x),
{
    match x {
        Some(y) => {
            let value = y.encode();
            fields.push((String::from_str(key), value));
        },
        None => {},
    }
    assert(entries_model(fields@) =~= entries_model(old(fields)@) + skip_entry(key@, *x));
}

/// Wraps the entries built so far as an object.
pub fn object(fields: Vec<(String, Json)>) -> (r: Json)
    ensures
        r@ == JsonModel::Object(entries_model(fields@)),
{
    proof {
        lemma_object_model(fields);
    }
    Json::Object(fields)
}

/// No entries yet.
pub fn no_fields() -> (r: Vec<(String, Json)>)
    ensures
        entries_model(r@) == Seq::<(Seq<char>, JsonModel)>::empty(),
{
    let r: Vec<(String, Json)> = Vec::new();
    assert(entries_model(r@) =~= Seq::<(Seq<char>, JsonModel)>::empty());
    r
}

} // verus!
