//! JSON values as the library holds them, and their mathematical view.
//!
//! An object is a list of entries; the library never makes two entries with one key,
//! and a lookup finds the first entry with the key, as a map would.
use vstd::prelude::*;

pub mod data;

use crate::text::str_equal;

pub use data::{
    entries_view, json_view, number_view, values_view, JsonData, JsonEntry, JsonNumber, JsonValue,
    NumberData,
};

verus! {

broadcast use data::group_json_view;

/// The value of the first entry of `entries` with key `key`.
pub open spec fn object_lookup(entries: Seq<(Seq<char>, JsonData)>, key: Seq<char>) -> Option<
    JsonData,
>
    decreases entries.len(),
{
    if entries.len() == 0 {
        None
    } else if entries[0].0 == key {
        Some(entries[0].1)
    } else {
        object_lookup(entries.drop_first(), key)
    }
}

/// `entries` after `key` is set to `value`: the first entry with that key gets the
/// value, or a new entry goes at the end.
pub open spec fn object_set(entries: Seq<(Seq<char>, JsonData)>, key: Seq<char>, value: JsonData) -> Seq<
    (Seq<char>, JsonData),
>
    decreases entries.len(),
{
    if entries.len() == 0 {
        seq![(key, value)]
    } else if entries[0].0 == key {
        entries.update(0, (key, value))
    } else {
        seq![entries[0]] + object_set(entries.drop_first(), key, value)
    }
}

/// A lookup after a set finds the value that was set.
pub proof fn lemma_lookup_after_set(
    entries: Seq<(Seq<char>, JsonData)>,
    key: Seq<char>,
    value: JsonData,
    other: Seq<char>,
)
    ensures
        object_lookup(object_set(entries, key, value), other) == if other == key {
            Some(value)
        } else {
            object_lookup(entries, other)
        },
    decreases entries.len(),
{
    let set = object_set(entries, key, value);
    if entries.len() == 0 {
        assert(set == seq![(key, value)]);
        assert(set.drop_first() =~= Seq::<(Seq<char>, JsonData)>::empty());
        assert(object_lookup(set.drop_first(), other) is None);
    } else if entries[0].0 != key {
        let rest = object_set(entries.drop_first(), key, value);
        lemma_lookup_after_set(entries.drop_first(), key, value, other);
        assert(set == seq![entries[0]] + rest);
        assert(set.drop_first() =~= rest);
        assert(set[0] == entries[0]);
    } else {
        assert(set == entries.update(0, (key, value)));
        assert(set.drop_first() =~= entries.drop_first());
        assert(set[0] == (key, value));
    }
}

impl JsonValue {
    /// The entries of an object, or `None` for any other value.
    pub fn as_object(&self) -> (r: Option<&Vec<JsonEntry>>)
        ensures
            match r {
                Some(o) => self@ == JsonData::Object(entries_view(o@)),
                None => !(self@ is Object),
            },
    {
        match self {
            JsonValue::Object(o) => Some(o),
            _ => None,
        }
    }

    /// The items of an array, or `None` for any other value.
    pub fn as_array(&self) -> (r: Option<&Vec<JsonValue>>)
        ensures
            match r {
                Some(a) => self@ == JsonData::Array(values_view(a@)),
                None => !(self@ is Array),
            },
    {
        match self {
            JsonValue::Array(a) => Some(a),
            _ => None,
        }
    }

    /// The text of a string, or `None` for any other value.
    pub fn as_str(&self) -> (r: Option<&String>)
        ensures
            match r {
                Some(s) => self@ == JsonData::Str(s@),
                None => !(self@ is Str),
            },
    {
        match self {
            JsonValue::Str(s) => Some(s),
            _ => None,
        }
    }

    /// Whether the value is `null`.
    pub fn is_null(&self) -> (r: bool)
        ensures
            r == (self@ is Null),
    {
        match self {
            JsonValue::Null => true,
            _ => false,
        }
    }

    /// A copy of the value.
    #[verifier::loop_isolation(false)]
    pub fn deep_clone(&self) -> (r: JsonValue)
        ensures
            r@ == self@,
        decreases self,
    {
        match self {
            JsonValue::Null => JsonValue::Null,
            JsonValue::Bool(b) => JsonValue::Bool(*b),
            JsonValue::Number(n) => JsonValue::Number(
                match n {
                    JsonNumber::PosInt(u) => JsonNumber::PosInt(*u),
                    JsonNumber::NegInt(i) => JsonNumber::NegInt(*i),
                    JsonNumber::Float(s) => JsonNumber::Float(s.clone()),
                },
            ),
            JsonValue::Str(s) => JsonValue::Str(s.clone()),
            JsonValue::Array(items) => {
                let mut out: Vec<JsonValue> = Vec::new();
                let mut i: usize = 0;
                while i < items.len()
                    invariant
                        i <= items.len(),
                        values_view(out@) == values_view(items@).take(i as int),
                    decreases items.len() - i,
                {
                    proof {
                        assert(decreases_to!(*self => (*self)->Array_0@[i as int]));
                    }
                    let c = items[i].deep_clone();
                    out.push(c);
                    i = i + 1;
                    assert(values_view(out@) =~= values_view(items@).take(i as int));
                }
                assert(values_view(items@).take(items.len() as int) =~= values_view(items@));
                JsonValue::Array(out)
            },
            JsonValue::Object(entries) => {
                let mut out: Vec<JsonEntry> = Vec::new();
                let mut i: usize = 0;
                while i < entries.len()
                    invariant
                        i <= entries.len(),
                        entries_view(out@) == entries_view(entries@).take(i as int),
                    decreases entries.len() - i,
                {
                    proof {
                        assert(decreases_to!(*self => (*self)->Object_0@[i as int].value));
                    }
                    let v = entries[i].value.deep_clone();
                    out.push(JsonEntry { key: entries[i].key.clone(), value: v });
                    i = i + 1;
                    assert(entries_view(out@) =~= entries_view(entries@).take(i as int));
                }
                assert(entries_view(entries@).take(entries.len() as int) =~= entries_view(
                    entries@,
                ));
                JsonValue::Object(out)
            },
        }
    }
}

/// The value of the first entry of `entries` with key `key`.
pub fn object_get<'a>(entries: &'a Vec<JsonEntry>, key: &str) -> (r: Option<&'a JsonValue>)
    ensures
        match r {
            Some(v) => object_lookup(entries_view(entries@), key@) == Some(v@),
            None => object_lookup(entries_view(entries@), key@) is None,
        },
{
    let ghost ev = entries_view(entries@);
    let mut i: usize = 0;
    assert(ev.skip(0) =~= ev);
    while i < entries.len()
        invariant
            i <= entries.len(),
            ev == entries_view(entries@),
            object_lookup(ev, key@) == object_lookup(ev.skip(i as int), key@),
        decreases entries.len() - i,
    {
        assert(ev.skip(i as int)[0] == ev[i as int]);
        if str_equal(entries[i].key.as_str(), key) {
            return Some(&entries[i].value);
        }
        assert(ev.skip(i as int).drop_first() =~= ev.skip(i + 1));
        i = i + 1;
    }
    None
}

/// Sets the value of `key` in `entries`, as an insert into a map does.
pub fn object_insert(entries: &mut Vec<JsonEntry>, key: String, value: JsonValue)
    ensures
        entries_view(final(entries)@) == object_set(entries_view(old(entries)@), key@, value@),
{
    let ghost ev = entries_view(entries@);
    let i = find_key(entries, &key);
    proof {
        lemma_set_at_first(ev, key@, value@, i as int);
    }
    if i < entries.len() {
        entries.set(i, JsonEntry { key, value });
        assert(entries_view(entries@) =~= ev.update(i as int, (key@, value@)));
    } else {
        entries.push(JsonEntry { key, value });
        assert(entries_view(entries@) =~= ev.push((key@, value@)));
    }
}

/// The position of the first entry with key `key`, or the number of entries.
fn find_key(entries: &Vec<JsonEntry>, key: &String) -> (i: usize)
    ensures
        i <= entries.len(),
        forall|k: int| 0 <= k < i ==> entries@[k].key@ != key@,
        i < entries.len() ==> entries@[i as int].key@ == key@,
{
    let mut i: usize = 0;
    while i < entries.len()
        invariant
            i <= entries.len(),
            forall|k: int| 0 <= k < i ==> entries@[k].key@ != key@,
        decreases entries.len() - i,
    {
        if entries[i].key == *key {
            return i;
        }
        i = i + 1;
    }
    i
}

proof fn lemma_set_at_first(
    ev: Seq<(Seq<char>, JsonData)>,
    key: Seq<char>,
    value: JsonData,
    i: int,
)
    requires
        0 <= i <= ev.len(),
        forall|k: int| 0 <= k < i ==> ev[k].0 != key,
        i < ev.len() ==> ev[i].0 == key,
    ensures
        i < ev.len() ==> object_set(ev, key, value) == ev.update(i, (key, value)),
        i == ev.len() ==> object_set(ev, key, value) == ev.push((key, value)),
    decreases i,
{
    if i > 0 {
        lemma_set_at_first(ev.drop_first(), key, value, i - 1);
        if i < ev.len() {
            assert(seq![ev[0]] + ev.drop_first().update(i - 1, (key, value)) =~= ev.update(
                i,
                (key, value),
            ));
        } else {
            assert(seq![ev[0]] + ev.drop_first().push((key, value)) =~= ev.push((key, value)));
        }
    } else if ev.len() == 0 {
        assert(seq![(key, value)] =~= ev.push((key, value)));
    }
}

/// A copy of the entries of an object.
pub fn clone_entries(entries: &Vec<JsonEntry>) -> (r: Vec<JsonEntry>)
    ensures
        entries_view(r@) == entries_view(entries@),
{
    let mut out: Vec<JsonEntry> = Vec::new();
    let mut i: usize = 0;
    while i < entries.len()
        invariant
            i <= entries.len(),
            entries_view(out@) == entries_view(entries@).take(i as int),
        decreases entries.len() - i,
    {
        let v = entries[i].value.deep_clone();
        let k = entries[i].key.clone();
        let ghost before = entries_view(out@);
        out.push(JsonEntry { key: k, value: v });
        assert(entries_view(out@) =~= before.push((entries@[i as int].key@, entries@[i as int].value@)));
        i = i + 1;
        assert(entries_view(out@) =~= entries_view(entries@).take(i as int));
    }
    assert(entries_view(entries@).take(entries.len() as int) =~= entries_view(entries@));
    out
}

/// A JSON string holding the text of `s`.
pub fn json_str(s: &str) -> (r: JsonValue)
    ensures
        r@ == JsonData::Str(s@),
{
    JsonValue::Str(s.to_owned())
}

/// An entry with the given key and value.
pub fn json_entry(key: &str, value: JsonValue) -> (e: JsonEntry)
    ensures
        e.key@ == key@,
        e.value@ == value@,
{
    JsonEntry { key: key.to_owned(), value }
}

/// The array `[a, b]`.
pub fn json_array2(a: JsonValue, b: JsonValue) -> (r: JsonValue)
    ensures
        r@ == JsonData::Array(seq![a@, b@]),
{
    let mut v: Vec<JsonValue> = Vec::new();
    v.push(a);
    v.push(b);
    assert(values_view(v@) =~= seq![a@, b@]);
    JsonValue::Array(v)
}

/// The array `[a, b, c]`.
pub fn json_array3(a: JsonValue, b: JsonValue, c: JsonValue) -> (r: JsonValue)
    ensures
        r@ == JsonData::Array(seq![a@, b@, c@]),
{
    let mut v: Vec<JsonValue> = Vec::new();
    v.push(a);
    v.push(b);
    v.push(c);
    assert(values_view(v@) =~= seq![a@, b@, c@]);
    JsonValue::Array(v)
}

/// The array holding the single value `a`.
pub fn json_array1(a: JsonValue) -> (r: JsonValue)
    ensures
        r@ == JsonData::Array(seq![a@]),
{
    let mut v: Vec<JsonValue> = Vec::new();
    v.push(a);
    assert(values_view(v@) =~= seq![a@]);
    JsonValue::Array(v)
}

/// The object with the given entries, in order.
pub fn json_object(entries: Vec<JsonEntry>) -> (r: JsonValue)
    ensures
        r@ == JsonData::Object(entries_view(entries@)),
{
    JsonValue::Object(entries)
}

/// Whether two values are equal, member by member and item by item.
#[verifier::loop_isolation(false)]
pub fn json_equal(a: &JsonValue, b: &JsonValue) -> (r: bool)
    ensures
        r == (a@ == b@),
    decreases a,
{
    match a {
        JsonValue::Null => b.is_null(),
        JsonValue::Bool(x) => match b {
            JsonValue::Bool(y) => *x == *y,
            _ => false,
        },
        JsonValue::Number(x) => match b {
            JsonValue::Number(y) => match (x, y) {
                (JsonNumber::PosInt(p), JsonNumber::PosInt(q)) => *p == *q,
                (JsonNumber::NegInt(p), JsonNumber::NegInt(q)) => *p == *q,
                (JsonNumber::Float(p), JsonNumber::Float(q)) => *p == *q,
                _ => false,
            },
            _ => false,
        },
        JsonValue::Str(x) => match b {
            JsonValue::Str(y) => *x == *y,
            _ => false,
        },
        JsonValue::Array(x) => match b {
            JsonValue::Array(y) => {
                assert(a@ == JsonData::Array(values_view(x@)));
                assert(b@ == JsonData::Array(values_view(y@)));
                if x.len() != y.len() {
                    assert(values_view(x@).len() != values_view(y@).len());
                    return false;
                }
                let mut i: usize = 0;
                while i < x.len()
                    invariant
                        i <= x.len(),
                        x.len() == y.len(),
                        forall|k: int| 0 <= k < i ==> x@[k]@ == y@[k]@,
                    decreases x.len() - i,
                {
                    proof {
                        assert(decreases_to!(*a => (*a)->Array_0@[i as int]));
                    }
                    if !json_equal(&x[i], &y[i]) {
                        assert(values_view(x@)[i as int] != values_view(y@)[i as int]);
                        return false;
                    }
                    i = i + 1;
                }
                assert(values_view(x@) =~= values_view(y@));
                true
            },
            _ => false,
        },
        JsonValue::Object(x) => match b {
            JsonValue::Object(y) => {
                assert(a@ == JsonData::Object(entries_view(x@)));
                assert(b@ == JsonData::Object(entries_view(y@)));
                if x.len() != y.len() {
                    assert(entries_view(x@).len() != entries_view(y@).len());
                    return false;
                }
                let mut i: usize = 0;
                while i < x.len()
                    invariant
                        i <= x.len(),
                        x.len() == y.len(),
                        forall|k: int|
                            0 <= k < i ==> x@[k].key@ == y@[k].key@ && x@[k].value@
                                == y@[k].value@,
                    decreases x.len() - i,
                {
                    proof {
                        assert(decreases_to!(*a => (*a)->Object_0@[i as int].value));
                    }
                    if x[i].key != y[i].key {
                        assert(entries_view(x@)[i as int] != entries_view(y@)[i as int]);
                        return false;
                    }
                    if !json_equal(&x[i].value, &y[i].value) {
                        assert(entries_view(x@)[i as int] != entries_view(y@)[i as int]);
                        return false;
                    }
                    i = i + 1;
                }
                assert(entries_view(x@) =~= entries_view(y@));
                true
            },
            _ => false,
        },
    }
}

/// The member `key` of a JSON value, when it is an object that has one.
pub open spec fn json_member(v: JsonData, key: Seq<char>) -> Option<JsonData> {
    match v {
        JsonData::Object(o) => object_lookup(o, key),
        _ => None,
    }
}

/// Looking up a key in an object whose first member is `first` finds that member when
/// it has the key, and looks among the others otherwise.
pub proof fn lemma_lookup_cons(first: (Seq<char>, JsonData), rest: Seq<(Seq<char>, JsonData)>, key: Seq<char>)
    ensures
        object_lookup(seq![first] + rest, key) == if first.0 == key {
            Some(first.1)
        } else {
            object_lookup(rest, key)
        },
{
    let all = seq![first] + rest;
    assert(all[0] == first);
    assert(all.drop_first() =~= rest);
}

/// Looking up a key in an object of four members.
pub proof fn lemma_lookup4(
    e0: (Seq<char>, JsonData),
    e1: (Seq<char>, JsonData),
    e2: (Seq<char>, JsonData),
    e3: (Seq<char>, JsonData),
    key: Seq<char>,
)
    ensures
        object_lookup(seq![e0, e1, e2, e3], key) == if e0.0 == key {
            Some(e0.1)
        } else if e1.0 == key {
            Some(e1.1)
        } else if e2.0 == key {
            Some(e2.1)
        } else if e3.0 == key {
            Some(e3.1)
        } else {
            None
        },
{
    let empty = Seq::<(Seq<char>, JsonData)>::empty();
    lemma_lookup_cons(e3, empty, key);
    lemma_lookup_cons(e2, seq![e3], key);
    lemma_lookup_cons(e1, seq![e2, e3], key);
    lemma_lookup_cons(e0, seq![e1, e2, e3], key);
    assert(seq![e3] + empty =~= seq![e3]);
    assert(seq![e2] + seq![e3] =~= seq![e2, e3]);
    assert(seq![e1] + seq![e2, e3] =~= seq![e1, e2, e3]);
    assert(seq![e0] + seq![e1, e2, e3] =~= seq![e0, e1, e2, e3]);
}

/// Looking up a key in an object of one member.
pub proof fn lemma_lookup1(e0: (Seq<char>, JsonData), key: Seq<char>)
    ensures
        object_lookup(seq![e0], key) == if e0.0 == key {
            Some(e0.1)
        } else {
            None
        },
{
    let empty = Seq::<(Seq<char>, JsonData)>::empty();
    lemma_lookup_cons(e0, empty, key);
    assert(seq![e0] + empty =~= seq![e0]);
}

/// Looking up a key in an object of three members.
pub proof fn lemma_lookup3(e0: (Seq<char>, JsonData), e1: (Seq<char>, JsonData), e2: (Seq<char>, JsonData), key: Seq<char>)
    ensures
        object_lookup(seq![e0, e1, e2], key) == if e0.0 == key {
            Some(e0.1)
        } else if e1.0 == key {
            Some(e1.1)
        } else if e2.0 == key {
            Some(e2.1)
        } else {
            None
        },
{
    let empty = Seq::<(Seq<char>, JsonData)>::empty();
    lemma_lookup_cons(e2, empty, key);
    lemma_lookup_cons(e1, seq![e2], key);
    lemma_lookup_cons(e0, seq![e1, e2], key);
    assert(seq![e2] + empty =~= seq![e2]);
    assert(seq![e1] + seq![e2] =~= seq![e1, e2]);
    assert(seq![e0] + seq![e1, e2] =~= seq![e0, e1, e2]);
}

} // verus!
