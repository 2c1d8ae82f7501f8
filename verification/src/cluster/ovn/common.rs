//! What the OVN object types share: reading them from rows, finding them by name,
//! creating and deleting them.
use vstd::prelude::*;

use crate::errors::Error;
use crate::json::{entries_view, values_view, JsonData, JsonValue};
use crate::cluster::ovn::ops::jstr;
use crate::text::str_equal;

verus! {

broadcast use crate::json::data::group_json_view;

/// Base properties of an OVN object read from a database row.
pub trait OvnCommon: Sized + View {
    /// The UUID of an object.
    spec fn spec_uuid(v: Self::V) -> Seq<char>;

    /// The table that holds objects of this type.
    spec fn spec_ovn_type() -> Seq<char>;

    /// The object that a row describes, if the row has the columns it needs.
    spec fn spec_deserialize(row: JsonData) -> Option<Self::V>;

    fn uuid(&self) -> (r: String)
        ensures
            r@ == Self::spec_uuid(self@),
    ;

    fn ovn_type() -> (r: String)
        ensures
            r@ == Self::spec_ovn_type(),
    ;

    fn deserialize(value: &JsonValue) -> (r: Result<Self, Error>)
        ensures
            match r {
                Ok(x) => Self::spec_deserialize(value@) == Some(x@),
                Err(e) => Self::spec_deserialize(value@) is None && e is OvnDeserializationFailed,
            },
    ;
}

/// An OVN object that has a name.
pub trait OvnNamed: OvnCommon {
    spec fn spec_name(v: Self::V) -> Seq<char>;

    fn name(&self) -> (r: String)
        ensures
            r@ == Self::spec_name(self@),
    ;
}

/// Reading all the objects of a table.
pub trait OvnGetters: OvnCommon {
    /// The objects that the rows of a `select` describe, in order; fails on the first
    /// row that does not describe one.
    fn list(rows: &Vec<JsonValue>) -> (r: Result<Vec<Self>, Error>)
        ensures
            match r {
                Ok(v) => v.len() == rows.len() && forall|i: int|
                    0 <= i < rows.len() ==> Self::spec_deserialize(#[trigger] rows@[i]@) == Some(
                        v@[i]@,
                    ),
                Err(e) => (exists|i: int|
                    0 <= i < rows.len() && Self::spec_deserialize(#[trigger] rows@[i]@) is None)
                    && e is OvnDeserializationFailed,
            },
    ;
}

impl<T: OvnCommon> OvnGetters for T {
    fn list(rows: &Vec<JsonValue>) -> (r: Result<Vec<Self>, Error>) {
        let mut out: Vec<Self> = Vec::new();
        let mut i: usize = 0;
        while i < rows.len()
            invariant
                i <= rows.len(),
                out.len() == i,
                forall|k: int|
                    0 <= k < i ==> Self::spec_deserialize(#[trigger] rows@[k]@) == Some(out@[k]@),
            decreases rows.len() - i,
        {
            match Self::deserialize(&rows[i]) {
                Ok(x) => {
                    out.push(x);
                },
                Err(e) => {
                    return Err(e);
                },
            }
            i = i + 1;
        }
        Ok(out)
    }
}

/// The position of the first object named `name`, if any.
pub open spec fn first_named<T: OvnNamed>(objects: Seq<T>, name: Seq<char>) -> Option<int> {
    if exists|i: int| 0 <= i < objects.len() && T::spec_name(objects[i]@) == name {
        Some(
            choose|i: int|
                0 <= i < objects.len() && T::spec_name(objects[i]@) == name && forall|j: int|
                    0 <= j < i ==> T::spec_name(#[trigger] objects[j]@) != name,
        )
    } else {
        None
    }
}

/// Finding an object by its name.
pub trait OvnNamedGetters: OvnNamed {
    /// The first of `objects` named `name`, or `OvnNotFound` with the table and the name.
    fn get_by_name(objects: Vec<Self>, name: &str) -> (r: Result<Self, Error>)
        ensures
            match r {
                Ok(x) => exists|i: int|
                    0 <= i < objects.len() && objects@[i] == x && Self::spec_name(x@) == name@
                        && forall|j: int|
                        0 <= j < i ==> Self::spec_name(#[trigger] objects@[j]@) != name@,
                Err(e) => (forall|i: int|
                    0 <= i < objects.len() ==> Self::spec_name(#[trigger] objects@[i]@) != name@)
                    && (e matches Error::OvnNotFound(t, n) && t@ == Self::spec_ovn_type() && n@
                    == name@),
            },
    ;
}

impl<T: OvnNamed> OvnNamedGetters for T {
    fn get_by_name(objects: Vec<Self>, name: &str) -> (r: Result<Self, Error>) {
        let mut i: usize = 0;
        while i < objects.len()
            invariant
                i <= objects.len(),
                forall|j: int| 0 <= j < i ==> Self::spec_name(#[trigger] objects@[j]@) != name@,
            decreases objects.len() - i,
        {
            let n = objects[i].name();
            if str_equal(n.as_str(), name) {
                let ghost before = objects@;
                let mut remaining = objects;
                let x = remaining.remove(i);
                assert(before[i as int] == x);
                return Ok(x);
            }
            i = i + 1;
        }
        Err(Error::OvnNotFound(Self::ovn_type(), name.to_owned()))
    }
}

/// An object that was found, or the operations that create it.
pub enum Ensured<T> {
    Existing(T),
    Create(Vec<JsonValue>),
}

/// An OVN type that can be created from its name alone.
pub trait OvnBasicType: OvnNamed {}

/// The `insert` that creates an object with only a name: `{"op": "insert", "table":
/// TABLE, "row": {"name": NAME}}`.
pub open spec fn spec_create_basic(table: Seq<char>, name: Seq<char>) -> JsonData {
    JsonData::Object(
        seq![
            ("op"@, jstr("insert"@)),
            ("table"@, jstr(table)),
            ("row"@, JsonData::Object(seq![("name"@, jstr(name))])),
        ],
    )
}

/// The `delete` of the row with the given UUID from `table`.
pub open spec fn spec_delete_by_uuid(table: Seq<char>, uuid: Seq<char>) -> JsonData {
    JsonData::Object(
        seq![
            ("op"@, jstr("delete"@)),
            ("table"@, jstr(table)),
            ("where"@, crate::cluster::ovn::ops::spec_where_uuid(uuid)),
        ],
    )
}

/// Creating and deleting objects of a basic type.
pub trait OvnBasicActions: OvnBasicType {
    /// The operation that creates an object named `name`.
    fn create(name: &str) -> (r: JsonValue)
        ensures
            r@ == spec_create_basic(Self::spec_ovn_type(), name@),
    ;

    /// The operation that deletes this object.
    fn delete(self) -> (r: JsonValue)
        ensures
            r@ == spec_delete_by_uuid(Self::spec_ovn_type(), Self::spec_uuid(self@)),
    ;

    /// The first of `objects` named `name`, or the operation that creates it.
    fn create_if_missing(objects: Vec<Self>, name: &str) -> (r: Ensured<Self>)
        ensures
            match r {
                Ensured::Existing(x) => exists|i: int|
                    0 <= i < objects.len() && objects@[i] == x && Self::spec_name(x@) == name@
                        && forall|j: int|
                        0 <= j < i ==> Self::spec_name(#[trigger] objects@[j]@) != name@,
                Ensured::Create(ops) => (forall|i: int|
                    0 <= i < objects.len() ==> Self::spec_name(#[trigger] objects@[i]@) != name@)
                    && values_view(ops@) == seq![spec_create_basic(Self::spec_ovn_type(), name@)],
            },
    ;
}

impl<T: OvnBasicType> OvnBasicActions for T {
    fn create(name: &str) -> (r: JsonValue) {
        let table = Self::ovn_type();
        crate::cluster::ovn::lowlevel::insert(
            table.as_str(),
            crate::cluster::ovn::ops::object1(
                crate::json::json_entry("name", crate::json::json_str(name)),
            ),
        )
    }

    fn delete(self) -> (r: JsonValue) {
        let table = Self::ovn_type();
        let uuid = self.uuid();
        crate::cluster::ovn::lowlevel::delete_by_uuid(table.as_str(), uuid.as_str())
    }

    fn create_if_missing(objects: Vec<Self>, name: &str) -> (r: Ensured<Self>) {
        match Self::get_by_name(objects, name) {
            Ok(x) => Ensured::Existing(x),
            Err(_) => {
                let ops = vec![Self::create(name)];
                assert(values_view(ops@) =~= seq![spec_create_basic(Self::spec_ovn_type(), name@)]);
                Ensured::Create(ops)
            },
        }
    }
}

/// How many of `objects` are named `name`.
pub open spec fn count_named<T: OvnNamed>(objects: Seq<T>, name: Seq<char>) -> nat
    decreases objects.len(),
{
    if objects.len() == 0 {
        0
    } else {
        count_named(objects.drop_last(), name) + if T::spec_name(objects.last()@) == name {
            1nat
        } else {
            0nat
        }
    }
}

proof fn lemma_count_named_none<T: OvnNamed>(objects: Seq<T>, name: Seq<char>)
    requires
        forall|i: int| 0 <= i < objects.len() ==> T::spec_name(#[trigger] objects[i]@) != name,
    ensures
        count_named(objects, name) == 0,
    decreases objects.len(),
{
    if objects.len() > 0 {
        let init = objects.drop_last();
        assert forall|i: int| 0 <= i < init.len() implies T::spec_name(#[trigger] init[i]@) != name by {
            assert(init[i] == objects[i]);
        }
        lemma_count_named_none(init, name);
        assert(objects.last() == objects[objects.len() - 1]);
    }
}

proof fn lemma_count_named_some<T: OvnNamed>(objects: Seq<T>, name: Seq<char>, i: int)
    requires
        0 <= i < objects.len(),
        T::spec_name(objects[i]@) == name,
    ensures
        count_named(objects, name) > 0,
    decreases objects.len(),
{
    if i < objects.len() - 1 {
        let init = objects.drop_last();
        assert(init[i] == objects[i]);
        lemma_count_named_some(init, name, i);
    }
}

/// Some of `objects` is named `name`.
pub open spec fn has_named<T: OvnNamed>(objects: Seq<T>, name: Seq<char>) -> bool {
    exists|i: int| 0 <= i < objects.len() && T::spec_name(#[trigger] objects[i]@) == name
}

/// The objects of a table once the outcome of `create_if_missing` for `name` is run:
/// the same when one was named `name`, else with `inserted`, the row that the create
/// operation adds.
pub open spec fn table_after_ensure<T: OvnNamed>(objects: Seq<T>, name: Seq<char>, inserted: T) -> Seq<T> {
    if has_named(objects, name) {
        objects
    } else {
        objects.push(inserted)
    }
}

/// Ensuring an object by name twice creates it at most once. `create_if_missing` finds
/// an object named `name` when there is one and otherwise gives the operation that adds
/// one; once that outcome is run, an object is named `name`, so a second call finds it
/// and the table stays as the first call left it, and the first call added at most one
/// object of that name.
pub proof fn lemma_create_if_missing_twice<T: OvnNamed>(objects: Seq<T>, name: Seq<char>, inserted: T)
    requires
        T::spec_name(inserted@) == name,
    ensures
        has_named(table_after_ensure(objects, name, inserted), name),
        table_after_ensure(table_after_ensure(objects, name, inserted), name, inserted) == table_after_ensure(
            objects,
            name,
            inserted,
        ),
        count_named(table_after_ensure(objects, name, inserted), name) == if has_named(objects, name) {
            count_named(objects, name)
        } else {
            1
        },
        has_named(objects, name) <==> count_named(objects, name) > 0,
{
    let after = table_after_ensure(objects, name, inserted);
    if has_named(objects, name) {
        let i = choose|i: int| 0 <= i < objects.len() && T::spec_name(#[trigger] objects[i]@) == name;
        lemma_count_named_some(objects, name, i);
    } else {
        assert forall|i: int| 0 <= i < objects.len() implies T::spec_name(#[trigger] objects[i]@) != name by {
            if T::spec_name(objects[i]@) == name {
                assert(has_named(objects, name));
            }
        }
        lemma_count_named_none(objects, name);
        assert(after.drop_last() =~= objects);
        assert(after[objects.len() as int] == inserted);
        assert(has_named(after, name));
    }
}

} // verus!
