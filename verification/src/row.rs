//! Rows as the store hands them out, and their conversion into payloads.

use vstd::prelude::*;
use vstd::string::StringExecFns;
use crate::error::StorageError;
use crate::field::FieldView;
use crate::names::{find_entry, first_index, keys, lemma_first_index_from};
use crate::native::{canonical_if_uuid, from_native, SqlValue, SqlView};
use crate::resources::base::{GrpcDataObjectType, Resource};

verus! {

/// One row of a table: its columns by name, each with its native value.
#[derive(Clone, Debug, PartialEq)]
pub struct Row {
    pub columns: Vec<(String, SqlValue)>,
}

impl View for Row {
    type V = Seq<(Seq<char>, SqlView)>;

    open spec fn view(&self) -> Seq<(Seq<char>, SqlView)> {
        Seq::new(self.columns@.len(), |i: int| (self.columns@[i].0@, self.columns@[i].1@))
    }
}

/// The names of the columns of a row.
pub open spec fn column_names(row: Seq<(Seq<char>, SqlView)>) -> Seq<Seq<char>> {
    Seq::new(row.len(), |i: int| row[i].0)
}

/// The value of the first column of that name.
pub open spec fn cell(row: Seq<(Seq<char>, SqlView)>, name: Seq<char>) -> Option<SqlView> {
    match first_index(column_names(row), name) {
        Some(i) => Some(row[i].1),
        None => None,
    }
}

/// The value that a row gives to the field `name` of a payload: that of the
/// column of the same name, read in the shape of the field. `None` where
/// payloads have no such field, the row has no such column, or the column
/// holds a value of another kind.
pub open spec fn row_field<T: Resource>(row: Seq<(Seq<char>, SqlView)>, name: Seq<char>) -> Option<
    FieldView,
> {
    match (T::shape(name), cell(row, name)) {
        (Some(shape), Some(native)) => from_native(shape, native),
        _ => None,
    }
}

/// Whether each field that a payload has from a UUID of the row is the
/// canonical text of that UUID.
pub open spec fn reads_canonical<T: Resource>(row: Seq<(Seq<char>, SqlView)>, data: T) -> bool {
    forall|key: Seq<char>|
        match (cell(row, key), #[trigger] data.field(key)) {
            (Some(native), Some(value)) => canonical_if_uuid(native, value),
            _ => true,
        }
}

/// The first field of the table, among the first `n`, that callers set and
/// that the row gives no value.
pub open spec fn first_unreadable<T: Resource>(row: Seq<(Seq<char>, SqlView)>, n: int) -> Option<
    int,
>
    decreases n,
{
    if n <= 0 {
        None
    } else {
        match first_unreadable::<T>(row, n - 1) {
            Some(i) => Some(i),
            None => {
                let field = T::schema().fields[n - 1];
                if !field.1.internal && row_field::<T>(row, field.0).is_none() {
                    Some(n - 1)
                } else {
                    None
                }
            },
        }
    }
}

proof fn lemma_first_unreadable_stays<T: Resource>(row: Seq<(Seq<char>, SqlView)>, m: int, n: int)
    requires
        m <= n,
        first_unreadable::<T>(row, m).is_some(),
    ensures
        first_unreadable::<T>(row, n) == first_unreadable::<T>(row, m),
    decreases n - m,
{
    if m < n {
        lemma_first_unreadable_stays::<T>(row, m, n - 1);
    }
}

/// A copy of a list of integers.
pub fn copy_i64_list(list: &Vec<i64>) -> (copy: Vec<i64>)
    ensures
        copy@ == list@,
{
    let mut copy: Vec<i64> = Vec::new();
    let mut i: usize = 0;
    while i < list.len()
        invariant
            i <= list.len(),
            copy@ == list@.take(i as int),
        decreases list.len() - i,
    {
        copy.push(list[i]);
        i += 1;
    }
    copy
}

/// A copy of a byte sequence.
pub fn copy_bytes(bytes: &Vec<u8>) -> (copy: Vec<u8>)
    ensures
        copy@ == bytes@,
{
    let mut copy: Vec<u8> = Vec::new();
    let mut i: usize = 0;
    while i < bytes.len()
        invariant
            i <= bytes.len(),
            copy@ == bytes@.take(i as int),
        decreases bytes.len() - i,
    {
        copy.push(bytes[i]);
        i += 1;
    }
    copy
}

impl SqlValue {
    /// A copy of the value.
    pub fn duplicate(&self) -> (copy: SqlValue)
        ensures
            copy@ == self@,
    {
        match self {
            SqlValue::Null => SqlValue::Null,
            SqlValue::Text(s) => SqlValue::Text(s.clone()),
            SqlValue::Uuid(id) => SqlValue::Uuid(*id),
            SqlValue::Int8(v) => SqlValue::Int8(*v),
            SqlValue::Int4(v) => SqlValue::Int4(*v),
            SqlValue::Int2(v) => SqlValue::Int2(*v),
            SqlValue::Float8(v) => SqlValue::Float8(*v),
            SqlValue::Float4(v) => SqlValue::Float4(*v),
            SqlValue::Bool(v) => SqlValue::Bool(*v),
            SqlValue::Bytea(b) => SqlValue::Bytea(copy_bytes(b)),
            SqlValue::Timestamptz(t) => SqlValue::Timestamptz(*t),
            SqlValue::Int8Array(l) => SqlValue::Int8Array(copy_i64_list(l)),
        }
    }
}

impl Row {
    /// The value of the first column of that name.
    pub fn get(&self, name: &str) -> (value: Option<&SqlValue>)
        ensures
            match cell(self@, name@) {
                Some(native) => value matches Some(v) && v@ == native,
                None => value.is_none(),
            },
    {
        assert(keys(self.columns@) =~= column_names(self@));
        match find_entry(&self.columns, name) {
            Some(i) => {
                Some(&self.columns[i].1)
            },
            None => None,
        }
    }
}

/// Converts a row into a payload: every field that callers set is read from
/// the column of its name, in the shape of the field. The first field, in
/// the order of the table's description, whose column is missing or holds a
/// value of another kind fails the conversion, and the error names it.
pub fn try_from_row<T: Resource>(row: &Row) -> (r: Result<T, StorageError>)
    ensures
        match first_unreadable::<T>(row@, T::schema().fields.len() as int) {
            Some(i) => r matches Err(StorageError::Conversion(column)) && column@
                == T::schema().fields[i].0,
            None => r matches Ok(data) && reads_canonical(row@, data) && forall|key: Seq<char>|
                #[trigger] data.field(key) == row_field::<T>(row@, key),
        },
{
    let definition = T::get_definition();
    let mut data = T::blank();
    let ghost fields = T::schema().fields;
    proof {
        T::lemma_schema();
    }
    let mut i: usize = 0;
    while i < definition.fields.len()
        invariant
            i <= definition.fields.len(),
            definition@ == T::schema(),
            fields == T::schema().fields,
            fields.len() == definition.fields@.len(),
            T::schema().well_formed(),
            first_unreadable::<T>(row@, i as int).is_none(),
            forall|j: int|
                0 <= j < i && !fields[j].1.internal ==> #[trigger] data.field(fields[j].0)
                    == row_field::<T>(row@, fields[j].0),
            forall|j: int|
                0 <= j < i && !fields[j].1.internal ==> (match (
                    cell(row@, fields[j].0),
                    #[trigger] row_field::<T>(row@, fields[j].0),
                ) {
                    (Some(native), Some(value)) => canonical_if_uuid(native, value),
                    _ => true,
                }),
        decreases definition.fields.len() - i,
    {
        let name = &definition.fields[i].0;
        let spec = &definition.fields[i].1;
        proof {
            data.lemma_field_shape(name@);
        }
        if !spec.is_internal() {
            let shape = match data.get_field_value(name.as_str()) {
                Ok(current) => current.shape(),
                Err(_) => None,
            };
            let value = match (shape, row.get(name.as_str())) {
                (Some(shape), Some(native)) => native.duplicate().into_field(shape),
                _ => None,
            };
            match value {
                Some(value) => {
                    let _ = data.set_field_value(name.as_str(), value);
                },
                None => {
                    proof {
                        lemma_first_unreadable_stays::<T>(row@, i + 1, fields.len() as int);
                    }
                    return Err(StorageError::Conversion(name.clone()));
                },
            }
        }
        i += 1;
    }
    proof {
        assert forall|key: Seq<char>| #[trigger]
            data.field(key) == row_field::<T>(row@, key) && (match (
                cell(row@, key),
                data.field(key),
            ) {
                (Some(native), Some(value)) => canonical_if_uuid(native, value),
                _ => true,
            }) by {
            T::lemma_shape(key);
            data.lemma_field_shape(key);
            if T::shape(key).is_some() {
                lemma_first_index_from(T::schema().names(), key, 0);
                let j = T::schema().position(key).unwrap();
                assert(fields[j].0 == key);
                assert(row_field::<T>(row@, fields[j].0) == data.field(key));
            }
        }
    }
    Ok(data)
}

} // verus!
