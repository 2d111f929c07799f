//! What the statements of the engine mean: a table as a mathematical
//! value, and the laws that the engine obeys on it.
//!
//! The store is not part of this library. The model says what a store that
//! executes the statements faithfully holds afterwards, and the laws are
//! proved of the engine over that model.

use vstd::prelude::*;
use crate::engine::merged_field;
use crate::field::FieldView;
use crate::identity::is_canonical_uuid;
use crate::names::{first_index, lemma_first_index_from};
use crate::native::{from_native, SqlView};
use crate::resources::base::{GrpcDataObjectType, Resource};
use crate::row::{cell, column_names, first_unreadable, reads_canonical, row_field};
use crate::schema::{FieldSpec, PsqlFieldType};
use crate::validation::{
    bound_params, field_errors, is_valid, validation_params, verdict_at, verdict_of, Verdict,
};

verus! {

/// A row as the store keeps it: whether it is live, and the value of each
/// column that was ever set.
pub struct StoredRow {
    pub live: bool,
    pub cells: Map<Seq<char>, SqlView>,
}

/// A table: its rows by id.
pub struct Table {
    pub rows: Map<u128, StoredRow>,
}

/// The columns that a list of parameters sets, each with its value.
pub open spec fn cells_of(params: Seq<(Seq<char>, SqlView)>) -> Map<Seq<char>, SqlView> {
    Map::new(
        |name: Seq<char>| cell(params, name).is_some(),
        |name: Seq<char>| cell(params, name).unwrap(),
    )
}

/// Whether a row, as the store hands it out, holds exactly the given
/// columns with the given values.
pub open spec fn shows(row: Seq<(Seq<char>, SqlView)>, cells: Map<Seq<char>, SqlView>) -> bool {
    forall|name: Seq<char>| #[trigger]
        cell(row, name) == if cells.dom().contains(name) {
            Some(cells[name])
        } else {
            None
        }
}

impl Table {
    /// The columns of the live row with the given id. A row that is marked
    /// as deleted is not found.
    pub open spec fn find(self, id: u128) -> Option<Map<Seq<char>, SqlView>> {
        if self.rows.dom().contains(id) && self.rows[id].live {
            Some(self.rows[id].cells)
        } else {
            None
        }
    }

    /// The table after a row with a new id and the given parameters was
    /// inserted.
    pub open spec fn insert(self, id: u128, params: Seq<(Seq<char>, SqlView)>) -> Table {
        Table { rows: self.rows.insert(id, StoredRow { live: true, cells: cells_of(params) }) }
    }

    /// The table after the given parameters were set on the live row with
    /// the given id. Columns that are not among the parameters keep their
    /// values.
    pub open spec fn update(self, id: u128, params: Seq<(Seq<char>, SqlView)>) -> Table {
        match self.find(id) {
            Some(cells) => Table {
                rows: self.rows.insert(
                    id,
                    StoredRow { live: true, cells: cells.union_prefer_right(cells_of(params)) },
                ),
            },
            None => self,
        }
    }

    /// The table after the live row with the given id was deleted.
    pub open spec fn delete(self, id: u128) -> Table {
        match self.find(id) {
            Some(cells) => Table { rows: self.rows.insert(id, StoredRow { live: false, cells }) },
            None => self,
        }
    }

    /// The number of rows that an update or a deletion of the given id
    /// changes.
    pub open spec fn rows_affected(self, id: u128) -> nat {
        if self.find(id).is_some() {
            1
        } else {
            0
        }
    }
}

/// Whether the UUID fields of a payload hold canonical text, so that they
/// read back as they were written.
pub open spec fn is_canonical<T: Resource>(data: T) -> bool {
    forall|i: int|
        0 <= i < T::schema().fields.len() && T::schema().fields[i].1.field_type
            == PsqlFieldType::Uuid ==> match #[trigger] data.field(T::schema().fields[i].0) {
            Some(value) => match value.present() {
                Some(FieldView::String(s)) => is_canonical_uuid(s),
                _ => true,
            },
            None => true,
        }
}

/// Whether each UUID column of a table that a row holds, holds a UUID or
/// null.
pub open spec fn holds_uuids<T: Resource>(row: Seq<(Seq<char>, SqlView)>) -> bool {
    forall|i: int|
        0 <= i < T::schema().fields.len() && T::schema().fields[i].1.field_type
            == PsqlFieldType::Uuid ==> match #[trigger] cell(row, T::schema().fields[i].0) {
            Some(native) => native is Uuid || native is Null,
            None => true,
        }
}

/// A payload that was read from a row whose UUID columns hold UUIDs is
/// canonical: what the engine reads it can write back unchanged.
pub proof fn lemma_read_payload_is_canonical<T: Resource>(
    row: Seq<(Seq<char>, SqlView)>,
    data: T,
)
    requires
        holds_uuids::<T>(row),
        reads_canonical(row, data),
        forall|key: Seq<char>| #[trigger] data.field(key) == row_field::<T>(row, key),
    ensures
        is_canonical(data),
{
    assert forall|i: int|
        0 <= i < T::schema().fields.len() && T::schema().fields[i].1.field_type
            == PsqlFieldType::Uuid implies match #[trigger] data.field(T::schema().fields[i].0) {
        Some(value) => match value.present() {
            Some(FieldView::String(s)) => is_canonical_uuid(s),
            _ => true,
        },
        None => true,
    } by {
        let key = T::schema().fields[i].0;
        assert(data.field(key) == row_field::<T>(row, key));
        assert(cell(row, key) is Some ==> cell(row, key).unwrap() is Uuid || cell(
            row,
            key,
        ).unwrap() is Null);
    }
}

/// A value that validation binds reads back as itself, where a UUID is in
/// canonical text.
pub proof fn lemma_bound_value_reads_back(spec: FieldSpec, value: FieldView)
    requires
        value.shape().is_some(),
        verdict_of(spec, value) is Bound,
        spec.field_type == PsqlFieldType::Uuid ==> match value.present() {
            Some(FieldView::String(s)) => is_canonical_uuid(s),
            _ => true,
        },
    ensures
        from_native(value.shape().unwrap(), verdict_of(spec, value)->Bound_0) == Some(value),
{
}

proof fn lemma_cell_after_push(
    row: Seq<(Seq<char>, SqlView)>,
    name: Seq<char>,
    value: SqlView,
    key: Seq<char>,
)
    ensures
        cell(row.push((name, value)), key) == match cell(row, key) {
            Some(found) => Some(found),
            None => if name == key {
                Some(value)
            } else {
                None
            },
        },
{
    let longer = row.push((name, value));
    lemma_first_index_from(column_names(row), key, 0);
    lemma_first_index_from(column_names(longer), key, 0);
    assert forall|j: int| 0 <= j < row.len() implies column_names(longer)[j] == column_names(
        row,
    )[j] by {}
    assert(column_names(longer)[row.len() as int] == name);
}

proof fn lemma_bound_params_cells<T: Resource>(data: T, n: int, key: Seq<char>)
    requires
        0 <= n <= T::schema().fields.len(),
    ensures
        match cell(bound_params(T::schema().fields, data, n), key) {
            Some(native) => exists|i: int|
                0 <= i < n && T::schema().fields[i].0 == key && verdict_at(
                    T::schema().fields,
                    data,
                    i,
                ) == Verdict::Bound(native),
            None => forall|i: int|
                0 <= i < n && T::schema().fields[i].0 == key ==> !(verdict_at(
                    T::schema().fields,
                    data,
                    i,
                ) is Bound),
        },
    decreases n,
{
    let fields = T::schema().fields;
    if n > 0 {
        lemma_bound_params_cells(data, n - 1, key);
        match verdict_at(fields, data, n - 1) {
            Verdict::Bound(native) => {
                lemma_cell_after_push(
                    bound_params(fields, data, n - 1),
                    fields[n - 1].0,
                    native,
                    key,
                );
            },
            _ => {},
        }
    }
}

proof fn lemma_valid_fields_are_bound<T: Resource>(data: T, n: int, i: int)
    requires
        0 <= i < n <= T::schema().fields.len(),
        field_errors(T::schema().fields, data, n).len() == 0,
    ensures
        !(verdict_at(T::schema().fields, data, i) is Missing),
        !(verdict_at(T::schema().fields, data, i) is BadUuid),
    decreases n,
{
    if i < n - 1 {
        lemma_valid_fields_are_bound(data, n - 1, i);
    }
}

/// What the parameters of a valid payload hold for a field: the value that
/// validation bound.
proof fn lemma_params_of_valid<T: Resource>(data: T, key: Seq<char>)
    requires
        is_valid(data),
        T::shape(key).is_some(),
    ensures
        ({
            &&& data.field(key) matches Some(value)
            &&& T::schema().has_data_field(key)
            &&& verdict_of(T::schema().field(key), value) matches Verdict::Bound(native)
            &&& cell(validation_params(data), key) == Some(native)
        }),
{
    let schema = T::schema();
    let fields = schema.fields;
    T::lemma_schema();
    T::lemma_shape(key);
    data.lemma_field_shape(key);
    lemma_first_index_from(schema.names(), key, 0);
    let i = schema.position(key).unwrap();
    lemma_valid_fields_are_bound(data, fields.len() as int, i);
    lemma_bound_params_cells(data, fields.len() as int, key);
    match cell(validation_params(data), key) {
        Some(native) => {
            let j = choose|j: int|
                0 <= j < fields.len() && fields[j].0 == key && verdict_at(fields, data, j)
                    == Verdict::Bound(native);
            assert(schema.names()[j] == schema.names()[i]);
        },
        None => {},
    }
}

proof fn lemma_readable<T: Resource>(row: Seq<(Seq<char>, SqlView)>, n: int)
    requires
        0 <= n <= T::schema().fields.len(),
        forall|key: Seq<char>| T::shape(key).is_some() ==> (#[trigger] row_field::<T>(
            row,
            key,
        )).is_some(),
    ensures
        first_unreadable::<T>(row, n).is_none(),
    decreases n,
{
    if n > 0 {
        lemma_readable::<T>(row, n - 1);
        T::lemma_schema();
        T::schema().lemma_position_of_entry(n - 1);
        T::lemma_shape(T::schema().fields[n - 1].0);
    }
}

/// Creating a resource and then looking it up by the id that the store
/// gave it hands back the payload that was supplied: the row converts, and
/// every field reads back as it was written.
///
/// The payload must pass validation, and its UUID fields must hold
/// canonical text: a UUID is stored as a number and read back in canonical
/// text, whatever text denoted it.
pub proof fn lemma_create_then_get<T: Resource>(
    table: Table,
    data: T,
    id: u128,
    row: Seq<(Seq<char>, SqlView)>,
)
    requires
        is_valid(data),
        is_canonical(data),
        table.insert(id, validation_params(data)).find(id) matches Some(cells) && shows(row, cells),
    ensures
        first_unreadable::<T>(row, T::schema().fields.len() as int).is_none(),
        forall|key: Seq<char>| #[trigger] row_field::<T>(row, key) == data.field(key),
{
    assert forall|key: Seq<char>| #[trigger] row_field::<T>(row, key) == data.field(key) by {
        data.lemma_field_shape(key);
        if T::shape(key).is_some() {
            lemma_params_of_valid(data, key);
            lemma_first_index_from(T::schema().names(), key, 0);
            lemma_bound_value_reads_back(T::schema().field(key), data.field(key).unwrap());
        }
    }
    assert forall|key: Seq<char>| T::shape(key).is_some() implies (#[trigger] row_field::<T>(
        row,
        key,
    )).is_some() by {
        data.lemma_field_shape(key);
    }
    lemma_readable::<T>(row, T::schema().fields.len() as int);
}

/// Deleting a resource and then looking it up finds nothing, and deleting
/// it once more changes no row: both are answered `NotFound`.
pub proof fn lemma_delete_then_get(table: Table, id: u128)
    ensures
        table.delete(id).find(id).is_none(),
        table.delete(id).rows_affected(id) == 0,
        table.delete(id).delete(id) == table.delete(id),
{
}

/// An update with a mask of one field changes that field only: read back,
/// the field holds the new value and every other field what it held
/// before.
///
/// The stored payload is the one that the row before the update converts
/// into. The merged payload must pass validation, and the stored UUID
/// fields and the new value must be canonical text.
pub proof fn lemma_masked_update_changes_one_field<T: Resource>(
    table: Table,
    id: u128,
    stored_row: Seq<(Seq<char>, SqlView)>,
    stored: T,
    new_data: T,
    merged: T,
    path: Seq<char>,
    row: Seq<(Seq<char>, SqlView)>,
)
    requires
        table.find(id) matches Some(cells) && shows(stored_row, cells),
        forall|key: Seq<char>| #[trigger] stored.field(key) == row_field::<T>(stored_row, key),
        forall|key: Seq<char>| #[trigger]
            merged.field(key) == merged_field(stored, new_data, seq![path], key),
        is_valid(merged),
        is_canonical(merged),
        table.update(id, validation_params(merged)).find(id) matches Some(cells) && shows(
            row,
            cells,
        ),
    ensures
        first_unreadable::<T>(row, T::schema().fields.len() as int).is_none(),
        row_field::<T>(row, path) == new_data.field(path),
        forall|key: Seq<char>|
            key != path ==> #[trigger] row_field::<T>(row, key) == row_field::<T>(stored_row, key),
{
    assert(seq![path][0] == path);
    assert forall|key: Seq<char>| #[trigger] row_field::<T>(row, key) == merged.field(key) by {
        merged.lemma_field_shape(key);
        if T::shape(key).is_some() {
            lemma_params_of_valid(merged, key);
            lemma_first_index_from(T::schema().names(), key, 0);
            lemma_bound_value_reads_back(T::schema().field(key), merged.field(key).unwrap());
        }
    }
    assert forall|key: Seq<char>| T::shape(key).is_some() implies (#[trigger] row_field::<T>(
        row,
        key,
    )).is_some() by {
        merged.lemma_field_shape(key);
    }
    lemma_readable::<T>(row, T::schema().fields.len() as int);
}

} // verus!
