//! The generic engine: point lookup, search, insert, masked update and
//! delete, written once for every resource type.
//!
//! Each operation is in two parts. The first prepares the statement for
//! the store; the second reads what the store answered.

use vstd::prelude::*;
use crate::error::StorageError;
use crate::field::FieldView;
use crate::identity::{parsed_uuid, try_get_uuid};
use crate::links::id_in;
use crate::native::{SqlValue, SqlView};
use crate::psql::{
    columns_of, delete_by_id, delete_text, insert, insert_text, select_by_id, select_by_id_text,
    update as update_statement, update_text, values_of, Statement,
};
use crate::resources::base::{GrpcDataObjectType, Resource};
use crate::row::{first_unreadable, reads_canonical, row_field, try_from_row, Row};
use crate::schema::texts;
use crate::search::{search_statement, searches, SearchFilter};
use crate::validation::{
    errors_view, is_valid, params_view, validate, validation_errors, validation_params,
    ValidationResult,
};

verus! {

/// The values of a list of bound parameters.
pub open spec fn param_values(params: Seq<(Seq<char>, SqlView)>) -> Seq<SqlView> {
    Seq::new(params.len(), |i: int| params[i].1)
}

/// The names of a list of bound parameters.
pub open spec fn param_columns(params: Seq<(Seq<char>, SqlView)>) -> Seq<Seq<char>> {
    Seq::new(params.len(), |i: int| params[i].0)
}

/// Prepares the lookup of the row with the given id. An id that is not the
/// text of a UUID is refused.
pub fn get_by_id<T: Resource>(id: &str) -> (r: Result<Statement, StorageError>)
    ensures
        match parsed_uuid(id@) {
            Some(uuid) => r matches Ok(statement) && statement@.text == select_by_id_text(
                T::schema(),
            ) && statement@.params == seq![SqlView::Uuid(uuid)],
            None => r == Err::<Statement, StorageError>(StorageError::MalformedIdentity),
        },
{
    let uuid = try_get_uuid(id)?;
    let definition = T::get_definition();
    proof {
        T::lemma_schema();
    }
    Ok(select_by_id(&definition, uuid))
}

/// Reads the answer to a lookup: no row is `NotFound`, otherwise the first
/// row is converted into a payload.
pub fn found<T: Resource>(rows: &Vec<Row>) -> (r: Result<T, StorageError>)
    ensures
        rows@.len() == 0 ==> r == Err::<T, StorageError>(StorageError::NotFound),
        rows@.len() > 0 ==> match first_unreadable::<T>(
            rows@[0]@,
            T::schema().fields.len() as int,
        ) {
            Some(i) => r matches Err(StorageError::Conversion(column)) && column@
                == T::schema().fields[i].0,
            None => r matches Ok(data) && reads_canonical(rows@[0]@, data) && forall|
                key: Seq<char>,
            | #[trigger] data.field(key) == row_field::<T>(rows@[0]@, key),
        },
{
    if rows.len() == 0 {
        Err(StorageError::NotFound)
    } else {
        try_from_row::<T>(&rows[0])
    }
}

/// Prepares a search for one page of the live rows of the table.
pub fn search<T: Resource>(filter: &SearchFilter) -> (r: Result<Statement, StorageError>)
    ensures
        searches(T::schema(), *filter, r),
{
    let definition = T::get_definition();
    proof {
        T::lemma_schema();
    }
    search_statement(&definition, filter)
}

/// Prepares the insertion of a payload. The payload is validated; where it
/// fails there is no statement, where it passes the statement inserts
/// exactly the parameters that validation bound.
pub fn create<T: Resource>(data: &T) -> (r: Result<
    (Option<Statement>, ValidationResult),
    StorageError,
>)
    ensures
        r matches Ok((statement, result)) && errors_view(result.errors@) == validation_errors(
            *data,
        ) && result.success == is_valid(*data) && match statement {
            Some(statement) => is_valid(*data) && statement@.text == insert_text(
                T::schema(),
                param_columns(validation_params(*data)),
            ) && statement@.params == param_values(validation_params(*data)),
            None => !is_valid(*data),
        },
{
    let (params, result) = validate(data)?;
    if result.success {
        let definition = T::get_definition();
        proof {
            T::lemma_schema();
            assert(columns_of(params@) =~= param_columns(params_view(params@)));
        }
        Ok((Some(insert(&definition, &params)), result))
    } else {
        Ok((None, result))
    }
}

/// The id that the store gave a new row: the one that the first row of the
/// answer to the insertion holds in the id column.
pub open spec fn new_id<T: Resource>(rows: Seq<Row>) -> Option<u128> {
    if rows.len() == 0 {
        None
    } else {
        id_in(rows[0]@, T::schema().id_cols[0])
    }
}

/// Reads the answer to an insertion, if a statement was run: the id of the
/// new row, beside what validation found.
///
/// Without an answer nothing was written and there is no id. A failure of
/// the store stays the error it is, and so does an answer without a row;
/// a row without an id fails the reading, and the error names the id
/// column.
pub fn created<T: Resource>(
    validation_result: ValidationResult,
    answer: Option<Result<Vec<Row>, StorageError>>,
) -> (r: Result<(Option<u128>, ValidationResult), StorageError>)
    ensures
        match answer {
            None => r == Ok::<(Option<u128>, ValidationResult), StorageError>(
                (None, validation_result),
            ),
            Some(Err(error)) => r == Err::<(Option<u128>, ValidationResult), StorageError>(error),
            Some(Ok(rows)) => match new_id::<T>(rows@) {
                Some(id) => r == Ok::<(Option<u128>, ValidationResult), StorageError>(
                    (Some(id), validation_result),
                ),
                None => if rows@.len() == 0 {
                    r matches Err(StorageError::Store)
                } else {
                    r matches Err(StorageError::Conversion(name)) && name@
                        == T::schema().id_cols[0]
                },
            },
        },
{
    let rows = match answer {
        None => {
            return Ok((None, validation_result));
        },
        Some(Err(error)) => {
            return Err(error);
        },
        Some(Ok(rows)) => rows,
    };
    if rows.len() == 0 {
        return Err(StorageError::Store);
    }
    let definition = T::get_definition();
    proof {
        T::lemma_schema();
    }
    match rows[0].get(definition.psql_id_cols[0].as_str()) {
        Some(SqlValue::Uuid(id)) => Ok((Some(*id), validation_result)),
        _ => Err(StorageError::Conversion(definition.psql_id_cols[0].clone())),
    }
}

/// The value of a field after an update: that of the new payload where
/// the mask is empty or lists the field, the stored one otherwise.
pub open spec fn merged_field<T: Resource>(stored: T, new_data: T, mask: Seq<Seq<char>>, key: Seq<
    char,
>) -> Option<FieldView> {
    if mask.len() == 0 || mask.contains(key) {
        new_data.field(key)
    } else {
        stored.field(key)
    }
}

/// Merges a new payload onto the stored one. With an empty mask the new
/// payload replaces the stored one. Otherwise only the fields that the mask
/// lists are taken from the new payload; a path of the mask that is no
/// field is ignored.
pub fn merge<T: Resource>(stored: T, new_data: T, mask: &Vec<String>) -> (merged: T)
    ensures
        forall|key: Seq<char>| #[trigger]
            merged.field(key) == merged_field(stored, new_data, texts(mask@), key),
{
    if mask.len() == 0 {
        return new_data;
    }
    let mut merged = stored;
    let mut i: usize = 0;
    while i < mask.len()
        invariant
            i <= mask.len(),
            forall|key: Seq<char>| #[trigger]
                merged.field(key) == (if texts(mask@).take(i as int).contains(key) {
                    new_data.field(key)
                } else {
                    stored.field(key)
                }),
        decreases mask.len() - i,
    {
        let path = mask[i].as_str();
        let ghost before = merged;
        let ghost seen = texts(mask@).take(i as int);
        let ghost now = texts(mask@).take(i + 1);
        match new_data.get_field_value(path) {
            Ok(value) => {
                let _ = merged.set_field_value(path, value);
            },
            Err(_) => {},
        }
        assert forall|key: Seq<char>| #[trigger]
            merged.field(key) == (if now.contains(key) {
                new_data.field(key)
            } else {
                stored.field(key)
            }) by {
            new_data.lemma_field_shape(key);
            before.lemma_field_shape(key);
            if key == path@ {
                assert(now[i as int] == key);
            } else if seen.contains(key) {
                let j = choose|j: int| 0 <= j < seen.len() && seen[j] == key;
                assert(now[j] == key);
            } else if now.contains(key) {
                let j = choose|j: int| 0 <= j < now.len() && now[j] == key;
                assert(seen[j] == key);
            }
        }
        i += 1;
    }
    assert(texts(mask@).take(mask@.len() as int) =~= texts(mask@));
    merged
}

/// What an update does next.
#[derive(Debug)]
pub struct UpdatePlan<T> {
    /// The merged payload, where it passed validation.
    pub data: Option<T>,
    /// The statement that writes the merged payload; none where validation
    /// failed or there is no column to set.
    pub statement: Option<Statement>,
    /// What validation found of the merged payload.
    pub validation_result: ValidationResult,
}

/// What an update plans, given the id, the rows that the lookup of the
/// stored row found, the new payload and the paths of the mask.
///
/// The id must be the text of a UUID and the lookup must have found a row,
/// which is converted into the stored payload. The new payload is merged
/// onto it as the mask says and the result is validated. Where validation
/// fails nothing is written. Where it passes, the statement sets exactly
/// the parameters that validation bound.
pub open spec fn updates<T: Resource>(
    id: Seq<char>,
    loaded: Seq<Row>,
    new_data: T,
    mask: Seq<Seq<char>>,
    r: Result<UpdatePlan<T>, StorageError>,
) -> bool {
    if parsed_uuid(id).is_none() {
        r matches Err(StorageError::MalformedIdentity)
    } else if loaded.len() == 0 {
        r matches Err(StorageError::NotFound)
    } else {
        match first_unreadable::<T>(loaded[0]@, T::schema().fields.len() as int) {
            Some(i) => r matches Err(StorageError::Conversion(column)) && column@
                == T::schema().fields[i].0,
            None => r matches Ok(plan) && exists|merged: T| #[trigger]
                plans_write(id, loaded[0]@, new_data, mask, merged, plan),
        }
    }
}

/// Whether a plan is the one for writing the payload `merged`, which is the
/// new payload merged onto what the stored row holds.
pub open spec fn plans_write<T: Resource>(
    id: Seq<char>,
    stored_row: Seq<(Seq<char>, SqlView)>,
    new_data: T,
    mask: Seq<Seq<char>>,
    merged: T,
    plan: UpdatePlan<T>,
) -> bool {
    &&& forall|key: Seq<char>| #[trigger]
        merged.field(key) == (if mask.len() == 0 || mask.contains(key) {
            new_data.field(key)
        } else {
            row_field::<T>(stored_row, key)
        })
    &&& errors_view(plan.validation_result.errors@) == validation_errors(merged)
    &&& plan.validation_result.success == is_valid(merged)
    &&& plan.data.is_some() == is_valid(merged)
    &&& plan.data matches Some(data) ==> data == merged
    &&& match plan.statement {
        Some(statement) => {
            &&& is_valid(merged)
            &&& validation_params(merged).len() > 0
            &&& statement@.text == update_text(
                T::schema(),
                param_columns(validation_params(merged)),
            )
            &&& statement@.params == param_values(validation_params(merged)).push(
                SqlView::Uuid(parsed_uuid(id).unwrap()),
            )
        },
        None => !is_valid(merged) || validation_params(merged).len() == 0,
    }
}

/// Prepares an update, given the answer to the lookup of the stored row.
///
/// Nothing locks the row between the lookup and the write. Of two updates
/// of one id at the same time both succeed, and the one written last wins.
pub fn update<T: Resource>(id: &str, loaded: &Vec<Row>, new_data: T, mask: &Vec<String>) -> (r:
    Result<UpdatePlan<T>, StorageError>)
    ensures
        updates::<T>(id@, loaded@, new_data, texts(mask@), r),
{
    let uuid = try_get_uuid(id)?;
    let stored = found::<T>(loaded)?;
    let merged = merge(stored, new_data, mask);
    match validate(&merged) {
        Ok((params, validation_result)) => {
            if validation_result.success {
                let definition = T::get_definition();
                proof {
                    T::lemma_schema();
                    assert(columns_of(params@) =~= param_columns(params_view(params@)));
                    assert(values_of(params@) =~= param_values(params_view(params@)));
                }
                let statement = update_statement(&definition, uuid, &params);
                let plan = UpdatePlan { data: Some(merged), statement, validation_result };
                assert(plans_write(id@, loaded@[0]@, new_data, texts(mask@), merged, plan));
                Ok(plan)
            } else {
                let plan = UpdatePlan { data: None, statement: None, validation_result };
                assert(plans_write(id@, loaded@[0]@, new_data, texts(mask@), merged, plan));
                Ok(plan)
            }
        },
        Err(e) => Err(e),
    }
}

/// Reads the answer to the write of an update, if a statement was run:
/// the merged payload, where it passed validation, beside what validation
/// found.
///
/// Where the plan holds no statement there was nothing to write. Where it
/// holds one, a failure of the store stays the error it is, a write that
/// changed no live row is `NotFound`, and a statement that was not run is
/// a failure of the store.
pub fn updated<T: Resource>(plan: UpdatePlan<T>, written: Option<Result<u64, StorageError>>) -> (r:
    Result<(Option<T>, ValidationResult), StorageError>)
    ensures
        match (plan.statement, written) {
            (None, _) => r == Ok::<(Option<T>, ValidationResult), StorageError>(
                (plan.data, plan.validation_result),
            ),
            (Some(_), None) => r matches Err(StorageError::Store),
            (Some(_), Some(Err(error))) => r == Err::<(Option<T>, ValidationResult), StorageError>(
                error,
            ),
            (Some(_), Some(Ok(rows_affected))) => if rows_affected == 0 {
                r matches Err(StorageError::NotFound)
            } else {
                r == Ok::<(Option<T>, ValidationResult), StorageError>(
                    (plan.data, plan.validation_result),
                )
            },
        },
{
    if plan.statement.is_none() {
        return Ok((plan.data, plan.validation_result));
    }
    match written {
        None => Err(StorageError::Store),
        Some(Err(error)) => Err(error),
        Some(Ok(rows_affected)) => {
            changed(rows_affected)?;
            Ok((plan.data, plan.validation_result))
        },
    }
}

/// Prepares the deletion of the row with the given id. An id that is not
/// the text of a UUID is refused.
pub fn delete<T: Resource>(id: &str) -> (r: Result<Statement, StorageError>)
    ensures
        match parsed_uuid(id@) {
            Some(uuid) => r matches Ok(statement) && statement@.text == delete_text(T::schema())
                && statement@.params == seq![SqlView::Uuid(uuid)],
            None => r == Err::<Statement, StorageError>(StorageError::MalformedIdentity),
        },
{
    let uuid = try_get_uuid(id)?;
    let definition = T::get_definition();
    proof {
        T::lemma_schema();
    }
    Ok(delete_by_id(&definition, uuid))
}

/// Reads the answer to a deletion or an update: where no live row was
/// changed, the id is `NotFound`.
pub fn changed(rows_affected: u64) -> (r: Result<(), StorageError>)
    ensures
        rows_affected > 0 ==> r.is_ok(),
        rows_affected == 0 ==> r == Err::<(), StorageError>(StorageError::NotFound),
{
    if rows_affected == 0 {
        Err(StorageError::NotFound)
    } else {
        Ok(())
    }
}

} // verus!
