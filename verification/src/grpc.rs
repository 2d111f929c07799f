//! The protocol binding: the requests that arrive, and what a client is
//! told of the engine's outcomes: responses and status codes.

use vstd::prelude::*;
use vstd::string::StringExecFns;
use crate::engine::{update, updates, UpdatePlan};
use crate::error::StorageError;
use crate::identity::{format_uuid, parsed_uuid, try_get_uuid, uuid_text};
use crate::links::id_in;
use crate::native::{SqlValue, SqlView};
use crate::resources::base::{GenericResourceResult, GrpcDataObjectType, Resource, ResourceObject};
use crate::row::{first_unreadable, row_field, try_from_row, Row};
use crate::schema::texts;
use crate::validation::ValidationResult;

verus! {

/// The id of a resource, as UUID text.
#[derive(Clone, Debug, PartialEq)]
pub struct Id {
    pub id: String,
}

/// The fields that an update applies.
#[derive(Clone, Debug, PartialEq)]
pub struct FieldMask {
    pub paths: Vec<String>,
}

/// A request to update a resource.
#[derive(Clone, Debug, PartialEq)]
pub struct UpdateObject<T> {
    pub id: String,
    pub data: Option<T>,
    pub mask: Option<FieldMask>,
}

/// The question whether the service is available.
#[derive(Clone, Copy, Debug, PartialEq, Eq)]
pub struct ReadyRequest {}

/// The answer to it.
#[derive(Clone, Copy, Debug, PartialEq, Eq, Structural)]
pub struct ReadyResponse {
    pub ready: bool,
}

/// The kind of a failure, as a client sees it.
#[derive(Clone, Copy, Debug, PartialEq, Eq, Structural)]
pub enum Code {
    Cancelled,
    NotFound,
    Internal,
}

/// A failure, as a client sees it.
#[derive(Clone, Debug, PartialEq)]
pub struct Status {
    pub code: Code,
    pub message: String,
}

/// The message that stands for every internal failure. It says nothing of
/// what failed.
pub open spec fn internal_message() -> Seq<char> {
    "error"@
}

/// The message for an id that no live row has.
pub open spec fn not_found_message(id: Seq<char>) -> Seq<char> {
    "No resource found for specified uuid: "@ + id
}

/// The message for an update without a payload.
pub open spec fn no_data_message(id: Seq<char>) -> Seq<char> {
    "No data provided for update with id: "@ + id
}

/// The code and the message that a client gets for an error.
pub open spec fn status_view(error: StorageError, id: Seq<char>) -> (Code, Seq<char>) {
    if error is NotFound {
        (Code::NotFound, not_found_message(id))
    } else {
        (Code::Internal, internal_message())
    }
}

impl Status {
    /// The status of an internal failure.
    pub fn internal() -> (status: Status)
        ensures
            status.code == Code::Internal,
            status.message@ == internal_message(),
    {
        Status { code: Code::Internal, message: String::from_str("error") }
    }

    /// The status for an id that no live row has.
    pub fn not_found(id: &str) -> (status: Status)
        ensures
            status.code == Code::NotFound,
            status.message@ == not_found_message(id@),
    {
        let mut message = String::from_str("No resource found for specified uuid: ");
        message.append(id);
        Status { code: Code::NotFound, message }
    }

    /// What a client is told of an error that arose on the resource with
    /// the given id. Only `NotFound` is told as it is; every other error
    /// becomes the same internal failure, whatever it carries.
    pub fn from_error(error: &StorageError, id: &str) -> (status: Status)
        ensures
            (status.code, status.message@) == status_view(*error, id@),
    {
        match error {
            StorageError::NotFound => Status::not_found(id),
            _ => Status::internal(),
        }
    }
}

/// The service itself.
#[derive(Clone, Copy, Debug, Default)]
pub struct StorageImpl {}

impl StorageImpl {
    /// Whether the service is available: it is.
    pub fn is_ready(&self, _request: ReadyRequest) -> (response: ReadyResponse)
        ensures
            response.ready,
    {
        ReadyResponse { ready: true }
    }
}

impl<T> UpdateObject<T> {
    /// Takes an update request apart: the id, the payload and the paths of
    /// the mask, none where there is no mask. A request without a payload
    /// is cancelled.
    pub fn into_parts(self) -> (r: Result<(String, T, Vec<String>), Status>)
        ensures
            match self.data {
                Some(data) => r matches Ok(parts) && parts.0 == self.id && parts.1 == data && (
                match self.mask {
                    Some(mask) => parts.2 == mask.paths,
                    None => parts.2@.len() == 0,
                }),
                None => r matches Err(status) && status.code == Code::Cancelled && status.message@
                    == no_data_message(self.id@),
            },
    {
        match self.data {
            Some(data) => {
                let paths = match self.mask {
                    Some(mask) => mask.paths,
                    None => Vec::new(),
                };
                Ok((self.id, data, paths))
            },
            None => {
                let mut message = String::from_str("No data provided for update with id: ");
                message.append(self.id.as_str());
                Err(Status { code: Code::Cancelled, message })
            },
        }
    }
}

/// Whether a row gives a resource of type `T`: an id in the id column and
/// a value for every field.
pub open spec fn is_object_row<T: Resource>(row: Seq<(Seq<char>, SqlView)>) -> bool {
    id_in(row, T::schema().id_cols[0]).is_some() && first_unreadable::<T>(
        row,
        T::schema().fields.len() as int,
    ).is_none()
}

/// Whether each row of a list gives a resource of type `T`.
pub open spec fn all_object_rows<T: Resource>(rows: Seq<Row>) -> bool {
    forall|i: int| 0 <= i < rows.len() ==> is_object_row::<T>(#[trigger] rows[i]@)
}

/// Whether a resource is what a row gives.
pub open spec fn is_object_of<T: Resource>(
    object: ResourceObject<T>,
    row: Seq<(Seq<char>, SqlView)>,
) -> bool {
    &&& id_in(row, T::schema().id_cols[0]) matches Some(id)
    &&& object.id@ == uuid_text(id)
    &&& object.data matches Some(data)
    &&& forall|key: Seq<char>| #[trigger] data.field(key) == row_field::<T>(row, key)
}

/// What answers a lookup by id.
///
/// An id that is not the text of a UUID is an internal failure, and so is
/// a failure of the store and a row that cannot be converted. No row is
/// `NotFound`. Otherwise the answer is the resource with the id asked for
/// and the payload of the first row.
pub open spec fn answers_lookup<T: Resource>(
    id: Seq<char>,
    answer: Result<Vec<Row>, StorageError>,
    r: Result<ResourceObject<T>, Status>,
) -> bool {
    match r {
        Ok(object) => {
            &&& parsed_uuid(id).is_some()
            &&& answer matches Ok(rows)
            &&& rows@.len() > 0
            &&& first_unreadable::<T>(rows@[0]@, T::schema().fields.len() as int).is_none()
            &&& object.id@ == id
            &&& object.data matches Some(data)
            &&& forall|key: Seq<char>| #[trigger] data.field(key) == row_field::<T>(rows@[0]@, key)
        },
        Err(status) => {
            if parsed_uuid(id).is_some() && answer.is_ok() && answer->Ok_0@.len() == 0 {
                status.code == Code::NotFound && status.message@ == not_found_message(id)
            } else {
                &&& status.code == Code::Internal
                &&& status.message@ == internal_message()
                &&& parsed_uuid(id).is_none() || answer.is_err() || first_unreadable::<T>(
                    answer->Ok_0@[0]@,
                    T::schema().fields.len() as int,
                ).is_some()
            }
        },
    }
}

/// What answers a search.
///
/// A failure of the store is an internal failure, and so is a row without
/// an id or one that cannot be converted. Otherwise the answer holds one
/// resource for each row, in the order of the rows.
pub open spec fn answers_search<T: Resource>(
    answer: Result<Vec<Row>, StorageError>,
    r: Result<Vec<ResourceObject<T>>, Status>,
) -> bool {
    match r {
        Ok(list) => {
            &&& answer matches Ok(rows)
            &&& list@.len() == rows@.len()
            &&& all_object_rows::<T>(rows@)
            &&& forall|i: int|
                0 <= i < rows@.len() ==> is_object_of::<T>(#[trigger] list@[i], rows@[i]@)
        },
        Err(status) => {
            &&& status.code == Code::Internal
            &&& status.message@ == internal_message()
            &&& answer.is_err() || !all_object_rows::<T>(answer->Ok_0@)
        },
    }
}

/// What answers an insert.
///
/// A failure of the store is an internal failure; it is not folded into
/// the validation result. With an id the answer holds the resource, its id
/// as text; without one it holds no resource.
pub open spec fn answers_insert<T: Resource>(
    data: T,
    created: Result<(Option<u128>, ValidationResult), StorageError>,
    r: Result<GenericResourceResult<T>, Status>,
) -> bool {
    match created {
        Err(_) => r matches Err(status) && status.code == Code::Internal && status.message@
            == internal_message(),
        Ok((Some(id), validation_result)) => {
            &&& r matches Ok(result)
            &&& result.validation_result == validation_result
            &&& result.resource matches Some(object)
            &&& object.id@ == uuid_text(id)
            &&& parsed_uuid(object.id@) == Some(id)
            &&& object.data == Some(data)
        },
        Ok((None, validation_result)) => r matches Ok(result) && result.validation_result
            == validation_result && result.resource.is_none(),
    }
}

/// What answers an update.
///
/// `NotFound` is told as it is; every other error is an internal failure.
/// With a payload the answer holds the resource under the id of the
/// request; without one it holds no resource.
pub open spec fn answers_update<T: Resource>(
    id: Seq<char>,
    updated: Result<(Option<T>, ValidationResult), StorageError>,
    r: Result<GenericResourceResult<T>, Status>,
) -> bool {
    match updated {
        Err(error) => r matches Err(status) && (status.code, status.message@) == status_view(
            error,
            id,
        ),
        Ok((Some(data), validation_result)) => {
            &&& r matches Ok(result)
            &&& result.validation_result == validation_result
            &&& result.resource matches Some(object)
            &&& object.id@ == id
            &&& object.data == Some(data)
        },
        Ok((None, validation_result)) => r matches Ok(result) && result.validation_result
            == validation_result && result.resource.is_none(),
    }
}

/// What answers a deletion. `NotFound` is told as it is; every other
/// error is an internal failure.
pub open spec fn answers_delete(id: Seq<char>, deleted: Result<(), StorageError>, r: Result<
    (),
    Status,
>) -> bool {
    match deleted {
        Ok(_) => r.is_ok(),
        Err(error) => r matches Err(status) && (status.code, status.message@) == status_view(
            error,
            id,
        ),
    }
}

/// The paths of a mask; none where there is no mask.
pub open spec fn mask_paths(mask: Option<FieldMask>) -> Seq<Seq<char>> {
    match mask {
        Some(mask) => texts(mask.paths@),
        None => Seq::empty(),
    }
}

/// What prepares an update.
///
/// A request without a payload is cancelled. A failure of the store while
/// looking up the stored row is an internal failure. Otherwise the outcome
/// is that of the engine's `update` on the id, the rows found, the payload
/// and the paths of the mask; of its errors `NotFound` is told as it is and
/// every other is an internal failure.
pub open spec fn prepares_update<T: Resource>(
    request: UpdateObject<T>,
    loaded: Result<Vec<Row>, StorageError>,
    r: Result<UpdatePlan<T>, Status>,
) -> bool {
    match request.data {
        None => r matches Err(status) && status.code == Code::Cancelled && status.message@
            == no_data_message(request.id@),
        Some(data) => match loaded {
            Err(_) => r matches Err(status) && status.code == Code::Internal && status.message@
                == internal_message(),
            Ok(rows) => match r {
                Ok(plan) => updates::<T>(
                    request.id@,
                    rows@,
                    data,
                    mask_paths(request.mask),
                    Ok(plan),
                ),
                Err(status) => exists|error: StorageError| #[trigger]
                    updates::<T>(request.id@, rows@, data, mask_paths(request.mask), Err(error))
                        && (status.code, status.message@) == status_view(error, request.id@),
            },
        },
    }
}

/// The endpoints of a resource service, written once for every resource
/// type. Each takes what the store answered and gives what a client is
/// told.
pub trait GrpcObjectType<T: Resource> {
    /// Answers a lookup by id, given what the store answered.
    fn generic_get_by_id(&self, id: &Id, answer: Result<Vec<Row>, StorageError>) -> (r:
        Result<ResourceObject<T>, Status>)
        ensures
            answers_lookup::<T>(id.id@, answer, r),
    {
        if try_get_uuid(id.id.as_str()).is_err() {
            return Err(Status::internal());
        }
        match answer {
            Err(_) => Err(Status::internal()),
            Ok(rows) => {
                if rows.len() == 0 {
                    Err(Status::not_found(id.id.as_str()))
                } else {
                    match try_from_row::<T>(&rows[0]) {
                        Ok(data) => Ok(ResourceObject { id: id.id.clone(), data: Some(data) }),
                        Err(_) => Err(Status::internal()),
                    }
                }
            },
        }
    }

    /// Answers a search, given what the store answered.
    fn generic_get_all_with_filter(&self, answer: Result<Vec<Row>, StorageError>) -> (r:
        Result<Vec<ResourceObject<T>>, Status>)
        ensures
            answers_search::<T>(answer, r),
    {
        let rows = match answer {
            Ok(rows) => rows,
            Err(_) => {
                return Err(Status::internal());
            },
        };
        let definition = T::get_definition();
        proof {
            T::lemma_schema();
        }
        let id_col = definition.psql_id_cols[0].as_str();
        let mut list: Vec<ResourceObject<T>> = Vec::new();
        let mut i: usize = 0;
        while i < rows.len()
            invariant
                i <= rows.len(),
                answer == Ok::<Vec<Row>, StorageError>(rows),
                T::schema().id_cols.len() >= 1,
                id_col@ == T::schema().id_cols[0],
                list@.len() == i,
                forall|j: int| 0 <= j < i ==> is_object_row::<T>(#[trigger] rows@[j]@),
                forall|j: int| 0 <= j < i ==> is_object_of::<T>(#[trigger] list@[j], rows@[j]@),
            decreases rows.len() - i,
        {
            let id = match rows[i].get(id_col) {
                Some(SqlValue::Uuid(id)) => *id,
                _ => {
                    return Err(Status::internal());
                },
            };
            match try_from_row::<T>(&rows[i]) {
                Ok(data) => {
                    list.push(ResourceObject { id: format_uuid(id), data: Some(data) });
                },
                Err(_) => {
                    return Err(Status::internal());
                },
            }
            i += 1;
        }
        Ok(list)
    }

    /// Answers an insert, given what creating the row gave: the id that the
    /// store generated, where validation passed and the row was written, and
    /// what validation found.
    fn generic_insert(
        &self,
        data: T,
        created: Result<(Option<u128>, ValidationResult), StorageError>,
    ) -> (r: Result<GenericResourceResult<T>, Status>)
        ensures
            answers_insert(data, created, r),
    {
        match created {
            Err(_) => Err(Status::internal()),
            Ok((Some(id), validation_result)) => Ok(
                GenericResourceResult {
                    validation_result,
                    resource: Some(ResourceObject { id: format_uuid(id), data: Some(data) }),
                },
            ),
            Ok((None, validation_result)) => Ok(
                GenericResourceResult { validation_result, resource: None },
            ),
        }
    }

    /// Prepares an update, given the answer to the lookup of the stored row:
    /// takes the request apart, lets the engine merge and validate, and turns
    /// its errors into what a client is told.
    fn generic_prepare_update(&self, request: UpdateObject<T>, loaded: Result<
        Vec<Row>,
        StorageError,
    >) -> (r: Result<UpdatePlan<T>, Status>)
        ensures
            prepares_update(request, loaded, r),
    {
        let (id, data, paths) = match request.into_parts() {
            Ok(parts) => parts,
            Err(status) => {
                return Err(status);
            },
        };
        let rows = match loaded {
            Ok(rows) => rows,
            Err(_) => {
                return Err(Status::internal());
            },
        };
        assert(texts(paths@) =~= mask_paths(request.mask));
        match update::<T>(id.as_str(), &rows, data, &paths) {
            Ok(plan) => Ok(plan),
            Err(error) => {
                Err(Status::from_error(&error, id.as_str()))
            },
        }
    }

    /// Answers an update, given what updating the row gave: the merged
    /// payload, where validation passed and the row was written, and what
    /// validation found.
    fn generic_update(
        &self,
        id: &str,
        updated: Result<(Option<T>, ValidationResult), StorageError>,
    ) -> (r: Result<GenericResourceResult<T>, Status>)
        ensures
            answers_update(id@, updated, r),
    {
        match updated {
            Err(error) => Err(Status::from_error(&error, id)),
            Ok((Some(data), validation_result)) => Ok(
                GenericResourceResult {
                    validation_result,
                    resource: Some(ResourceObject { id: String::from_str(id), data: Some(data) }),
                },
            ),
            Ok((None, validation_result)) => Ok(
                GenericResourceResult { validation_result, resource: None },
            ),
        }
    }

    /// Answers a deletion, given what deleting the row gave.
    fn generic_delete(&self, id: &Id, deleted: Result<(), StorageError>) -> (r: Result<(), Status>)
        ensures
            answers_delete(id.id@, deleted, r),
    {
        match deleted {
            Ok(_) => Ok(()),
            Err(error) => Err(Status::from_error(&error, id.id.as_str())),
        }
    }
}

/// A service for any resource type.
#[derive(Clone, Copy, Debug, Default)]
pub struct GrpcServer {}

impl<T: Resource> GrpcObjectType<T> for GrpcServer {}

} // verus!
