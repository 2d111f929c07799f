//! What a resource type provides to the generic engine.

use vstd::prelude::*;
use crate::error::StorageError;
use crate::field::{FieldView, GrpcField};
use crate::identity::{parsed_uuid, try_get_uuid};
use crate::native::{zero_of, Shape};
use crate::schema::{ResourceDefinition, Schema};
use crate::validation::ValidationResult;

verus! {

/// Access to the fields of a payload by name.
pub trait GrpcDataObjectType: Sized {
    /// The value of the field of that name; none where the payload has no
    /// such field.
    spec fn field(&self, key: Seq<char>) -> Option<FieldView>;

    /// The value of the field of that name.
    fn get_field_value(&self, key: &str) -> (r: Result<GrpcField, StorageError>)
        ensures
            match self.field(key@) {
                Some(v) => r matches Ok(f) && f@ == v,
                None => r matches Err(StorageError::UnknownField(name)) && name@ == key@,
            },
    ;
}

/// A payload type with its table: the capabilities the engine is generic
/// over.
pub trait Resource: GrpcDataObjectType {
    /// The description of the table.
    spec fn schema() -> Schema;

    /// The shape of the field of that name, the same in every payload; none
    /// where payloads have no such field.
    spec fn shape(key: Seq<char>) -> Option<Shape>;

    /// Every payload has exactly the fields that have a shape, each of its
    /// shape.
    proof fn lemma_field_shape(&self, key: Seq<char>)
        ensures
            match self.field(key) {
                Some(v) => v.shape() == Self::shape(key) && Self::shape(key).is_some(),
                None => Self::shape(key).is_none(),
            },
    ;

    /// The table is well described.
    proof fn lemma_schema()
        ensures
            Self::schema().well_formed(),
    ;

    /// The fields of a payload are the columns that callers set.
    proof fn lemma_shape(key: Seq<char>)
        ensures
            Self::shape(key).is_some() <==> Self::schema().has_data_field(key),
    ;

    /// The description of the table.
    fn get_definition() -> (definition: ResourceDefinition)
        ensures
            definition@ == Self::schema(),
    ;

    /// A payload with every field at its zero value.
    fn blank() -> (data: Self)
        ensures
            forall|key: Seq<char>| #[trigger]
                data.field(key) == match Self::shape(key) {
                    Some(shape) => Some(zero_of(shape)),
                    None => None,
                },
    ;

    /// Sets the field of that name. A value of another shape than the
    /// field's is refused, and so is a name that is no field; the payload
    /// is then unchanged.
    fn set_field_value(&mut self, key: &str, value: GrpcField) -> (r: Result<(), StorageError>)
        ensures
            match Self::shape(key@) {
                None => r matches Err(StorageError::UnknownField(name)) && name@ == key@
                    && forall|k: Seq<char>| #[trigger]
                        final(self).field(k) == old(self).field(k),
                Some(shape) => if value@.shape() == Some(shape) {
                    r.is_ok() && forall|k: Seq<char>| #[trigger]
                        final(self).field(k) == if k == key@ {
                            Some(value@)
                        } else {
                            old(self).field(k)
                        }
                } else {
                    r matches Err(StorageError::Conversion(name)) && name@ == key@
                        && forall|k: Seq<char>| #[trigger]
                            final(self).field(k) == old(self).field(k)
                },
            },
    ;
}

/// A resource: its id, as UUID text, and its payload. Without a payload
/// the identity is known and the payload is not loaded.
#[derive(Clone, Debug, PartialEq)]
pub struct ResourceObject<T> {
    pub id: String,
    pub data: Option<T>,
}

impl<T> ResourceObject<T> {
    /// The id as a UUID.
    pub fn try_get_uuid(&self) -> (r: Result<u128, StorageError>)
        ensures
            match parsed_uuid(self.id@) {
                Some(uuid) => r == Ok::<u128, StorageError>(uuid),
                None => r == Err::<u128, StorageError>(StorageError::MalformedIdentity),
            },
    {
        try_get_uuid(self.id.as_str())
    }

    /// The payload, which must be there.
    pub fn try_get_data(&self) -> (r: Result<&T, StorageError>)
        ensures
            match self.data {
                Some(data) => r == Ok::<&T, StorageError>(&data),
                None => r == Err::<&T, StorageError>(StorageError::NoData),
            },
    {
        match &self.data {
            Some(data) => Ok(data),
            None => Err(StorageError::NoData),
        }
    }

    /// Sets the payload.
    pub fn set_data(&mut self, data: T)
        ensures
            final(self).data == Some(data),
            final(self).id == old(self).id,
    {
        self.data = Some(data);
    }

    /// Sets the id.
    pub fn set_id(&mut self, id: String)
        ensures
            final(self).id == id,
            final(self).data == old(self).data,
    {
        self.id = id;
    }
}

/// The outcome of an insert or an update: what validation found, and the
/// resource where it was written.
#[derive(Clone, Debug, PartialEq)]
pub struct GenericResourceResult<T> {
    pub validation_result: ValidationResult,
    pub resource: Option<ResourceObject<T>>,
}

} // verus!
