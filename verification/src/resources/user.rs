//! Users.

use vstd::prelude::*;
use vstd::string::StringExecFns;
use crate::engine::UpdatePlan;
use crate::error::StorageError;
use crate::field::{FieldView, GrpcField};
use crate::grpc::{
    answers_delete, answers_insert, answers_lookup, answers_search, prepares_update,
    GrpcObjectType, Id, Status, UpdateObject,
};
use crate::names::first_index_from;
use crate::native::{FieldKind, Shape};
use crate::resources::base::{
    GenericResourceResult, GrpcDataObjectType, Resource, ResourceObject,
};
use crate::row::Row;
use crate::schema::{FieldDefinition, FieldSpec, PsqlFieldType, ResourceDefinition, Schema};
use crate::text::str_eq;
use crate::validation::ValidationResult;

verus! {

/// The payload of a user.
#[derive(Clone, Debug, PartialEq)]
pub struct Data {
    pub first_name: String,
    pub last_name: String,
    /// The number of the authentication method.
    pub auth_method: i32,
}

impl GrpcDataObjectType for Data {
    open spec fn field(&self, key: Seq<char>) -> Option<FieldView> {
        if key == "first_name"@ {
            Some(FieldView::String(self.first_name@))
        } else if key == "last_name"@ {
            Some(FieldView::String(self.last_name@))
        } else if key == "auth_method"@ {
            Some(FieldView::I32(self.auth_method))
        } else {
            None
        }
    }

    fn get_field_value(&self, key: &str) -> (r: Result<GrpcField, StorageError>) {
        if str_eq(key, "first_name") {
            Ok(GrpcField::String(self.first_name.clone()))
        } else if str_eq(key, "last_name") {
            Ok(GrpcField::String(self.last_name.clone()))
        } else if str_eq(key, "auth_method") {
            Ok(GrpcField::I32(self.auth_method))
        } else {
            Err(StorageError::UnknownField(String::from_str(key)))
        }
    }
}

impl Resource for Data {
    open spec fn schema() -> Schema {
        Schema {
            table: "user"@,
            id_cols: seq!["user_id"@],
            fields: seq![
                (
                    "first_name"@,
                    FieldSpec {
                        field_type: PsqlFieldType::Text,
                        mandatory: true,
                        internal: false,
                        default: None,
                    },
                ),
                (
                    "last_name"@,
                    FieldSpec {
                        field_type: PsqlFieldType::Text,
                        mandatory: true,
                        internal: false,
                        default: None,
                    },
                ),
                (
                    "auth_method"@,
                    FieldSpec {
                        field_type: PsqlFieldType::Int4,
                        mandatory: true,
                        internal: false,
                        default: None,
                    },
                ),
                (
                    "deleted_at"@,
                    FieldSpec {
                        field_type: PsqlFieldType::Timestamptz,
                        mandatory: false,
                        internal: true,
                        default: None,
                    },
                ),
            ],
        }
    }

    open spec fn shape(key: Seq<char>) -> Option<Shape> {
        if key == "first_name"@ {
            Some(Shape { kind: FieldKind::String, optional: false })
        } else if key == "last_name"@ {
            Some(Shape { kind: FieldKind::String, optional: false })
        } else if key == "auth_method"@ {
            Some(Shape { kind: FieldKind::I32, optional: false })
        } else {
            None
        }
    }

    proof fn lemma_field_shape(&self, key: Seq<char>) {
    }

    proof fn lemma_schema() {
        reveal_strlit("first_name");
        reveal_strlit("last_name");
        reveal_strlit("auth_method");
        reveal_strlit("deleted_at");
        reveal_strlit("user_id");
        let names = Self::schema().names();
        let ids = Self::schema().id_cols;
        assert(names[0].len() == 10);
        assert(names[0][0] == 'f');
        assert(names[1].len() == 9);
        assert(names[2].len() == 11);
        assert(names[3].len() == 10);
        assert(names[3][0] == 'd');
        assert(ids[0].len() == 7);
    }

    proof fn lemma_shape(key: Seq<char>) {
        reveal_with_fuel(first_index_from, 5);
        let names = Self::schema().names();
        assert(names[0] == "first_name"@);
        assert(names[1] == "last_name"@);
        assert(names[2] == "auth_method"@);
        assert(names[3] == "deleted_at"@);
    }

    fn get_definition() -> (definition: ResourceDefinition) {
        let mut fields: Vec<(String, FieldDefinition)> = Vec::new();
        fields.push(
            (
                String::from_str("first_name"),
                FieldDefinition::new(PsqlFieldType::Text, true),
            ),
        );
        fields.push(
            (
                String::from_str("last_name"),
                FieldDefinition::new(PsqlFieldType::Text, true),
            ),
        );
        fields.push(
            (
                String::from_str("auth_method"),
                FieldDefinition::new(PsqlFieldType::Int4, true),
            ),
        );
        fields.push(
            (
                String::from_str("deleted_at"),
                FieldDefinition::new_internal(PsqlFieldType::Timestamptz, false),
            ),
        );
        let mut id_cols: Vec<String> = Vec::new();
        id_cols.push(String::from_str("user_id"));
        let definition = ResourceDefinition {
            psql_table: String::from_str("user"),
            psql_id_cols: id_cols,
            fields,
        };
        assert(definition@.id_cols =~= Self::schema().id_cols);
        assert(definition@.fields =~= Self::schema().fields);
        definition
    }

    fn blank() -> (data: Self) {
        Data {
            first_name: String::new(),
            last_name: String::new(),
            auth_method: 0,
        }
    }

    fn set_field_value(&mut self, key: &str, value: GrpcField) -> (r: Result<(), StorageError>) {
        if str_eq(key, "first_name") {
            match value {
                GrpcField::String(value) => {
                    self.first_name = value;
                    Ok(())
                },
                _ => Err(StorageError::Conversion(String::from_str(key))),
            }
        } else if str_eq(key, "last_name") {
            match value {
                GrpcField::String(value) => {
                    self.last_name = value;
                    Ok(())
                },
                _ => Err(StorageError::Conversion(String::from_str(key))),
            }
        } else if str_eq(key, "auth_method") {
            match value {
                GrpcField::I32(value) => {
                    self.auth_method = value;
                    Ok(())
                },
                _ => Err(StorageError::Conversion(String::from_str(key))),
            }
        } else {
            Err(StorageError::UnknownField(String::from_str(key)))
        }
    }
}

/// The endpoints of the user service. Each takes what the store
/// answered and gives what a client is told.
#[derive(Clone, Copy, Debug, Default)]
pub struct UserImpl {}

impl UserImpl {
    /// Answers the lookup of a user by its id.
    pub fn user_by_id(&self, id: &Id, answer: Result<Vec<Row>, StorageError>) -> (r: Result<
        ResourceObject<Data>,
        Status,
    >)
        ensures
            answers_lookup::<Data>(id.id@, answer, r),
    {
        self.generic_get_by_id(id, answer)
    }

    /// Answers a search for users.
    pub fn users(&self, answer: Result<Vec<Row>, StorageError>) -> (r: Result<
        Vec<ResourceObject<Data>>,
        Status,
    >)
        ensures
            answers_search::<Data>(answer, r),
    {
        self.generic_get_all_with_filter(answer)
    }

    /// Answers the insertion of a user.
    pub fn insert_user(
        &self,
        data: Data,
        created: Result<(Option<u128>, ValidationResult), StorageError>,
    ) -> (r: Result<GenericResourceResult<Data>, Status>)
        ensures
            answers_insert(data, created, r),
    {
        self.generic_insert(data, created)
    }

    /// Prepares the update of a user, given the answer to the lookup of
    /// the stored row. What the write gave is answered by
    /// [`GrpcObjectType::generic_update`].
    pub fn update_user(
        &self,
        request: UpdateObject<Data>,
        loaded: Result<Vec<Row>, StorageError>,
    ) -> (r: Result<UpdatePlan<Data>, Status>)
        ensures
            prepares_update(request, loaded, r),
    {
        self.generic_prepare_update(request, loaded)
    }

    /// Answers the deletion of a user.
    pub fn delete_user(&self, id: &Id, deleted: Result<(), StorageError>) -> (r: Result<
        (),
        Status,
    >)
        ensures
            answers_delete(id.id@, deleted, r),
    {
        self.generic_delete(id, deleted)
    }
}

impl GrpcObjectType<Data> for UserImpl {}

} // verus!
