//! Vertipads.

use vstd::prelude::*;
use vstd::string::StringExecFns;
use crate::engine::UpdatePlan;
use crate::error::StorageError;
use crate::field::{FieldOptionView, FieldView, GrpcField, GrpcFieldOption};
use crate::grpc::{
    answers_delete, answers_insert, answers_lookup, answers_search, prepares_update,
    GrpcObjectType, Id, Status, UpdateObject,
};
use crate::names::first_index_from;
use crate::native::{FieldKind, Shape};
use crate::resources::base::{
    GenericResourceResult, GrpcDataObjectType, Resource, ResourceObject,
};
use crate::row::Row;
use crate::schema::{FieldDefinition, FieldSpec, PsqlFieldType, ResourceDefinition, Schema};
use crate::text::str_eq;
use crate::validation::ValidationResult;

verus! {

/// The payload of a vertipad.
#[derive(Clone, Debug, PartialEq)]
pub struct Data {
    /// The id of the vertiport that the pad belongs to, as UUID text.
    pub vertiport_id: String,
    pub description: String,
    /// The bits of the longitude, a 64-bit float.
    pub longitude: u64,
    /// The bits of the latitude, a 64-bit float.
    pub latitude: u64,
    pub enabled: bool,
    pub occupied: bool,
    pub schedule: Option<String>,
}

impl GrpcDataObjectType for Data {
    open spec fn field(&self, key: Seq<char>) -> Option<FieldView> {
        if key == "vertiport_id"@ {
            Some(FieldView::String(self.vertiport_id@))
        } else if key == "description"@ {
            Some(FieldView::String(self.description@))
        } else if key == "longitude"@ {
            Some(FieldView::F64(self.longitude))
        } else if key == "latitude"@ {
            Some(FieldView::F64(self.latitude))
        } else if key == "enabled"@ {
            Some(FieldView::Bool(self.enabled))
        } else if key == "occupied"@ {
            Some(FieldView::Bool(self.occupied))
        } else if key == "schedule"@ {
            Some(
                FieldView::Option(
                    FieldOptionView::String(
                        match self.schedule {
                            Some(value) => Some(value@),
                            None => None,
                        },
                    ),
                )
            )
        } else {
            None
        }
    }

    fn get_field_value(&self, key: &str) -> (r: Result<GrpcField, StorageError>) {
        if str_eq(key, "vertiport_id") {
            Ok(GrpcField::String(self.vertiport_id.clone()))
        } else if str_eq(key, "description") {
            Ok(GrpcField::String(self.description.clone()))
        } else if str_eq(key, "longitude") {
            Ok(GrpcField::F64(self.longitude))
        } else if str_eq(key, "latitude") {
            Ok(GrpcField::F64(self.latitude))
        } else if str_eq(key, "enabled") {
            Ok(GrpcField::Bool(self.enabled))
        } else if str_eq(key, "occupied") {
            Ok(GrpcField::Bool(self.occupied))
        } else if str_eq(key, "schedule") {
            Ok(
                GrpcField::Option(
                    GrpcFieldOption::String(
                        match &self.schedule {
                            Some(value) => Some(value.clone()),
                            None => None,
                        },
                    ),
                )
            )
        } else {
            Err(StorageError::UnknownField(String::from_str(key)))
        }
    }
}

impl Resource for Data {
    open spec fn schema() -> Schema {
        Schema {
            table: "vertipad"@,
            id_cols: seq!["vertipad_id"@],
            fields: seq![
                (
                    "vertiport_id"@,
                    FieldSpec {
                        field_type: PsqlFieldType::Uuid,
                        mandatory: true,
                        internal: false,
                        default: None,
                    },
                ),
                (
                    "description"@,
                    FieldSpec {
                        field_type: PsqlFieldType::Text,
                        mandatory: true,
                        internal: false,
                        default: None,
                    },
                ),
                (
                    "longitude"@,
                    FieldSpec {
                        field_type: PsqlFieldType::Float8,
                        mandatory: true,
                        internal: false,
                        default: None,
                    },
                ),
                (
                    "latitude"@,
                    FieldSpec {
                        field_type: PsqlFieldType::Float8,
                        mandatory: true,
                        internal: false,
                        default: None,
                    },
                ),
                (
                    "enabled"@,
                    FieldSpec {
                        field_type: PsqlFieldType::Bool,
                        mandatory: true,
                        internal: false,
                        default: None,
                    },
                ),
                (
                    "occupied"@,
                    FieldSpec {
                        field_type: PsqlFieldType::Bool,
                        mandatory: true,
                        internal: false,
                        default: None,
                    },
                ),
                (
                    "schedule"@,
                    FieldSpec {
                        field_type: PsqlFieldType::Text,
                        mandatory: false,
                        internal: false,
                        default: None,
                    },
                ),
                (
                    "deleted_at"@,
                    FieldSpec {
                        field_type: PsqlFieldType::Timestamptz,
                        mandatory: false,
                        internal: true,
                        default: None,
                    },
                ),
            ],
        }
    }

    open spec fn shape(key: Seq<char>) -> Option<Shape> {
        if key == "vertiport_id"@ {
            Some(Shape { kind: FieldKind::String, optional: false })
        } else if key == "description"@ {
            Some(Shape { kind: FieldKind::String, optional: false })
        } else if key == "longitude"@ {
            Some(Shape { kind: FieldKind::F64, optional: false })
        } else if key == "latitude"@ {
            Some(Shape { kind: FieldKind::F64, optional: false })
        } else if key == "enabled"@ {
            Some(Shape { kind: FieldKind::Bool, optional: false })
        } else if key == "occupied"@ {
            Some(Shape { kind: FieldKind::Bool, optional: false })
        } else if key == "schedule"@ {
            Some(Shape { kind: FieldKind::String, optional: true })
        } else {
            None
        }
    }

    proof fn lemma_field_shape(&self, key: Seq<char>) {
    }

    proof fn lemma_schema() {
        reveal_strlit("vertiport_id");
        reveal_strlit("description");
        reveal_strlit("longitude");
        reveal_strlit("latitude");
        reveal_strlit("enabled");
        reveal_strlit("occupied");
        reveal_strlit("schedule");
        reveal_strlit("deleted_at");
        reveal_strlit("vertipad_id");
        let names = Self::schema().names();
        let ids = Self::schema().id_cols;
        assert(names[0].len() == 12);
        assert(names[1].len() == 11);
        assert(names[1][0] == 'd');
        assert(names[2].len() == 9);
        assert(names[3].len() == 8);
        assert(names[3][0] == 'l');
        assert(names[4].len() == 7);
        assert(names[5].len() == 8);
        assert(names[5][0] == 'o');
        assert(names[6].len() == 8);
        assert(names[6][0] == 's');
        assert(names[7].len() == 10);
        assert(ids[0].len() == 11);
        assert(ids[0][0] == 'v');
    }

    proof fn lemma_shape(key: Seq<char>) {
        reveal_with_fuel(first_index_from, 9);
        let names = Self::schema().names();
        assert(names[0] == "vertiport_id"@);
        assert(names[1] == "description"@);
        assert(names[2] == "longitude"@);
        assert(names[3] == "latitude"@);
        assert(names[4] == "enabled"@);
        assert(names[5] == "occupied"@);
        assert(names[6] == "schedule"@);
        assert(names[7] == "deleted_at"@);
    }

    fn get_definition() -> (definition: ResourceDefinition) {
        let mut fields: Vec<(String, FieldDefinition)> = Vec::new();
        fields.push(
            (
                String::from_str("vertiport_id"),
                FieldDefinition::new(PsqlFieldType::Uuid, true),
            ),
        );
        fields.push(
            (
                String::from_str("description"),
                FieldDefinition::new(PsqlFieldType::Text, true),
            ),
        );
        fields.push(
            (
                String::from_str("longitude"),
                FieldDefinition::new(PsqlFieldType::Float8, true),
            ),
        );
        fields.push(
            (
                String::from_str("latitude"),
                FieldDefinition::new(PsqlFieldType::Float8, true),
            ),
        );
        fields.push(
            (
                String::from_str("enabled"),
                FieldDefinition::new(PsqlFieldType::Bool, true),
            ),
        );
        fields.push(
            (
                String::from_str("occupied"),
                FieldDefinition::new(PsqlFieldType::Bool, true),
            ),
        );
        fields.push(
            (
                String::from_str("schedule"),
                FieldDefinition::new(PsqlFieldType::Text, false),
            ),
        );
        fields.push(
            (
                String::from_str("deleted_at"),
                FieldDefinition::new_internal(PsqlFieldType::Timestamptz, false),
            ),
        );
        let mut id_cols: Vec<String> = Vec::new();
        id_cols.push(String::from_str("vertipad_id"));
        let definition = ResourceDefinition {
            psql_table: String::from_str("vertipad"),
            psql_id_cols: id_cols,
            fields,
        };
        assert(definition@.id_cols =~= Self::schema().id_cols);
        assert(definition@.fields =~= Self::schema().fields);
        definition
    }

    fn blank() -> (data: Self) {
        Data {
            vertiport_id: String::new(),
            description: String::new(),
            longitude: 0,
            latitude: 0,
            enabled: false,
            occupied: false,
            schedule: None,
        }
    }

    fn set_field_value(&mut self, key: &str, value: GrpcField) -> (r: Result<(), StorageError>) {
        if str_eq(key, "vertiport_id") {
            match value {
                GrpcField::String(value) => {
                    self.vertiport_id = value;
                    Ok(())
                },
                _ => Err(StorageError::Conversion(String::from_str(key))),
            }
        } else if str_eq(key, "description") {
            match value {
                GrpcField::String(value) => {
                    self.description = value;
                    Ok(())
                },
                _ => Err(StorageError::Conversion(String::from_str(key))),
            }
        } else if str_eq(key, "longitude") {
            match value {
                GrpcField::F64(value) => {
                    self.longitude = value;
                    Ok(())
                },
                _ => Err(StorageError::Conversion(String::from_str(key))),
            }
        } else if str_eq(key, "latitude") {
            match value {
                GrpcField::F64(value) => {
                    self.latitude = value;
                    Ok(())
                },
                _ => Err(StorageError::Conversion(String::from_str(key))),
            }
        } else if str_eq(key, "enabled") {
            match value {
                GrpcField::Bool(value) => {
                    self.enabled = value;
                    Ok(())
                },
                _ => Err(StorageError::Conversion(String::from_str(key))),
            }
        } else if str_eq(key, "occupied") {
            match value {
                GrpcField::Bool(value) => {
                    self.occupied = value;
                    Ok(())
                },
                _ => Err(StorageError::Conversion(String::from_str(key))),
            }
        } else if str_eq(key, "schedule") {
            match value {
                GrpcField::Option(GrpcFieldOption::String(value)) => {
                    self.schedule = value;
                    Ok(())
                },
                _ => Err(StorageError::Conversion(String::from_str(key))),
            }
        } else {
            Err(StorageError::UnknownField(String::from_str(key)))
        }
    }
}

/// The endpoints of the vertipad service. Each takes what the store
/// answered and gives what a client is told.
#[derive(Clone, Copy, Debug, Default)]
pub struct VertipadImpl {}

impl VertipadImpl {
    /// Answers the lookup of a vertipad by its id.
    pub fn vertipad_by_id(&self, id: &Id, answer: Result<Vec<Row>, StorageError>) -> (r: Result<
        ResourceObject<Data>,
        Status,
    >)
        ensures
            answers_lookup::<Data>(id.id@, answer, r),
    {
        self.generic_get_by_id(id, answer)
    }

    /// Answers a search for vertipads.
    pub fn vertipads(&self, answer: Result<Vec<Row>, StorageError>) -> (r: Result<
        Vec<ResourceObject<Data>>,
        Status,
    >)
        ensures
            answers_search::<Data>(answer, r),
    {
        self.generic_get_all_with_filter(answer)
    }

    /// Answers the insertion of a vertipad.
    pub fn insert_vertipad(
        &self,
        data: Data,
        created: Result<(Option<u128>, ValidationResult), StorageError>,
    ) -> (r: Result<GenericResourceResult<Data>, Status>)
        ensures
            answers_insert(data, created, r),
    {
        self.generic_insert(data, created)
    }

    /// Prepares the update of a vertipad, given the answer to the lookup of
    /// the stored row. What the write gave is answered by
    /// [`GrpcObjectType::generic_update`].
    pub fn update_vertipad(
        &self,
        request: UpdateObject<Data>,
        loaded: Result<Vec<Row>, StorageError>,
    ) -> (r: Result<UpdatePlan<Data>, Status>)
        ensures
            prepares_update(request, loaded, r),
    {
        self.generic_prepare_update(request, loaded)
    }

    /// Answers the deletion of a vertipad.
    pub fn delete_vertipad(&self, id: &Id, deleted: Result<(), StorageError>) -> (r: Result<
        (),
        Status,
    >)
        ensures
            answers_delete(id.id@, deleted, r),
    {
        self.generic_delete(id, deleted)
    }
}

impl GrpcObjectType<Data> for VertipadImpl {}

} // verus!
