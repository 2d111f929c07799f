//! Asset groups.

use vstd::prelude::*;
use vstd::string::StringExecFns;
use crate::error::StorageError;
use crate::field::{FieldOptionView, FieldView, GrpcField, GrpcFieldOption};
use crate::names::first_index_from;
use crate::native::{FieldKind, Shape};
use crate::resources::base::{GrpcDataObjectType, Resource};
use crate::schema::{FieldDefinition, FieldSpec, PsqlFieldType, ResourceDefinition, Schema};
use crate::text::str_eq;

verus! {

/// The payload of an asset group.
#[derive(Clone, Debug, PartialEq)]
pub struct Data {
    pub name: String,
    pub description: String,
    pub default_vertiport_schedule: Option<String>,
    pub default_aircraft_schedule: Option<String>,
}

impl GrpcDataObjectType for Data {
    open spec fn field(&self, key: Seq<char>) -> Option<FieldView> {
        if key == "name"@ {
            Some(FieldView::String(self.name@))
        } else if key == "description"@ {
            Some(FieldView::String(self.description@))
        } else if key == "default_vertiport_schedule"@ {
            Some(
                FieldView::Option(
                    FieldOptionView::String(
                        match self.default_vertiport_schedule {
                            Some(value) => Some(value@),
                            None => None,
                        },
                    ),
                )
            )
        } else if key == "default_aircraft_schedule"@ {
            Some(
                FieldView::Option(
                    FieldOptionView::String(
                        match self.default_aircraft_schedule {
                            Some(value) => Some(value@),
                            None => None,
                        },
                    ),
                )
            )
        } else {
            None
        }
    }

    fn get_field_value(&self, key: &str) -> (r: Result<GrpcField, StorageError>) {
        if str_eq(key, "name") {
            Ok(GrpcField::String(self.name.clone()))
        } else if str_eq(key, "description") {
            Ok(GrpcField::String(self.description.clone()))
        } else if str_eq(key, "default_vertiport_schedule") {
            Ok(
                GrpcField::Option(
                    GrpcFieldOption::String(
                        match &self.default_vertiport_schedule {
                            Some(value) => Some(value.clone()),
                            None => None,
                        },
                    ),
                )
            )
        } else if str_eq(key, "default_aircraft_schedule") {
            Ok(
                GrpcField::Option(
                    GrpcFieldOption::String(
                        match &self.default_aircraft_schedule {
                            Some(value) => Some(value.clone()),
                            None => None,
                        },
                    ),
                )
            )
        } else {
            Err(StorageError::UnknownField(String::from_str(key)))
        }
    }
}

impl Resource for Data {
    open spec fn schema() -> Schema {
        Schema {
            table: "asset_group"@,
            id_cols: seq!["asset_group_id"@],
            fields: seq![
                (
                    "name"@,
                    FieldSpec {
                        field_type: PsqlFieldType::Text,
                        mandatory: true,
                        internal: false,
                        default: None,
                    },
                ),
                (
                    "description"@,
                    FieldSpec {
                        field_type: PsqlFieldType::Text,
                        mandatory: true,
                        internal: false,
                        default: None,
                    },
                ),
                (
                    "default_vertiport_schedule"@,
                    FieldSpec {
                        field_type: PsqlFieldType::Text,
                        mandatory: false,
                        internal: false,
                        default: None,
                    },
                ),
                (
                    "default_aircraft_schedule"@,
                    FieldSpec {
                        field_type: PsqlFieldType::Text,
                        mandatory: false,
                        internal: false,
                        default: None,
                    },
                ),
                (
                    "created_at"@,
                    FieldSpec {
                        field_type: PsqlFieldType::Timestamptz,
                        mandatory: true,
                        internal: true,
                        default: Some("CURRENT_TIMESTAMP"@),
                    },
                ),
                (
                    "updated_at"@,
                    FieldSpec {
                        field_type: PsqlFieldType::Timestamptz,
                        mandatory: true,
                        internal: true,
                        default: Some("CURRENT_TIMESTAMP"@),
                    },
                ),
                (
                    "deleted_at"@,
                    FieldSpec {
                        field_type: PsqlFieldType::Timestamptz,
                        mandatory: false,
                        internal: true,
                        default: None,
                    },
                ),
            ],
        }
    }

    open spec fn shape(key: Seq<char>) -> Option<Shape> {
        if key == "name"@ {
            Some(Shape { kind: FieldKind::String, optional: false })
        } else if key == "description"@ {
            Some(Shape { kind: FieldKind::String, optional: false })
        } else if key == "default_vertiport_schedule"@ {
            Some(Shape { kind: FieldKind::String, optional: true })
        } else if key == "default_aircraft_schedule"@ {
            Some(Shape { kind: FieldKind::String, optional: true })
        } else {
            None
        }
    }

    proof fn lemma_field_shape(&self, key: Seq<char>) {
    }

    proof fn lemma_schema() {
        reveal_strlit("name");
        reveal_strlit("description");
        reveal_strlit("default_vertiport_schedule");
        reveal_strlit("default_aircraft_schedule");
        reveal_strlit("created_at");
        reveal_strlit("updated_at");
        reveal_strlit("deleted_at");
        reveal_strlit("asset_group_id");
        let names = Self::schema().names();
        let ids = Self::schema().id_cols;
        assert(names[0].len() == 4);
        assert(names[1].len() == 11);
        assert(names[2].len() == 26);
        assert(names[3].len() == 25);
        assert(names[4].len() == 10);
        assert(names[4][0] == 'c');
        assert(names[5].len() == 10);
        assert(names[5][0] == 'u');
        assert(names[6].len() == 10);
        assert(names[6][0] == 'd');
        assert(ids[0].len() == 14);
    }

    proof fn lemma_shape(key: Seq<char>) {
        reveal_with_fuel(first_index_from, 8);
        let names = Self::schema().names();
        assert(names[0] == "name"@);
        assert(names[1] == "description"@);
        assert(names[2] == "default_vertiport_schedule"@);
        assert(names[3] == "default_aircraft_schedule"@);
        assert(names[4] == "created_at"@);
        assert(names[5] == "updated_at"@);
        assert(names[6] == "deleted_at"@);
    }

    fn get_definition() -> (definition: ResourceDefinition) {
        let mut fields: Vec<(String, FieldDefinition)> = Vec::new();
        fields.push(
            (
                String::from_str("name"),
                FieldDefinition::new(PsqlFieldType::Text, true),
            ),
        );
        fields.push(
            (
                String::from_str("description"),
                FieldDefinition::new(PsqlFieldType::Text, true),
            ),
        );
        fields.push(
            (
                String::from_str("default_vertiport_schedule"),
                FieldDefinition::new(PsqlFieldType::Text, false),
            ),
        );
        fields.push(
            (
                String::from_str("default_aircraft_schedule"),
                FieldDefinition::new(PsqlFieldType::Text, false),
            ),
        );
        fields.push(
            (
                String::from_str("created_at"),
                FieldDefinition::new_internal(PsqlFieldType::Timestamptz, true).set_default(
                    String::from_str("CURRENT_TIMESTAMP"),
                ),
            ),
        );
        fields.push(
            (
                String::from_str("updated_at"),
                FieldDefinition::new_internal(PsqlFieldType::Timestamptz, true).set_default(
                    String::from_str("CURRENT_TIMESTAMP"),
                ),
            ),
        );
        fields.push(
            (
                String::from_str("deleted_at"),
                FieldDefinition::new_internal(PsqlFieldType::Timestamptz, false),
            ),
        );
        let mut id_cols: Vec<String> = Vec::new();
        id_cols.push(String::from_str("asset_group_id"));
        let definition = ResourceDefinition {
            psql_table: String::from_str("asset_group"),
            psql_id_cols: id_cols,
            fields,
        };
        assert(definition@.id_cols =~= Self::schema().id_cols);
        assert(definition@.fields =~= Self::schema().fields);
        definition
    }

    fn blank() -> (data: Self) {
        Data {
            name: String::new(),
            description: String::new(),
            default_vertiport_schedule: None,
            default_aircraft_schedule: None,
        }
    }

    fn set_field_value(&mut self, key: &str, value: GrpcField) -> (r: Result<(), StorageError>) {
        if str_eq(key, "name") {
            match value {
                GrpcField::String(value) => {
                    self.name = value;
                    Ok(())
                },
                _ => Err(StorageError::Conversion(String::from_str(key))),
            }
        } else if str_eq(key, "description") {
            match value {
                GrpcField::String(value) => {
                    self.description = value;
                    Ok(())
                },
                _ => Err(StorageError::Conversion(String::from_str(key))),
            }
        } else if str_eq(key, "default_vertiport_schedule") {
            match value {
                GrpcField::Option(GrpcFieldOption::String(value)) => {
                    self.default_vertiport_schedule = value;
                    Ok(())
                },
                _ => Err(StorageError::Conversion(String::from_str(key))),
            }
        } else if str_eq(key, "default_aircraft_schedule") {
            match value {
                GrpcField::Option(GrpcFieldOption::String(value)) => {
                    self.default_aircraft_schedule = value;
                    Ok(())
                },
                _ => Err(StorageError::Conversion(String::from_str(key))),
            }
        } else {
            Err(StorageError::UnknownField(String::from_str(key)))
        }
    }
}

} // verus!
