//! Groups.

use vstd::prelude::*;
use vstd::string::StringExecFns;
use crate::error::StorageError;
use crate::field::{FieldOptionView, FieldView, GrpcField, GrpcFieldOption};
use crate::names::first_index_from;
use crate::native::{FieldKind, Shape};
use crate::resources::base::{GrpcDataObjectType, Resource};
use crate::schema::{FieldDefinition, FieldSpec, PsqlFieldType, ResourceDefinition, Schema};
use crate::text::str_eq;

verus! {

/// The payload of a group.
#[derive(Clone, Debug, PartialEq)]
pub struct Data {
    pub name: String,
    pub description: String,
    /// The id of the parent group, as UUID text.
    pub parent_group_id: Option<String>,
}

impl GrpcDataObjectType for Data {
    open spec fn field(&self, key: Seq<char>) -> Option<FieldView> {
        if key == "name"@ {
            Some(FieldView::String(self.name@))
        } else if key == "description"@ {
            Some(FieldView::String(self.description@))
        } else if key == "parent_group_id"@ {
            Some(
                FieldView::Option(
                    FieldOptionView::String(
                        match self.parent_group_id {
                            Some(value) => Some(value@),
                            None => None,
                        },
                    ),
                )
            )
        } else {
            None
        }
    }

    fn get_field_value(&self, key: &str) -> (r: Result<GrpcField, StorageError>) {
        if str_eq(key, "name") {
            Ok(GrpcField::String(self.name.clone()))
        } else if str_eq(key, "description") {
            Ok(GrpcField::String(self.description.clone()))
        } else if str_eq(key, "parent_group_id") {
            Ok(
                GrpcField::Option(
                    GrpcFieldOption::String(
                        match &self.parent_group_id {
                            Some(value) => Some(value.clone()),
                            None => None,
                        },
                    ),
                )
            )
        } else {
            Err(StorageError::UnknownField(String::from_str(key)))
        }
    }
}

impl Resource for Data {
    open spec fn schema() -> Schema {
        Schema {
            table: "group"@,
            id_cols: seq!["group_id"@],
            fields: seq![
                (
                    "name"@,
                    FieldSpec {
                        field_type: PsqlFieldType::Text,
                        mandatory: true,
                        internal: false,
                        default: None,
                    },
                ),
                (
                    "description"@,
                    FieldSpec {
                        field_type: PsqlFieldType::Text,
                        mandatory: true,
                        internal: false,
                        default: None,
                    },
                ),
                (
                    "parent_group_id"@,
                    FieldSpec {
                        field_type: PsqlFieldType::Uuid,
                        mandatory: false,
                        internal: false,
                        default: None,
                    },
                ),
                (
                    "created_at"@,
                    FieldSpec {
                        field_type: PsqlFieldType::Timestamptz,
                        mandatory: true,
                        internal: true,
                        default: Some("CURRENT_TIMESTAMP"@),
                    },
                ),
                (
                    "updated_at"@,
                    FieldSpec {
                        field_type: PsqlFieldType::Timestamptz,
                        mandatory: true,
                        internal: true,
                        default: Some("CURRENT_TIMESTAMP"@),
                    },
                ),
                (
                    "deleted_at"@,
                    FieldSpec {
                        field_type: PsqlFieldType::Timestamptz,
                        mandatory: false,
                        internal: true,
                        default: None,
                    },
                ),
            ],
        }
    }

    open spec fn shape(key: Seq<char>) -> Option<Shape> {
        if key == "name"@ {
            Some(Shape { kind: FieldKind::String, optional: false })
        } else if key == "description"@ {
            Some(Shape { kind: FieldKind::String, optional: false })
        } else if key == "parent_group_id"@ {
            Some(Shape { kind: FieldKind::String, optional: true })
        } else {
            None
        }
    }

    proof fn lemma_field_shape(&self, key: Seq<char>) {
    }

    proof fn lemma_schema() {
        reveal_strlit("name");
        reveal_strlit("description");
        reveal_strlit("parent_group_id");
        reveal_strlit("created_at");
        reveal_strlit("updated_at");
        reveal_strlit("deleted_at");
        reveal_strlit("group_id");
        let names = Self::schema().names();
        let ids = Self::schema().id_cols;
        assert(names[0].len() == 4);
        assert(names[1].len() == 11);
        assert(names[2].len() == 15);
        assert(names[3].len() == 10);
        assert(names[3][0] == 'c');
        assert(names[4].len() == 10);
        assert(names[4][0] == 'u');
        assert(names[5].len() == 10);
        assert(names[5][0] == 'd');
        assert(ids[0].len() == 8);
    }

    proof fn lemma_shape(key: Seq<char>) {
        reveal_with_fuel(first_index_from, 7);
        let names = Self::schema().names();
        assert(names[0] == "name"@);
        assert(names[1] == "description"@);
        assert(names[2] == "parent_group_id"@);
        assert(names[3] == "created_at"@);
        assert(names[4] == "updated_at"@);
        assert(names[5] == "deleted_at"@);
    }

    fn get_definition() -> (definition: ResourceDefinition) {
        let mut fields: Vec<(String, FieldDefinition)> = Vec::new();
        fields.push(
            (
                String::from_str("name"),
                FieldDefinition::new(PsqlFieldType::Text, true),
            ),
        );
        fields.push(
            (
                String::from_str("description"),
                FieldDefinition::new(PsqlFieldType::Text, true),
            ),
        );
        fields.push(
            (
                String::from_str("parent_group_id"),
                FieldDefinition::new(PsqlFieldType::Uuid, false),
            ),
        );
        fields.push(
            (
                String::from_str("created_at"),
                FieldDefinition::new_internal(PsqlFieldType::Timestamptz, true).set_default(
                    String::from_str("CURRENT_TIMESTAMP"),
                ),
            ),
        );
        fields.push(
            (
                String::from_str("updated_at"),
                FieldDefinition::new_internal(PsqlFieldType::Timestamptz, true).set_default(
                    String::from_str("CURRENT_TIMESTAMP"),
                ),
            ),
        );
        fields.push(
            (
                String::from_str("deleted_at"),
                FieldDefinition::new_internal(PsqlFieldType::Timestamptz, false),
            ),
        );
        let mut id_cols: Vec<String> = Vec::new();
        id_cols.push(String::from_str("group_id"));
        let definition = ResourceDefinition {
            psql_table: String::from_str("group"),
            psql_id_cols: id_cols,
            fields,
        };
        assert(definition@.id_cols =~= Self::schema().id_cols);
        assert(definition@.fields =~= Self::schema().fields);
        definition
    }

    fn blank() -> (data: Self) {
        Data {
            name: String::new(),
            description: String::new(),
            parent_group_id: None,
        }
    }

    fn set_field_value(&mut self, key: &str, value: GrpcField) -> (r: Result<(), StorageError>) {
        if str_eq(key, "name") {
            match value {
                GrpcField::String(value) => {
                    self.name = value;
                    Ok(())
                },
                _ => Err(StorageError::Conversion(String::from_str(key))),
            }
        } else if str_eq(key, "description") {
            match value {
                GrpcField::String(value) => {
                    self.description = value;
                    Ok(())
                },
                _ => Err(StorageError::Conversion(String::from_str(key))),
            }
        } else if str_eq(key, "parent_group_id") {
            match value {
                GrpcField::Option(GrpcFieldOption::String(value)) => {
                    self.parent_group_id = value;
                    Ok(())
                },
                _ => Err(StorageError::Conversion(String::from_str(key))),
            }
        } else {
            Err(StorageError::UnknownField(String::from_str(key)))
        }
    }
}

} // verus!
