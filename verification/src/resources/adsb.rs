//! ADS-B messages.

use vstd::prelude::*;
use vstd::string::StringExecFns;
use crate::error::StorageError;
use crate::field::{FieldOptionView, FieldView, GrpcField, GrpcFieldOption, Timestamp};
use crate::names::first_index_from;
use crate::native::{FieldKind, Shape};
use crate::resources::base::{GrpcDataObjectType, Resource};
use crate::row::copy_bytes;
use crate::schema::{FieldDefinition, FieldSpec, PsqlFieldType, ResourceDefinition, Schema};
use crate::text::str_eq;

verus! {

/// The payload of an ADS-B message.
#[derive(Clone, Debug, PartialEq)]
pub struct Data {
    pub icao_address: i64,
    pub message_type: i64,
    pub network_timestamp: Option<Timestamp>,
    pub payload: Vec<u8>,
}

impl GrpcDataObjectType for Data {
    open spec fn field(&self, key: Seq<char>) -> Option<FieldView> {
        if key == "icao_address"@ {
            Some(FieldView::I64(self.icao_address))
        } else if key == "message_type"@ {
            Some(FieldView::I64(self.message_type))
        } else if key == "network_timestamp"@ {
            Some(FieldView::Option(FieldOptionView::Timestamp(self.network_timestamp)))
        } else if key == "payload"@ {
            Some(FieldView::Bytes(self.payload@))
        } else {
            None
        }
    }

    fn get_field_value(&self, key: &str) -> (r: Result<GrpcField, StorageError>) {
        if str_eq(key, "icao_address") {
            Ok(GrpcField::I64(self.icao_address))
        } else if str_eq(key, "message_type") {
            Ok(GrpcField::I64(self.message_type))
        } else if str_eq(key, "network_timestamp") {
            Ok(GrpcField::Option(GrpcFieldOption::Timestamp(self.network_timestamp)))
        } else if str_eq(key, "payload") {
            Ok(GrpcField::Bytes(copy_bytes(&self.payload)))
        } else {
            Err(StorageError::UnknownField(String::from_str(key)))
        }
    }
}

impl Resource for Data {
    open spec fn schema() -> Schema {
        Schema {
            table: "adsb"@,
            id_cols: seq!["adsb_id"@],
            fields: seq![
                (
                    "icao_address"@,
                    FieldSpec {
                        field_type: PsqlFieldType::Int8,
                        mandatory: true,
                        internal: false,
                        default: None,
                    },
                ),
                (
                    "message_type"@,
                    FieldSpec {
                        field_type: PsqlFieldType::Int8,
                        mandatory: true,
                        internal: false,
                        default: None,
                    },
                ),
                (
                    "network_timestamp"@,
                    FieldSpec {
                        field_type: PsqlFieldType::Timestamptz,
                        mandatory: true,
                        internal: false,
                        default: None,
                    },
                ),
                (
                    "payload"@,
                    FieldSpec {
                        field_type: PsqlFieldType::Bytea,
                        mandatory: true,
                        internal: false,
                        default: None,
                    },
                ),
            ],
        }
    }

    open spec fn shape(key: Seq<char>) -> Option<Shape> {
        if key == "icao_address"@ {
            Some(Shape { kind: FieldKind::I64, optional: false })
        } else if key == "message_type"@ {
            Some(Shape { kind: FieldKind::I64, optional: false })
        } else if key == "network_timestamp"@ {
            Some(Shape { kind: FieldKind::Timestamp, optional: true })
        } else if key == "payload"@ {
            Some(Shape { kind: FieldKind::Bytes, optional: false })
        } else {
            None
        }
    }

    proof fn lemma_field_shape(&self, key: Seq<char>) {
    }

    proof fn lemma_schema() {
        reveal_strlit("icao_address");
        reveal_strlit("message_type");
        reveal_strlit("network_timestamp");
        reveal_strlit("payload");
        reveal_strlit("adsb_id");
        let names = Self::schema().names();
        let ids = Self::schema().id_cols;
        assert(names[0].len() == 12);
        assert(names[0][0] == 'i');
        assert(names[1].len() == 12);
        assert(names[1][0] == 'm');
        assert(names[2].len() == 17);
        assert(names[3].len() == 7);
        assert(names[3][0] == 'p');
        assert(ids[0].len() == 7);
        assert(ids[0][0] == 'a');
    }

    proof fn lemma_shape(key: Seq<char>) {
        reveal_with_fuel(first_index_from, 5);
        let names = Self::schema().names();
        assert(names[0] == "icao_address"@);
        assert(names[1] == "message_type"@);
        assert(names[2] == "network_timestamp"@);
        assert(names[3] == "payload"@);
    }

    fn get_definition() -> (definition: ResourceDefinition) {
        let mut fields: Vec<(String, FieldDefinition)> = Vec::new();
        fields.push(
            (
                String::from_str("icao_address"),
                FieldDefinition::new(PsqlFieldType::Int8, true),
            ),
        );
        fields.push(
            (
                String::from_str("message_type"),
                FieldDefinition::new(PsqlFieldType::Int8, true),
            ),
        );
        fields.push(
            (
                String::from_str("network_timestamp"),
                FieldDefinition::new(PsqlFieldType::Timestamptz, true),
            ),
        );
        fields.push(
            (
                String::from_str("payload"),
                FieldDefinition::new(PsqlFieldType::Bytea, true),
            ),
        );
        let mut id_cols: Vec<String> = Vec::new();
        id_cols.push(String::from_str("adsb_id"));
        let definition = ResourceDefinition {
            psql_table: String::from_str("adsb"),
            psql_id_cols: id_cols,
            fields,
        };
        assert(definition@.id_cols =~= Self::schema().id_cols);
        assert(definition@.fields =~= Self::schema().fields);
        definition
    }

    fn blank() -> (data: Self) {
        Data {
            icao_address: 0,
            message_type: 0,
            network_timestamp: None,
            payload: Vec::new(),
        }
    }

    fn set_field_value(&mut self, key: &str, value: GrpcField) -> (r: Result<(), StorageError>) {
        if str_eq(key, "icao_address") {
            match value {
                GrpcField::I64(value) => {
                    self.icao_address = value;
                    Ok(())
                },
                _ => Err(StorageError::Conversion(String::from_str(key))),
            }
        } else if str_eq(key, "message_type") {
            match value {
                GrpcField::I64(value) => {
                    self.message_type = value;
                    Ok(())
                },
                _ => Err(StorageError::Conversion(String::from_str(key))),
            }
        } else if str_eq(key, "network_timestamp") {
            match value {
                GrpcField::Option(GrpcFieldOption::Timestamp(value)) => {
                    self.network_timestamp = value;
                    Ok(())
                },
                _ => Err(StorageError::Conversion(String::from_str(key))),
            }
        } else if str_eq(key, "payload") {
            match value {
                GrpcField::Bytes(value) => {
                    self.payload = value;
                    Ok(())
                },
                _ => Err(StorageError::Conversion(String::from_str(key))),
            }
        } else {
            Err(StorageError::UnknownField(String::from_str(key)))
        }
    }
}

} // verus!
