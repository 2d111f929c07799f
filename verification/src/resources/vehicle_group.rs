//! Links between vehicles and groups.

use vstd::prelude::*;
use vstd::string::StringExecFns;
use crate::error::StorageError;
use crate::field::{FieldView, GrpcField};
use crate::native::Shape;
use crate::resources::base::{GrpcDataObjectType, Resource};
use crate::schema::{FieldDefinition, ResourceDefinition, Schema};

verus! {

/// The payload of a link between a vehicle and a group: nothing, the row is the link.
#[derive(Clone, Copy, Debug, PartialEq, Eq)]
pub struct Data {}

impl GrpcDataObjectType for Data {
    open spec fn field(&self, key: Seq<char>) -> Option<FieldView> {
        None
    }

    fn get_field_value(&self, key: &str) -> (r: Result<GrpcField, StorageError>) {
        Err(StorageError::UnknownField(String::from_str(key)))
    }
}

impl Resource for Data {
    open spec fn schema() -> Schema {
        Schema {
            table: "vehicle_group"@,
            id_cols: seq!["vehicle_id"@, "group_id"@],
            fields: Seq::empty(),
        }
    }

    open spec fn shape(key: Seq<char>) -> Option<Shape> {
        None
    }

    proof fn lemma_field_shape(&self, key: Seq<char>) {
    }

    proof fn lemma_schema() {
        reveal_strlit("vehicle_id");
        reveal_strlit("group_id");
        let ids = Self::schema().id_cols;
        assert(ids[0].len() == 10);
        assert(ids[1].len() == 8);
    }

    proof fn lemma_shape(key: Seq<char>) {
        assert(Self::schema().names().len() == 0);
    }

    fn get_definition() -> (definition: ResourceDefinition) {
        let fields: Vec<(String, FieldDefinition)> = Vec::new();
        let mut id_cols: Vec<String> = Vec::new();
        id_cols.push(String::from_str("vehicle_id"));
        id_cols.push(String::from_str("group_id"));
        let definition = ResourceDefinition {
            psql_table: String::from_str("vehicle_group"),
            psql_id_cols: id_cols,
            fields,
        };
        assert(definition@.id_cols =~= Self::schema().id_cols);
        assert(definition@.fields =~= Self::schema().fields);
        definition
    }

    fn blank() -> (data: Self) {
        Data {  }
    }

    fn set_field_value(&mut self, key: &str, value: GrpcField) -> (r: Result<(), StorageError>) {
        Err(StorageError::UnknownField(String::from_str(key)))
    }
}

} // verus!
