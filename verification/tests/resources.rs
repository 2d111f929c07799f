use svc_storage::field::{GrpcField, GrpcFieldOption, Timestamp};
use svc_storage::resources::base::{GrpcDataObjectType, Resource, ResourceObject};
use svc_storage::resources::{adsb, asset_group, group, user, vehicle_group, vertipad};
use svc_storage::schema::{PsqlFieldType, ResourceDefinition};
use svc_storage::validation::{validate, ValidationResult};
use svc_storage::error::StorageError;

fn contains_field_errors(validation_result: &ValidationResult, fields: &[&str]) -> bool {
    fields
        .iter()
        .all(|field| validation_result.errors.iter().any(|error| error.field == *field))
}

fn data_fields(definition: &ResourceDefinition) -> Vec<String> {
    definition
        .fields
        .iter()
        .filter(|(_, field)| !field.is_internal())
        .map(|(name, _)| name.clone())
        .collect()
}

fn asset_group_data() -> asset_group::Data {
    asset_group::Data {
        name: String::from("Cargo fleet"),
        description: String::from("All cargo vehicles"),
        default_vertiport_schedule: Some(String::from("RRULE:FREQ=WEEKLY")),
        default_aircraft_schedule: None,
    }
}

fn group_data() -> group::Data {
    group::Data {
        name: String::from("Operators"),
        description: String::from("People who operate vehicles"),
        parent_group_id: Some(uuid::Uuid::new_v4().to_string()),
    }
}

#[test]
fn test_asset_group_schema() {
    println!("(test_asset_group_schema) start");

    let id = uuid::Uuid::new_v4().to_string();
    let data = asset_group_data();
    let object = ResourceObject { id, data: Some(data.clone()) };
    let definition = asset_group::Data::get_definition();
    for field in data_fields(&definition) {
        assert!(object.try_get_data().unwrap().get_field_value(&field).is_ok());
    }

    let result = validate(&data);
    assert!(result.is_ok());
    if let Ok((sql_fields, validation_result)) = result {
        println!("{:?}", sql_fields);
        println!("{:?}", validation_result);
        assert_eq!(validation_result.success, true);
    }
    println!("(test_asset_group_schema) success");
}

#[test]
fn test_asset_group_invalid_data() {
    println!("(test_asset group_invalid_data) start");

    let data = asset_group::Data {
        name: String::from(""),
        description: String::from(""),
        default_vertiport_schedule: Some(String::from("")),
        default_aircraft_schedule: Some(String::from("")),
    };

    let result = validate(&data);
    assert!(result.is_ok());
    if let Ok((_, validation_result)) = result {
        println!("{:?}", validation_result);
        assert_eq!(validation_result.success, false);

        let expected_errors = vec!["name", "description"];
        assert_eq!(expected_errors.len(), validation_result.errors.len());
        assert!(contains_field_errors(&validation_result, &expected_errors));
        assert!(!contains_field_errors(&validation_result, &["parent_group_id"]));
    }
    println!("(test_group_invalid_data) success");
}

#[test]
fn test_group_schema() {
    let id = uuid::Uuid::new_v4().to_string();
    let data = group_data();
    let object = ResourceObject { id, data: Some(data.clone()) };
    let definition = group::Data::get_definition();
    for field in data_fields(&definition) {
        assert!(object.try_get_data().unwrap().get_field_value(&field).is_ok());
    }

    let result = validate(&data);
    assert!(result.is_ok());
    if let Ok((sql_fields, validation_result)) = result {
        println!("{:?}", sql_fields);
        println!("{:?}", validation_result);
        assert_eq!(validation_result.success, true);
    }
}

#[test]
fn test_itinerary_invalid_data() {
    let data = group::Data {
        name: String::from(""),
        description: String::from(""),
        parent_group_id: Some(String::from("INVALID")),
    };

    let result = validate(&data);
    assert!(result.is_ok());
    if let Ok((_, validation_result)) = result {
        println!("{:?}", validation_result);
        assert_eq!(validation_result.success, false);

        let expected_errors = vec!["parent_group_id"];
        assert!(contains_field_errors(&validation_result, &expected_errors));
        assert_eq!(3, validation_result.errors.len());
        assert_eq!(validation_result.errors[0].error, "name is required");
        assert_eq!(validation_result.errors[1].error, "description is required");
        assert_eq!(validation_result.errors[2].field, "parent_group_id");
        assert_eq!(validation_result.errors[2].error, "parent_group_id is not a valid UUID");
    }
}

#[test]
fn test_vehicle_group_schema() {
    println!("(test_vehicle_group_schema) start");

    let definition = vehicle_group::Data::get_definition();
    assert_eq!(definition.get_psql_table(), "vehicle_group");
    println!("(test_vehicle_group_schema) success");
}

#[test]
fn group_definition_lists_its_columns() {
    let definition = group::Data::get_definition();
    assert_eq!(definition.psql_table, "group");
    assert_eq!(definition.psql_id_cols, vec![String::from("group_id")]);
    let names: Vec<&str> = definition.fields.iter().map(|(name, _)| name.as_str()).collect();
    assert_eq!(
        names,
        vec!["name", "description", "parent_group_id", "created_at", "updated_at", "deleted_at"]
    );
    let parent = definition.get_field("parent_group_id").unwrap();
    assert_eq!(parent.field_type, PsqlFieldType::Uuid);
    assert!(!parent.is_mandatory());
    assert!(!parent.is_internal());
    let created = definition.get_field("created_at").unwrap();
    assert!(created.is_internal());
    assert!(created.has_default());
    assert_eq!(created.default, Some(String::from("CURRENT_TIMESTAMP")));
    let deleted = definition.get_field("deleted_at").unwrap();
    assert!(deleted.is_internal());
    assert!(!deleted.is_mandatory());
    assert!(!deleted.has_default());
    assert!(definition.has_deleted_marker());
    assert!(definition.get_field("group_id").is_none());
    assert_eq!(definition.position("description"), Some(1));
    assert_eq!(definition.position("nothing"), None);
}

#[test]
fn adsb_definition_has_no_deletion_marker() {
    let definition = adsb::Data::get_definition();
    assert_eq!(definition.psql_table, "adsb");
    assert_eq!(definition.psql_id_cols, vec![String::from("adsb_id")]);
    assert_eq!(definition.fields.len(), 4);
    assert!(!definition.has_deleted_marker());
    assert_eq!(definition.get_field("payload").unwrap().field_type, PsqlFieldType::Bytea);
    assert_eq!(
        definition.get_field("network_timestamp").unwrap().field_type,
        PsqlFieldType::Timestamptz
    );
}

#[test]
fn link_definitions_have_two_id_columns() {
    let definition = vehicle_group::Data::get_definition();
    assert_eq!(
        definition.psql_id_cols,
        vec![String::from("vehicle_id"), String::from("group_id")]
    );
    assert!(definition.fields.is_empty());
    let definition = svc_storage::resources::user_group::Data::get_definition();
    assert_eq!(definition.psql_table, "user_group");
    assert_eq!(definition.psql_id_cols, vec![String::from("user_id"), String::from("group_id")]);
    let definition = svc_storage::resources::itinerary_flight_plan::Data::get_definition();
    assert_eq!(definition.psql_table, "itinerary_flight_plan");
    assert_eq!(
        definition.psql_id_cols,
        vec![String::from("itinerary_id"), String::from("flight_plan_id")]
    );
}

#[test]
fn adsb_fields_by_name() {
    let data = adsb::Data {
        icao_address: 0x4840D6,
        message_type: 17,
        network_timestamp: Some(Timestamp { seconds: 1_700_000_000, nanos: 5 }),
        payload: vec![1, 2, 3],
    };
    assert_eq!(data.get_field_value("icao_address"), Ok(GrpcField::I64(0x4840D6)));
    assert_eq!(data.get_field_value("message_type"), Ok(GrpcField::I64(17)));
    assert_eq!(
        data.get_field_value("network_timestamp"),
        Ok(GrpcField::Option(GrpcFieldOption::Timestamp(Some(Timestamp {
            seconds: 1_700_000_000,
            nanos: 5
        }))))
    );
    assert_eq!(data.get_field_value("payload"), Ok(GrpcField::Bytes(vec![1, 2, 3])));
}

#[test]
fn unknown_field_is_an_error_not_a_panic() {
    let data = group_data();
    assert_eq!(
        data.get_field_value("no_such_field"),
        Err(StorageError::UnknownField(String::from("no_such_field")))
    );
    assert_eq!(
        vehicle_group::Data {}.get_field_value("vehicle_id"),
        Err(StorageError::UnknownField(String::from("vehicle_id")))
    );
    assert_eq!(
        data.get_field_value("created_at"),
        Err(StorageError::UnknownField(String::from("created_at")))
    );
}

#[test]
fn set_field_value_changes_one_field() {
    let mut data = group_data();
    let before = data.clone();
    assert_eq!(data.set_field_value("name", GrpcField::String(String::from("Pilots"))), Ok(()));
    assert_eq!(data.name, "Pilots");
    assert_eq!(data.description, before.description);
    assert_eq!(data.parent_group_id, before.parent_group_id);
    assert_eq!(
        data.set_field_value("parent_group_id", GrpcField::Option(GrpcFieldOption::String(None))),
        Ok(())
    );
    assert_eq!(data.parent_group_id, None);
}

#[test]
fn set_field_value_refuses_another_shape() {
    let mut data = group_data();
    let before = data.clone();
    assert_eq!(
        data.set_field_value("name", GrpcField::I64(3)),
        Err(StorageError::Conversion(String::from("name")))
    );
    assert_eq!(
        data.set_field_value("parent_group_id", GrpcField::String(String::from("x"))),
        Err(StorageError::Conversion(String::from("parent_group_id")))
    );
    assert_eq!(
        data.set_field_value("parent_group_id", GrpcField::Option(GrpcFieldOption::Absent)),
        Err(StorageError::Conversion(String::from("parent_group_id")))
    );
    assert_eq!(
        data.set_field_value("elsewhere", GrpcField::I64(3)),
        Err(StorageError::UnknownField(String::from("elsewhere")))
    );
    assert_eq!(data, before);
}

#[test]
fn blank_payloads_hold_zero_values() {
    let data = vertipad::Data::blank();
    assert_eq!(data.description, "");
    assert_eq!(data.longitude, 0);
    assert_eq!(data.occupied, false);
    assert_eq!(data.schedule, None);
    let data = user::Data::blank();
    assert_eq!(data.first_name, "");
    assert_eq!(data.auth_method, 0);
}
