use svc_storage::native::SqlValue;
use svc_storage::resources::base::Resource;
use svc_storage::resources::{adsb, group, vehicle_group, vertipad};
use svc_storage::validation::validate;

const PARENT: &str = "0f27d530-b748-4cbf-be4d-2d2b1ac5bf4e";

fn sample_vertipad() -> vertipad::Data {
    vertipad::Data {
        vertiport_id: String::from("a1a2a3a4-b1b2-c1c2-d1d2-d3d4d5d6d7d8"),
        description: String::from("First vertipad for San Francisco"),
        longitude: (-122.4194f64).to_bits(),
        latitude: 37.7749f64.to_bits(),
        enabled: true,
        occupied: false,
        schedule: None,
    }
}

#[test]
fn complete_payload_passes_and_binds_every_data_field() {
    let data = group::Data {
        name: String::from("Operators"),
        description: String::from("People who operate vehicles"),
        parent_group_id: Some(String::from(PARENT)),
    };
    let (params, result) = validate(&data).unwrap();
    assert!(result.success);
    assert!(result.errors.is_empty());
    assert_eq!(
        params,
        vec![
            (String::from("name"), SqlValue::Text(String::from("Operators"))),
            (
                String::from("description"),
                SqlValue::Text(String::from("People who operate vehicles"))
            ),
            (
                String::from("parent_group_id"),
                SqlValue::Uuid(0x0f27d530_b748_4cbf_be4d_2d2b1ac5bf4e)
            ),
        ]
    );
    let definition = group::Data::get_definition();
    let expected: Vec<&String> = definition
        .fields
        .iter()
        .filter(|(_, field)| !field.is_internal())
        .map(|(name, _)| name)
        .collect();
    let bound: Vec<&String> = params.iter().map(|(name, _)| name).collect();
    assert_eq!(bound, expected);
}

#[test]
fn absent_optional_field_is_bound_as_null() {
    let data = group::Data {
        name: String::from("Operators"),
        description: String::from("People"),
        parent_group_id: None,
    };
    let (params, result) = validate(&data).unwrap();
    assert!(result.success);
    assert_eq!(params.len(), 3);
    assert_eq!(params[2], (String::from("parent_group_id"), SqlValue::Null));
}

#[test]
fn one_missing_required_field_gives_one_error() {
    let data = group::Data {
        name: String::from("Operators"),
        description: String::from(""),
        parent_group_id: Some(String::from(PARENT)),
    };
    let (params, result) = validate(&data).unwrap();
    assert!(!result.success);
    assert_eq!(result.errors.len(), 1);
    assert_eq!(result.errors[0].field, "description");
    assert_eq!(result.errors[0].error, "description is required");
    let bound: Vec<&str> = params.iter().map(|(name, _)| name.as_str()).collect();
    assert_eq!(bound, vec!["name", "parent_group_id"]);
}

#[test]
fn absent_required_optional_is_missing() {
    let data = adsb::Data {
        icao_address: 1,
        message_type: 2,
        network_timestamp: None,
        payload: vec![],
    };
    let (params, result) = validate(&data).unwrap();
    assert!(!result.success);
    assert_eq!(result.errors.len(), 1);
    assert_eq!(result.errors[0].field, "network_timestamp");
    assert_eq!(result.errors[0].error, "network_timestamp is required");
    assert_eq!(params.len(), 3);
}

#[test]
fn invalid_uuid_is_reported() {
    let mut data = sample_vertipad();
    data.vertiport_id = String::from("not-a-uuid");
    let (params, result) = validate(&data).unwrap();
    assert!(!result.success);
    assert_eq!(result.errors.len(), 1);
    assert_eq!(result.errors[0].field, "vertiport_id");
    assert_eq!(result.errors[0].error, "vertiport_id is not a valid UUID");
    assert_eq!(params.len(), 6);
    assert!(params.iter().all(|(name, _)| name != "vertiport_id"));
}

#[test]
fn empty_required_uuid_is_missing_not_invalid() {
    let mut data = sample_vertipad();
    data.vertiport_id = String::new();
    let (_, result) = validate(&data).unwrap();
    assert_eq!(result.errors.len(), 1);
    assert_eq!(result.errors[0].error, "vertiport_id is required");
}

#[test]
fn empty_optional_uuid_is_invalid() {
    let data = group::Data {
        name: String::from("a"),
        description: String::from("b"),
        parent_group_id: Some(String::new()),
    };
    let (_, result) = validate(&data).unwrap();
    assert_eq!(result.errors.len(), 1);
    assert_eq!(result.errors[0].error, "parent_group_id is not a valid UUID");
}

#[test]
fn values_are_bound_by_their_kind() {
    let data = sample_vertipad();
    let (params, result) = validate(&data).unwrap();
    assert!(result.success);
    assert_eq!(
        params,
        vec![
            (
                String::from("vertiport_id"),
                SqlValue::Uuid(0xa1a2a3a4_b1b2_c1c2_d1d2_d3d4d5d6d7d8)
            ),
            (
                String::from("description"),
                SqlValue::Text(String::from("First vertipad for San Francisco"))
            ),
            (String::from("longitude"), SqlValue::Float8((-122.4194f64).to_bits())),
            (String::from("latitude"), SqlValue::Float8(37.7749f64.to_bits())),
            (String::from("enabled"), SqlValue::Bool(true)),
            (String::from("occupied"), SqlValue::Bool(false)),
            (String::from("schedule"), SqlValue::Null),
        ]
    );
}

#[test]
fn payload_without_fields_passes_with_no_parameters() {
    let (params, result) = validate(&vehicle_group::Data {}).unwrap();
    assert!(result.success);
    assert!(params.is_empty());
}

#[test]
fn upper_case_uuid_is_accepted() {
    let data = group::Data {
        name: String::from("a"),
        description: String::from("b"),
        parent_group_id: Some(PARENT.to_uppercase()),
    };
    let (params, result) = validate(&data).unwrap();
    assert!(result.success);
    assert_eq!(params[2].1, SqlValue::Uuid(0x0f27d530_b748_4cbf_be4d_2d2b1ac5bf4e));
}
