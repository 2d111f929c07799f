use svc_storage::engine::{
    changed, create, created, delete, found, get_by_id, merge, update, updated, UpdatePlan,
};
use svc_storage::validation::ValidationResult;
use svc_storage::error::StorageError;
use svc_storage::native::SqlValue;
use svc_storage::resources::{adsb, group, vertipad};
use svc_storage::row::{try_from_row, Row};
use svc_storage::validation::validate;
use svc_storage::field::Timestamp;

const ID: &str = "a1a2a3a4-b1b2-c1c2-d1d2-d3d4d5d6d7d8";
const ID_NUMBER: u128 = 0xa1a2a3a4b1b2c1c2d1d2d3d4d5d6d7d8;
const VERTIPORT: &str = "0f27d530-b748-4cbf-be4d-2d2b1ac5bf4e";

fn vertipad_data() -> vertipad::Data {
    vertipad::Data {
        vertiport_id: String::from(VERTIPORT),
        description: String::from("First vertipad for San Francisco"),
        longitude: (-122.4194f64).to_bits(),
        latitude: 37.7749f64.to_bits(),
        enabled: true,
        occupied: false,
        schedule: Some(String::from("DTSTART:20221020T180000Z;DURATION:PT14H")),
    }
}

/// The row that a store holding the bound parameters hands out.
fn stored_row(id_col: &str, id: u128, params: &[(String, SqlValue)]) -> Row {
    let mut columns = vec![(String::from(id_col), SqlValue::Uuid(id))];
    columns.extend(params.iter().cloned());
    columns.push((String::from("deleted_at"), SqlValue::Null));
    Row { columns }
}

/// The row after the store set the bound parameters on it.
fn updated_row(row: &Row, params: &[(String, SqlValue)]) -> Row {
    let mut columns = row.columns.clone();
    for (name, value) in params {
        match columns.iter_mut().find(|(column, _)| column == name) {
            Some(column) => column.1 = value.clone(),
            None => columns.push((name.clone(), value.clone())),
        }
    }
    Row { columns }
}

#[test]
fn lookup_is_prepared_for_a_uuid() {
    let statement = get_by_id::<vertipad::Data>(ID).unwrap();
    assert_eq!(
        statement.text,
        "SELECT * FROM \"vertipad\" WHERE \"vertipad_id\" = $1 AND \"deleted_at\" IS NULL"
    );
    assert_eq!(statement.params, vec![SqlValue::Uuid(ID_NUMBER)]);
    assert_eq!(get_by_id::<vertipad::Data>("INVALID"), Err(StorageError::MalformedIdentity));
}

#[test]
fn deletion_is_prepared_for_a_uuid() {
    let statement = delete::<adsb::Data>(ID).unwrap();
    assert_eq!(statement.text, "DELETE FROM \"adsb\" WHERE \"adsb_id\" = $1");
    assert_eq!(statement.params, vec![SqlValue::Uuid(ID_NUMBER)]);
    assert_eq!(delete::<adsb::Data>(""), Err(StorageError::MalformedIdentity));
}

#[test]
fn no_row_is_not_found() {
    assert_eq!(found::<vertipad::Data>(&Vec::new()), Err(StorageError::NotFound));
    assert_eq!(changed(0), Err(StorageError::NotFound));
    assert_eq!(changed(1), Ok(()));
    assert_eq!(changed(2), Ok(()));
}

#[test]
fn create_then_get_returns_the_payload() {
    let data = vertipad_data();
    let (statement, result) = create(&data).unwrap();
    assert!(result.success);
    let statement = statement.unwrap();
    assert_eq!(
        statement.text,
        "INSERT INTO \"vertipad\" (\"vertiport_id\", \"description\", \"longitude\", \"latitude\", \"enabled\", \"occupied\", \"schedule\") VALUES ($1, $2, $3, $4, $5, $6, $7) RETURNING \"vertipad_id\""
    );
    let (params, _) = validate(&data).unwrap();
    let values: Vec<SqlValue> = params.iter().map(|(_, value)| value.clone()).collect();
    assert_eq!(statement.params, values);

    let rows = vec![stored_row("vertipad_id", ID_NUMBER, &params)];
    assert_eq!(found::<vertipad::Data>(&rows), Ok(data));
}

#[test]
fn create_then_get_for_other_kinds_of_fields() {
    let data = adsb::Data {
        icao_address: -5,
        message_type: i64::MAX,
        network_timestamp: Some(Timestamp { seconds: 1_700_000_000, nanos: 999 }),
        payload: vec![0, 255, 7],
    };
    let (params, result) = validate(&data).unwrap();
    assert!(result.success);
    let rows = vec![stored_row("adsb_id", 1, &params)];
    assert_eq!(found::<adsb::Data>(&rows), Ok(data));

    let data = group::Data {
        name: String::from("n"),
        description: String::from("d"),
        parent_group_id: None,
    };
    let (params, _) = validate(&data).unwrap();
    let rows = vec![stored_row("group_id", 1, &params)];
    assert_eq!(found::<group::Data>(&rows), Ok(data));
}

#[test]
fn uuid_reads_back_in_canonical_text() {
    let data = group::Data {
        name: String::from("n"),
        description: String::from("d"),
        parent_group_id: Some(VERTIPORT.to_uppercase()),
    };
    let (params, result) = validate(&data).unwrap();
    assert!(result.success);
    let rows = vec![stored_row("group_id", 1, &params)];
    let read = found::<group::Data>(&rows).unwrap();
    assert_eq!(read.parent_group_id, Some(String::from(VERTIPORT)));
    assert_eq!(read.name, data.name);
}

fn no_errors() -> ValidationResult {
    ValidationResult { success: true, errors: Vec::new() }
}

#[test]
fn new_id_is_read_from_the_answer() {
    let row = Row { columns: vec![(String::from("vertipad_id"), SqlValue::Uuid(ID_NUMBER))] };
    assert_eq!(
        created::<vertipad::Data>(no_errors(), Some(Ok(vec![row.clone(), row]))),
        Ok((Some(ID_NUMBER), no_errors()))
    );
    assert_eq!(created::<vertipad::Data>(no_errors(), None), Ok((None, no_errors())));
    assert_eq!(
        created::<vertipad::Data>(no_errors(), Some(Ok(Vec::new()))),
        Err(StorageError::Store)
    );
    assert_eq!(
        created::<vertipad::Data>(no_errors(), Some(Err(StorageError::Store))),
        Err(StorageError::Store)
    );
    let row = Row { columns: vec![(String::from("vertipad_id"), SqlValue::Text(ID.to_string()))] };
    assert_eq!(
        created::<vertipad::Data>(no_errors(), Some(Ok(vec![row]))),
        Err(StorageError::Conversion(String::from("vertipad_id")))
    );
    let row = Row { columns: vec![(String::from("id"), SqlValue::Uuid(ID_NUMBER))] };
    assert_eq!(
        created::<vertipad::Data>(no_errors(), Some(Ok(vec![row]))),
        Err(StorageError::Conversion(String::from("vertipad_id")))
    );
}

#[test]
fn written_update_hands_out_the_merged_payload() {
    let plan = |statement: bool| UpdatePlan {
        data: Some(vertipad_data()),
        statement: if statement { get_by_id::<vertipad::Data>(ID).ok() } else { None },
        validation_result: no_errors(),
    };
    assert_eq!(updated(plan(true), Some(Ok(1))), Ok((Some(vertipad_data()), no_errors())));
    assert_eq!(updated(plan(true), Some(Ok(0))), Err(StorageError::NotFound));
    assert_eq!(updated(plan(true), Some(Err(StorageError::Store))), Err(StorageError::Store));
    assert_eq!(updated(plan(true), None), Err(StorageError::Store));
    assert_eq!(updated(plan(false), None), Ok((Some(vertipad_data()), no_errors())));
    assert_eq!(updated(plan(false), Some(Ok(0))), Ok((Some(vertipad_data()), no_errors())));
}

#[test]
fn create_of_invalid_payload_writes_nothing() {
    let mut data = vertipad_data();
    data.description = String::new();
    let (statement, result) = create(&data).unwrap();
    assert_eq!(statement, None);
    assert!(!result.success);
    assert_eq!(result.errors.len(), 1);
    assert_eq!(result.errors[0].field, "description");
}

#[test]
fn merge_with_empty_mask_replaces_everything() {
    let stored = vertipad_data();
    let mut new_data = vertipad_data();
    new_data.description = String::from("Second");
    new_data.occupied = true;
    new_data.schedule = None;
    assert_eq!(merge(stored, new_data.clone(), &Vec::new()), new_data);
}

#[test]
fn merge_with_mask_takes_the_listed_fields_only() {
    let stored = vertipad_data();
    let new_data = vertipad::Data {
        vertiport_id: String::from("ffffffff-ffff-ffff-ffff-ffffffffffff"),
        description: String::from("other"),
        longitude: 1,
        latitude: 2,
        enabled: false,
        occupied: true,
        schedule: None,
    };
    let merged = merge(stored.clone(), new_data.clone(), &vec![String::from("occupied")]);
    let mut expected = stored.clone();
    expected.occupied = true;
    assert_eq!(merged, expected);

    let mask = vec![String::from("schedule"), String::from("latitude"), String::from("schedule")];
    let merged = merge(stored.clone(), new_data.clone(), &mask);
    let mut expected = stored.clone();
    expected.schedule = None;
    expected.latitude = 2;
    assert_eq!(merged, expected);
}

#[test]
fn merge_ignores_unknown_paths() {
    let stored = vertipad_data();
    let mut new_data = vertipad_data();
    new_data.description = String::from("other");
    let mask = vec![String::from("no_such_field"), String::from("deleted_at")];
    assert_eq!(merge(stored.clone(), new_data, &mask), stored);
}

#[test]
fn vertipad_becomes_occupied_and_nothing_else_changes() {
    let inserted = vertipad_data();
    assert!(!inserted.occupied);
    let (params, result) = validate(&inserted).unwrap();
    assert!(result.success);
    let row = stored_row("vertipad_id", ID_NUMBER, &params);

    let payload = vertipad::Data {
        vertiport_id: String::new(),
        description: String::new(),
        longitude: 0,
        latitude: 0,
        enabled: false,
        occupied: true,
        schedule: None,
    };
    let mask = vec![String::from("occupied")];
    let plan = update::<vertipad::Data>(ID, &vec![row.clone()], payload, &mask).unwrap();
    assert!(plan.validation_result.success);
    let merged = plan.data.unwrap();
    assert_eq!(merged.occupied, true);
    assert_eq!(merged.description, inserted.description);
    assert_eq!(merged.longitude, inserted.longitude);
    assert_eq!(merged.latitude, inserted.latitude);
    assert_eq!(merged.vertiport_id, inserted.vertiport_id);
    assert_eq!(merged.enabled, inserted.enabled);
    assert_eq!(merged.schedule, inserted.schedule);

    let statement = plan.statement.unwrap();
    assert_eq!(
        statement.text,
        "UPDATE \"vertipad\" SET \"vertiport_id\" = $1, \"description\" = $2, \"longitude\" = $3, \"latitude\" = $4, \"enabled\" = $5, \"occupied\" = $6, \"schedule\" = $7 WHERE \"vertipad_id\" = $8 AND \"deleted_at\" IS NULL"
    );
    assert_eq!(statement.params.len(), 8);
    assert_eq!(statement.params[5], SqlValue::Bool(true));
    assert_eq!(statement.params[7], SqlValue::Uuid(ID_NUMBER));

    let (written, _) = validate(&merged).unwrap();
    let read_back = try_from_row::<vertipad::Data>(&updated_row(&row, &written)).unwrap();
    let mut expected = inserted.clone();
    expected.occupied = true;
    assert_eq!(read_back, expected);
}

#[test]
fn update_of_missing_row_is_not_found() {
    let r = update::<vertipad::Data>(ID, &Vec::new(), vertipad_data(), &Vec::new());
    assert_eq!(r.unwrap_err(), StorageError::NotFound);
}

#[test]
fn update_with_malformed_id_is_refused() {
    let row = stored_row("vertipad_id", ID_NUMBER, &validate(&vertipad_data()).unwrap().0);
    let r = update::<vertipad::Data>("INVALID", &vec![row], vertipad_data(), &Vec::new());
    assert_eq!(r.unwrap_err(), StorageError::MalformedIdentity);
}

#[test]
fn update_that_fails_validation_writes_nothing() {
    let row = stored_row("vertipad_id", ID_NUMBER, &validate(&vertipad_data()).unwrap().0);
    let mut payload = vertipad_data();
    payload.vertiport_id = String::from("INVALID");
    let mask = vec![String::from("vertiport_id")];
    let plan = update::<vertipad::Data>(ID, &vec![row], payload, &mask).unwrap();
    assert!(plan.data.is_none());
    assert!(plan.statement.is_none());
    assert!(!plan.validation_result.success);
    assert_eq!(plan.validation_result.errors.len(), 1);
    assert_eq!(plan.validation_result.errors[0].error, "vertiport_id is not a valid UUID");
}

#[test]
fn row_with_wrong_kind_of_value_names_the_column() {
    let row = Row {
        columns: vec![
            (String::from("icao_address"), SqlValue::Int8(1)),
            (String::from("message_type"), SqlValue::Text(String::from("17"))),
            (String::from("network_timestamp"), SqlValue::Null),
            (String::from("payload"), SqlValue::Int8(1)),
        ],
    };
    assert_eq!(
        try_from_row::<adsb::Data>(&row),
        Err(StorageError::Conversion(String::from("message_type")))
    );
    assert_eq!(
        found::<adsb::Data>(&vec![row]),
        Err(StorageError::Conversion(String::from("message_type")))
    );
}

#[test]
fn row_with_missing_column_or_null_names_the_column() {
    let row = Row {
        columns: vec![
            (String::from("icao_address"), SqlValue::Int8(1)),
            (String::from("message_type"), SqlValue::Int8(2)),
            (String::from("network_timestamp"), SqlValue::Null),
        ],
    };
    assert_eq!(
        try_from_row::<adsb::Data>(&row),
        Err(StorageError::Conversion(String::from("payload")))
    );
    let row = Row {
        columns: vec![
            (String::from("message_type"), SqlValue::Int8(2)),
            (String::from("icao_address"), SqlValue::Null),
            (String::from("payload"), SqlValue::Bytea(vec![])),
            (String::from("network_timestamp"), SqlValue::Null),
        ],
    };
    assert_eq!(
        try_from_row::<adsb::Data>(&row),
        Err(StorageError::Conversion(String::from("icao_address")))
    );
}

#[test]
fn row_null_becomes_absence_in_an_optional_field() {
    let row = Row {
        columns: vec![
            (String::from("payload"), SqlValue::Bytea(vec![9])),
            (String::from("message_type"), SqlValue::Int8(2)),
            (String::from("icao_address"), SqlValue::Int8(1)),
            (String::from("network_timestamp"), SqlValue::Null),
            (String::from("extra"), SqlValue::Bool(true)),
        ],
    };
    assert_eq!(
        try_from_row::<adsb::Data>(&row),
        Ok(adsb::Data {
            icao_address: 1,
            message_type: 2,
            network_timestamp: None,
            payload: vec![9]
        })
    );
    assert_eq!(row.get("extra"), Some(&SqlValue::Bool(true)));
    assert_eq!(row.get("absent"), None);
}
