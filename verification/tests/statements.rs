use svc_storage::error::StorageError;
use svc_storage::native::SqlValue;
use svc_storage::psql::{delete_by_id, insert, select_by_id, update};
use svc_storage::resources::base::Resource;
use svc_storage::resources::{adsb, group, vehicle_group, vertipad};
use svc_storage::schema::PsqlFieldType;
use svc_storage::engine::search;
use svc_storage::search::{resolve_filter_value, search_statement, SearchFilter};

const ID: u128 = 0xa1a2a3a4b1b2c1c2d1d2d3d4d5d6d7d8;

fn filter(field: &str, value: &str, page_number: i32, results_per_page: i32) -> SearchFilter {
    SearchFilter {
        search_field: String::from(field),
        search_value: String::from(value),
        page_number,
        results_per_page,
    }
}

#[test]
fn select_by_id_skips_deleted_rows() {
    let statement = select_by_id(&group::Data::get_definition(), ID);
    assert_eq!(
        statement.text,
        "SELECT * FROM \"group\" WHERE \"group_id\" = $1 AND \"deleted_at\" IS NULL"
    );
    assert_eq!(statement.params, vec![SqlValue::Uuid(ID)]);
}

#[test]
fn select_by_id_without_marker_column() {
    let statement = select_by_id(&adsb::Data::get_definition(), ID);
    assert_eq!(statement.text, "SELECT * FROM \"adsb\" WHERE \"adsb_id\" = $1");
    assert_eq!(statement.params, vec![SqlValue::Uuid(ID)]);
}

#[test]
fn delete_marks_the_row_where_it_can() {
    let statement = delete_by_id(&group::Data::get_definition(), ID);
    assert_eq!(
        statement.text,
        "UPDATE \"group\" SET \"deleted_at\" = NOW() WHERE \"group_id\" = $1 AND \"deleted_at\" IS NULL"
    );
    assert_eq!(statement.params, vec![SqlValue::Uuid(ID)]);
    let statement = delete_by_id(&adsb::Data::get_definition(), ID);
    assert_eq!(statement.text, "DELETE FROM \"adsb\" WHERE \"adsb_id\" = $1");
    assert_eq!(statement.params, vec![SqlValue::Uuid(ID)]);
}

#[test]
fn insert_names_columns_and_binds_values() {
    let params = vec![
        (String::from("name"), SqlValue::Text(String::from("it's \"quoted\"; DROP TABLE x"))),
        (String::from("description"), SqlValue::Text(String::from("d"))),
        (String::from("parent_group_id"), SqlValue::Null),
    ];
    let statement = insert(&group::Data::get_definition(), &params);
    assert_eq!(
        statement.text,
        "INSERT INTO \"group\" (\"name\", \"description\", \"parent_group_id\") VALUES ($1, $2, $3) RETURNING \"group_id\""
    );
    assert_eq!(
        statement.params,
        vec![
            SqlValue::Text(String::from("it's \"quoted\"; DROP TABLE x")),
            SqlValue::Text(String::from("d")),
            SqlValue::Null
        ]
    );
}

#[test]
fn statement_text_does_not_depend_on_values() {
    let definition = group::Data::get_definition();
    let one = vec![(String::from("name"), SqlValue::Text(String::from("a")))];
    let other = vec![(String::from("name"), SqlValue::Text(String::from("'; DELETE FROM x; --")))];
    assert_eq!(insert(&definition, &one).text, insert(&definition, &other).text);
    assert_eq!(
        update(&definition, ID, &one).unwrap().text,
        update(&definition, 7, &other).unwrap().text
    );
}

#[test]
fn insert_of_one_and_of_no_column() {
    let params = vec![(String::from("icao_address"), SqlValue::Int8(5))];
    let statement = insert(&adsb::Data::get_definition(), &params);
    assert_eq!(
        statement.text,
        "INSERT INTO \"adsb\" (\"icao_address\") VALUES ($1) RETURNING \"adsb_id\""
    );
    let statement = insert(&vehicle_group::Data::get_definition(), &Vec::new());
    assert_eq!(
        statement.text,
        "INSERT INTO \"vehicle_group\" DEFAULT VALUES RETURNING \"vehicle_id\""
    );
    assert!(statement.params.is_empty());
}

#[test]
fn insert_numbers_more_than_nine_placeholders() {
    let params: Vec<(String, SqlValue)> =
        (0..11).map(|i| (format!("c{}", i), SqlValue::Int8(i))).collect();
    let statement = insert(&adsb::Data::get_definition(), &params);
    assert!(statement.text.contains("VALUES ($1, $2, $3, $4, $5, $6, $7, $8, $9, $10, $11)"));
    assert_eq!(statement.params.len(), 11);
}

#[test]
fn update_sets_the_bound_columns_only() {
    let params = vec![
        (String::from("occupied"), SqlValue::Bool(true)),
        (String::from("description"), SqlValue::Text(String::from("d"))),
    ];
    let statement = update(&vertipad::Data::get_definition(), ID, &params).unwrap();
    assert_eq!(
        statement.text,
        "UPDATE \"vertipad\" SET \"occupied\" = $1, \"description\" = $2 WHERE \"vertipad_id\" = $3 AND \"deleted_at\" IS NULL"
    );
    assert_eq!(
        statement.params,
        vec![SqlValue::Bool(true), SqlValue::Text(String::from("d")), SqlValue::Uuid(ID)]
    );
}

#[test]
fn update_of_nothing_is_no_statement() {
    assert_eq!(update(&adsb::Data::get_definition(), ID, &Vec::new()), None);
}

#[test]
fn search_without_filter() {
    let statement = search_statement(&group::Data::get_definition(), &filter("", "", 1, 50)).unwrap();
    assert_eq!(
        statement.text,
        "SELECT * FROM \"group\" WHERE \"deleted_at\" IS NULL ORDER BY \"group_id\" LIMIT 50 OFFSET 0"
    );
    assert!(statement.params.is_empty());
    let statement = search_statement(&adsb::Data::get_definition(), &filter("", "ignored", 1, 50)).unwrap();
    assert_eq!(statement.text, "SELECT * FROM \"adsb\" ORDER BY \"adsb_id\" LIMIT 50 OFFSET 0");
    assert!(statement.params.is_empty());
}

#[test]
fn search_pages_follow_each_other() {
    let definition = adsb::Data::get_definition();
    let second = search_statement(&definition, &filter("", "", 2, 20)).unwrap();
    assert_eq!(second.text, "SELECT * FROM \"adsb\" ORDER BY \"adsb_id\" LIMIT 20 OFFSET 20");
    let seventh = search_statement(&definition, &filter("", "", 7, 3)).unwrap();
    assert_eq!(seventh.text, "SELECT * FROM \"adsb\" ORDER BY \"adsb_id\" LIMIT 3 OFFSET 18");
    let last = search_statement(&definition, &filter("", "", i32::MAX, i32::MAX)).unwrap();
    assert_eq!(
        last.text,
        "SELECT * FROM \"adsb\" ORDER BY \"adsb_id\" LIMIT 2147483647 OFFSET 4611686011984936962"
    );
}

#[test]
fn search_with_filter_binds_a_typed_value() {
    let statement =
        search_statement(&vertipad::Data::get_definition(), &filter("occupied", "false", 1, 50)).unwrap();
    assert_eq!(
        statement.text,
        "SELECT * FROM \"vertipad\" WHERE \"occupied\" = $1 AND \"deleted_at\" IS NULL ORDER BY \"vertipad_id\" LIMIT 50 OFFSET 0"
    );
    assert_eq!(statement.params, vec![SqlValue::Bool(false)]);
    let statement =
        search_statement(&adsb::Data::get_definition(), &filter("message_type", "17", 3, 10)).unwrap();
    assert_eq!(
        statement.text,
        "SELECT * FROM \"adsb\" WHERE \"message_type\" = $1 ORDER BY \"adsb_id\" LIMIT 10 OFFSET 20"
    );
    assert_eq!(statement.params, vec![SqlValue::Int8(17)]);
}

#[test]
fn search_refuses_bad_pages() {
    let definition = group::Data::get_definition();
    assert_eq!(search_statement(&definition, &filter("", "", 0, 10)), Err(StorageError::InvalidPage));
    assert_eq!(search_statement(&definition, &filter("", "", 1, 0)), Err(StorageError::InvalidPage));
    assert_eq!(search_statement(&definition, &filter("", "", -1, 10)), Err(StorageError::InvalidPage));
    assert_eq!(search_statement(&definition, &filter("nothing", "", 1, -5)), Err(StorageError::InvalidPage));
}

#[test]
fn search_refuses_unknown_fields_and_unreadable_values() {
    let definition = vertipad::Data::get_definition();
    assert_eq!(
        search_statement(&definition, &filter("name\" = '' OR 1 = 1 --", "x", 1, 10)),
        Err(StorageError::UnknownField(String::from("name\" = '' OR 1 = 1 --")))
    );
    assert_eq!(
        search_statement(&definition, &filter("vertipad_id", "x", 1, 10)),
        Err(StorageError::UnknownField(String::from("vertipad_id")))
    );
    assert_eq!(
        search_statement(&definition, &filter("occupied", "maybe", 1, 10)),
        Err(StorageError::Conversion(String::from("occupied")))
    );
    assert_eq!(
        search_statement(&definition, &filter("vertiport_id", "INVALID", 1, 10)),
        Err(StorageError::Conversion(String::from("vertiport_id")))
    );
    assert_eq!(
        search_statement(&definition, &filter("longitude", "1.5", 1, 10)),
        Err(StorageError::Conversion(String::from("longitude")))
    );
}

#[test]
fn search_is_prepared_for_a_resource_type() {
    let statement = search::<group::Data>(&filter("name", "Operators", 2, 5)).unwrap();
    assert_eq!(
        statement.text,
        "SELECT * FROM \"group\" WHERE \"name\" = $1 AND \"deleted_at\" IS NULL ORDER BY \"group_id\" LIMIT 5 OFFSET 5"
    );
    assert_eq!(statement.params, vec![SqlValue::Text(String::from("Operators"))]);
    assert_eq!(
        search::<group::Data>(&filter("", "", 1, 10)),
        search_statement(&group::Data::get_definition(), &filter("", "", 1, 10))
    );
    assert_eq!(search::<group::Data>(&filter("", "", 0, 10)), Err(StorageError::InvalidPage));
}

#[test]
fn filter_values_by_column_type() {
    assert_eq!(
        resolve_filter_value(PsqlFieldType::Text, "any text"),
        Some(SqlValue::Text(String::from("any text")))
    );
    assert_eq!(
        resolve_filter_value(PsqlFieldType::Uuid, "a1a2a3a4-b1b2-c1c2-d1d2-d3d4d5d6d7d8"),
        Some(SqlValue::Uuid(ID))
    );
    assert_eq!(resolve_filter_value(PsqlFieldType::Uuid, "nope"), None);
    assert_eq!(resolve_filter_value(PsqlFieldType::Int8, "-12"), Some(SqlValue::Int8(-12)));
    assert_eq!(
        resolve_filter_value(PsqlFieldType::Int4, "2147483647"),
        Some(SqlValue::Int4(i32::MAX))
    );
    assert_eq!(
        resolve_filter_value(PsqlFieldType::Int4, "-2147483648"),
        Some(SqlValue::Int4(i32::MIN))
    );
    assert_eq!(resolve_filter_value(PsqlFieldType::Int4, "2147483648"), None);
    assert_eq!(resolve_filter_value(PsqlFieldType::Int2, "32767"), Some(SqlValue::Int2(i16::MAX)));
    assert_eq!(resolve_filter_value(PsqlFieldType::Int2, "-32769"), None);
    assert_eq!(resolve_filter_value(PsqlFieldType::Bool, "true"), Some(SqlValue::Bool(true)));
    assert_eq!(resolve_filter_value(PsqlFieldType::Bool, "false"), Some(SqlValue::Bool(false)));
    assert_eq!(resolve_filter_value(PsqlFieldType::Bool, "TRUE"), None);
    assert_eq!(resolve_filter_value(PsqlFieldType::Float8, "1"), None);
    assert_eq!(resolve_filter_value(PsqlFieldType::Float4, "1"), None);
    assert_eq!(resolve_filter_value(PsqlFieldType::Bytea, "1"), None);
    assert_eq!(resolve_filter_value(PsqlFieldType::Timestamptz, "1"), None);
    assert_eq!(resolve_filter_value(PsqlFieldType::Int8Array, "1"), None);
}
