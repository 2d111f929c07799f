use svc_storage::error::StorageError;
use svc_storage::links::{
    link, link_changes, link_statement, linked_ids, list_for, list_for_other, list_statement,
    listed as read_listed, listed_other, parse_ids, reconcile_statements, replace_links, unlink, unlink_statement, unlinked,
};
use svc_storage::resources::group;
use svc_storage::native::SqlValue;
use svc_storage::resources::base::Resource;
use svc_storage::resources::{user_group, vehicle_group};
use svc_storage::row::Row;

const A: u128 = 0xa1a2a3a4b1b2c1c2d1d2d3d4d5d6d7d8;
const B1: u128 = 1;
const B2: u128 = 2;
const B3: u128 = 3;

/// What the store lists after it ran the statements of a reconciliation.
fn apply(linked: &[u128], remove: &[u128], add: &[u128]) -> Vec<u128> {
    let mut now: Vec<u128> = linked.iter().copied().filter(|id| !remove.contains(id)).collect();
    for id in add {
        if !now.contains(id) {
            now.push(*id);
        }
    }
    now.sort();
    now
}

#[test]
fn link_inserts_unless_linked() {
    let statement = link_statement(&vehicle_group::Data::get_definition(), A, B1);
    assert_eq!(
        statement.text,
        "INSERT INTO \"vehicle_group\" (\"vehicle_id\", \"group_id\") VALUES ($1, $2) ON CONFLICT DO NOTHING"
    );
    assert_eq!(statement.params, vec![SqlValue::Uuid(A), SqlValue::Uuid(B1)]);
}

#[test]
fn unlink_deletes_the_row() {
    let statement = unlink_statement(&user_group::Data::get_definition(), A, B1);
    assert_eq!(
        statement.text,
        "DELETE FROM \"user_group\" WHERE \"user_id\" = $1 AND \"group_id\" = $2"
    );
    assert_eq!(statement.params, vec![SqlValue::Uuid(A), SqlValue::Uuid(B1)]);
}

#[test]
fn list_statements_for_both_sides() {
    let definition = vehicle_group::Data::get_definition();
    let statement = list_statement(&definition, A, 0, 1);
    assert_eq!(
        statement.text,
        "SELECT \"group_id\" FROM \"vehicle_group\" WHERE \"vehicle_id\" = $1 ORDER BY \"group_id\""
    );
    assert_eq!(statement.params, vec![SqlValue::Uuid(A)]);
    let statement = list_statement(&definition, B1, 1, 0);
    assert_eq!(
        statement.text,
        "SELECT \"vehicle_id\" FROM \"vehicle_group\" WHERE \"group_id\" = $1 ORDER BY \"vehicle_id\""
    );
    assert_eq!(statement.params, vec![SqlValue::Uuid(B1)]);
}

#[test]
fn unlink_of_nothing_is_not_found() {
    assert_eq!(unlinked(0), Err(StorageError::NotFound));
    assert_eq!(unlinked(1), Ok(()));
}

#[test]
fn listed_ids_are_read_in_order() {
    let rows = vec![
        Row { columns: vec![(String::from("group_id"), SqlValue::Uuid(B2))] },
        Row { columns: vec![(String::from("group_id"), SqlValue::Uuid(B1))] },
    ];
    assert_eq!(linked_ids(&rows, "group_id"), Ok(vec![B2, B1]));
    assert_eq!(linked_ids(&Vec::new(), "group_id"), Ok(vec![]));
    assert_eq!(
        linked_ids(&rows, "vehicle_id"),
        Err(StorageError::Conversion(String::from("vehicle_id")))
    );
    let rows = vec![Row { columns: vec![(String::from("group_id"), SqlValue::Null)] }];
    assert_eq!(
        linked_ids(&rows, "group_id"),
        Err(StorageError::Conversion(String::from("group_id")))
    );
}

#[test]
fn reconciliation_removes_and_adds() {
    let changes = link_changes(&vec![B1, B2], &vec![B2, B3]);
    assert_eq!(changes.remove, vec![B1]);
    assert_eq!(changes.add, vec![B3]);
}

#[test]
fn reconciliation_of_equal_sets_changes_nothing() {
    let changes = link_changes(&vec![B1, B2], &vec![B2, B1, B2]);
    assert!(changes.remove.is_empty());
    assert!(changes.add.is_empty());
    let changes = link_changes(&Vec::new(), &Vec::new());
    assert!(changes.remove.is_empty());
    assert!(changes.add.is_empty());
}

#[test]
fn reconciliation_names_each_id_once() {
    let changes = link_changes(&vec![B1, B1, B2], &vec![B3, B3, B3]);
    assert_eq!(changes.remove, vec![B1, B2]);
    assert_eq!(changes.add, vec![B3]);
    let changes = link_changes(&vec![B1], &Vec::new());
    assert_eq!(changes.remove, vec![B1]);
    assert!(changes.add.is_empty());
}

#[test]
fn replace_links_twice_leaves_the_second_set() {
    let first = vec![B1, B2];
    let second = vec![B2, B3];
    let mut linked: Vec<u128> = Vec::new();

    let changes = link_changes(&linked, &first);
    linked = apply(&linked, &changes.remove, &changes.add);
    assert_eq!(linked, vec![B1, B2]);

    let changes = link_changes(&linked, &second);
    assert!(!changes.remove.contains(&B2));
    assert!(!changes.add.contains(&B2));
    linked = apply(&linked, &changes.remove, &changes.add);
    assert_eq!(linked, vec![B2, B3]);
}

#[test]
fn replace_links_statements_remove_first() {
    let definition = vehicle_group::Data::get_definition();
    let statements = reconcile_statements(&definition, A, &vec![B1, B2], &vec![B2, B3]);
    assert_eq!(statements.len(), 2);
    assert_eq!(statements[0], unlink_statement(&definition, A, B1));
    assert_eq!(statements[1], link_statement(&definition, A, B3));
    assert!(reconcile_statements(&definition, A, &vec![B1], &vec![B1]).is_empty());
}

const A_TEXT: &str = "a1a2a3a4-b1b2-c1c2-d1d2-d3d4d5d6d7d8";
const B1_TEXT: &str = "00000000-0000-0000-0000-000000000001";
const B2_TEXT: &str = "00000000-0000-0000-0000-000000000002";
const B3_TEXT: &str = "00000000-0000-0000-0000-000000000003";

fn listed(ids: &[u128]) -> Vec<Row> {
    ids.iter()
        .map(|id| Row {
            columns: vec![
                (String::from("vehicle_id"), SqlValue::Uuid(A)),
                (String::from("group_id"), SqlValue::Uuid(*id)),
            ],
        })
        .collect()
}

#[test]
fn links_are_prepared_from_id_text() {
    let definition = vehicle_group::Data::get_definition();
    assert_eq!(
        link::<vehicle_group::Data>(A_TEXT, B1_TEXT),
        Ok(link_statement(&definition, A, B1))
    );
    assert_eq!(
        unlink::<vehicle_group::Data>(A_TEXT, B2_TEXT),
        Ok(unlink_statement(&definition, A, B2))
    );
    assert_eq!(list_for::<vehicle_group::Data>(A_TEXT), Ok(list_statement(&definition, A, 0, 1)));
    assert_eq!(
        list_for_other::<vehicle_group::Data>(B1_TEXT),
        Ok(list_statement(&definition, B1, 1, 0))
    );
}

#[test]
fn links_need_uuids() {
    assert_eq!(link::<vehicle_group::Data>("x", B1_TEXT), Err(StorageError::MalformedIdentity));
    assert_eq!(link::<vehicle_group::Data>(A_TEXT, ""), Err(StorageError::MalformedIdentity));
    assert_eq!(unlink::<vehicle_group::Data>(A_TEXT, "b"), Err(StorageError::MalformedIdentity));
    assert_eq!(list_for::<vehicle_group::Data>("a"), Err(StorageError::MalformedIdentity));
    assert_eq!(list_for_other::<vehicle_group::Data>("b"), Err(StorageError::MalformedIdentity));
    assert_eq!(
        replace_links::<vehicle_group::Data>("a", &Vec::new(), &Vec::new()),
        Err(StorageError::MalformedIdentity)
    );
    assert_eq!(
        replace_links::<vehicle_group::Data>(A_TEXT, &Vec::new(), &vec![String::from("b")]),
        Err(StorageError::MalformedIdentity)
    );
}

#[test]
fn links_need_a_join_table() {
    assert_eq!(link::<group::Data>(A_TEXT, B1_TEXT), Err(StorageError::NoLinkTable));
    assert_eq!(unlink::<group::Data>("x", B1_TEXT), Err(StorageError::NoLinkTable));
    assert_eq!(list_for::<group::Data>(A_TEXT), Err(StorageError::NoLinkTable));
    assert_eq!(list_for_other::<group::Data>(A_TEXT), Err(StorageError::NoLinkTable));
    assert_eq!(
        replace_links::<group::Data>(A_TEXT, &Vec::new(), &Vec::new()),
        Err(StorageError::NoLinkTable)
    );
}

#[test]
fn ids_are_read_from_text() {
    assert_eq!(parse_ids(&vec![String::from(B2_TEXT), String::from(B1_TEXT)]), Ok(vec![B2, B1]));
    assert_eq!(parse_ids(&Vec::new()), Ok(Vec::new()));
    assert_eq!(
        parse_ids(&vec![String::from(B2_TEXT), String::from("no")]),
        Err(StorageError::MalformedIdentity)
    );
}

#[test]
fn replace_links_from_the_listing() {
    let definition = vehicle_group::Data::get_definition();
    let wanted = vec![String::from(B2_TEXT), String::from(B3_TEXT)];
    let statements =
        replace_links::<vehicle_group::Data>(A_TEXT, &listed(&[B1, B2]), &wanted).unwrap();
    assert_eq!(
        statements,
        vec![unlink_statement(&definition, A, B1), link_statement(&definition, A, B3)]
    );
    let statements =
        replace_links::<vehicle_group::Data>(A_TEXT, &listed(&[B2, B3]), &wanted).unwrap();
    assert!(statements.is_empty());
    let statements = replace_links::<vehicle_group::Data>(A_TEXT, &listed(&[]), &wanted).unwrap();
    assert_eq!(
        statements,
        vec![link_statement(&definition, A, B2), link_statement(&definition, A, B3)]
    );
}

#[test]
fn replace_links_needs_ids_in_the_listing() {
    let rows = vec![Row { columns: vec![(String::from("vehicle_id"), SqlValue::Uuid(A))] }];
    assert_eq!(
        replace_links::<vehicle_group::Data>(A_TEXT, &rows, &Vec::new()),
        Err(StorageError::Conversion(String::from("group_id")))
    );
}

#[test]
fn listings_are_read_in_the_column_of_the_other_side() {
    assert_eq!(read_listed::<vehicle_group::Data>(&listed(&[B2, B1])), Ok(vec![B2, B1]));
    assert_eq!(listed_other::<vehicle_group::Data>(&listed(&[B2, B1])), Ok(vec![A, A]));
    assert_eq!(read_listed::<vehicle_group::Data>(&Vec::new()), Ok(Vec::new()));
    let rows = vec![Row { columns: vec![(String::from("group_id"), SqlValue::Uuid(B1))] }];
    assert_eq!(read_listed::<vehicle_group::Data>(&rows), Ok(vec![B1]));
    assert_eq!(
        listed_other::<vehicle_group::Data>(&rows),
        Err(StorageError::Conversion(String::from("vehicle_id")))
    );
    assert_eq!(read_listed::<group::Data>(&rows), Err(StorageError::NoLinkTable));
    assert_eq!(listed_other::<group::Data>(&rows), Err(StorageError::NoLinkTable));
}
