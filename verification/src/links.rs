//! Linked resources: many-to-many relations kept as rows of a join table
//! whose two id columns are the ids of the two sides.

use vstd::prelude::*;
use vstd::string::StringExecFns;
use crate::error::StorageError;
use crate::identity::{parsed_uuid, try_get_uuid};
use crate::native::{SqlValue, SqlView};
use crate::psql::{push_quoted, quoted, values_view, Statement, StatementView};
use crate::resources::base::Resource;
use crate::row::{cell, Row};
use crate::schema::{texts, ResourceDefinition, Schema};

verus! {

/// The text that inserts the link between two ids, unless it is there.
pub open spec fn link_text(schema: Schema) -> Seq<char> {
    "INSERT INTO "@ + quoted(schema.table) + " ("@ + quoted(schema.id_cols[0]) + ", "@ + quoted(
        schema.id_cols[1],
    ) + ") VALUES ($1, $2) ON CONFLICT DO NOTHING"@
}

/// The text that removes the link between two ids.
pub open spec fn unlink_text(schema: Schema) -> Seq<char> {
    "DELETE FROM "@ + quoted(schema.table) + " WHERE "@ + quoted(schema.id_cols[0]) + " = $1 AND "@
        + quoted(schema.id_cols[1]) + " = $2"@
}

/// The text that selects the ids in column `other` that are linked to the
/// id in column `own`, in their order.
pub open spec fn list_text(schema: Schema, own: int, other: int) -> Seq<char> {
    "SELECT "@ + quoted(schema.id_cols[other]) + " FROM "@ + quoted(schema.table) + " WHERE "@
        + quoted(schema.id_cols[own]) + " = $1 ORDER BY "@ + quoted(schema.id_cols[other])
}

fn two_ids(a: u128, b: u128) -> (params: Vec<SqlValue>)
    ensures
        values_view(params@) == seq![SqlView::Uuid(a), SqlView::Uuid(b)],
{
    let mut params: Vec<SqlValue> = Vec::new();
    params.push(SqlValue::Uuid(a));
    params.push(SqlValue::Uuid(b));
    params
}

/// The statement that links `a` to `b` in a join table. Linking what is
/// linked changes nothing.
pub fn link_statement(definition: &ResourceDefinition, a: u128, b: u128) -> (statement: Statement)
    requires
        definition@.id_cols.len() == 2,
    ensures
        statement@.text == link_text(definition@),
        statement@.params == seq![SqlView::Uuid(a), SqlView::Uuid(b)],
{
    let mut text = String::from_str("INSERT INTO ");
    push_quoted(&mut text, definition.psql_table.as_str());
    text.append(" (");
    push_quoted(&mut text, definition.psql_id_cols[0].as_str());
    text.append(", ");
    push_quoted(&mut text, definition.psql_id_cols[1].as_str());
    text.append(") VALUES ($1, $2) ON CONFLICT DO NOTHING");
    Statement { text, params: two_ids(a, b) }
}

/// The statement that removes the link between `a` and `b` in a join
/// table.
pub fn unlink_statement(definition: &ResourceDefinition, a: u128, b: u128) -> (statement: Statement)
    requires
        definition@.id_cols.len() == 2,
    ensures
        statement@.text == unlink_text(definition@),
        statement@.params == seq![SqlView::Uuid(a), SqlView::Uuid(b)],
{
    let mut text = String::from_str("DELETE FROM ");
    push_quoted(&mut text, definition.psql_table.as_str());
    text.append(" WHERE ");
    push_quoted(&mut text, definition.psql_id_cols[0].as_str());
    text.append(" = $1 AND ");
    push_quoted(&mut text, definition.psql_id_cols[1].as_str());
    text.append(" = $2");
    Statement { text, params: two_ids(a, b) }
}

/// The statement that selects the ids in id column `other` that are linked
/// to `id` in id column `own`.
pub fn list_statement(
    definition: &ResourceDefinition,
    id: u128,
    own: usize,
    other: usize,
) -> (statement: Statement)
    requires
        definition@.id_cols.len() == 2,
        own < 2,
        other < 2,
    ensures
        statement@.text == list_text(definition@, own as int, other as int),
        statement@.params == seq![SqlView::Uuid(id)],
{
    let mut text = String::from_str("SELECT ");
    push_quoted(&mut text, definition.psql_id_cols[other].as_str());
    text.append(" FROM ");
    push_quoted(&mut text, definition.psql_table.as_str());
    text.append(" WHERE ");
    push_quoted(&mut text, definition.psql_id_cols[own].as_str());
    text.append(" = $1 ORDER BY ");
    push_quoted(&mut text, definition.psql_id_cols[other].as_str());
    let mut params: Vec<SqlValue> = Vec::new();
    params.push(SqlValue::Uuid(id));
    Statement { text, params }
}

/// What removing a link did: nothing to remove is `NotFound`.
pub fn unlinked(rows_affected: u64) -> (r: Result<(), StorageError>)
    ensures
        rows_affected > 0 ==> r.is_ok(),
        rows_affected == 0 ==> r == Err::<(), StorageError>(StorageError::NotFound),
{
    if rows_affected == 0 {
        Err(StorageError::NotFound)
    } else {
        Ok(())
    }
}

/// The id that a row holds in a column; none where the row has no such
/// column or the column holds something else.
pub open spec fn id_in(row: Seq<(Seq<char>, SqlView)>, column: Seq<char>) -> Option<u128> {
    match cell(row, column) {
        Some(SqlView::Uuid(id)) => Some(id),
        _ => None,
    }
}

/// The ids that the rows of a listing hold in a column, in the order of
/// the rows.
pub open spec fn ids_of(rows: Seq<Row>, column: Seq<char>) -> Seq<u128> {
    Seq::new(rows.len(), |i: int| id_in(rows[i]@, column).unwrap())
}

/// The position of the first of the first `n` rows that holds no id in a
/// column.
pub open spec fn first_without_id(rows: Seq<Row>, column: Seq<char>, n: int) -> Option<int>
    decreases n,
{
    if n <= 0 {
        None
    } else {
        match first_without_id(rows, column, n - 1) {
            Some(i) => Some(i),
            None => if id_in(rows[n - 1]@, column).is_none() {
                Some(n - 1)
            } else {
                None
            },
        }
    }
}

proof fn lemma_first_without_id_stays(rows: Seq<Row>, column: Seq<char>, m: int, n: int)
    requires
        m <= n,
        first_without_id(rows, column, m).is_some(),
    ensures
        first_without_id(rows, column, n) == first_without_id(rows, column, m),
    decreases n - m,
{
    if m < n {
        lemma_first_without_id_stays(rows, column, m, n - 1);
    }
}

/// Reads the ids that the rows of a listing hold in a column, in the order
/// of the rows. A row without an id there fails the reading; the error
/// names the column.
pub fn linked_ids(rows: &Vec<Row>, column: &str) -> (r: Result<Vec<u128>, StorageError>)
    ensures
        match first_without_id(rows@, column@, rows@.len() as int) {
            Some(_) => r matches Err(StorageError::Conversion(name)) && name@ == column@,
            None => r matches Ok(ids) && ids@ == ids_of(rows@, column@),
        },
{
    let mut ids: Vec<u128> = Vec::new();
    let mut i: usize = 0;
    while i < rows.len()
        invariant
            i <= rows.len(),
            ids@.len() == i,
            first_without_id(rows@, column@, i as int).is_none(),
            forall|j: int| 0 <= j < i ==> id_in(rows@[j]@, column@) == Some(#[trigger] ids@[j]),
        decreases rows.len() - i,
    {
        match rows[i].get(column) {
            Some(SqlValue::Uuid(id)) => {
                ids.push(*id);
            },
            _ => {
                proof {
                    lemma_first_without_id_stays(rows@, column@, i + 1, rows@.len() as int);
                }
                return Err(StorageError::Conversion(String::from_str(column)));
            },
        }
        i += 1;
    }
    Ok(ids)
}

/// The ids among the first `n` of `ids` that are not in `others`, each
/// once, in the order of their first occurrence.
pub open spec fn missing_from(ids: Seq<u128>, others: Seq<u128>, n: int) -> Seq<u128>
    decreases n,
{
    if n <= 0 {
        Seq::empty()
    } else {
        let before = missing_from(ids, others, n - 1);
        let id = ids[n - 1];
        if others.contains(id) || before.contains(id) {
            before
        } else {
            before.push(id)
        }
    }
}

/// The links to remove and to add so that the ids linked become `wanted`.
#[derive(Clone, Debug, PartialEq, Eq)]
pub struct LinkChanges {
    /// The ids linked now and not wanted.
    pub remove: Vec<u128>,
    /// The ids wanted and not linked now.
    pub add: Vec<u128>,
}

fn holds(ids: &Vec<u128>, id: u128) -> (found: bool)
    ensures
        found == ids@.contains(id),
{
    let mut i: usize = 0;
    while i < ids.len()
        invariant
            i <= ids.len(),
            forall|j: int| 0 <= j < i ==> ids@[j] != id,
        decreases ids.len() - i,
    {
        if ids[i] == id {
            return true;
        }
        i += 1;
    }
    false
}

fn difference(ids: &Vec<u128>, others: &Vec<u128>) -> (missing: Vec<u128>)
    ensures
        missing@ == missing_from(ids@, others@, ids@.len() as int),
{
    let mut missing: Vec<u128> = Vec::new();
    let mut i: usize = 0;
    while i < ids.len()
        invariant
            i <= ids.len(),
            missing@ == missing_from(ids@, others@, i as int),
        decreases ids.len() - i,
    {
        let id = ids[i];
        if !holds(others, id) && !holds(&missing, id) {
            missing.push(id);
        }
        i += 1;
    }
    missing
}

/// Reconciles the ids linked now with the ids wanted: what to remove is
/// what is linked and not wanted, what to add is what is wanted and not
/// linked, each id once.
pub fn link_changes(current: &Vec<u128>, wanted: &Vec<u128>) -> (changes: LinkChanges)
    ensures
        changes.remove@ == missing_from(current@, wanted@, current@.len() as int),
        changes.add@ == missing_from(wanted@, current@, wanted@.len() as int),
{
    LinkChanges { remove: difference(current, wanted), add: difference(wanted, current) }
}

/// The statements of a reconciliation, the removals first.
pub open spec fn change_statements(
    schema: Schema,
    a: u128,
    remove: Seq<u128>,
    add: Seq<u128>,
) -> Seq<StatementView> {
    Seq::new(
        remove.len() + add.len(),
        |i: int|
            if i < remove.len() {
                StatementView {
                    text: unlink_text(schema),
                    params: seq![SqlView::Uuid(a), SqlView::Uuid(remove[i])],
                }
            } else {
                StatementView {
                    text: link_text(schema),
                    params: seq![SqlView::Uuid(a), SqlView::Uuid(add[i - remove.len()])],
                }
            },
    )
}

/// The view of each statement of a list.
pub open spec fn statements_view(statements: Seq<Statement>) -> Seq<StatementView> {
    Seq::new(statements.len(), |i: int| statements[i]@)
}

/// The statements that make the ids linked to `a` exactly `wanted`, given
/// the ids linked now: first each link that is no longer wanted is removed,
/// then each new one is added. A link that stays is not touched.
pub fn reconcile_statements(
    definition: &ResourceDefinition,
    a: u128,
    current: &Vec<u128>,
    wanted: &Vec<u128>,
) -> (statements: Vec<Statement>)
    requires
        definition@.id_cols.len() == 2,
    ensures
        statements_view(statements@) == change_statements(
            definition@,
            a,
            missing_from(current@, wanted@, current@.len() as int),
            missing_from(wanted@, current@, wanted@.len() as int),
        ),
{
    let changes = link_changes(current, wanted);
    let mut statements: Vec<Statement> = Vec::new();
    let mut i: usize = 0;
    while i < changes.remove.len()
        invariant
            i <= changes.remove.len(),
            definition@.id_cols.len() == 2,
            statements@.len() == i,
            forall|j: int|
                0 <= j < i ==> (#[trigger] statements@[j])@ == (StatementView {
                    text: unlink_text(definition@),
                    params: seq![SqlView::Uuid(a), SqlView::Uuid(changes.remove@[j])],
                }),
        decreases changes.remove.len() - i,
    {
        statements.push(unlink_statement(definition, a, changes.remove[i]));
        i += 1;
    }
    let mut k: usize = 0;
    while k < changes.add.len()
        invariant
            k <= changes.add.len(),
            definition@.id_cols.len() == 2,
            statements@.len() == changes.remove@.len() + k,
            forall|j: int|
                0 <= j < changes.remove@.len() ==> (#[trigger] statements@[j])@
                    == (StatementView {
                    text: unlink_text(definition@),
                    params: seq![SqlView::Uuid(a), SqlView::Uuid(changes.remove@[j])],
                }),
            forall|j: int|
                changes.remove@.len() <= j < changes.remove@.len() + k ==> (
                #[trigger] statements@[j])@ == (StatementView {
                    text: link_text(definition@),
                    params: seq![
                        SqlView::Uuid(a),
                        SqlView::Uuid(changes.add@[j - changes.remove@.len()]),
                    ],
                }),
        decreases changes.add.len() - k,
    {
        statements.push(link_statement(definition, a, changes.add[k]));
        k += 1;
    }
    statements
}

/// Whether a table holds links: it has two id columns.
pub open spec fn is_link_table(schema: Schema) -> bool {
    schema.id_cols.len() == 2
}

/// The ids that the first `n` texts denote; none where one of them is not
/// the text of a UUID.
pub open spec fn parsed_ids(ids: Seq<Seq<char>>, n: int) -> Option<Seq<u128>>
    decreases n,
{
    if n <= 0 {
        Some(Seq::empty())
    } else {
        match (parsed_ids(ids, n - 1), parsed_uuid(ids[n - 1])) {
            (Some(before), Some(id)) => Some(before.push(id)),
            _ => None,
        }
    }
}

proof fn lemma_parsed_ids_stay_none(ids: Seq<Seq<char>>, m: int, n: int)
    requires
        m <= n,
        parsed_ids(ids, m).is_none(),
    ensures
        parsed_ids(ids, n).is_none(),
    decreases n - m,
{
    if m < n {
        lemma_parsed_ids_stay_none(ids, m, n - 1);
    }
}

/// Reads a list of ids given as text.
pub fn parse_ids(ids: &Vec<String>) -> (r: Result<Vec<u128>, StorageError>)
    ensures
        match parsed_ids(texts(ids@), ids@.len() as int) {
            Some(parsed) => r matches Ok(list) && list@ == parsed,
            None => r == Err::<Vec<u128>, StorageError>(StorageError::MalformedIdentity),
        },
{
    let mut list: Vec<u128> = Vec::new();
    let mut i: usize = 0;
    while i < ids.len()
        invariant
            i <= ids.len(),
            parsed_ids(texts(ids@), i as int) == Some(list@),
        decreases ids.len() - i,
    {
        match try_get_uuid(ids[i].as_str()) {
            Ok(id) => {
                list.push(id);
            },
            Err(error) => {
                proof {
                    lemma_parsed_ids_stay_none(texts(ids@), i + 1, ids@.len() as int);
                }
                return Err(error);
            },
        }
        i += 1;
    }
    Ok(list)
}

fn link_table<T: Resource>() -> (r: Result<ResourceDefinition, StorageError>)
    ensures
        match r {
            Ok(definition) => is_link_table(T::schema()) && definition@ == T::schema(),
            Err(error) => !is_link_table(T::schema()) && error == StorageError::NoLinkTable,
        },
{
    let definition = T::get_definition();
    if definition.psql_id_cols.len() == 2 {
        Ok(definition)
    } else {
        Err(StorageError::NoLinkTable)
    }
}

/// What a statement on one link prepares: the table must hold links, and
/// both ids must be the text of a UUID.
pub open spec fn prepares_link(
    schema: Schema,
    text: Seq<char>,
    a: Seq<char>,
    b: Seq<char>,
    r: Result<Statement, StorageError>,
) -> bool {
    if !is_link_table(schema) {
        r matches Err(StorageError::NoLinkTable)
    } else {
        match (parsed_uuid(a), parsed_uuid(b)) {
            (Some(a), Some(b)) => r matches Ok(statement) && statement@.text == text
                && statement@.params == seq![SqlView::Uuid(a), SqlView::Uuid(b)],
            _ => r matches Err(StorageError::MalformedIdentity),
        }
    }
}

/// What a listing prepares: the table must hold links, and the id must be
/// the text of a UUID.
pub open spec fn prepares_list(
    schema: Schema,
    own: int,
    other: int,
    id: Seq<char>,
    r: Result<Statement, StorageError>,
) -> bool {
    if !is_link_table(schema) {
        r matches Err(StorageError::NoLinkTable)
    } else {
        match parsed_uuid(id) {
            Some(id) => r matches Ok(statement) && statement@.text == list_text(schema, own, other)
                && statement@.params == seq![SqlView::Uuid(id)],
            None => r matches Err(StorageError::MalformedIdentity),
        }
    }
}

/// Prepares the linking of `a` to `b`. Linking what is linked is no error
/// and changes nothing.
pub fn link<T: Resource>(a: &str, b: &str) -> (r: Result<Statement, StorageError>)
    ensures
        prepares_link(T::schema(), link_text(T::schema()), a@, b@, r),
{
    let definition = link_table::<T>()?;
    let a = try_get_uuid(a)?;
    let b = try_get_uuid(b)?;
    Ok(link_statement(&definition, a, b))
}

/// Prepares the removal of the link between `a` and `b`. What the store
/// answers is read by [`unlinked`].
pub fn unlink<T: Resource>(a: &str, b: &str) -> (r: Result<Statement, StorageError>)
    ensures
        prepares_link(T::schema(), unlink_text(T::schema()), a@, b@, r),
{
    let definition = link_table::<T>()?;
    let a = try_get_uuid(a)?;
    let b = try_get_uuid(b)?;
    Ok(unlink_statement(&definition, a, b))
}

/// Prepares the listing of the ids linked to `a`, an id of the first side.
/// What the store answers is read by [`listed`].
pub fn list_for<T: Resource>(a: &str) -> (r: Result<Statement, StorageError>)
    ensures
        prepares_list(T::schema(), 0, 1, a@, r),
{
    let definition = link_table::<T>()?;
    let a = try_get_uuid(a)?;
    Ok(list_statement(&definition, a, 0, 1))
}

/// Prepares the listing of the ids linked to `b`, an id of the second
/// side. What the store answers is read by [`listed_other`].
pub fn list_for_other<T: Resource>(b: &str) -> (r: Result<Statement, StorageError>)
    ensures
        prepares_list(T::schema(), 1, 0, b@, r),
{
    let definition = link_table::<T>()?;
    let b = try_get_uuid(b)?;
    Ok(list_statement(&definition, b, 1, 0))
}

/// What reading a listing gives: the table must hold links, and each row
/// must hold an id in the id column at position `other`.
pub open spec fn reads_listing(schema: Schema, other: int, rows: Seq<Row>, r: Result<
    Vec<u128>,
    StorageError,
>) -> bool {
    if !is_link_table(schema) {
        r matches Err(StorageError::NoLinkTable)
    } else {
        match first_without_id(rows, schema.id_cols[other], rows.len() as int) {
            Some(_) => r matches Err(StorageError::Conversion(name)) && name@
                == schema.id_cols[other],
            None => r matches Ok(ids) && ids@ == ids_of(rows, schema.id_cols[other]),
        }
    }
}

/// Reads the answer to [`list_for`]: the ids of the second side, in the
/// order of the rows.
pub fn listed<T: Resource>(rows: &Vec<Row>) -> (r: Result<Vec<u128>, StorageError>)
    ensures
        reads_listing(T::schema(), 1, rows@, r),
{
    let definition = link_table::<T>()?;
    linked_ids(rows, definition.psql_id_cols[1].as_str())
}

/// Reads the answer to [`list_for_other`]: the ids of the first side, in
/// the order of the rows.
pub fn listed_other<T: Resource>(rows: &Vec<Row>) -> (r: Result<Vec<u128>, StorageError>)
    ensures
        reads_listing(T::schema(), 0, rows@, r),
{
    let definition = link_table::<T>()?;
    linked_ids(rows, definition.psql_id_cols[0].as_str())
}

/// What replacing the links of an id prepares, given the rows that list
/// the ids linked now.
///
/// The table must hold links, the id and the ids wanted must be the text of
/// UUIDs, and each row listed must hold an id in the second id column. The
/// statements then remove what is linked and not wanted and add what is
/// wanted and not linked.
pub open spec fn replaces_links(
    schema: Schema,
    a: Seq<char>,
    listed: Seq<Row>,
    wanted: Seq<Seq<char>>,
    r: Result<Vec<Statement>, StorageError>,
) -> bool {
    if !is_link_table(schema) {
        r matches Err(StorageError::NoLinkTable)
    } else {
        match (parsed_uuid(a), parsed_ids(wanted, wanted.len() as int)) {
            (Some(a), Some(wanted)) => match first_without_id(
                listed,
                schema.id_cols[1],
                listed.len() as int,
            ) {
                Some(_) => r matches Err(StorageError::Conversion(name)) && name@
                    == schema.id_cols[1],
                None => {
                    let current = ids_of(listed, schema.id_cols[1]);
                    r matches Ok(statements) && statements_view(statements@) == change_statements(
                        schema,
                        a,
                        missing_from(current, wanted, current.len() as int),
                        missing_from(wanted, current, wanted.len() as int),
                    )
                },
            },
            _ => r matches Err(StorageError::MalformedIdentity),
        }
    }
}

/// Prepares the replacement of the links of `a` by links to the ids
/// wanted, given the rows that list the ids linked now. The statements are
/// meant for one transaction together with the listing, so that no reader
/// sees the links of `a` half replaced.
pub fn replace_links<T: Resource>(a: &str, listed: &Vec<Row>, wanted: &Vec<String>) -> (r: Result<
    Vec<Statement>,
    StorageError,
>)
    ensures
        replaces_links(T::schema(), a@, listed@, texts(wanted@), r),
{
    let definition = link_table::<T>()?;
    let a = try_get_uuid(a)?;
    let wanted = parse_ids(wanted)?;
    let current = linked_ids(listed, definition.psql_id_cols[1].as_str())?;
    Ok(reconcile_statements(&definition, a, &current, &wanted))
}

/// What the ids linked are after links were removed and added.
pub open spec fn after_changes(linked: Set<u128>, remove: Seq<u128>, add: Seq<u128>) -> Set<u128> {
    linked.difference(remove.to_set()).union(add.to_set())
}

/// Whether `id` is among the first `n` of `ids`.
pub open spec fn among_first(ids: Seq<u128>, n: int, id: u128) -> bool {
    exists|j: int| 0 <= j < n && j < ids.len() && #[trigger] ids[j] == id
}

/// What `missing_from` hands out: the ids of the one list that are not in
/// the other, none twice.
pub proof fn lemma_missing_from(ids: Seq<u128>, others: Seq<u128>, n: int)
    requires
        0 <= n <= ids.len(),
    ensures
        missing_from(ids, others, n).no_duplicates(),
        forall|id: u128| #[trigger]
            missing_from(ids, others, n).contains(id) <==> (among_first(ids, n, id)
                && !others.contains(id)),
    decreases n,
{
    let now = missing_from(ids, others, n);
    if n > 0 {
        lemma_missing_from(ids, others, n - 1);
        let before = missing_from(ids, others, n - 1);
        assert forall|id: u128| #[trigger]
            now.contains(id) <==> (among_first(ids, n, id) && !others.contains(id)) by {
            if now.contains(id) {
                let k = choose|k: int| 0 <= k < now.len() && now[k] == id;
                if k < before.len() {
                    assert(before.contains(id));
                }
            }
            if among_first(ids, n, id) && !others.contains(id) {
                let j = choose|j: int| 0 <= j < n && j < ids.len() && #[trigger] ids[j] == id;
                if j < n - 1 || before.contains(id) {
                    assert(before.contains(id));
                    let k = choose|k: int| 0 <= k < before.len() && before[k] == id;
                    assert(now[k] == id);
                } else {
                    assert(now[now.len() - 1] == id);
                }
            }
        }
    }
}

/// Reconciling makes the ids linked exactly the ids wanted, whatever was
/// linked before. On the way no link that is wanted is removed, and no link
/// that is there is added again: what stays is never missing and never
/// there twice.
pub proof fn lemma_replace_links(current: Seq<u128>, wanted: Seq<u128>)
    ensures
        after_changes(
            current.to_set(),
            missing_from(current, wanted, current.len() as int),
            missing_from(wanted, current, wanted.len() as int),
        ) == wanted.to_set(),
        forall|id: u128|
            wanted.contains(id) ==> !(#[trigger] missing_from(
                current,
                wanted,
                current.len() as int,
            ).contains(id)),
        forall|id: u128|
            current.contains(id) ==> !(#[trigger] missing_from(
                wanted,
                current,
                wanted.len() as int,
            ).contains(id)),
{
    lemma_missing_from(current, wanted, current.len() as int);
    lemma_missing_from(wanted, current, wanted.len() as int);
    assert forall|id: u128| current.contains(id) <==> among_first(
        current,
        current.len() as int,
        id,
    ) by {}
    assert forall|id: u128| wanted.contains(id) <==> among_first(
        wanted,
        wanted.len() as int,
        id,
    ) by {}
}

/// Replacing the links of an id by one list and then by another leaves
/// exactly the ids of the second list linked: what only the first list
/// held is gone, what only the second holds is added, what both hold stays.
pub proof fn lemma_replace_links_twice(
    linked: Seq<u128>,
    first: Seq<u128>,
    listed: Seq<u128>,
    second: Seq<u128>,
)
    requires
        listed.to_set() == after_changes(
            linked.to_set(),
            missing_from(linked, first, linked.len() as int),
            missing_from(first, linked, first.len() as int),
        ),
    ensures
        after_changes(
            listed.to_set(),
            missing_from(listed, second, listed.len() as int),
            missing_from(second, listed, second.len() as int),
        ) == second.to_set(),
        forall|id: u128|
            first.contains(id) && second.contains(id) ==> !(#[trigger] missing_from(
                listed,
                second,
                listed.len() as int,
            ).contains(id)),
{
    lemma_replace_links(listed, second);
}

} // verus!
