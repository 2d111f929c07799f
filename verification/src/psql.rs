//! Parameterized statements. The text of a statement holds names taken from
//! the description of a table, placeholders and numerals; values travel
//! beside it as bound parameters, never inside it.

use vstd::prelude::*;
use vstd::string::StringExecFns;
use crate::native::{SqlValue, SqlView};
use crate::schema::{ResourceDefinition, Schema};
use crate::text::{decimal, decimal_text};

verus! {

/// A statement for the store: its text and the values bound to its
/// placeholders, the first to `$1`.
#[derive(Clone, Debug, PartialEq)]
pub struct Statement {
    pub text: String,
    pub params: Vec<SqlValue>,
}

/// What a [`Statement`] holds, as a mathematical value.
pub struct StatementView {
    pub text: Seq<char>,
    pub params: Seq<SqlView>,
}

/// The view of each value of a list.
pub open spec fn values_view(values: Seq<SqlValue>) -> Seq<SqlView> {
    Seq::new(values.len(), |i: int| values[i]@)
}

impl View for Statement {
    type V = StatementView;

    open spec fn view(&self) -> StatementView {
        StatementView { text: self.text@, params: values_view(self.params@) }
    }
}

/// A name between double quotes.
pub open spec fn quoted(name: Seq<char>) -> Seq<char> {
    "\""@ + name + "\""@
}

/// The placeholder of the `n`-th parameter.
pub open spec fn placeholder(n: nat) -> Seq<char> {
    "$"@ + decimal_text(n)
}

/// The first `n` names, quoted and separated by commas.
pub open spec fn column_list(names: Seq<Seq<char>>, n: int) -> Seq<char>
    decreases n,
{
    if n <= 0 {
        Seq::empty()
    } else if n == 1 {
        quoted(names[0])
    } else {
        column_list(names, n - 1) + ", "@ + quoted(names[n - 1])
    }
}

/// The first `n` placeholders, separated by commas.
pub open spec fn placeholder_list(n: int) -> Seq<char>
    decreases n,
{
    if n <= 0 {
        Seq::empty()
    } else if n == 1 {
        placeholder(1)
    } else {
        placeholder_list(n - 1) + ", "@ + placeholder(n as nat)
    }
}

/// The first `n` names, each set to the placeholder of its position,
/// separated by commas.
pub open spec fn assignment_list(names: Seq<Seq<char>>, n: int) -> Seq<char>
    decreases n,
{
    if n <= 0 {
        Seq::empty()
    } else if n == 1 {
        quoted(names[0]) + " = "@ + placeholder(1)
    } else {
        assignment_list(names, n - 1) + ", "@ + quoted(names[n - 1]) + " = "@ + placeholder(
            n as nat,
        )
    }
}

/// The condition that keeps deleted rows out, where the table marks them.
pub open spec fn live_clause(schema: Schema) -> Seq<char> {
    if schema.soft_delete() {
        " AND \"deleted_at\" IS NULL"@
    } else {
        Seq::empty()
    }
}

/// The text that selects the live row with a given id.
pub open spec fn select_by_id_text(schema: Schema) -> Seq<char> {
    "SELECT * FROM "@ + quoted(schema.table) + " WHERE "@ + quoted(schema.id_cols[0]) + " = $1"@
        + live_clause(schema)
}

/// The text that selects one page of the live rows, in the order of their
/// ids; with a filter, of those whose column `filter` equals `$1`.
pub open spec fn search_text(
    schema: Schema,
    filter: Option<Seq<char>>,
    limit: nat,
    offset: nat,
) -> Seq<char> {
    "SELECT * FROM "@ + quoted(schema.table) + (match filter {
        Some(column) => " WHERE "@ + quoted(column) + " = $1"@ + live_clause(schema),
        None => if schema.soft_delete() {
            " WHERE \"deleted_at\" IS NULL"@
        } else {
            Seq::empty()
        },
    }) + " ORDER BY "@ + quoted(schema.id_cols[0]) + " LIMIT "@ + decimal_text(limit) + " OFFSET "@
        + decimal_text(offset)
}

/// The text that inserts a row with the given columns and hands out the id
/// that the store generated.
pub open spec fn insert_text(schema: Schema, columns: Seq<Seq<char>>) -> Seq<char> {
    "INSERT INTO "@ + quoted(schema.table) + (if columns.len() == 0 {
        " DEFAULT VALUES"@
    } else {
        " ("@ + column_list(columns, columns.len() as int) + ") VALUES ("@ + placeholder_list(
            columns.len() as int,
        ) + ")"@
    }) + " RETURNING "@ + quoted(schema.id_cols[0])
}

/// The text that sets the given columns of the live row whose id is bound
/// to the placeholder after theirs.
pub open spec fn update_text(schema: Schema, columns: Seq<Seq<char>>) -> Seq<char> {
    "UPDATE "@ + quoted(schema.table) + " SET "@ + assignment_list(columns, columns.len() as int)
        + " WHERE "@ + quoted(schema.id_cols[0]) + " = "@ + placeholder(columns.len() + 1)
        + live_clause(schema)
}

/// The text that deletes the row with a given id: by marking it where the
/// table has the marker column, by removing it otherwise.
pub open spec fn delete_text(schema: Schema) -> Seq<char> {
    if schema.soft_delete() {
        "UPDATE "@ + quoted(schema.table) + " SET \"deleted_at\" = NOW() WHERE "@ + quoted(
            schema.id_cols[0],
        ) + " = $1 AND \"deleted_at\" IS NULL"@
    } else {
        "DELETE FROM "@ + quoted(schema.table) + " WHERE "@ + quoted(schema.id_cols[0]) + " = $1"@
    }
}

/// Appends a name between double quotes.
pub(crate) fn push_quoted(text: &mut String, name: &str)
    ensures
        final(text)@ == old(text)@ + quoted(name@),
{
    text.append("\"");
    text.append(name);
    text.append("\"");
}

fn push_placeholder(text: &mut String, n: u128)
    ensures
        final(text)@ == old(text)@ + placeholder(n as nat),
{
    text.append("$");
    let numeral = decimal(n);
    text.append(numeral.as_str());
}

fn push_live_clause(text: &mut String, definition: &ResourceDefinition)
    ensures
        final(text)@ == old(text)@ + live_clause(definition@),
{
    if definition.has_deleted_marker() {
        text.append(" AND \"deleted_at\" IS NULL");
    } else {
    }
}

/// The names of a list of parameters.
pub open spec fn columns_of(params: Seq<(String, SqlValue)>) -> Seq<Seq<char>> {
    Seq::new(params.len(), |i: int| params[i].0@)
}

/// The values of a list of parameters.
pub open spec fn values_of(params: Seq<(String, SqlValue)>) -> Seq<SqlView> {
    Seq::new(params.len(), |i: int| params[i].1@)
}

fn copy_values(params: &Vec<(String, SqlValue)>) -> (values: Vec<SqlValue>)
    ensures
        values_view(values@) == values_of(params@),
{
    let mut values: Vec<SqlValue> = Vec::new();
    let mut i: usize = 0;
    while i < params.len()
        invariant
            i <= params.len(),
            values@.len() == i,
            forall|j: int| 0 <= j < i ==> values@[j]@ == params@[j].1@,
        decreases params.len() - i,
    {
        values.push(params[i].1.duplicate());
        i += 1;
    }
    values
}

/// The statement that selects the live row with the given id.
pub fn select_by_id(definition: &ResourceDefinition, id: u128) -> (statement: Statement)
    requires
        definition@.id_cols.len() >= 1,
    ensures
        statement@.text == select_by_id_text(definition@),
        statement@.params == seq![SqlView::Uuid(id)],
{
    let mut text = String::from_str("SELECT * FROM ");
    push_quoted(&mut text, definition.psql_table.as_str());
    text.append(" WHERE ");
    push_quoted(&mut text, definition.psql_id_cols[0].as_str());
    text.append(" = $1");
    push_live_clause(&mut text, definition);
    let mut params: Vec<SqlValue> = Vec::new();
    params.push(SqlValue::Uuid(id));
    Statement { text, params }
}

/// The statement that deletes the row with the given id.
pub fn delete_by_id(definition: &ResourceDefinition, id: u128) -> (statement: Statement)
    requires
        definition@.id_cols.len() >= 1,
    ensures
        statement@.text == delete_text(definition@),
        statement@.params == seq![SqlView::Uuid(id)],
{
    let mut text: String;
    if definition.has_deleted_marker() {
        text = String::from_str("UPDATE ");
        push_quoted(&mut text, definition.psql_table.as_str());
        text.append(" SET \"deleted_at\" = NOW() WHERE ");
        push_quoted(&mut text, definition.psql_id_cols[0].as_str());
        text.append(" = $1 AND \"deleted_at\" IS NULL");
    } else {
        text = String::from_str("DELETE FROM ");
        push_quoted(&mut text, definition.psql_table.as_str());
        text.append(" WHERE ");
        push_quoted(&mut text, definition.psql_id_cols[0].as_str());
        text.append(" = $1");
    }
    let mut params: Vec<SqlValue> = Vec::new();
    params.push(SqlValue::Uuid(id));
    Statement { text, params }
}

/// The statement that inserts a row with the given parameters.
pub fn insert(definition: &ResourceDefinition, params: &Vec<(String, SqlValue)>) -> (statement:
    Statement)
    requires
        definition@.id_cols.len() >= 1,
    ensures
        statement@.text == insert_text(definition@, columns_of(params@)),
        statement@.params == values_of(params@),
{
    let ghost columns = columns_of(params@);
    let mut text = String::from_str("INSERT INTO ");
    push_quoted(&mut text, definition.psql_table.as_str());
    if params.len() == 0 {
        text.append(" DEFAULT VALUES");
    } else {
        text.append(" (");
        let ghost open = text@;
        let mut i: usize = 0;
        while i < params.len()
            invariant
                i <= params.len(),
                columns == columns_of(params@),
                text@ == open + column_list(columns, i as int),
            decreases params.len() - i,
        {
            if i > 0 {
                text.append(", ");
            }
            push_quoted(&mut text, params[i].0.as_str());
            i += 1;
        }
        text.append(") VALUES (");
        let ghost middle = text@;
        let mut i: usize = 0;
        while i < params.len()
            invariant
                i <= params.len(),
                text@ == middle + placeholder_list(i as int),
            decreases params.len() - i,
        {
            if i > 0 {
                text.append(", ");
            }
            push_placeholder(&mut text, i as u128 + 1);
            i += 1;
        }
        text.append(")");
    }
    text.append(" RETURNING ");
    push_quoted(&mut text, definition.psql_id_cols[0].as_str());
    Statement { text, params: copy_values(params) }
}

/// The statement that sets the given parameters on the live row with the
/// given id; none where there is nothing to set.
pub fn update(
    definition: &ResourceDefinition,
    id: u128,
    params: &Vec<(String, SqlValue)>,
) -> (statement: Option<Statement>)
    requires
        definition@.id_cols.len() >= 1,
    ensures
        match statement {
            Some(statement) => params@.len() > 0 && statement@.text == update_text(
                definition@,
                columns_of(params@),
            ) && statement@.params == values_of(params@).push(SqlView::Uuid(id)),
            None => params@.len() == 0,
        },
{
    if params.len() == 0 {
        return None;
    }
    let ghost columns = columns_of(params@);
    let mut text = String::from_str("UPDATE ");
    push_quoted(&mut text, definition.psql_table.as_str());
    text.append(" SET ");
    let ghost head = text@;
    let mut i: usize = 0;
    while i < params.len()
        invariant
            i <= params.len(),
            columns == columns_of(params@),
            text@ == head + assignment_list(columns, i as int),
        decreases params.len() - i,
    {
        if i > 0 {
            text.append(", ");
        }
        push_quoted(&mut text, params[i].0.as_str());
        text.append(" = ");
        push_placeholder(&mut text, i as u128 + 1);
        i += 1;
    }
    text.append(" WHERE ");
    push_quoted(&mut text, definition.psql_id_cols[0].as_str());
    text.append(" = ");
    push_placeholder(&mut text, params.len() as u128 + 1);
    push_live_clause(&mut text, definition);
    let mut values = copy_values(params);
    values.push(SqlValue::Uuid(id));
    Some(Statement { text, params: values })
}

} // verus!
