//! Filtered, paged search.

use vstd::prelude::*;
use vstd::string::StringExecFns;
use crate::error::StorageError;
use crate::identity::{parse_uuid, parsed_uuid};
use crate::native::{SqlValue, SqlView};
use crate::psql::{push_quoted, search_text, values_view, Statement};
use crate::schema::{PsqlFieldType, ResourceDefinition, Schema};
use crate::text::{decimal, i64_value, parse_i64, str_eq};

verus! {

/// What to search for, and which page of the result to hand out.
#[derive(Clone, Debug, PartialEq)]
pub struct SearchFilter {
    /// The field to filter on; empty for no filter.
    pub search_field: String,
    /// The value that the field must have, as text.
    pub search_value: String,
    /// The page wanted, the first being 1.
    pub page_number: i32,
    /// The number of rows on a page, at least 1.
    pub results_per_page: i32,
}

/// The native value that a search text denotes for a column of the given
/// type. Text stands for itself; a UUID, an integer or a truth value is
/// read from its text; other columns cannot be searched.
pub open spec fn filter_value(field_type: PsqlFieldType, value: Seq<char>) -> Option<SqlView> {
    match field_type {
        PsqlFieldType::Text => Some(SqlView::Text(value)),
        PsqlFieldType::Uuid => match parsed_uuid(value) {
            Some(id) => Some(SqlView::Uuid(id)),
            None => None,
        },
        PsqlFieldType::Int8 => match i64_value(value) {
            Some(v) => Some(SqlView::Int8(v)),
            None => None,
        },
        PsqlFieldType::Int4 => match i64_value(value) {
            Some(v) => if i32::MIN <= v <= i32::MAX {
                Some(SqlView::Int4(v as i32))
            } else {
                None
            },
            None => None,
        },
        PsqlFieldType::Int2 => match i64_value(value) {
            Some(v) => if i16::MIN <= v <= i16::MAX {
                Some(SqlView::Int2(v as i16))
            } else {
                None
            },
            None => None,
        },
        PsqlFieldType::Bool => if value == "true"@ {
            Some(SqlView::Bool(true))
        } else if value == "false"@ {
            Some(SqlView::Bool(false))
        } else {
            None
        },
        _ => None,
    }
}

/// Reads a search text as a value of the column's type.
pub fn resolve_filter_value(field_type: PsqlFieldType, value: &str) -> (native: Option<SqlValue>)
    ensures
        match filter_value(field_type, value@) {
            Some(v) => native matches Some(n) && n@ == v,
            None => native.is_none(),
        },
{
    match field_type {
        PsqlFieldType::Text => Some(SqlValue::Text(String::from_str(value))),
        PsqlFieldType::Uuid => match parse_uuid(value) {
            Some(id) => Some(SqlValue::Uuid(id)),
            None => None,
        },
        PsqlFieldType::Int8 => match parse_i64(value) {
            Some(v) => Some(SqlValue::Int8(v)),
            None => None,
        },
        PsqlFieldType::Int4 => match parse_i64(value) {
            Some(v) => if -0x8000_0000 <= v && v <= 0x7fff_ffff {
                Some(SqlValue::Int4(v as i32))
            } else {
                None
            },
            None => None,
        },
        PsqlFieldType::Int2 => match parse_i64(value) {
            Some(v) => if -0x8000 <= v && v <= 0x7fff {
                Some(SqlValue::Int2(v as i16))
            } else {
                None
            },
            None => None,
        },
        PsqlFieldType::Bool => if str_eq(value, "true") {
            Some(SqlValue::Bool(true))
        } else if str_eq(value, "false") {
            Some(SqlValue::Bool(false))
        } else {
            None
        },
        _ => None,
    }
}

/// The number of rows before the first row of a page.
pub open spec fn page_offset(page_number: int, page_size: int) -> int {
    (page_number - 1) * page_size
}

/// The rows of one page of a result: those from the page's offset on, up
/// to the page size.
pub open spec fn page_of<A>(rows: Seq<A>, page_number: int, page_size: int) -> Seq<A> {
    let offset = page_offset(page_number, page_size);
    if offset >= rows.len() {
        Seq::empty()
    } else if offset + page_size >= rows.len() {
        rows.subrange(offset, rows.len() as int)
    } else {
        rows.subrange(offset, offset + page_size)
    }
}

/// What a search prepares.
///
/// A page number or a page size below one is refused. An empty search
/// field means no filter. Otherwise the field must be a column of the
/// table and the search value must read as a value of its type; it is
/// bound as the statement's only parameter.
pub open spec fn searches(schema: Schema, filter: SearchFilter, r: Result<
    Statement,
    StorageError,
>) -> bool {
    let field = filter.search_field@;
    let limit = filter.results_per_page as nat;
    let offset = page_offset(filter.page_number as int, filter.results_per_page as int) as nat;
    if filter.page_number < 1 || filter.results_per_page < 1 {
        r matches Err(StorageError::InvalidPage)
    } else if field.len() == 0 {
        r matches Ok(statement) && statement@.text == search_text(schema, None, limit, offset)
            && statement@.params == Seq::<SqlView>::empty()
    } else if !schema.has_field(field) {
        r matches Err(StorageError::UnknownField(name)) && name@ == field
    } else {
        match filter_value(schema.field(field).field_type, filter.search_value@) {
            Some(value) => r matches Ok(statement) && statement@.text == search_text(
                schema,
                Some(field),
                limit,
                offset,
            ) && statement@.params == seq![value],
            None => r matches Err(StorageError::Conversion(name)) && name@ == field,
        }
    }
}

/// The statement that selects one page of the live rows of a table, in the
/// order of their ids.
pub fn search_statement(definition: &ResourceDefinition, filter: &SearchFilter) -> (r: Result<
    Statement,
    StorageError,
>)
    requires
        definition@.id_cols.len() >= 1,
    ensures
        searches(definition@, *filter, r),
{
    if filter.page_number < 1 || filter.results_per_page < 1 {
        return Err(StorageError::InvalidPage);
    }
    let mut params: Vec<SqlValue> = Vec::new();
    let filtered = !filter.search_field.as_str().is_empty();
    if filtered {
        let field = match definition.get_field(filter.search_field.as_str()) {
            Some(field) => field,
            None => {
                return Err(StorageError::UnknownField(filter.search_field.clone()));
            },
        };
        match resolve_filter_value(field.field_type, filter.search_value.as_str()) {
            Some(value) => {
                params.push(value);
            },
            None => {
                return Err(StorageError::Conversion(filter.search_field.clone()));
            },
        }
    }
    let limit: u128 = filter.results_per_page as u128;
    let before: u128 = (filter.page_number - 1) as u128;
    assert(before * limit <= 0x8000_0000 * 0x8000_0000) by (nonlinear_arith)
        requires
            before <= 0x8000_0000,
            limit <= 0x8000_0000,
    ;
    let offset: u128 = before * limit;
    let mut text = String::from_str("SELECT * FROM ");
    push_quoted(&mut text, definition.psql_table.as_str());
    if filtered {
        text.append(" WHERE ");
        push_quoted(&mut text, filter.search_field.as_str());
        text.append(" = $1");
        if definition.has_deleted_marker() {
            text.append(" AND \"deleted_at\" IS NULL");
        }
    } else {
        if definition.has_deleted_marker() {
            text.append(" WHERE \"deleted_at\" IS NULL");
        }
    }
    text.append(" ORDER BY ");
    push_quoted(&mut text, definition.psql_id_cols[0].as_str());
    text.append(" LIMIT ");
    text.append(decimal(limit).as_str());
    text.append(" OFFSET ");
    text.append(decimal(offset).as_str());
    proof {
        let wanted = search_text(
            definition@,
            if filtered {
                Some(filter.search_field@)
            } else {
                None
            },
            limit as nat,
            offset as nat,
        );
        assert(text@ =~= wanted);
        if filtered {
            assert(values_view(params@) =~= seq![params@[0]@]);
        } else {
            assert(values_view(params@) =~= Seq::<SqlView>::empty());
        }
    }
    Ok(Statement { text, params })
}

/// Every row of a result lies on a page: the row at position `i` is the
/// one at position `i % page_size` of page `i / page_size + 1`.
pub proof fn lemma_row_lies_on_a_page<A>(rows: Seq<A>, page_size: int, i: int)
    requires
        page_size >= 1,
        0 <= i < rows.len(),
    ensures
        i / page_size + 1 >= 1,
        0 <= i % page_size < page_of(rows, i / page_size + 1, page_size).len(),
        page_of(rows, i / page_size + 1, page_size)[i % page_size] == rows[i],
{
    let q = i / page_size;
    let r = i % page_size;
    assert(i == q * page_size + r && 0 <= r < page_size && q >= 0) by (nonlinear_arith)
        requires
            page_size >= 1,
            i >= 0,
            q == i / page_size,
            r == i % page_size,
    ;
}

/// What lies on a page is a row of the result, and no row lies on two
/// pages or twice on one: the row at position `j` of page `page_number` is
/// the one at position `(page_number - 1) * page_size + j` of the result,
/// a position that no other page and place gives.
pub proof fn lemma_pages_do_not_overlap<A>(
    rows: Seq<A>,
    page_size: int,
    page_number: int,
    j: int,
    other_page: int,
    other_j: int,
)
    requires
        page_size >= 1,
        page_number >= 1,
        other_page >= 1,
        0 <= j < page_of(rows, page_number, page_size).len(),
        0 <= other_j < page_of(rows, other_page, page_size).len(),
    ensures
        0 <= page_offset(page_number, page_size) + j < rows.len(),
        page_of(rows, page_number, page_size)[j] == rows[page_offset(page_number, page_size) + j],
        j < page_size,
        (page_number != other_page || j != other_j) ==> page_offset(page_number, page_size) + j
            != page_offset(other_page, page_size) + other_j,
{
    let a = page_number - 1;
    let b = other_page - 1;
    assert(a * page_size >= 0 && b * page_size >= 0) by (nonlinear_arith)
        requires
            a >= 0,
            b >= 0,
            page_size >= 1,
    ;
    if a < b {
        assert(a * page_size + page_size <= b * page_size) by (nonlinear_arith)
            requires
                a + 1 <= b,
                page_size >= 1,
        ;
    }
    if b < a {
        assert(b * page_size + page_size <= a * page_size) by (nonlinear_arith)
            requires
                b + 1 <= a,
                page_size >= 1,
        ;
    }
}

/// A result with more rows than fit on a page has a second page: the
/// first page is full and the second is not empty.
pub proof fn lemma_more_rows_than_a_page<A>(rows: Seq<A>, page_size: int)
    requires
        1 <= page_size < rows.len(),
    ensures
        page_of(rows, 1, page_size).len() == page_size,
        page_of(rows, 2, page_size).len() >= 1,
{
}

/// The pages of a result, one after the other, are the result: the first
/// `n` pages hold its first `n * page_size` rows, in order.
pub open spec fn first_pages<A>(rows: Seq<A>, page_size: int, n: int) -> Seq<A>
    decreases n,
{
    if n <= 0 {
        Seq::empty()
    } else {
        first_pages(rows, page_size, n - 1) + page_of(rows, n, page_size)
    }
}

/// The first `n` pages hold the first `n * page_size` rows of the result,
/// all of it where that many are not there.
pub proof fn lemma_pages_cover<A>(rows: Seq<A>, page_size: int, n: int)
    requires
        page_size >= 1,
        n >= 0,
    ensures
        first_pages(rows, page_size, n) == if n * page_size >= rows.len() {
            rows
        } else {
            rows.take(n * page_size)
        },
    decreases n,
{
    if n > 0 {
        lemma_pages_cover(rows, page_size, n - 1);
        assert((n - 1) * page_size + page_size == n * page_size) by (nonlinear_arith);
        assert((n - 1) * page_size >= 0) by (nonlinear_arith)
            requires
                n >= 1,
                page_size >= 1,
        ;
    } else {
        assert(n * page_size == 0) by (nonlinear_arith)
            requires
                n == 0,
        ;
    }
}

} // verus!
