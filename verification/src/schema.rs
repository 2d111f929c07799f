//! Schema metadata: the static description of a resource's table.

use vstd::prelude::*;
use crate::names::{find_entry, first_index, keys, lemma_first_index_unique};

verus! {

/// The native type of a column.
#[derive(Clone, Copy, Debug, PartialEq, Eq, Structural)]
pub enum PsqlFieldType {
    Text,
    Uuid,
    Int8,
    Int4,
    Int2,
    Float8,
    Float4,
    Bool,
    Bytea,
    Timestamptz,
    Int8Array,
}

/// The description of one column.
#[derive(Clone, Debug, PartialEq)]
pub struct FieldDefinition {
    /// The native type of the column.
    pub field_type: PsqlFieldType,
    /// Whether a value must be provided.
    pub mandatory: bool,
    /// Whether the column is managed by the store and never set by a caller.
    pub internal: bool,
    /// The default expression of the column, if it has one.
    pub default: Option<String>,
}

/// What a [`FieldDefinition`] holds, as a mathematical value.
pub struct FieldSpec {
    pub field_type: PsqlFieldType,
    pub mandatory: bool,
    pub internal: bool,
    pub default: Option<Seq<char>>,
}

impl View for FieldDefinition {
    type V = FieldSpec;

    open spec fn view(&self) -> FieldSpec {
        FieldSpec {
            field_type: self.field_type,
            mandatory: self.mandatory,
            internal: self.internal,
            default: match self.default {
                Some(d) => Some(d@),
                None => None,
            },
        }
    }
}

impl FieldDefinition {
    /// A column that callers set.
    pub fn new(field_type: PsqlFieldType, mandatory: bool) -> (field: FieldDefinition)
        ensures
            field@ == (FieldSpec { field_type, mandatory, internal: false, default: None }),
    {
        FieldDefinition { field_type, mandatory, internal: false, default: None }
    }

    /// A column that the store manages.
    pub fn new_internal(field_type: PsqlFieldType, mandatory: bool) -> (field: FieldDefinition)
        ensures
            field@ == (FieldSpec { field_type, mandatory, internal: true, default: None }),
    {
        FieldDefinition { field_type, mandatory, internal: true, default: None }
    }

    /// The same column with a default expression.
    pub fn set_default(self, default: String) -> (field: FieldDefinition)
        ensures
            field@ == (FieldSpec { default: Some(default@), ..self@ }),
    {
        FieldDefinition {
            field_type: self.field_type,
            mandatory: self.mandatory,
            internal: self.internal,
            default: Some(default),
        }
    }

    /// Whether a value must be provided.
    pub fn is_mandatory(&self) -> (b: bool)
        ensures
            b == self@.mandatory,
    {
        self.mandatory
    }

    /// Whether the column is managed by the store.
    pub fn is_internal(&self) -> (b: bool)
        ensures
            b == self@.internal,
    {
        self.internal
    }

    /// Whether the column has a default expression.
    pub fn has_default(&self) -> (b: bool)
        ensures
            b == self@.default.is_some(),
    {
        self.default.is_some()
    }
}

/// The description of a resource's table.
#[derive(Clone, Debug, PartialEq)]
pub struct ResourceDefinition {
    /// The name of the table.
    pub psql_table: String,
    /// The identifying columns: one for a simple resource, two for a link.
    pub psql_id_cols: Vec<String>,
    /// The other columns, by name, in the order of their declaration.
    pub fields: Vec<(String, FieldDefinition)>,
}

/// What a [`ResourceDefinition`] holds, as a mathematical value.
pub struct Schema {
    pub table: Seq<char>,
    pub id_cols: Seq<Seq<char>>,
    pub fields: Seq<(Seq<char>, FieldSpec)>,
}

/// The text of each string of a sequence.
pub open spec fn texts(names: Seq<String>) -> Seq<Seq<char>> {
    Seq::new(names.len(), |i: int| names[i]@)
}

/// The view of each entry of a field list.
pub open spec fn field_specs(fields: Seq<(String, FieldDefinition)>) -> Seq<
    (Seq<char>, FieldSpec),
> {
    Seq::new(fields.len(), |i: int| (fields[i].0@, fields[i].1@))
}

impl View for ResourceDefinition {
    type V = Schema;

    open spec fn view(&self) -> Schema {
        Schema {
            table: self.psql_table@,
            id_cols: texts(self.psql_id_cols@),
            fields: field_specs(self.fields@),
        }
    }
}

/// The name of the column that marks a row as deleted.
pub open spec fn deleted_marker() -> Seq<char> {
    "deleted_at"@
}

impl Schema {
    /// The names of the fields, in the order of their declaration.
    pub open spec fn names(self) -> Seq<Seq<char>> {
        Seq::new(self.fields.len(), |i: int| self.fields[i].0)
    }

    /// The position of the field of that name.
    pub open spec fn position(self, name: Seq<char>) -> Option<int> {
        first_index(self.names(), name)
    }

    /// Whether the table has a column of that name besides its id columns.
    pub open spec fn has_field(self, name: Seq<char>) -> bool {
        self.position(name).is_some()
    }

    /// The description of the field of that name.
    pub open spec fn field(self, name: Seq<char>) -> FieldSpec
        recommends
            self.has_field(name),
    {
        self.fields[self.position(name).unwrap()].1
    }

    /// Whether callers set the field of that name.
    pub open spec fn has_data_field(self, name: Seq<char>) -> bool {
        self.has_field(name) && !self.field(name).internal
    }

    /// Whether `name` is one of the id columns.
    pub open spec fn is_id_col(self, name: Seq<char>) -> bool {
        self.id_cols.contains(name)
    }

    /// Whether rows are deleted by marking them.
    pub open spec fn soft_delete(self) -> bool {
        self.has_field(deleted_marker())
    }

    /// One or two id columns, different from each other; field names that
    /// occur once; no id column among the fields.
    pub open spec fn well_formed(self) -> bool {
        &&& 1 <= self.id_cols.len() <= 2
        &&& self.id_cols.no_duplicates()
        &&& self.names().no_duplicates()
        &&& forall|i: int|
            0 <= i < self.fields.len() ==> !self.is_id_col(#[trigger] self.fields[i].0)
    }

    /// In a well-formed schema each field is found at its own position.
    pub proof fn lemma_position_of_entry(self, i: int)
        requires
            self.well_formed(),
            0 <= i < self.fields.len(),
        ensures
            self.position(self.fields[i].0) == Some(i),
            self.has_field(self.fields[i].0),
            self.field(self.fields[i].0) == self.fields[i].1,
    {
        lemma_first_index_unique(self.names(), i);
    }
}

impl ResourceDefinition {
    /// The name of the table.
    pub fn get_psql_table(&self) -> (table: String)
        ensures
            table@ == self@.table,
    {
        self.psql_table.clone()
    }

    /// The position of the field of that name.
    pub fn position(&self, name: &str) -> (at: Option<usize>)
        ensures
            match self@.position(name@) {
                Some(i) => at.is_some() && at.unwrap() as int == i && i < self.fields@.len(),
                None => at.is_none(),
            },
    {
        assert(keys(self.fields@) =~= self@.names());
        find_entry(&self.fields, name)
    }

    /// Whether the table has a column of that name besides its id columns.
    pub fn has_field(&self, name: &str) -> (b: bool)
        ensures
            b == self@.has_field(name@),
    {
        self.position(name).is_some()
    }

    /// The description of the field of that name.
    pub fn get_field(&self, name: &str) -> (field: Option<&FieldDefinition>)
        ensures
            match field {
                Some(f) => self@.has_field(name@) && f@ == self@.field(name@),
                None => !self@.has_field(name@),
            },
    {
        match self.position(name) {
            Some(i) => {
                Some(&self.fields[i].1)
            },
            None => None,
        }
    }

    /// Whether rows of the table are deleted by marking them.
    pub fn has_deleted_marker(&self) -> (b: bool)
        ensures
            b == self@.soft_delete(),
    {
        self.has_field("deleted_at")
    }
}

} // verus!
