//! Native column values, and the bridge between them and wire values.

use vstd::prelude::*;
use crate::field::{FieldOptionView, FieldView, GrpcField, GrpcFieldOption, Timestamp};
use crate::identity::{format_uuid, is_canonical_uuid, parse_uuid, parsed_uuid, uuid_text};
use crate::schema::PsqlFieldType;

verus! {

/// A value as a column holds it, and as a statement binds it.
///
/// The two floating point variants carry the IEEE 754 bit pattern.
#[derive(Clone, Debug, PartialEq)]
pub enum SqlValue {
    Null,
    Text(String),
    Uuid(u128),
    Int8(i64),
    Int4(i32),
    Int2(i16),
    Float8(u64),
    Float4(u32),
    Bool(bool),
    Bytea(Vec<u8>),
    Timestamptz(Timestamp),
    Int8Array(Vec<i64>),
}

/// What a [`SqlValue`] holds, as a mathematical value.
pub enum SqlView {
    Null,
    Text(Seq<char>),
    Uuid(u128),
    Int8(i64),
    Int4(i32),
    Int2(i16),
    Float8(u64),
    Float4(u32),
    Bool(bool),
    Bytea(Seq<u8>),
    Timestamptz(Timestamp),
    Int8Array(Seq<i64>),
}

impl View for SqlValue {
    type V = SqlView;

    open spec fn view(&self) -> SqlView {
        match *self {
            SqlValue::Null => SqlView::Null,
            SqlValue::Text(s) => SqlView::Text(s@),
            SqlValue::Uuid(u) => SqlView::Uuid(u),
            SqlValue::Int8(v) => SqlView::Int8(v),
            SqlValue::Int4(v) => SqlView::Int4(v),
            SqlValue::Int2(v) => SqlView::Int2(v),
            SqlValue::Float8(v) => SqlView::Float8(v),
            SqlValue::Float4(v) => SqlView::Float4(v),
            SqlValue::Bool(v) => SqlView::Bool(v),
            SqlValue::Bytea(b) => SqlView::Bytea(b@),
            SqlValue::Timestamptz(t) => SqlView::Timestamptz(t),
            SqlValue::Int8Array(l) => SqlView::Int8Array(l@),
        }
    }
}

/// The kind of scalar a wire field holds.
#[derive(Clone, Copy, Debug, PartialEq, Eq, Structural)]
pub enum FieldKind {
    String,
    I64List,
    I64,
    F64,
    I32,
    F32,
    Bool,
    I16,
    Bytes,
    Timestamp,
}

/// The shape of a wire field: its kind and whether it may be absent.
#[derive(Clone, Copy, Debug, PartialEq, Eq, Structural)]
pub struct Shape {
    pub kind: FieldKind,
    pub optional: bool,
}

impl FieldOptionView {
    /// The kind of value that may be inside; none for an untyped absence.
    pub open spec fn kind(self) -> Option<FieldKind> {
        match self {
            FieldOptionView::String(_) => Some(FieldKind::String),
            FieldOptionView::I64List(_) => Some(FieldKind::I64List),
            FieldOptionView::I64(_) => Some(FieldKind::I64),
            FieldOptionView::F64(_) => Some(FieldKind::F64),
            FieldOptionView::I32(_) => Some(FieldKind::I32),
            FieldOptionView::F32(_) => Some(FieldKind::F32),
            FieldOptionView::Bool(_) => Some(FieldKind::Bool),
            FieldOptionView::I16(_) => Some(FieldKind::I16),
            FieldOptionView::Bytes(_) => Some(FieldKind::Bytes),
            FieldOptionView::Timestamp(_) => Some(FieldKind::Timestamp),
            FieldOptionView::Absent => None,
        }
    }

    /// The absent value of a kind.
    pub open spec fn none(kind: FieldKind) -> FieldOptionView {
        match kind {
            FieldKind::String => FieldOptionView::String(None),
            FieldKind::I64List => FieldOptionView::I64List(None),
            FieldKind::I64 => FieldOptionView::I64(None),
            FieldKind::F64 => FieldOptionView::F64(None),
            FieldKind::I32 => FieldOptionView::I32(None),
            FieldKind::F32 => FieldOptionView::F32(None),
            FieldKind::Bool => FieldOptionView::Bool(None),
            FieldKind::I16 => FieldOptionView::I16(None),
            FieldKind::Bytes => FieldOptionView::Bytes(None),
            FieldKind::Timestamp => FieldOptionView::Timestamp(None),
        }
    }

    /// A plain value made optional and present. An optional stays as it is.
    pub open spec fn some(value: FieldView) -> FieldOptionView {
        match value {
            FieldView::String(s) => FieldOptionView::String(Some(s)),
            FieldView::I64List(l) => FieldOptionView::I64List(Some(l)),
            FieldView::I64(v) => FieldOptionView::I64(Some(v)),
            FieldView::F64(v) => FieldOptionView::F64(Some(v)),
            FieldView::I32(v) => FieldOptionView::I32(Some(v)),
            FieldView::F32(v) => FieldOptionView::F32(Some(v)),
            FieldView::Bool(v) => FieldOptionView::Bool(Some(v)),
            FieldView::I16(v) => FieldOptionView::I16(Some(v)),
            FieldView::Bytes(b) => FieldOptionView::Bytes(Some(b)),
            FieldView::Timestamp(t) => FieldOptionView::Timestamp(Some(t)),
            FieldView::Option(o) => o,
        }
    }
}

impl FieldView {
    /// The shape of the value; none for an untyped absence.
    pub open spec fn shape(self) -> Option<Shape> {
        match self {
            FieldView::String(_) => Some(Shape { kind: FieldKind::String, optional: false }),
            FieldView::I64List(_) => Some(Shape { kind: FieldKind::I64List, optional: false }),
            FieldView::I64(_) => Some(Shape { kind: FieldKind::I64, optional: false }),
            FieldView::F64(_) => Some(Shape { kind: FieldKind::F64, optional: false }),
            FieldView::I32(_) => Some(Shape { kind: FieldKind::I32, optional: false }),
            FieldView::F32(_) => Some(Shape { kind: FieldKind::F32, optional: false }),
            FieldView::Bool(_) => Some(Shape { kind: FieldKind::Bool, optional: false }),
            FieldView::I16(_) => Some(Shape { kind: FieldKind::I16, optional: false }),
            FieldView::Bytes(_) => Some(Shape { kind: FieldKind::Bytes, optional: false }),
            FieldView::Timestamp(_) => Some(Shape { kind: FieldKind::Timestamp, optional: false }),
            FieldView::Option(o) => match o.kind() {
                Some(kind) => Some(Shape { kind, optional: true }),
                None => None,
            },
        }
    }
}

/// The zero value of a shape: empty text, an empty list, the number zero,
/// falsehood, the epoch; for an optional, absence.
pub open spec fn zero_of(shape: Shape) -> FieldView {
    if shape.optional {
        FieldView::Option(FieldOptionView::none(shape.kind))
    } else {
        match shape.kind {
            FieldKind::String => FieldView::String(Seq::empty()),
            FieldKind::I64List => FieldView::I64List(Seq::empty()),
            FieldKind::I64 => FieldView::I64(0),
            FieldKind::F64 => FieldView::F64(0),
            FieldKind::I32 => FieldView::I32(0),
            FieldKind::F32 => FieldView::F32(0),
            FieldKind::Bool => FieldView::Bool(false),
            FieldKind::I16 => FieldView::I16(0),
            FieldKind::Bytes => FieldView::Bytes(Seq::empty()),
            FieldKind::Timestamp => FieldView::Timestamp(Timestamp { seconds: 0, nanos: 0 }),
        }
    }
}

/// The native value that a present, plain wire value is bound as, for a
/// column of the given type. A UUID column takes the UUID that the text
/// denotes, and nothing else; every other column takes the value as it is.
pub open spec fn to_native(field_type: PsqlFieldType, value: FieldView) -> Option<SqlView> {
    if field_type == PsqlFieldType::Uuid {
        match value {
            FieldView::String(s) => match parsed_uuid(s) {
                Some(id) => Some(SqlView::Uuid(id)),
                None => None,
            },
            _ => None,
        }
    } else {
        match value {
            FieldView::String(s) => Some(SqlView::Text(s)),
            FieldView::I64List(l) => Some(SqlView::Int8Array(l)),
            FieldView::I64(v) => Some(SqlView::Int8(v)),
            FieldView::F64(v) => Some(SqlView::Float8(v)),
            FieldView::I32(v) => Some(SqlView::Int4(v)),
            FieldView::F32(v) => Some(SqlView::Float4(v)),
            FieldView::Bool(v) => Some(SqlView::Bool(v)),
            FieldView::I16(v) => Some(SqlView::Int2(v)),
            FieldView::Bytes(b) => Some(SqlView::Bytea(b)),
            FieldView::Timestamp(t) => Some(SqlView::Timestamptz(t)),
            FieldView::Option(_) => None,
        }
    }
}

/// The plain wire value of a kind that a native value gives. A UUID is
/// handed out as its canonical text. `None` where the native value is null
/// or of another kind.
pub open spec fn plain_from_native(kind: FieldKind, cell: SqlView) -> Option<FieldView> {
    match (kind, cell) {
        (FieldKind::String, SqlView::Text(s)) => Some(FieldView::String(s)),
        (FieldKind::String, SqlView::Uuid(id)) => Some(FieldView::String(uuid_text(id))),
        (FieldKind::I64List, SqlView::Int8Array(l)) => Some(FieldView::I64List(l)),
        (FieldKind::I64, SqlView::Int8(v)) => Some(FieldView::I64(v)),
        (FieldKind::F64, SqlView::Float8(v)) => Some(FieldView::F64(v)),
        (FieldKind::I32, SqlView::Int4(v)) => Some(FieldView::I32(v)),
        (FieldKind::F32, SqlView::Float4(v)) => Some(FieldView::F32(v)),
        (FieldKind::Bool, SqlView::Bool(v)) => Some(FieldView::Bool(v)),
        (FieldKind::I16, SqlView::Int2(v)) => Some(FieldView::I16(v)),
        (FieldKind::Bytes, SqlView::Bytea(b)) => Some(FieldView::Bytes(b)),
        (FieldKind::Timestamp, SqlView::Timestamptz(t)) => Some(FieldView::Timestamp(t)),
        _ => None,
    }
}

/// The wire value of a shape that a native value gives. The required
/// flavor fails on null; the optional flavor maps null to absence.
pub open spec fn from_native(shape: Shape, cell: SqlView) -> Option<FieldView> {
    if shape.optional {
        if cell is Null {
            Some(FieldView::Option(FieldOptionView::none(shape.kind)))
        } else {
            match plain_from_native(shape.kind, cell) {
                Some(v) => Some(FieldView::Option(FieldOptionView::some(v))),
                None => None,
            }
        }
    } else {
        plain_from_native(shape.kind, cell)
    }
}

/// Whether a wire value that was read from a native UUID is its canonical
/// text, which denotes the same UUID again.
pub open spec fn canonical_if_uuid(native: SqlView, value: FieldView) -> bool {
    native is Uuid ==> match value.present() {
        Some(FieldView::String(s)) => is_canonical_uuid(s),
        _ => true,
    }
}

impl GrpcFieldOption {
    /// The absent value of a kind.
    pub fn none(kind: FieldKind) -> (o: GrpcFieldOption)
        ensures
            o@ == FieldOptionView::none(kind),
    {
        match kind {
            FieldKind::String => GrpcFieldOption::String(None),
            FieldKind::I64List => GrpcFieldOption::I64List(None),
            FieldKind::I64 => GrpcFieldOption::I64(None),
            FieldKind::F64 => GrpcFieldOption::F64(None),
            FieldKind::I32 => GrpcFieldOption::I32(None),
            FieldKind::F32 => GrpcFieldOption::F32(None),
            FieldKind::Bool => GrpcFieldOption::Bool(None),
            FieldKind::I16 => GrpcFieldOption::I16(None),
            FieldKind::Bytes => GrpcFieldOption::Bytes(None),
            FieldKind::Timestamp => GrpcFieldOption::Timestamp(None),
        }
    }

    /// A plain value made optional and present. An optional stays as it is.
    pub fn some(value: GrpcField) -> (o: GrpcFieldOption)
        ensures
            o@ == FieldOptionView::some(value@),
    {
        match value {
            GrpcField::String(s) => GrpcFieldOption::String(Some(s)),
            GrpcField::I64List(l) => GrpcFieldOption::I64List(Some(l)),
            GrpcField::I64(v) => GrpcFieldOption::I64(Some(v)),
            GrpcField::F64(v) => GrpcFieldOption::F64(Some(v)),
            GrpcField::I32(v) => GrpcFieldOption::I32(Some(v)),
            GrpcField::F32(v) => GrpcFieldOption::F32(Some(v)),
            GrpcField::Bool(v) => GrpcFieldOption::Bool(Some(v)),
            GrpcField::I16(v) => GrpcFieldOption::I16(Some(v)),
            GrpcField::Bytes(b) => GrpcFieldOption::Bytes(Some(b)),
            GrpcField::Timestamp(t) => GrpcFieldOption::Timestamp(Some(t)),
            GrpcField::Option(o) => o,
        }
    }
}

impl GrpcField {
    /// The shape of the value; none for an untyped absence.
    pub fn shape(&self) -> (shape: Option<Shape>)
        ensures
            shape == self@.shape(),
    {
        match self {
            GrpcField::String(_) => Some(Shape { kind: FieldKind::String, optional: false }),
            GrpcField::I64List(_) => Some(Shape { kind: FieldKind::I64List, optional: false }),
            GrpcField::I64(_) => Some(Shape { kind: FieldKind::I64, optional: false }),
            GrpcField::F64(_) => Some(Shape { kind: FieldKind::F64, optional: false }),
            GrpcField::I32(_) => Some(Shape { kind: FieldKind::I32, optional: false }),
            GrpcField::F32(_) => Some(Shape { kind: FieldKind::F32, optional: false }),
            GrpcField::Bool(_) => Some(Shape { kind: FieldKind::Bool, optional: false }),
            GrpcField::I16(_) => Some(Shape { kind: FieldKind::I16, optional: false }),
            GrpcField::Bytes(_) => Some(Shape { kind: FieldKind::Bytes, optional: false }),
            GrpcField::Timestamp(_) => Some(Shape { kind: FieldKind::Timestamp, optional: false }),
            GrpcField::Option(o) => match o {
                GrpcFieldOption::String(_) => Some(
                    Shape { kind: FieldKind::String, optional: true },
                ),
                GrpcFieldOption::I64List(_) => Some(
                    Shape { kind: FieldKind::I64List, optional: true },
                ),
                GrpcFieldOption::I64(_) => Some(
                    Shape { kind: FieldKind::I64, optional: true },
                ),
                GrpcFieldOption::F64(_) => Some(
                    Shape { kind: FieldKind::F64, optional: true },
                ),
                GrpcFieldOption::I32(_) => Some(
                    Shape { kind: FieldKind::I32, optional: true },
                ),
                GrpcFieldOption::F32(_) => Some(
                    Shape { kind: FieldKind::F32, optional: true },
                ),
                GrpcFieldOption::Bool(_) => Some(
                    Shape { kind: FieldKind::Bool, optional: true },
                ),
                GrpcFieldOption::I16(_) => Some(
                    Shape { kind: FieldKind::I16, optional: true },
                ),
                GrpcFieldOption::Bytes(_) => Some(
                    Shape { kind: FieldKind::Bytes, optional: true },
                ),
                GrpcFieldOption::Timestamp(_) => Some(
                    Shape { kind: FieldKind::Timestamp, optional: true },
                ),
                GrpcFieldOption::Absent => None,
            },
        }
    }

    /// Binds a present, plain wire value for a column of the given type.
    /// `None` where the column holds UUIDs and the value is not the text of
    /// one, or where the value is an optional.
    pub fn into_native(self, field_type: PsqlFieldType) -> (native: Option<SqlValue>)
        ensures
            match to_native(field_type, self@) {
                Some(v) => native matches Some(n) && n@ == v,
                None => native.is_none(),
            },
    {
        if field_type == PsqlFieldType::Uuid {
            match self {
                GrpcField::String(s) => match parse_uuid(s.as_str()) {
                    Some(id) => Some(SqlValue::Uuid(id)),
                    None => None,
                },
                _ => None,
            }
        } else {
            match self {
                GrpcField::String(s) => Some(SqlValue::Text(s)),
                GrpcField::I64List(l) => Some(SqlValue::Int8Array(l)),
                GrpcField::I64(v) => Some(SqlValue::Int8(v)),
                GrpcField::F64(v) => Some(SqlValue::Float8(v)),
                GrpcField::I32(v) => Some(SqlValue::Int4(v)),
                GrpcField::F32(v) => Some(SqlValue::Float4(v)),
                GrpcField::Bool(v) => Some(SqlValue::Bool(v)),
                GrpcField::I16(v) => Some(SqlValue::Int2(v)),
                GrpcField::Bytes(b) => Some(SqlValue::Bytea(b)),
                GrpcField::Timestamp(t) => Some(SqlValue::Timestamptz(t)),
                GrpcField::Option(_) => None,
            }
        }
    }
}

impl SqlValue {
    /// Whether the value is null.
    pub fn is_null(&self) -> (b: bool)
        ensures
            b == (self@ is Null),
    {
        match self {
            SqlValue::Null => true,
            _ => false,
        }
    }

    /// Reads the value as a plain wire value of the given kind.
    pub fn into_plain(self, kind: FieldKind) -> (field: Option<GrpcField>)
        ensures
            match plain_from_native(kind, self@) {
                Some(v) => field matches Some(f) && f@ == v && canonical_if_uuid(self@, v),
                None => field.is_none(),
            },
    {
        match (kind, self) {
            (FieldKind::String, SqlValue::Text(s)) => Some(GrpcField::String(s)),
            (FieldKind::String, SqlValue::Uuid(id)) => Some(GrpcField::String(format_uuid(id))),
            (FieldKind::I64List, SqlValue::Int8Array(l)) => Some(GrpcField::I64List(l)),
            (FieldKind::I64, SqlValue::Int8(v)) => Some(GrpcField::I64(v)),
            (FieldKind::F64, SqlValue::Float8(v)) => Some(GrpcField::F64(v)),
            (FieldKind::I32, SqlValue::Int4(v)) => Some(GrpcField::I32(v)),
            (FieldKind::F32, SqlValue::Float4(v)) => Some(GrpcField::F32(v)),
            (FieldKind::Bool, SqlValue::Bool(v)) => Some(GrpcField::Bool(v)),
            (FieldKind::I16, SqlValue::Int2(v)) => Some(GrpcField::I16(v)),
            (FieldKind::Bytes, SqlValue::Bytea(b)) => Some(GrpcField::Bytes(b)),
            (FieldKind::Timestamp, SqlValue::Timestamptz(t)) => Some(GrpcField::Timestamp(t)),
            _ => None,
        }
    }

    /// Reads the value as a wire value of the given shape: the required
    /// flavor fails on null, the optional flavor maps null to absence.
    pub fn into_field(self, shape: Shape) -> (field: Option<GrpcField>)
        ensures
            match from_native(shape, self@) {
                Some(v) => field matches Some(f) && f@ == v && canonical_if_uuid(self@, v),
                None => field.is_none(),
            },
    {
        if shape.optional {
            if self.is_null() {
                Some(GrpcField::Option(GrpcFieldOption::none(shape.kind)))
            } else {
                match self.into_plain(shape.kind) {
                    Some(f) => Some(GrpcField::Option(GrpcFieldOption::some(f))),
                    None => None,
                }
            }
        } else {
            self.into_plain(shape.kind)
        }
    }
}

} // verus!
