//! The field type bridge: one closed, tagged value for every scalar a
//! resource field can hold on the wire.

use vstd::prelude::*;
use vstd::std_specs::convert::FromSpecImpl;

verus! {

/// A point in time: whole seconds since the Unix epoch and the nanoseconds
/// within that second.
#[derive(Clone, Copy, Debug, PartialEq, Eq, Structural)]
pub struct Timestamp {
    pub seconds: i64,
    pub nanos: i32,
}

/// A field value as it travels on the wire.
///
/// The two floating point variants carry the IEEE 754 bit pattern of the
/// number, so that values can be compared and stored exactly.
#[derive(Clone, Debug, PartialEq)]
pub enum GrpcField {
    /// Text.
    String(String),
    /// A list of 64-bit integers.
    I64List(Vec<i64>),
    /// A 64-bit integer.
    I64(i64),
    /// The bits of a 64-bit float.
    F64(u64),
    /// A 32-bit integer.
    I32(i32),
    /// The bits of a 32-bit float.
    F32(u32),
    /// A truth value.
    Bool(bool),
    /// A 16-bit integer.
    I16(i16),
    /// A byte sequence.
    Bytes(Vec<u8>),
    /// A point in time.
    Timestamp(Timestamp),
    /// A value that may be absent.
    Option(GrpcFieldOption),
}

/// A field value that may be absent.
#[derive(Clone, Debug, PartialEq)]
pub enum GrpcFieldOption {
    String(Option<String>),
    I64List(Option<Vec<i64>>),
    I64(Option<i64>),
    F64(Option<u64>),
    I32(Option<i32>),
    F32(Option<u32>),
    Bool(Option<bool>),
    I16(Option<i16>),
    Bytes(Option<Vec<u8>>),
    Timestamp(Option<Timestamp>),
    /// Absent, with no type recorded.
    Absent,
}

/// What a [`GrpcField`] holds, as a mathematical value.
pub enum FieldView {
    String(Seq<char>),
    I64List(Seq<i64>),
    I64(i64),
    F64(u64),
    I32(i32),
    F32(u32),
    Bool(bool),
    I16(i16),
    Bytes(Seq<u8>),
    Timestamp(Timestamp),
    Option(FieldOptionView),
}

/// What a [`GrpcFieldOption`] holds, as a mathematical value.
pub enum FieldOptionView {
    String(Option<Seq<char>>),
    I64List(Option<Seq<i64>>),
    I64(Option<i64>),
    F64(Option<u64>),
    I32(Option<i32>),
    F32(Option<u32>),
    Bool(Option<bool>),
    I16(Option<i16>),
    Bytes(Option<Seq<u8>>),
    Timestamp(Option<Timestamp>),
    Absent,
}

impl View for GrpcFieldOption {
    type V = FieldOptionView;

    open spec fn view(&self) -> FieldOptionView {
        match *self {
            GrpcFieldOption::String(Some(s)) => FieldOptionView::String(Some(s@)),
            GrpcFieldOption::String(None) => FieldOptionView::String(None),
            GrpcFieldOption::I64List(Some(l)) => FieldOptionView::I64List(Some(l@)),
            GrpcFieldOption::I64List(None) => FieldOptionView::I64List(None),
            GrpcFieldOption::I64(v) => FieldOptionView::I64(v),
            GrpcFieldOption::F64(v) => FieldOptionView::F64(v),
            GrpcFieldOption::I32(v) => FieldOptionView::I32(v),
            GrpcFieldOption::F32(v) => FieldOptionView::F32(v),
            GrpcFieldOption::Bool(v) => FieldOptionView::Bool(v),
            GrpcFieldOption::I16(v) => FieldOptionView::I16(v),
            GrpcFieldOption::Bytes(Some(b)) => FieldOptionView::Bytes(Some(b@)),
            GrpcFieldOption::Bytes(None) => FieldOptionView::Bytes(None),
            GrpcFieldOption::Timestamp(v) => FieldOptionView::Timestamp(v),
            GrpcFieldOption::Absent => FieldOptionView::Absent,
        }
    }
}

impl View for GrpcField {
    type V = FieldView;

    open spec fn view(&self) -> FieldView {
        match *self {
            GrpcField::String(s) => FieldView::String(s@),
            GrpcField::I64List(l) => FieldView::I64List(l@),
            GrpcField::I64(v) => FieldView::I64(v),
            GrpcField::F64(v) => FieldView::F64(v),
            GrpcField::I32(v) => FieldView::I32(v),
            GrpcField::F32(v) => FieldView::F32(v),
            GrpcField::Bool(v) => FieldView::Bool(v),
            GrpcField::I16(v) => FieldView::I16(v),
            GrpcField::Bytes(b) => FieldView::Bytes(b@),
            GrpcField::Timestamp(t) => FieldView::Timestamp(t),
            GrpcField::Option(o) => FieldView::Option(o@),
        }
    }
}

impl FieldOptionView {
    /// The value inside, if one is present.
    pub open spec fn value(self) -> Option<FieldView> {
        match self {
            FieldOptionView::String(Some(s)) => Some(FieldView::String(s)),
            FieldOptionView::I64List(Some(l)) => Some(FieldView::I64List(l)),
            FieldOptionView::I64(Some(v)) => Some(FieldView::I64(v)),
            FieldOptionView::F64(Some(v)) => Some(FieldView::F64(v)),
            FieldOptionView::I32(Some(v)) => Some(FieldView::I32(v)),
            FieldOptionView::F32(Some(v)) => Some(FieldView::F32(v)),
            FieldOptionView::Bool(Some(v)) => Some(FieldView::Bool(v)),
            FieldOptionView::I16(Some(v)) => Some(FieldView::I16(v)),
            FieldOptionView::Bytes(Some(b)) => Some(FieldView::Bytes(b)),
            FieldOptionView::Timestamp(Some(t)) => Some(FieldView::Timestamp(t)),
            _ => None,
        }
    }
}

impl FieldView {
    /// The value with one layer of optionality removed: `None` when the
    /// field is an absent optional, the inner value when it is a present
    /// optional, the value itself otherwise.
    pub open spec fn present(self) -> Option<FieldView> {
        match self {
            FieldView::Option(o) => o.value(),
            v => Some(v),
        }
    }
}

/// The view of an optional field, `None` when there is none.
pub open spec fn field_view(field: Option<GrpcField>) -> Option<FieldView> {
    match field {
        Some(f) => Some(f@),
        None => None,
    }
}

impl GrpcFieldOption {
    /// Unwraps the optional: the plain field when a value is present.
    pub fn into_field(self) -> (field: Option<GrpcField>)
        ensures
            field_view(field) == self@.value(),
    {
        match self {
            GrpcFieldOption::String(Some(s)) => Some(GrpcField::String(s)),
            GrpcFieldOption::I64List(Some(l)) => Some(GrpcField::I64List(l)),
            GrpcFieldOption::I64(Some(v)) => Some(GrpcField::I64(v)),
            GrpcFieldOption::F64(Some(v)) => Some(GrpcField::F64(v)),
            GrpcFieldOption::I32(Some(v)) => Some(GrpcField::I32(v)),
            GrpcFieldOption::F32(Some(v)) => Some(GrpcField::F32(v)),
            GrpcFieldOption::Bool(Some(v)) => Some(GrpcField::Bool(v)),
            GrpcFieldOption::I16(Some(v)) => Some(GrpcField::I16(v)),
            GrpcFieldOption::Bytes(Some(b)) => Some(GrpcField::Bytes(b)),
            GrpcFieldOption::Timestamp(Some(t)) => Some(GrpcField::Timestamp(t)),
            _ => None,
        }
    }
}

impl From<GrpcFieldOption> for Option<GrpcField> {
    fn from(field: GrpcFieldOption) -> (r: Self) {
        match field {
            GrpcFieldOption::String(Some(s)) => Some(GrpcField::String(s)),
            GrpcFieldOption::I64List(Some(l)) => Some(GrpcField::I64List(l)),
            GrpcFieldOption::I64(Some(v)) => Some(GrpcField::I64(v)),
            GrpcFieldOption::F64(Some(v)) => Some(GrpcField::F64(v)),
            GrpcFieldOption::I32(Some(v)) => Some(GrpcField::I32(v)),
            GrpcFieldOption::F32(Some(v)) => Some(GrpcField::F32(v)),
            GrpcFieldOption::Bool(Some(v)) => Some(GrpcField::Bool(v)),
            GrpcFieldOption::I16(Some(v)) => Some(GrpcField::I16(v)),
            GrpcFieldOption::Bytes(Some(b)) => Some(GrpcField::Bytes(b)),
            GrpcFieldOption::Timestamp(Some(t)) => Some(GrpcField::Timestamp(t)),
            _ => None,
        }
    }
}

impl FromSpecImpl<GrpcFieldOption> for Option<GrpcField> {
    open spec fn obeys_from_spec() -> bool {
        true
    }

    open spec fn from_spec(field: GrpcFieldOption) -> Self {
        match field {
            GrpcFieldOption::String(Some(s)) => Some(GrpcField::String(s)),
            GrpcFieldOption::I64List(Some(l)) => Some(GrpcField::I64List(l)),
            GrpcFieldOption::I64(Some(v)) => Some(GrpcField::I64(v)),
            GrpcFieldOption::F64(Some(v)) => Some(GrpcField::F64(v)),
            GrpcFieldOption::I32(Some(v)) => Some(GrpcField::I32(v)),
            GrpcFieldOption::F32(Some(v)) => Some(GrpcField::F32(v)),
            GrpcFieldOption::Bool(Some(v)) => Some(GrpcField::Bool(v)),
            GrpcFieldOption::I16(Some(v)) => Some(GrpcField::I16(v)),
            GrpcFieldOption::Bytes(Some(b)) => Some(GrpcField::Bytes(b)),
            GrpcFieldOption::Timestamp(Some(t)) => Some(GrpcField::Timestamp(t)),
            _ => None,
        }
    }
}

impl From<GrpcField> for i64 {
    fn from(field: GrpcField) -> (r: Self) {
        match field {
            GrpcField::I64(v) => v,
            _ => 0,
        }
    }
}

impl FromSpecImpl<GrpcField> for i64 {
    open spec fn obeys_from_spec() -> bool {
        true
    }

    /// The 64-bit integer that the field holds; zero for any other kind.
    open spec fn from_spec(field: GrpcField) -> Self {
        match field {
            GrpcField::I64(v) => v,
            _ => 0,
        }
    }
}

impl From<GrpcField> for i32 {
    fn from(field: GrpcField) -> (r: Self) {
        match field {
            GrpcField::I32(v) => v,
            _ => 0,
        }
    }
}

impl FromSpecImpl<GrpcField> for i32 {
    open spec fn obeys_from_spec() -> bool {
        true
    }

    /// The 32-bit integer that the field holds; zero for any other kind.
    open spec fn from_spec(field: GrpcField) -> Self {
        match field {
            GrpcField::I32(v) => v,
            _ => 0,
        }
    }
}

impl From<GrpcField> for i16 {
    fn from(field: GrpcField) -> (r: Self) {
        match field {
            GrpcField::I16(v) => v,
            _ => 0,
        }
    }
}

impl FromSpecImpl<GrpcField> for i16 {
    open spec fn obeys_from_spec() -> bool {
        true
    }

    /// The 16-bit integer that the field holds; zero for any other kind.
    open spec fn from_spec(field: GrpcField) -> Self {
        match field {
            GrpcField::I16(v) => v,
            _ => 0,
        }
    }
}

impl GrpcField {
    /// The text that the field holds; none for any other kind.
    pub fn into_string(self) -> (text: Option<String>)
        ensures
            match self@ {
                FieldView::String(s) => text matches Some(t) && t@ == s,
                _ => text.is_none(),
            },
    {
        match self {
            GrpcField::String(s) => Some(s),
            _ => None,
        }
    }

    /// The list of integers that the field holds: a list as it is, one
    /// integer as a list of one, nothing for any other kind.
    pub fn into_i64_list(self) -> (list: Vec<i64>)
        ensures
            list@ == (match self@ {
                FieldView::I64List(l) => l,
                FieldView::I64(v) => seq![v],
                _ => Seq::empty(),
            }),
    {
        match self {
            GrpcField::I64List(l) => l,
            GrpcField::I64(v) => {
                let mut list: Vec<i64> = Vec::new();
                list.push(v);
                list
            },
            _ => Vec::new(),
        }
    }

    /// The bits of the 64-bit float that the field holds; those of zero for
    /// any other kind.
    pub fn into_f64_bits(self) -> (bits: u64)
        ensures
            bits == (match self@ {
                FieldView::F64(b) => b,
                _ => 0u64,
            }),
    {
        match self {
            GrpcField::F64(b) => b,
            _ => 0,
        }
    }

    /// The point in time that the field holds; `now` for any other kind.
    pub fn into_timestamp(self, now: Timestamp) -> (time: Timestamp)
        ensures
            time == (match self@ {
                FieldView::Timestamp(t) => t,
                _ => now,
            }),
    {
        match self {
            GrpcField::Timestamp(t) => t,
            _ => now,
        }
    }
}

} // verus!
