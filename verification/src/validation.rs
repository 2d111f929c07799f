//! The validator: holds a payload against the description of its table and
//! binds the values that pass.

use vstd::prelude::*;
use vstd::string::StringExecFns;
use crate::error::StorageError;
use crate::field::{FieldView, GrpcField};
use crate::identity::parsed_uuid;
use crate::native::{to_native, SqlValue, SqlView};
use crate::resources::base::{GrpcDataObjectType, Resource};
use crate::schema::{FieldSpec, PsqlFieldType};

verus! {

/// One field that failed validation, and why.
#[derive(Clone, Debug, PartialEq)]
pub struct ValidationError {
    pub field: String,
    pub error: String,
}

/// The outcome of validating a payload.
#[derive(Clone, Debug, PartialEq)]
pub struct ValidationResult {
    pub success: bool,
    pub errors: Vec<ValidationError>,
}

/// The fields that failed, each with its message, as mathematical values.
pub open spec fn errors_view(errors: Seq<ValidationError>) -> Seq<(Seq<char>, Seq<char>)> {
    Seq::new(errors.len(), |i: int| (errors[i].field@, errors[i].error@))
}

/// Bound parameters, as mathematical values.
pub open spec fn params_view(params: Seq<(String, SqlValue)>) -> Seq<(Seq<char>, SqlView)> {
    Seq::new(params.len(), |i: int| (params[i].0@, params[i].1@))
}

/// The message for a required field without a value.
pub open spec fn required_message(name: Seq<char>) -> Seq<char> {
    name + " is required"@
}

/// The message for a UUID field whose value is not the text of a UUID.
pub open spec fn uuid_message(name: Seq<char>) -> Seq<char> {
    name + " is not a valid UUID"@
}

/// What the validator finds of one field.
pub enum Verdict {
    /// The field is managed by the store: not looked at.
    Skipped,
    /// A required field is absent or an empty text.
    Missing,
    /// The column holds UUIDs and the value is not the text of one.
    BadUuid,
    /// The field passed and is bound to this native value.
    Bound(SqlView),
}

/// Whether a value is absent or an empty text.
pub open spec fn is_blank(value: FieldView) -> bool {
    match value.present() {
        None => true,
        Some(FieldView::String(s)) => s.len() == 0,
        Some(_) => false,
    }
}

/// What the validator finds of a field with the given description and value.
pub open spec fn verdict_of(spec: FieldSpec, value: FieldView) -> Verdict {
    if spec.internal {
        Verdict::Skipped
    } else if spec.mandatory && is_blank(value) {
        Verdict::Missing
    } else {
        match value.present() {
            None => Verdict::Bound(SqlView::Null),
            Some(present) => match to_native(spec.field_type, present) {
                Some(native) => Verdict::Bound(native),
                None => Verdict::BadUuid,
            },
        }
    }
}

/// What the validator finds of the `i`-th field of a table in a payload.
pub open spec fn verdict_at<T: GrpcDataObjectType>(
    fields: Seq<(Seq<char>, FieldSpec)>,
    data: T,
    i: int,
) -> Verdict {
    match data.field(fields[i].0) {
        Some(value) => verdict_of(fields[i].1, value),
        None => Verdict::Skipped,
    }
}

/// The errors of the first `n` fields, in the order of the fields.
pub open spec fn field_errors<T: GrpcDataObjectType>(
    fields: Seq<(Seq<char>, FieldSpec)>,
    data: T,
    n: int,
) -> Seq<(Seq<char>, Seq<char>)>
    decreases n,
{
    if n <= 0 {
        Seq::empty()
    } else {
        let before = field_errors(fields, data, n - 1);
        let name = fields[n - 1].0;
        match verdict_at(fields, data, n - 1) {
            Verdict::Missing => before.push((name, required_message(name))),
            Verdict::BadUuid => before.push((name, uuid_message(name))),
            _ => before,
        }
    }
}

/// The parameters bound from the first `n` fields, in the order of the
/// fields.
pub open spec fn bound_params<T: GrpcDataObjectType>(
    fields: Seq<(Seq<char>, FieldSpec)>,
    data: T,
    n: int,
) -> Seq<(Seq<char>, SqlView)>
    decreases n,
{
    if n <= 0 {
        Seq::empty()
    } else {
        let before = bound_params(fields, data, n - 1);
        match verdict_at(fields, data, n - 1) {
            Verdict::Bound(native) => before.push((fields[n - 1].0, native)),
            _ => before,
        }
    }
}

/// The names of the first `n` fields that callers set, in the order of the
/// fields.
pub open spec fn data_field_names(fields: Seq<(Seq<char>, FieldSpec)>, n: int) -> Seq<Seq<char>>
    decreases n,
{
    if n <= 0 {
        Seq::empty()
    } else if fields[n - 1].1.internal {
        data_field_names(fields, n - 1)
    } else {
        data_field_names(fields, n - 1).push(fields[n - 1].0)
    }
}

/// The names of a list of parameters.
pub open spec fn param_names(params: Seq<(Seq<char>, SqlView)>) -> Seq<Seq<char>> {
    Seq::new(params.len(), |i: int| params[i].0)
}

/// The errors that validating a payload gives.
pub open spec fn validation_errors<T: Resource>(data: T) -> Seq<(Seq<char>, Seq<char>)> {
    field_errors(T::schema().fields, data, T::schema().fields.len() as int)
}

/// The parameters that validating a payload binds.
pub open spec fn validation_params<T: Resource>(data: T) -> Seq<(Seq<char>, SqlView)> {
    bound_params(T::schema().fields, data, T::schema().fields.len() as int)
}

/// Whether a payload passes validation.
pub open spec fn is_valid<T: Resource>(data: T) -> bool {
    validation_errors(data).len() == 0
}

fn is_empty_text(value: &GrpcField) -> (empty: bool)
    ensures
        empty == (value@ matches FieldView::String(s) && s.len() == 0),
{
    match value {
        GrpcField::String(s) => s.as_str().is_empty(),
        _ => false,
    }
}

fn error_for(name: &String, reason: &str) -> (error: ValidationError)
    ensures
        error.field@ == name@,
        error.error@ == name@ + reason@,
{
    let mut message = name.clone();
    message.append(reason);
    ValidationError { field: name.clone(), error: message }
}

/// Validates a payload against the description of its table.
///
/// Every field that callers set is read from the payload. A required field
/// that is absent or an empty text is reported as `"<field> is required"`;
/// a value for a UUID column that is not the text of a UUID as
/// `"<field> is not a valid UUID"`. Every other field is bound: an absent
/// optional as null, a UUID as the UUID its text denotes, anything else as
/// it is. The result is a success when there is no error.
pub fn validate<T: Resource>(data: &T) -> (r: Result<
    (Vec<(String, SqlValue)>, ValidationResult),
    StorageError,
>)
    ensures
        r matches Ok((params, result)) && params_view(params@) == validation_params(*data)
            && errors_view(result.errors@) == validation_errors(*data) && result.success
            == is_valid(*data),
{
    let definition = T::get_definition();
    let mut params: Vec<(String, SqlValue)> = Vec::new();
    let mut errors: Vec<ValidationError> = Vec::new();
    let ghost fields = T::schema().fields;
    let mut i: usize = 0;
    while i < definition.fields.len()
        invariant
            i <= definition.fields.len(),
            definition@ == T::schema(),
            fields == T::schema().fields,
            fields.len() == definition.fields@.len(),
            params_view(params@) == bound_params(fields, *data, i as int),
            errors_view(errors@) == field_errors(fields, *data, i as int),
        decreases definition.fields.len() - i,
    {
        let name = &definition.fields[i].0;
        let spec = &definition.fields[i].1;
        proof {
            // Every field that callers set is a field of the payload.
            T::lemma_schema();
            T::schema().lemma_position_of_entry(i as int);
            T::lemma_shape(name@);
            data.lemma_field_shape(name@);
        }
        if !spec.is_internal() {
            let value = data.get_field_value(name.as_str())?;
            let present = match value {
                GrpcField::Option(option) => option.into_field(),
                plain => Some(plain),
            };
            match present {
                None => {
                    if spec.is_mandatory() {
                        errors.push(error_for(name, " is required"));
                    } else {
                        params.push((name.clone(), SqlValue::Null));
                    }
                },
                Some(present) => {
                    if spec.is_mandatory() && is_empty_text(&present) {
                        errors.push(error_for(name, " is required"));
                    } else {
                        match present.into_native(spec.field_type) {
                            Some(native) => {
                                params.push((name.clone(), native));
                            },
                            None => {
                                errors.push(error_for(name, " is not a valid UUID"));
                            },
                        }
                    }
                },
            }
        }
        i += 1;
    }
    let success = errors.len() == 0;
    Ok((params, ValidationResult { success, errors }))
}

/// Whether the `i`-th field of the table is in order in a payload: it is
/// managed by the store; or it is populated if it is required and, if its
/// column holds UUIDs and it is present, it is the text of a UUID.
pub open spec fn in_order<T: Resource>(data: T, i: int) -> bool {
    let spec = T::schema().fields[i].1;
    let name = T::schema().fields[i].0;
    spec.internal || match data.field(name) {
        Some(value) => !(spec.mandatory && is_blank(value)) && (spec.field_type
            == PsqlFieldType::Uuid ==> match value.present() {
            Some(FieldView::String(s)) => parsed_uuid(s).is_some(),
            Some(_) => false,
            None => true,
        }),
        None => true,
    }
}

proof fn lemma_fields_in_order<T: Resource>(data: T, n: int)
    requires
        0 <= n <= T::schema().fields.len(),
        forall|i: int| 0 <= i < n ==> in_order(data, i),
    ensures
        field_errors(T::schema().fields, data, n).len() == 0,
        param_names(bound_params(T::schema().fields, data, n)) == data_field_names(
            T::schema().fields,
            n,
        ),
    decreases n,
{
    if n > 0 {
        lemma_fields_in_order(data, n - 1);
        assert(in_order(data, n - 1));
        T::lemma_schema();
        T::schema().lemma_position_of_entry(n - 1);
        T::lemma_shape(T::schema().fields[n - 1].0);
        data.lemma_field_shape(T::schema().fields[n - 1].0);
    }
}

/// A payload in which every required field is populated and every UUID
/// field holds the text of a UUID passes validation, and the parameters
/// bound are exactly the fields that callers set, in their order.
pub proof fn lemma_complete_payload_passes<T: Resource>(data: T)
    requires
        forall|i: int| 0 <= i < T::schema().fields.len() ==> in_order(data, i),
    ensures
        is_valid(data),
        param_names(validation_params(data)) == data_field_names(
            T::schema().fields,
            T::schema().fields.len() as int,
        ),
{
    lemma_fields_in_order(data, T::schema().fields.len() as int);
}

proof fn lemma_one_field_missing<T: Resource>(data: T, missing: int, n: int)
    requires
        0 <= missing < T::schema().fields.len(),
        0 <= n <= T::schema().fields.len(),
        verdict_at(T::schema().fields, data, missing) is Missing,
        forall|i: int| 0 <= i < T::schema().fields.len() && i != missing ==> in_order(data, i),
    ensures
        field_errors(T::schema().fields, data, n) == if n <= missing {
            Seq::<(Seq<char>, Seq<char>)>::empty()
        } else {
            seq![(T::schema().fields[missing].0, required_message(T::schema().fields[missing].0))]
        },
    decreases n,
{
    if n > 0 {
        lemma_one_field_missing(data, missing, n - 1);
        if n - 1 != missing {
            assert(in_order(data, n - 1));
        }
    }
}

/// Leaving out one required field of a payload that is otherwise in order
/// fails validation with exactly one error, which names that field.
pub proof fn lemma_missing_required_field<T: Resource>(data: T, missing: int)
    requires
        0 <= missing < T::schema().fields.len(),
        T::schema().fields[missing].1.mandatory,
        !T::schema().fields[missing].1.internal,
        data.field(T::schema().fields[missing].0) matches Some(value) && is_blank(value),
        forall|i: int| 0 <= i < T::schema().fields.len() && i != missing ==> in_order(data, i),
    ensures
        !is_valid(data),
        validation_errors(data) == seq![
            (T::schema().fields[missing].0, required_message(T::schema().fields[missing].0)),
        ],
{
    lemma_one_field_missing(data, missing, T::schema().fields.len() as int);
}

} // verus!
