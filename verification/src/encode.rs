use vstd::prelude::*;
use vstd::string::StrSliceExecFns;

use crate::schema::{SchemaFieldModel, TargetSchema};
use crate::text::check_float_lit;
use crate::types::{is_float_lit, DbTypeTag, EncodeError, Field, FieldModel, TargetValue,
    ValueModel};

verus! {

/// The widening rule applied to one cell: unsigned 8/16-bit widen into the
/// signed 32-bit slot, unsigned 32-bit into the signed 64-bit slot, and
/// unsigned 64-bit is stored as the signed 64-bit bit pattern. Every other
/// cell keeps its value; floats keep their bits and rendered literal.
pub open spec fn encoded_field(f: FieldModel) -> ValueModel {
    match f {
        FieldModel::Null => ValueModel::Null,
        FieldModel::Bool(v) => ValueModel::Boolean(v),
        FieldModel::TinyInt(v) => ValueModel::Int(v as i32),
        FieldModel::SmallInt(v) => ValueModel::Int(v as i32),
        FieldModel::Int(v) => ValueModel::Int(v),
        FieldModel::BigInt(v) => ValueModel::Long(v),
        FieldModel::Float { bits, lit } => ValueModel::Float { bits, lit },
        FieldModel::Double { bits, lit } => ValueModel::Double { bits, lit },
        FieldModel::Binary(b) => ValueModel::Bytes(b),
        FieldModel::NChar(s) => ValueModel::Str(s),
        FieldModel::Timestamp(t) => ValueModel::Timestamp(t),
        FieldModel::UTinyInt(v) => ValueModel::Int(v as i32),
        FieldModel::USmallInt(v) => ValueModel::Int(v as i32),
        FieldModel::UInt(v) => ValueModel::Long(v as i64),
        FieldModel::UBigInt(v) => ValueModel::Long(v as i64),
    }
}

/// Whether one cell fits its column's database type: the variant agrees
/// with the tag, a null fits everywhere, binary and text payloads respect
/// the declared width, and a float's rendered literal is well formed.
pub open spec fn field_matches_tag(f: FieldModel, t: DbTypeTag) -> bool {
    match f {
        FieldModel::Null => true,
        FieldModel::Bool(_) => t == DbTypeTag::Bool,
        FieldModel::TinyInt(_) => t == DbTypeTag::TinyInt,
        FieldModel::SmallInt(_) => t == DbTypeTag::SmallInt,
        FieldModel::Int(_) => t == DbTypeTag::Int,
        FieldModel::BigInt(_) => t == DbTypeTag::BigInt,
        FieldModel::Float { bits, lit } => t == DbTypeTag::Float && is_float_lit(lit),
        FieldModel::Double { bits, lit } => t == DbTypeTag::Double && is_float_lit(lit),
        FieldModel::Binary(b) => t matches DbTypeTag::Binary(w) && b.len() <= w,
        FieldModel::NChar(s) => t matches DbTypeTag::NChar(w) && s.len() <= w,
        FieldModel::Timestamp(_) => t == DbTypeTag::Timestamp,
        FieldModel::UTinyInt(_) => t == DbTypeTag::TinyIntUnsigned,
        FieldModel::USmallInt(_) => t == DbTypeTag::SmallIntUnsigned,
        FieldModel::UInt(_) => t == DbTypeTag::IntUnsigned,
        FieldModel::UBigInt(_) => t == DbTypeTag::BigIntUnsigned,
    }
}

/// A whole row fits the schema: one cell per column, each fitting its
/// column's type.
pub open spec fn row_matches(schema: Seq<SchemaFieldModel>, row: Seq<FieldModel>) -> bool {
    &&& row.len() == schema.len()
    &&& forall|i: int| 0 <= i < row.len() ==> field_matches_tag(#[trigger] row[i], schema[i].tag)
}

/// Every row of a batch fits the schema.
pub open spec fn rows_match(schema: Seq<SchemaFieldModel>, rows: Seq<Seq<FieldModel>>) -> bool {
    forall|r: int| 0 <= r < rows.len() ==> row_matches(schema, #[trigger] rows[r])
}

/// One encoded row.
pub open spec fn encoded_row(row: Seq<FieldModel>) -> Seq<ValueModel> {
    row.map_values(|f: FieldModel| encoded_field(f))
}

/// A whole encoded batch.
pub open spec fn encoded_rows(rows: Seq<Seq<FieldModel>>) -> Seq<Seq<ValueModel>> {
    rows.map_values(|r: Seq<FieldModel>| encoded_row(r))
}

/// Converts one cell into its target-format value by the widening rule.
pub fn encode_field(f: &Field) -> (r: TargetValue)
    ensures
        r@ == encoded_field(f@),
{
    match f {
        Field::Null => TargetValue::Null,
        Field::Bool(v) => TargetValue::Boolean(*v),
        Field::TinyInt(v) => TargetValue::Int(*v as i32),
        Field::SmallInt(v) => TargetValue::Int(*v as i32),
        Field::Int(v) => TargetValue::Int(*v),
        Field::BigInt(v) => TargetValue::Long(*v),
        Field::Float { bits, lit } => TargetValue::Float {
            bits: *bits,
            lit: vstd::slice::slice_to_vec(lit.as_slice()),
        },
        Field::Double { bits, lit } => TargetValue::Double {
            bits: *bits,
            lit: vstd::slice::slice_to_vec(lit.as_slice()),
        },
        Field::Binary(v) => TargetValue::Bytes(vstd::slice::slice_to_vec(v.as_slice())),
        Field::NChar(v) => TargetValue::Str(v.clone()),
        Field::Timestamp(v) => TargetValue::Timestamp(*v),
        Field::UTinyInt(v) => TargetValue::Int(*v as i32),
        Field::USmallInt(v) => TargetValue::Int(*v as i32),
        Field::UInt(v) => TargetValue::Long(*v as i64),
        Field::UBigInt(v) => TargetValue::Long(*v as i64),
    }
}

/// Whether one cell fits its column's database type.
pub fn field_matches(f: &Field, t: DbTypeTag) -> (r: bool)
    ensures
        r == field_matches_tag(f@, t),
{
    match f {
        Field::Null => true,
        Field::Bool(_) => matches!(t, DbTypeTag::Bool),
        Field::TinyInt(_) => matches!(t, DbTypeTag::TinyInt),
        Field::SmallInt(_) => matches!(t, DbTypeTag::SmallInt),
        Field::Int(_) => matches!(t, DbTypeTag::Int),
        Field::BigInt(_) => matches!(t, DbTypeTag::BigInt),
        Field::Float { bits: _, lit } => matches!(t, DbTypeTag::Float) && check_float_lit(
            lit.as_slice(),
        ),
        Field::Double { bits: _, lit } => matches!(t, DbTypeTag::Double) && check_float_lit(
            lit.as_slice(),
        ),
        Field::Binary(b) => match t {
            DbTypeTag::Binary(w) => b.len() <= w as usize,
            _ => false,
        },
        Field::NChar(s) => match t {
            DbTypeTag::NChar(w) => s.as_str().unicode_len() <= w as usize,
            _ => false,
        },
        Field::Timestamp(_) => matches!(t, DbTypeTag::Timestamp),
        Field::UTinyInt(_) => matches!(t, DbTypeTag::TinyIntUnsigned),
        Field::USmallInt(_) => matches!(t, DbTypeTag::SmallIntUnsigned),
        Field::UInt(_) => matches!(t, DbTypeTag::IntUnsigned),
        Field::UBigInt(_) => matches!(t, DbTypeTag::BigIntUnsigned),
    }
}

/// Converts one fetched row into target-format values, cell by cell in
/// column order. Succeeds exactly when the row has one cell per column and
/// every cell fits its column's type; otherwise reports the arity or the
/// first mismatched column.
pub fn encode_row(schema: &TargetSchema, row: &Vec<Field>) -> (r: Result<
    Vec<TargetValue>,
    EncodeError,
>)
    ensures
        match r {
            Ok(vs) => row_matches(schema@, row.deep_view()) && vs.deep_view() == encoded_row(
                row.deep_view(),
            ),
            Err(e) => !row_matches(schema@, row.deep_view()) && match e {
                EncodeError::Arity { expected, got } => expected == schema@.len() && got
                    == row@.len() && expected != got,
                EncodeError::Mismatch { column } => {
                    &&& row@.len() == schema@.len()
                    &&& 0 <= column < row@.len()
                    &&& !field_matches_tag(row.deep_view()[column as int], schema@[column as int].tag)
                    &&& forall|k: int|
                        0 <= k < column ==> field_matches_tag(
                            #[trigger] row.deep_view()[k],
                            schema@[k].tag,
                        )
                },
                EncodeError::Io(_) => false,
            },
        },
{
    let n = schema.fields.len();
    if row.len() != n {
        return Err(EncodeError::Arity { expected: n, got: row.len() });
    }
    let mut out: Vec<TargetValue> = Vec::new();
    let mut i: usize = 0;
    while i < n
        invariant
            0 <= i <= n,
            n == schema@.len(),
            n == schema.fields@.len(),
            n == row@.len(),
            row.deep_view().len() == n as int,
            out@.len() == i as int,
            forall|k: int|
                0 <= k < i ==> field_matches_tag(#[trigger] row.deep_view()[k], schema@[k].tag),
            forall|k: int|
                0 <= k < i ==> (#[trigger] out@[k])@ == encoded_field(row.deep_view()[k]),
        decreases n - i,
    {
        proof {
            assert(schema@[i as int] == schema.fields@[i as int]@);
            assert(row.deep_view()[i as int] == row@[i as int]@);
        }
        if !field_matches(&row[i], schema.fields[i].tag) {
            return Err(EncodeError::Mismatch { column: i });
        }
        out.push(encode_field(&row[i]));
        i = i + 1;
    }
    proof {
        assert forall|k: int| 0 <= k < n implies out.deep_view()[k] == encoded_row(
            row.deep_view(),
        )[k] by {
            assert(out.deep_view()[k] == out@[k]@);
        }
        assert(out.deep_view() =~= encoded_row(row.deep_view()));
    }
    Ok(out)
}

/// Converts a whole fetched batch, row by row in order. Succeeds exactly
/// when every row fits the schema; otherwise reports the first failing
/// row's fault.
pub fn encode_batch(schema: &TargetSchema, rows: &Vec<Vec<Field>>) -> (r: Result<
    Vec<Vec<TargetValue>>,
    EncodeError,
>)
    ensures
        match r {
            Ok(vs) => rows_match(schema@, rows.deep_view()) && vs.deep_view() == encoded_rows(
                rows.deep_view(),
            ),
            Err(e) => {
                &&& !rows_match(schema@, rows.deep_view())
                &&& exists|ri: int|
                    0 <= ri < rows@.len() && !row_matches(
                        schema@,
                        #[trigger] rows.deep_view()[ri],
                    ) && (forall|k: int|
                        0 <= k < ri ==> row_matches(schema@, #[trigger] rows.deep_view()[k]))
                &&& e matches EncodeError::Arity { expected, got } ==> expected == schema@.len()
                    && expected != got
                &&& e is Io ==> false
            },
        },
{
    let n = rows.len();
    let mut out: Vec<Vec<TargetValue>> = Vec::new();
    let mut i: usize = 0;
    while i < n
        invariant
            0 <= i <= n,
            n == rows@.len(),
            rows.deep_view().len() == n as int,
            out@.len() == i as int,
            forall|k: int| 0 <= k < i ==> row_matches(schema@, #[trigger] rows.deep_view()[k]),
            forall|k: int|
                0 <= k < i ==> (#[trigger] out@[k]).deep_view() == encoded_row(
                    rows.deep_view()[k],
                ),
        decreases n - i,
    {
        proof {
            assert(rows.deep_view()[i as int] == rows@[i as int].deep_view());
        }
        match encode_row(schema, &rows[i]) {
            Ok(vs) => {
                out.push(vs);
            },
            Err(e) => {
                return Err(e);
            },
        }
        i = i + 1;
    }
    proof {
        assert forall|k: int| 0 <= k < n implies out.deep_view()[k] == encoded_rows(
            rows.deep_view(),
        )[k] by {
            assert(out.deep_view()[k] == out@[k].deep_view());
        }
        assert(out.deep_view() =~= encoded_rows(rows.deep_view()));
    }
    Ok(out)
}

} // verus!
