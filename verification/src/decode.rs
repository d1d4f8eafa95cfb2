use vstd::prelude::*;
use vstd::string::StrSliceExecFns;

use crate::encode::{encoded_field, encoded_row, field_matches_tag, row_matches};
use crate::schema::{SchemaFieldModel, TargetSchema};
use crate::text::check_float_lit;
use crate::types::{is_float_lit, DbTypeTag, DecodeError, DecodeReason, Field, FieldModel,
    TargetValue, ValueModel};

verus! {

/// Reads one stored value back as a cell of the given database column type,
/// narrowing the widened integer slots and checking declared widths. A null
/// slot decodes to a null cell for every column type; a value of the wrong
/// variant is a mismatch; an integer outside the column's width, an
/// overlong payload or a malformed float literal is out of range.
pub open spec fn decoded_value(t: DbTypeTag, v: ValueModel) -> Result<FieldModel, DecodeReason> {
    match v {
        ValueModel::Null => Ok(FieldModel::Null),
        ValueModel::Boolean(b) => if t == DbTypeTag::Bool {
            Ok(FieldModel::Bool(b))
        } else {
            Err(DecodeReason::Mismatch)
        },
        ValueModel::Int(x) => match t {
            DbTypeTag::TinyInt => if -128 <= x <= 127 {
                Ok(FieldModel::TinyInt(x as i8))
            } else {
                Err(DecodeReason::OutOfRange)
            },
            DbTypeTag::TinyIntUnsigned => if 0 <= x <= 255 {
                Ok(FieldModel::UTinyInt(x as u8))
            } else {
                Err(DecodeReason::OutOfRange)
            },
            DbTypeTag::SmallInt => if -32768 <= x <= 32767 {
                Ok(FieldModel::SmallInt(x as i16))
            } else {
                Err(DecodeReason::OutOfRange)
            },
            DbTypeTag::SmallIntUnsigned => if 0 <= x <= 65535 {
                Ok(FieldModel::USmallInt(x as u16))
            } else {
                Err(DecodeReason::OutOfRange)
            },
            DbTypeTag::Int => Ok(FieldModel::Int(x)),
            _ => Err(DecodeReason::Mismatch),
        },
        ValueModel::Long(x) => match t {
            DbTypeTag::IntUnsigned => if 0 <= x <= 0xffff_ffff {
                Ok(FieldModel::UInt(x as u32))
            } else {
                Err(DecodeReason::OutOfRange)
            },
            DbTypeTag::BigInt => Ok(FieldModel::BigInt(x)),
            DbTypeTag::BigIntUnsigned => Ok(FieldModel::UBigInt(x as u64)),
            _ => Err(DecodeReason::Mismatch),
        },
        ValueModel::Timestamp(x) => if t == DbTypeTag::Timestamp {
            Ok(FieldModel::Timestamp(x))
        } else {
            Err(DecodeReason::Mismatch)
        },
        ValueModel::Float { bits, lit } => if t == DbTypeTag::Float {
            if is_float_lit(lit) {
                Ok(FieldModel::Float { bits, lit })
            } else {
                Err(DecodeReason::OutOfRange)
            }
        } else {
            Err(DecodeReason::Mismatch)
        },
        ValueModel::Double { bits, lit } => if t == DbTypeTag::Double {
            if is_float_lit(lit) {
                Ok(FieldModel::Double { bits, lit })
            } else {
                Err(DecodeReason::OutOfRange)
            }
        } else {
            Err(DecodeReason::Mismatch)
        },
        ValueModel::Bytes(b) => match t {
            DbTypeTag::Binary(w) => if b.len() <= w {
                Ok(FieldModel::Binary(b))
            } else {
                Err(DecodeReason::OutOfRange)
            },
            _ => Err(DecodeReason::Mismatch),
        },
        ValueModel::Str(s) => match t {
            DbTypeTag::NChar(w) => if s.len() <= w {
                Ok(FieldModel::NChar(s))
            } else {
                Err(DecodeReason::OutOfRange)
            },
            _ => Err(DecodeReason::Mismatch),
        },
    }
}

/// Reads one stored value back as a cell of column `column`.
pub fn decode_value(t: DbTypeTag, v: TargetValue, column: usize) -> (r: Result<Field, DecodeError>)
    ensures
        match r {
            Ok(f) => decoded_value(t, v@) == Ok::<FieldModel, DecodeReason>(f@),
            Err(e) => e.column == column && e.reason != DecodeReason::Arity && decoded_value(
                t,
                v@,
            ) == Err::<FieldModel, DecodeReason>(e.reason),
        },
{
    match v {
        TargetValue::Null => Ok(Field::Null),
        TargetValue::Boolean(b) => if matches!(t, DbTypeTag::Bool) {
            Ok(Field::Bool(b))
        } else {
            Err(DecodeError { column, reason: DecodeReason::Mismatch })
        },
        TargetValue::Int(x) => match t {
            DbTypeTag::TinyInt => if -128 <= x && x <= 127 {
                Ok(Field::TinyInt(x as i8))
            } else {
                Err(DecodeError { column, reason: DecodeReason::OutOfRange })
            },
            DbTypeTag::TinyIntUnsigned => if 0 <= x && x <= 255 {
                Ok(Field::UTinyInt(x as u8))
            } else {
                Err(DecodeError { column, reason: DecodeReason::OutOfRange })
            },
            DbTypeTag::SmallInt => if -32768 <= x && x <= 32767 {
                Ok(Field::SmallInt(x as i16))
            } else {
                Err(DecodeError { column, reason: DecodeReason::OutOfRange })
            },
            DbTypeTag::SmallIntUnsigned => if 0 <= x && x <= 65535 {
                Ok(Field::USmallInt(x as u16))
            } else {
                Err(DecodeError { column, reason: DecodeReason::OutOfRange })
            },
            DbTypeTag::Int => Ok(Field::Int(x)),
            _ => Err(DecodeError { column, reason: DecodeReason::Mismatch }),
        },
        TargetValue::Long(x) => match t {
            DbTypeTag::IntUnsigned => if 0 <= x && x <= 0xffff_ffff {
                Ok(Field::UInt(x as u32))
            } else {
                Err(DecodeError { column, reason: DecodeReason::OutOfRange })
            },
            DbTypeTag::BigInt => Ok(Field::BigInt(x)),
            DbTypeTag::BigIntUnsigned => Ok(Field::UBigInt(x as u64)),
            _ => Err(DecodeError { column, reason: DecodeReason::Mismatch }),
        },
        TargetValue::Timestamp(x) => if matches!(t, DbTypeTag::Timestamp) {
            Ok(Field::Timestamp(x))
        } else {
            Err(DecodeError { column, reason: DecodeReason::Mismatch })
        },
        TargetValue::Float { bits, lit } => if matches!(t, DbTypeTag::Float) {
            if check_float_lit(lit.as_slice()) {
                Ok(Field::Float { bits, lit })
            } else {
                Err(DecodeError { column, reason: DecodeReason::OutOfRange })
            }
        } else {
            Err(DecodeError { column, reason: DecodeReason::Mismatch })
        },
        TargetValue::Double { bits, lit } => if matches!(t, DbTypeTag::Double) {
            if check_float_lit(lit.as_slice()) {
                Ok(Field::Double { bits, lit })
            } else {
                Err(DecodeError { column, reason: DecodeReason::OutOfRange })
            }
        } else {
            Err(DecodeError { column, reason: DecodeReason::Mismatch })
        },
        TargetValue::Bytes(b) => match t {
            DbTypeTag::Binary(w) => if b.len() <= w as usize {
                Ok(Field::Binary(b))
            } else {
                Err(DecodeError { column, reason: DecodeReason::OutOfRange })
            },
            _ => Err(DecodeError { column, reason: DecodeReason::Mismatch }),
        },
        TargetValue::Str(s) => match t {
            DbTypeTag::NChar(w) => if s.as_str().unicode_len() <= w as usize {
                Ok(Field::NChar(s))
            } else {
                Err(DecodeError { column, reason: DecodeReason::OutOfRange })
            },
            _ => Err(DecodeError { column, reason: DecodeReason::Mismatch }),
        },
    }
}

/// A stored row decodes cleanly: one value per column, each decodable.
pub open spec fn row_decodes(schema: Seq<SchemaFieldModel>, row: Seq<ValueModel>) -> bool {
    &&& row.len() == schema.len()
    &&& forall|i: int| 0 <= i < row.len() ==> decoded_value(schema[i].tag, #[trigger] row[i]) is Ok
}

/// The decoded cells of a cleanly decoding row.
pub open spec fn decoded_row(schema: Seq<SchemaFieldModel>, row: Seq<ValueModel>) -> Seq<
    FieldModel,
> {
    Seq::new(row.len(), |i: int| decoded_value(schema[i].tag, row[i]) ->Ok_0)
}

/// Reads one stored row back as database cells, value by value in column
/// order. Succeeds exactly when the row has one value per column and each
/// decodes for its column's type; otherwise names the arity fault or the
/// first failing column.
pub fn decode_row(schema: &TargetSchema, row: Vec<TargetValue>) -> (r: Result<
    Vec<Field>,
    DecodeError,
>)
    ensures
        match r {
            Ok(fs) => row_decodes(schema@, row.deep_view()) && fs.deep_view() == decoded_row(
                schema@,
                row.deep_view(),
            ),
            Err(e) => !row_decodes(schema@, row.deep_view()) && match e.reason {
                DecodeReason::Arity => e.column == 0 && row@.len() != schema@.len(),
                _ => {
                    &&& row@.len() == schema@.len()
                    &&& 0 <= e.column < row@.len()
                    &&& decoded_value(schema@[e.column as int].tag, row.deep_view()[e.column as int])
                        == Err::<FieldModel, DecodeReason>(e.reason)
                    &&& forall|k: int|
                        0 <= k < e.column ==> decoded_value(
                            schema@[k].tag,
                            #[trigger] row.deep_view()[k],
                        ) is Ok
                },
            },
        },
{
    let n = schema.fields.len();
    if row.len() != n {
        return Err(DecodeError { column: 0, reason: DecodeReason::Arity });
    }
    let ghost rm = row.deep_view();
    let mut out: Vec<Field> = Vec::new();
    let mut rest = row;
    let mut i: usize = 0;
    while i < n
        invariant
            0 <= i <= n,
            n == schema@.len(),
            n == schema.fields@.len(),
            rm == row.deep_view(),
            row@.len() == n,
            rm.len() == n as int,
            rest.deep_view() == rm.subrange(i as int, n as int),
            rest@.len() == n - i,
            out@.len() == i as int,
            forall|k: int|
                0 <= k < i ==> decoded_value(schema@[k].tag, #[trigger] rm[k]) is Ok,
            forall|k: int|
                0 <= k < i ==> (#[trigger] out@[k])@ == decoded_value(schema@[k].tag, rm[k])
                    ->Ok_0,
        decreases n - i,
    {
        let ghost rest0 = rest@;
        proof {
            assert(schema@[i as int] == schema.fields@[i as int]@);
            assert forall|j: int| 0 <= j < rest0.len() implies (#[trigger] rest0[j])@ == rm[
                i + j
            ] by {
                assert(rest.deep_view()[j] == rest@[j]@);
                assert(rest.deep_view()[j] == rm.subrange(i as int, n as int)[j]);
            }
        }
        let v = rest.remove(0);
        proof {
            assert(v@ == rm[i as int]);
        }
        match decode_value(schema.fields[i].tag, v, i) {
            Ok(f) => {
                out.push(f);
            },
            Err(e) => {
                proof {
                    assert(decoded_value(schema@[i as int].tag, rm[i as int]) == Err::<
                        FieldModel,
                        DecodeReason,
                    >(e.reason));
                    assert(!row_decodes(schema@, rm));
                }
                return Err(e);
            },
        }
        proof {
            assert(rest@ =~= rest0.subrange(1, rest0.len() as int));
            assert forall|k: int| 0 <= k < rest@.len() implies #[trigger] rest.deep_view()[k]
                == rm.subrange(i + 1, n as int)[k] by {
                assert(rest.deep_view()[k] == rest@[k]@);
                assert(rest@[k] == rest0[k + 1]);
            }
            assert(rest.deep_view() =~= rm.subrange(i + 1, n as int));
        }
        i = i + 1;
    }
    proof {
        assert forall|k: int| 0 <= k < n implies out.deep_view()[k] == decoded_row(schema@, rm)[k]
        by {
            assert(out.deep_view()[k] == out@[k]@);
        }
        assert(out.deep_view() =~= decoded_row(schema@, rm));
    }
    Ok(out)
}


/// The first column of a stored row, from `j` on, whose value does not
/// decode for its column's type; the row's length where every one does.
pub open spec fn first_fault_col(schema: Seq<SchemaFieldModel>, row: Seq<ValueModel>, j: int) -> int
    decreases row.len() - j,
{
    if j < 0 || j >= row.len() {
        row.len() as int
    } else if decoded_value(schema[j].tag, row[j]) is Err {
        j
    } else {
        first_fault_col(schema, row, j + 1)
    }
}

proof fn lemma_first_fault_from(
    schema: Seq<SchemaFieldModel>,
    row: Seq<ValueModel>,
    c: int,
    j: int,
)
    requires
        0 <= j <= c < row.len(),
        decoded_value(schema[c].tag, row[c]) is Err,
        forall|k: int| j <= k < c ==> decoded_value(schema[k].tag, #[trigger] row[k]) is Ok,
    ensures
        first_fault_col(schema, row, j) == c,
    decreases c - j,
{
    if j < c {
        lemma_first_fault_from(schema, row, c, j + 1);
    }
}

/// A column that fails while every earlier one decodes is the first
/// failing column.
pub proof fn lemma_first_fault_found(schema: Seq<SchemaFieldModel>, row: Seq<ValueModel>, c: int)
    requires
        0 <= c < row.len(),
        decoded_value(schema[c].tag, row[c]) is Err,
        forall|k: int| 0 <= k < c ==> decoded_value(schema[k].tag, #[trigger] row[k]) is Ok,
    ensures
        first_fault_col(schema, row, 0) == c,
{
    lemma_first_fault_from(schema, row, c, 0);
}

/// The fault recorded for a stored row that does not decode: the arity
/// fault where the row's length is wrong, else the first failing column
/// with the reason its value failed for.
pub open spec fn row_fault(schema: Seq<SchemaFieldModel>, row: Seq<ValueModel>) -> DecodeError {
    if row.len() != schema.len() {
        DecodeError { column: 0, reason: DecodeReason::Arity }
    } else {
        let c = first_fault_col(schema, row, 0);
        DecodeError {
            column: c as usize,
            reason: decoded_value(schema[c].tag, row[c])->Err_0,
        }
    }
}

/// Round trip of one cell: a cell that fits its column's type comes back
/// unchanged when its encoded value is decoded for the same column type.
pub proof fn lemma_value_roundtrip(f: FieldModel, t: DbTypeTag)
    requires
        field_matches_tag(f, t),
    ensures
        decoded_value(t, encoded_field(f)) == Ok::<FieldModel, DecodeReason>(f),
{
    match f {
        FieldModel::UBigInt(v) => {
            assert(v as i64 as u64 == v) by (bit_vector);
        },
        _ => {},
    }
}

/// Round trip of one row: a row that fits the schema comes back cell for
/// cell when its encoded values are decoded against the same schema.
pub proof fn lemma_row_roundtrip(schema: Seq<SchemaFieldModel>, row: Seq<FieldModel>)
    requires
        row_matches(schema, row),
    ensures
        row_decodes(schema, encoded_row(row)),
        decoded_row(schema, encoded_row(row)) == row,
{
    let enc = encoded_row(row);
    assert forall|i: int| 0 <= i < enc.len() implies decoded_value(
        schema[i].tag,
        #[trigger] enc[i],
    ) == Ok::<FieldModel, DecodeReason>(row[i]) by {
        assert(enc[i] == encoded_field(row[i]));
        lemma_value_roundtrip(row[i], schema[i].tag);
    }
    assert(decoded_row(schema, enc) =~= row);
}

} // verus!
