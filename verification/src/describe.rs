use vstd::prelude::*;
use vstd::utf8::encode_utf8;

use crate::mapper::{parse_db_type, tag_of_type_name};
use crate::types::{ColumnDescriptor, DecodeError, DecodeReason, Error, Field, FieldModel};

verus! {

/// The text a describe-result cell carries: its bytes for a binary cell,
/// its UTF-8 bytes for a text cell, nothing for any other cell.
pub open spec fn described_text(f: FieldModel) -> Option<Seq<u8>> {
    match f {
        FieldModel::Binary(b) => Some(b),
        FieldModel::NChar(s) => Some(encode_utf8(s)),
        _ => None,
    }
}

/// The width a describe-result length cell carries: a nonnegative integer
/// cell gives its value, a negative one is clamped to zero, and a row
/// without a usable length cell declares no width.
pub open spec fn described_width(row: Seq<FieldModel>) -> u32 {
    if row.len() < 3 {
        0
    } else {
        match row[2] {
            FieldModel::Int(v) => if v < 0 {
                0u32
            } else {
                v as u32
            },
            _ => 0u32,
        }
    }
}

/// One describe-result row names a column: its first cell the name, its
/// second the type name, its third the declared width.
pub open spec fn row_describes_column(row: Seq<FieldModel>, ordinal: int, c: ColumnDescriptor)
    -> bool {
    &&& row.len() >= 2
    &&& described_text(row[0]) == Some(c.name@)
    &&& (described_text(row[1]) matches Some(t) && tag_of_type_name(t, described_width(row))
        == Some(c.db_type))
    &&& c.ordinal == ordinal as u32
}

/// Reads the describe query's result into the ordered column list: one
/// column per result row, in result order, the declared width attached to
/// binary and text types. A row without name or type text is refused as a
/// typed fault, and an out-of-table type name as `UnsupportedType`; the
/// process never aborts.
pub fn columns_from_describe(rows: &Vec<Vec<Field>>) -> (r: Result<Vec<ColumnDescriptor>, Error>)
    requires
        rows@.len() <= u32::MAX,
    ensures
        match r {
            Ok(cols) => {
                &&& cols@.len() == rows@.len()
                &&& forall|i: int|
                    0 <= i < rows@.len() ==> row_describes_column(
                        #[trigger] rows.deep_view()[i],
                        i,
                        cols@[i],
                    )
            },
            Err(e) => match e {
                Error::Decode(de) => {
                    &&& de.reason == DecodeReason::Mismatch
                    &&& de.column < 2
                    &&& exists|i: int|
                        0 <= i < rows@.len() && ((#[trigger] rows.deep_view()[i]).len()
                            <= de.column || described_text(
                            rows.deep_view()[i][de.column as int],
                        ) is None)
                },
                Error::SchemaMapping(se) => {
                    &&& se is UnsupportedType
                    &&& exists|i: int|
                        0 <= i < rows@.len() && (#[trigger] rows.deep_view()[i]).len() >= 2 && (
                        described_text(rows.deep_view()[i][1]) matches Some(t)
                            && tag_of_type_name(t, described_width(rows.deep_view()[i])) is None)
                },
                _ => false,
            },
        },
{
    let ghost rm = rows.deep_view();
    let n = rows.len();
    let mut cols: Vec<ColumnDescriptor> = Vec::new();
    let mut i: usize = 0;
    while i < n
        invariant
            0 <= i <= n,
            n == rows@.len(),
            n <= u32::MAX,
            rm == rows.deep_view(),
            rm.len() == n,
            cols@.len() == i,
            forall|k: int|
                0 <= k < i ==> row_describes_column(#[trigger] rm[k], k, cols@[k]),
        decreases n - i,
    {
        let row = &rows[i];
        let ghost rv = rm[i as int];
        proof {
            assert(rv == rows@[i as int].deep_view());
        }
        if row.len() < 2 {
            let column: usize = if row.len() == 0 {
                0
            } else {
                1
            };
            proof {
                assert(rows.deep_view()[i as int] == rv);
                assert(rows.deep_view()[i as int].len() <= column);
            }
            return Err(Error::Decode(DecodeError { column, reason: DecodeReason::Mismatch }));
        }
        proof {
            assert(rv[0] == row@[0]@);
            assert(rv[1] == row@[1]@);
        }
        let name: Vec<u8> = match &row[0] {
            Field::Binary(b) => vstd::slice::slice_to_vec(b.as_slice()),
            Field::NChar(s) => vstd::slice::slice_to_vec(s.as_str().as_bytes()),
            _ => {
                proof {
                    assert(rows.deep_view()[i as int] == rv);
                    assert(described_text(rows.deep_view()[i as int][0]) is None);
                }
                return Err(
                    Error::Decode(DecodeError { column: 0, reason: DecodeReason::Mismatch }),
                );
            },
        };
        let kind_text: Vec<u8> = match &row[1] {
            Field::Binary(b) => vstd::slice::slice_to_vec(b.as_slice()),
            Field::NChar(s) => vstd::slice::slice_to_vec(s.as_str().as_bytes()),
            _ => {
                proof {
                    assert(rows.deep_view()[i as int] == rv);
                    assert(described_text(rows.deep_view()[i as int][1]) is None);
                }
                return Err(
                    Error::Decode(DecodeError { column: 1, reason: DecodeReason::Mismatch }),
                );
            },
        };
        let width: u32 = if row.len() >= 3 {
            match &row[2] {
                Field::Int(v) => if *v < 0 {
                    0
                } else {
                    *v as u32
                },
                _ => 0,
            }
        } else {
            0
        };
        proof {
            assert(width == described_width(rv));
        }
        let tag = match parse_db_type(kind_text.as_slice(), width) {
            Ok(t) => t,
            Err(se) => {
                return Err(Error::SchemaMapping(se));
            },
        };
        cols.push(ColumnDescriptor { name, db_type: tag, ordinal: i as u32 });
        proof {
            assert(row_describes_column(rv, i as int, cols@[i as int]));
        }
        i = i + 1;
    }
    Ok(cols)
}

} // verus!
