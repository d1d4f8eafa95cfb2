use vstd::prelude::*;
use vstd::string::StringSliceAdditionalSpecFns;

use crate::mapper::bytes_eq;
use crate::text::push_bytes;
use crate::types::{DecodeError, DecodeReason, Error, Field, FieldModel};

verus! {

/// The query that fetches one database's definition.
pub fn show_create_database_sql(name: &[u8]) -> (r: Vec<u8>)
    ensures
        r@ == "show create database ".spec_bytes() + name@,
{
    let mut out: Vec<u8> = Vec::new();
    push_bytes(&mut out, "show create database ".as_bytes());
    push_bytes(&mut out, name);
    out
}

/// The file a database definition dump is written to: the directory path,
/// the database name, and the `.db` suffix.
pub fn db_dump_file_name(dir: &[u8], name: &[u8]) -> (r: Vec<u8>)
    ensures
        r@ == dir@ + name@ + ".db".spec_bytes(),
{
    let mut out: Vec<u8> = Vec::new();
    push_bytes(&mut out, dir);
    push_bytes(&mut out, name);
    push_bytes(&mut out, ".db".as_bytes());
    assert(out@ =~= dir@ + name@ + ".db".spec_bytes());
    out
}

/// Every cell of the row is a binary payload.
pub open spec fn row_all_binary(row: Seq<FieldModel>) -> bool {
    forall|i: int| 0 <= i < row.len() ==> (#[trigger] row[i]) is Binary
}

/// The payload of the first `k` cells of one result row: binary cells
/// concatenated, skipping any equal to the database's own name.
pub open spec fn db_row_payload_upto(row: Seq<FieldModel>, name: Seq<u8>, k: int) -> Seq<u8>
    decreases k,
{
    if k <= 0 {
        Seq::empty()
    } else {
        db_row_payload_upto(row, name, k - 1) + (match row[k - 1] {
            FieldModel::Binary(b) => if b == name {
                Seq::empty()
            } else {
                b
            },
            _ => Seq::empty(),
        })
    }
}

/// The payload of the first `k` result rows.
pub open spec fn db_payload_upto(rows: Seq<Seq<FieldModel>>, name: Seq<u8>, k: int) -> Seq<u8>
    decreases k,
{
    if k <= 0 {
        Seq::empty()
    } else {
        db_payload_upto(rows, name, k - 1) + db_row_payload_upto(
            rows[k - 1],
            name,
            rows[k - 1].len() as int,
        )
    }
}

/// The bytes a database definition dump writes: all binary cells of the
/// query's result rows in order, skipping cells that repeat the database's
/// own name.
pub open spec fn db_payload(rows: Seq<Seq<FieldModel>>, name: Seq<u8>) -> Seq<u8> {
    db_payload_upto(rows, name, rows.len() as int)
}

/// Collects the definition text a `show create database` result carries.
/// A non-binary cell in the result is refused as a typed fault, never a
/// panic.
pub fn database_dump_payload(name: &[u8], rows: &Vec<Vec<Field>>) -> (r: Result<Vec<u8>, Error>)
    ensures
        match r {
            Ok(p) => {
                &&& forall|i: int|
                    0 <= i < rows@.len() ==> row_all_binary(#[trigger] rows.deep_view()[i])
                &&& p@ == db_payload(rows.deep_view(), name@)
            },
            Err(e) => e matches Error::Decode(de) && de.reason == DecodeReason::Mismatch
                && exists|ri: int|
                0 <= ri < rows@.len() && de.column < (#[trigger] rows.deep_view()[ri]).len() && !(
                rows.deep_view()[ri][de.column as int] is Binary),
        },
{
    let ghost rm = rows.deep_view();
    let mut out: Vec<u8> = Vec::new();
    let n = rows.len();
    let mut i: usize = 0;
    while i < n
        invariant
            0 <= i <= n,
            n == rows@.len(),
            rm == rows.deep_view(),
            rm.len() == n,
            forall|k: int| 0 <= k < i ==> row_all_binary(#[trigger] rm[k]),
            out@ == db_payload_upto(rm, name@, i as int),
        decreases n - i,
    {
        let row = &rows[i];
        let ghost rv = rm[i as int];
        proof {
            assert(rv == rows@[i as int].deep_view());
        }
        let w = row.len();
        let mut j: usize = 0;
        while j < w
            invariant
                0 <= j <= w,
                w == row@.len(),
                rm == rows.deep_view(),
                rm.len() == rows@.len(),
                0 <= i < rows@.len(),
                rv == rm[i as int],
                rv == row.deep_view(),
                rv.len() == w,
                forall|q: int| 0 <= q < j ==> (#[trigger] rv[q]) is Binary,
                out@ == db_payload_upto(rm, name@, i as int) + db_row_payload_upto(
                    rv,
                    name@,
                    j as int,
                ),
            decreases w - j,
        {
            proof {
                assert(rv[j as int] == row@[j as int]@);
            }
            match &row[j] {
                Field::Binary(b) => {
                    if !bytes_eq(b.as_slice(), name) {
                        push_bytes(&mut out, b.as_slice());
                    }
                },
                _ => {
                    proof {
                        assert(!(rm[i as int][j as int] is Binary));
                    }
                    return Err(
                        Error::Decode(DecodeError { column: j, reason: DecodeReason::Mismatch }),
                    );
                },
            }
            proof {
                assert(out@ =~= db_payload_upto(rm, name@, i as int) + db_row_payload_upto(
                    rv,
                    name@,
                    j + 1,
                ));
            }
            j = j + 1;
        }
        proof {
            assert(out@ =~= db_payload_upto(rm, name@, i + 1));
        }
        i = i + 1;
    }
    Ok(out)
}

/// The binary payloads of the first `k` cells of one row, in order;
/// other cells carry no listable text and are passed over.
pub open spec fn binary_cells_row_upto(row: Seq<FieldModel>, k: int) -> Seq<Seq<u8>>
    decreases k,
{
    if k <= 0 {
        Seq::empty()
    } else {
        binary_cells_row_upto(row, k - 1) + (match row[k - 1] {
            FieldModel::Binary(b) => seq![b],
            _ => Seq::empty(),
        })
    }
}

/// The binary payloads of the first `k` rows.
pub open spec fn binary_cells_upto(rows: Seq<Seq<FieldModel>>, k: int) -> Seq<Seq<u8>>
    decreases k,
{
    if k <= 0 {
        Seq::empty()
    } else {
        binary_cells_upto(rows, k - 1) + binary_cells_row_upto(
            rows[k - 1],
            rows[k - 1].len() as int,
        )
    }
}

/// Lists the binary payloads of a query's result rows in order, as the
/// listing of a database's tables reads its result.
pub fn collect_binary_cells(rows: &Vec<Vec<Field>>) -> (r: Vec<Vec<u8>>)
    ensures
        r.deep_view() == binary_cells_upto(rows.deep_view(), rows@.len() as int),
{
    let ghost rm = rows.deep_view();
    let mut out: Vec<Vec<u8>> = Vec::new();
    proof {
        assert(out.deep_view() =~= Seq::<Seq<u8>>::empty());
    }
    let n = rows.len();
    let mut i: usize = 0;
    while i < n
        invariant
            0 <= i <= n,
            n == rows@.len(),
            rm == rows.deep_view(),
            rm.len() == n,
            out.deep_view() == binary_cells_upto(rm, i as int),
        decreases n - i,
    {
        let row = &rows[i];
        let ghost rv = rm[i as int];
        proof {
            assert(rv == rows@[i as int].deep_view());
        }
        let w = row.len();
        let mut j: usize = 0;
        while j < w
            invariant
                0 <= j <= w,
                w == row@.len(),
                rm == rows.deep_view(),
                rm.len() == rows@.len(),
                0 <= i < rows@.len(),
                rv == rm[i as int],
                rv == row.deep_view(),
                rv.len() == w,
                out.deep_view() == binary_cells_upto(rm, i as int) + binary_cells_row_upto(
                    rv,
                    j as int,
                ),
            decreases w - j,
        {
            proof {
                assert(rv[j as int] == row@[j as int]@);
            }
            let ghost out0 = out.deep_view();
            match &row[j] {
                Field::Binary(b) => {
                    let cell = vstd::slice::slice_to_vec(b.as_slice());
                    proof {
                        assert(cell.deep_view() =~= cell@);
                    }
                    out.push(cell);
                    proof {
                        assert(out.deep_view() =~~= out0 + seq![cell@]);
                    }
                },
                _ => {},
            }
            proof {
                assert(out.deep_view() =~~= binary_cells_upto(rm, i as int)
                    + binary_cells_row_upto(rv, j + 1));
            }
            j = j + 1;
        }
        proof {
            assert(out.deep_view() =~~= binary_cells_upto(rm, i + 1));
        }
        i = i + 1;
    }
    out
}

} // verus!
