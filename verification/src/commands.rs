use vstd::prelude::*;

use crate::decode::{decode_row, decoded_row, lemma_first_fault_found, row_decodes, row_fault};
use crate::encode::{encode_batch, encoded_rows, rows_match};
use crate::schema::{build_schema, column_names_distinct, column_names_identifiers,
    fields_of_columns, generate_avro_schema, avro_schema_json, SchemaFieldModel, TargetSchema};
use crate::sql::{batch_statements, build_create_table, build_insert_batches, create_table_sql};
use crate::types::{ColumnDescriptor, DecodeError, DecodeReason, Error, Field, FieldModel,
    TargetValue, ValueModel};

verus! {

/// Everything one export produces before the container file is written:
/// the schema, its JSON rendering for the record container, the encoded
/// rows, and the count of data points covered.
pub struct ExportBundle {
    pub schema: TargetSchema,
    pub schema_json: Vec<u8>,
    pub records: Vec<Vec<TargetValue>>,
    pub points: u64,
}

/// Everything one import needs to run against the database: the table
/// definition, the batched bulk inserts over the rows that decoded, and
/// the recorded faults of the rows that were skipped.
pub struct ImportPlan {
    pub ddl: Vec<u8>,
    pub inserts: Vec<Vec<u8>>,
    pub skipped: Vec<DecodeError>,
}

/// The export pipeline's computation: build the schema for the described
/// columns, render its container JSON, and encode every fetched row. Fails
/// on a malformed or duplicated column name and on a cell that does not
/// fit its column; nothing is coerced silently.
pub fn dumpout(cols: &Vec<ColumnDescriptor>, rows: &Vec<Vec<Field>>) -> (r: Result<
    ExportBundle,
    Error,
>)
    requires
        rows@.len() * cols@.len() <= u64::MAX,
    ensures
        match r {
            Ok(b) => {
                &&& column_names_identifiers(cols.deep_view())
                &&& column_names_distinct(cols.deep_view())
                &&& b.schema@ == fields_of_columns(cols.deep_view())
                &&& b.schema_json@ == avro_schema_json(b.schema@)
                &&& rows_match(b.schema@, rows.deep_view())
                &&& b.records.deep_view() == encoded_rows(rows.deep_view())
                &&& b.points == rows@.len() * cols@.len()
            },
            Err(e) => match e {
                Error::SchemaMapping(_) => !(column_names_identifiers(cols.deep_view())
                    && column_names_distinct(cols.deep_view())),
                Error::Encode(_) => {
                    &&& column_names_identifiers(cols.deep_view())
                    &&& column_names_distinct(cols.deep_view())
                    &&& !rows_match(fields_of_columns(cols.deep_view()), rows.deep_view())
                },
                _ => false,
            },
        },
{
    let schema = match build_schema(cols) {
        Ok(s) => s,
        Err(e) => {
            return Err(Error::SchemaMapping(e));
        },
    };
    let schema_json = generate_avro_schema(&schema);
    let records = match encode_batch(&schema, rows) {
        Ok(v) => v,
        Err(e) => {
            return Err(Error::Encode(e));
        },
    };
    let points = (rows.len() as u64) * (cols.len() as u64);
    Ok(ExportBundle { schema, schema_json, records, points })
}

/// The rows of a stored batch that decode cleanly, decoded, keeping order:
/// the first `k` rows considered.
pub open spec fn kept_rows_upto(
    schema: Seq<SchemaFieldModel>,
    rows: Seq<Seq<ValueModel>>,
    k: int,
) -> Seq<Seq<FieldModel>>
    decreases k,
{
    if k <= 0 {
        Seq::empty()
    } else if row_decodes(schema, rows[k - 1]) {
        kept_rows_upto(schema, rows, k - 1) + seq![decoded_row(schema, rows[k - 1])]
    } else {
        kept_rows_upto(schema, rows, k - 1)
    }
}

/// The rows of a stored batch that decode cleanly, decoded, in order.
pub open spec fn kept_rows(schema: Seq<SchemaFieldModel>, rows: Seq<Seq<ValueModel>>) -> Seq<
    Seq<FieldModel>,
> {
    kept_rows_upto(schema, rows, rows.len() as int)
}

/// The faults of the rows among the first `k` that do not decode, in row
/// order: one recorded fault per skipped row.
pub open spec fn skipped_faults_upto(
    schema: Seq<SchemaFieldModel>,
    rows: Seq<Seq<ValueModel>>,
    k: int,
) -> Seq<DecodeError>
    decreases k,
{
    if k <= 0 {
        Seq::empty()
    } else if row_decodes(schema, rows[k - 1]) {
        skipped_faults_upto(schema, rows, k - 1)
    } else {
        skipped_faults_upto(schema, rows, k - 1) + seq![row_fault(schema, rows[k - 1])]
    }
}

/// Every stored row decodes cleanly.
pub open spec fn all_rows_decode(schema: Seq<SchemaFieldModel>, rows: Seq<Seq<ValueModel>>) -> bool {
    forall|i: int| 0 <= i < rows.len() ==> row_decodes(schema, #[trigger] rows[i])
}

/// The import pipeline's computation for one file: derive the table
/// definition from the embedded schema, decode the stored rows, and cut
/// the decoded rows into bulk inserts of at most `max_rows` rows each.
/// With `abort_on_error` set, the first row that does not decode aborts
/// the file; otherwise such rows are skipped and their faults recorded.
pub fn dumpin(
    schema: &TargetSchema,
    rows: Vec<Vec<TargetValue>>,
    max_rows: usize,
    abort_on_error: bool,
) -> (r: Result<ImportPlan, Error>)
    requires
        max_rows >= 1,
    ensures
        match r {
            Ok(plan) => {
                &&& plan.ddl@ == create_table_sql(schema@)
                &&& plan.inserts.deep_view() == batch_statements(
                    kept_rows(schema@, rows.deep_view()),
                    max_rows as int,
                )
                &&& (abort_on_error ==> all_rows_decode(schema@, rows.deep_view()))
                &&& (all_rows_decode(schema@, rows.deep_view()) ==> plan.skipped@.len() == 0)
                &&& plan.skipped@.len() + kept_rows(schema@, rows.deep_view()).len()
                    == rows@.len()
                &&& plan.skipped@ == skipped_faults_upto(
                    schema@,
                    rows.deep_view(),
                    rows@.len() as int,
                )
            },
            Err(e) => {
                &&& abort_on_error
                &&& e matches Error::Decode(de) && exists|ri: int|
                    0 <= ri < rows@.len() && !row_decodes(
                        schema@,
                        #[trigger] rows.deep_view()[ri],
                    ) && (forall|k: int|
                        0 <= k < ri ==> row_decodes(schema@, #[trigger] rows.deep_view()[k]))
            },
        },
{
    let ghost rm = rows.deep_view();
    let ddl = build_create_table(schema);
    let mut decoded: Vec<Vec<Field>> = Vec::new();
    let mut skipped: Vec<DecodeError> = Vec::new();
    let n = rows.len();
    let mut rest = rows;
    let mut i: usize = 0;
    while i < n
        invariant
            0 <= i <= n,
            rm == rows.deep_view(),
            rm.len() == n,
            rest.deep_view() == rm.subrange(i as int, n as int),
            rest@.len() == n - i,
            decoded.deep_view() == kept_rows_upto(schema@, rm, i as int),
            skipped@ == skipped_faults_upto(schema@, rm, i as int),
            skipped@.len() + decoded@.len() == i,
            abort_on_error ==> forall|k: int|
                0 <= k < i ==> row_decodes(schema@, #[trigger] rm[k]),
            all_rows_decode(schema@, rm) ==> skipped@.len() == 0,
        decreases n - i,
    {
        let ghost rest0 = rest@;
        proof {
            assert forall|j: int| 0 <= j < rest0.len() implies (#[trigger] rest0[j]).deep_view()
                == rm[i + j] by {
                assert(rest.deep_view()[j] == rest@[j].deep_view());
                assert(rest.deep_view()[j] == rm.subrange(i as int, n as int)[j]);
            }
        }
        let row_i = rest.remove(0);
        proof {
            assert(row_i.deep_view() == rm[i as int]);
        }
        match decode_row(schema, row_i) {
            Ok(fs) => {
                decoded.push(fs);
                proof {
                    assert(decoded.deep_view() =~~= kept_rows_upto(schema@, rm, i + 1));
                }
            },
            Err(e) => {
                proof {
                    assert(!row_decodes(schema@, rm[i as int]));
                }
                if abort_on_error {
                    return Err(Error::Decode(e));
                }
                skipped.push(e);
                proof {
                    if e.reason != DecodeReason::Arity {
                        lemma_first_fault_found(schema@, rm[i as int], e.column as int);
                    }
                    assert(e == row_fault(schema@, rm[i as int]));
                    assert(skipped@ =~= skipped_faults_upto(schema@, rm, i + 1));
                    assert(decoded.deep_view() =~~= kept_rows_upto(schema@, rm, i + 1));
                }
            },
        }
        proof {
            assert(rest@ =~= rest0.subrange(1, rest0.len() as int));
            assert forall|k: int| 0 <= k < rest@.len() implies #[trigger] rest.deep_view()[k]
                == rm.subrange(i + 1, n as int)[k] by {
                assert(rest.deep_view()[k] == rest@[k].deep_view());
                assert(rest@[k] == rest0[k + 1]);
            }
            assert(rest.deep_view() =~= rm.subrange(i + 1, n as int));
        }
        i = i + 1;
    }
    let inserts = build_insert_batches(&decoded, max_rows);
    Ok(ImportPlan { ddl, inserts, skipped })
}

} // verus!
