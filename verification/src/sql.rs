use vstd::prelude::*;
use vstd::string::StringSliceAdditionalSpecFns;
use vstd::utf8::encode_utf8;

use crate::schema::{SchemaFieldModel, TargetSchema};
use crate::text::{dec_digits, dec_int, escaped_bytes, push_bytes, push_escaped, push_i64_dec,
    push_u64_dec, unescaped_bytes};
use crate::types::{DbTypeTag, Field, FieldModel};

verus! {

/// The SQL literal of one decoded cell: numbers as bare decimals, booleans
/// as `true`/`false`, a null as `NULL`, floats as the literal their bits
/// were rendered with, and binary/text payloads quoted with their quotes,
/// backslashes and line breaks escaped.
pub open spec fn field_literal(f: FieldModel) -> Seq<u8> {
    match f {
        FieldModel::Null => "NULL".spec_bytes(),
        FieldModel::Bool(v) => if v {
            "true".spec_bytes()
        } else {
            "false".spec_bytes()
        },
        FieldModel::TinyInt(v) => dec_int(v as int),
        FieldModel::SmallInt(v) => dec_int(v as int),
        FieldModel::Int(v) => dec_int(v as int),
        FieldModel::BigInt(v) => dec_int(v as int),
        FieldModel::Float { bits, lit } => lit,
        FieldModel::Double { bits, lit } => lit,
        FieldModel::Binary(b) => seq![0x27u8] + escaped_bytes(b) + seq![0x27u8],
        FieldModel::NChar(s) => seq![0x27u8] + escaped_bytes(encode_utf8(s)) + seq![0x27u8],
        FieldModel::Timestamp(v) => dec_int(v as int),
        FieldModel::UTinyInt(v) => dec_digits(v as nat),
        FieldModel::USmallInt(v) => dec_digits(v as nat),
        FieldModel::UInt(v) => dec_digits(v as nat),
        FieldModel::UBigInt(v) => dec_digits(v as nat),
    }
}

/// Appends the SQL literal of one cell.
pub fn push_field_literal(out: &mut Vec<u8>, f: &Field)
    ensures
        final(out)@ == old(out)@ + field_literal(f@),
{
    match f {
        Field::Null => push_bytes(out, "NULL".as_bytes()),
        Field::Bool(v) => if *v {
            push_bytes(out, "true".as_bytes());
        } else {
            push_bytes(out, "false".as_bytes());
        },
        Field::TinyInt(v) => push_i64_dec(out, *v as i64),
        Field::SmallInt(v) => push_i64_dec(out, *v as i64),
        Field::Int(v) => push_i64_dec(out, *v as i64),
        Field::BigInt(v) => push_i64_dec(out, *v),
        Field::Float { bits: _, lit } => push_bytes(out, lit.as_slice()),
        Field::Double { bits: _, lit } => push_bytes(out, lit.as_slice()),
        Field::Binary(b) => {
            out.push(0x27);
            push_escaped(out, b.as_slice());
            out.push(0x27);
            assert(final(out)@ =~= old(out)@ + field_literal(f@));
        },
        Field::NChar(s) => {
            out.push(0x27);
            push_escaped(out, s.as_str().as_bytes());
            out.push(0x27);
            assert(final(out)@ =~= old(out)@ + field_literal(f@));
        },
        Field::Timestamp(v) => push_i64_dec(out, *v),
        Field::UTinyInt(v) => push_u64_dec(out, *v as u64),
        Field::USmallInt(v) => push_u64_dec(out, *v as u64),
        Field::UInt(v) => push_u64_dec(out, *v as u64),
        Field::UBigInt(v) => push_u64_dec(out, *v),
    }
}

/// The comma-joined literals of the first `k` cells of a row.
pub open spec fn row_values_upto(row: Seq<FieldModel>, k: int) -> Seq<u8>
    decreases k,
{
    if k <= 0 {
        Seq::empty()
    } else if k == 1 {
        field_literal(row[0])
    } else {
        row_values_upto(row, k - 1) + seq![0x2cu8] + field_literal(row[k - 1])
    }
}

/// One parenthesised tuple: `(` literal `,` ... `)`.
pub open spec fn row_tuple(row: Seq<FieldModel>) -> Seq<u8> {
    seq![0x28u8] + row_values_upto(row, row.len() as int) + seq![0x29u8]
}

/// Appends one parenthesised tuple of cell literals.
pub fn push_row_tuple(out: &mut Vec<u8>, row: &Vec<Field>)
    ensures
        final(out)@ == old(out)@ + row_tuple(row.deep_view()),
{
    out.push(0x28);
    let ghost opened = out@;
    let n = row.len();
    let mut i: usize = 0;
    while i < n
        invariant
            0 <= i <= n,
            n == row@.len(),
            out@ == opened + row_values_upto(row.deep_view(), i as int),
        decreases n - i,
    {
        if i > 0 {
            out.push(0x2c);
        }
        push_field_literal(out, &row[i]);
        proof {
            assert(row.deep_view()[i as int] == row@[i as int]@);
            assert(out@ =~= opened + row_values_upto(row.deep_view(), i + 1));
        }
        i = i + 1;
    }
    out.push(0x29);
    assert(out@ =~= old(out)@ + row_tuple(row.deep_view()));
}

/// The fixed head of every bulk insert; the table name is fixed.
pub open spec fn insert_prefix() -> Seq<u8> {
    "insert into m1 values".spec_bytes()
}

/// The concatenated tuples of the first `k` rows, in row order.
pub open spec fn insert_tuples_upto(rows: Seq<Seq<FieldModel>>, k: int) -> Seq<u8>
    decreases k,
{
    if k <= 0 {
        Seq::empty()
    } else {
        insert_tuples_upto(rows, k - 1) + row_tuple(rows[k - 1])
    }
}

/// One bulk insert covering the given rows: the fixed head, then exactly
/// one parenthesised tuple per row, in row order.
pub open spec fn insert_statement(rows: Seq<Seq<FieldModel>>) -> Seq<u8> {
    insert_prefix() + insert_tuples_upto(rows, rows.len() as int)
}

/// Builds the bulk insert for the rows `start..end` of a decoded batch.
pub fn build_insert_range(rows: &Vec<Vec<Field>>, start: usize, end: usize) -> (r: Vec<u8>)
    requires
        start <= end <= rows@.len(),
    ensures
        r@ == insert_statement(rows.deep_view().subrange(start as int, end as int)),
{
    let ghost chunk = rows.deep_view().subrange(start as int, end as int);
    let mut out: Vec<u8> = Vec::new();
    push_bytes(&mut out, "insert into m1 values".as_bytes());
    let ghost header = out@;
    let mut i: usize = start;
    while i < end
        invariant
            start <= i <= end,
            end <= rows@.len(),
            chunk == rows.deep_view().subrange(start as int, end as int),
            chunk.len() == end - start,
            out@ == header + insert_tuples_upto(chunk, i - start),
        decreases end - i,
    {
        push_row_tuple(&mut out, &rows[i]);
        proof {
            assert(chunk[i - start] == rows.deep_view()[i as int]);
            assert(rows.deep_view()[i as int] == rows@[i as int].deep_view());
            assert(out@ =~= header + insert_tuples_upto(chunk, i - start + 1));
        }
        i = i + 1;
    }
    assert(out@ =~= insert_statement(chunk));
    out
}

/// The decoded batch cut into chunks of at most `m` rows, in order; every
/// chunk but the last holds exactly `m` rows.
pub open spec fn chunked_rows(rows: Seq<Seq<FieldModel>>, m: int) -> Seq<Seq<Seq<FieldModel>>>
    decreases rows.len(),
{
    if m <= 0 || rows.len() == 0 {
        Seq::empty()
    } else if rows.len() <= m {
        seq![rows]
    } else {
        seq![rows.subrange(0, m)] + chunked_rows(rows.subrange(m, rows.len() as int), m)
    }
}

/// One bulk insert per chunk, in order.
pub open spec fn batch_statements(rows: Seq<Seq<FieldModel>>, m: int) -> Seq<Seq<u8>> {
    chunked_rows(rows, m).map_values(|c: Seq<Seq<FieldModel>>| insert_statement(c))
}

/// Cuts a decoded batch into bulk inserts of at most `max_rows` rows each,
/// covering every row in order, so statement size stays bounded without a
/// round trip per row.
pub fn build_insert_batches(rows: &Vec<Vec<Field>>, max_rows: usize) -> (r: Vec<Vec<u8>>)
    requires
        max_rows >= 1,
    ensures
        r.deep_view() == batch_statements(rows.deep_view(), max_rows as int),
{
    let ghost rm = rows.deep_view();
    let ghost m = max_rows as int;
    let n = rows.len();
    let mut out: Vec<Vec<u8>> = Vec::new();
    proof {
        assert(out.deep_view() =~= Seq::<Seq<u8>>::empty());
        assert(rm.subrange(0, n as int) =~= rm);
        assert(batch_statements(rm, m) =~~= out.deep_view() + batch_statements(
            rm.subrange(0, n as int),
            m,
        ));
    }
    let mut idx: usize = 0;
    while idx < n
        invariant
            0 <= idx <= n,
            max_rows >= 1,
            m == max_rows as int,
            n == rows@.len(),
            rm == rows.deep_view(),
            rm.len() == n,
            batch_statements(rm, m) == out.deep_view() + batch_statements(
                rm.subrange(idx as int, n as int),
                m,
            ),
        decreases n - idx,
    {
        let left = n - idx;
        let take = if left < max_rows {
            left
        } else {
            max_rows
        };
        let ghost rest = rm.subrange(idx as int, n as int);
        let ghost out0 = out.deep_view();
        let stmt = build_insert_range(rows, idx, idx + take);
        proof {
            assert(rest.subrange(0, take as int) =~= rm.subrange(idx as int, idx + take as int));
        }
        out.push(stmt);
        proof {
            assert(stmt.deep_view() =~= stmt@);
            assert(out.deep_view() =~~= out0 + seq![stmt@]);
            if rest.len() <= m {
                assert(rest.subrange(0, take as int) =~= rest);
                assert(chunked_rows(rest, m) == seq![rest]);
                assert(batch_statements(rest, m) =~~= seq![insert_statement(rest)]);
                assert(rm.subrange(idx + take as int, n as int).len() == 0);
                assert(batch_statements(rm.subrange(idx + take as int, n as int), m)
                    =~~= Seq::<Seq<u8>>::empty());
            } else {
                assert(chunked_rows(rest, m) =~~= seq![rest.subrange(0, m)] + chunked_rows(
                    rest.subrange(m, rest.len() as int),
                    m,
                ));
                assert(rest.subrange(m, rest.len() as int) =~= rm.subrange(
                    idx + take as int,
                    n as int,
                ));
                assert(batch_statements(rest, m) =~~= seq![insert_statement(rest.subrange(0, m))]
                    + batch_statements(rm.subrange(idx + take as int, n as int), m));
            }
            assert(out.deep_view() + batch_statements(rm.subrange(idx + take as int, n as int), m)
                =~~= batch_statements(rm, m));
        }
        idx = idx + take;
    }
    proof {
        assert(rm.subrange(n as int, n as int).len() == 0);
        assert(batch_statements(rm.subrange(n as int, n as int), m) =~~= Seq::<Seq<u8>>::empty());
        assert(out.deep_view() =~~= batch_statements(rm, m));
    }
    out
}

/// Batching loses nothing and bounds every statement: the chunks cut from
/// a decoded batch, stitched back together in order, are exactly the
/// batch, so every row lands in exactly one bulk insert and in row order;
/// and no chunk holds more than `m` rows.
pub proof fn lemma_batches_cover_rows(rows: Seq<Seq<FieldModel>>, m: int)
    requires
        m >= 1,
    ensures
        chunked_rows(rows, m).flatten() == rows,
        forall|k: int|
            0 <= k < chunked_rows(rows, m).len() ==> (#[trigger] chunked_rows(rows, m)[k]).len()
                <= m,
    decreases rows.len(),
{
    reveal_with_fuel(Seq::<Seq<FieldModel>>::flatten, 3);
    let c = chunked_rows(rows, m);
    if rows.len() == 0 {
        assert(c.flatten() =~= rows);
    } else if rows.len() <= m {
        assert(c == seq![rows]);
        assert(c.first() == rows);
        assert(c.drop_first() =~= Seq::<Seq<Seq<FieldModel>>>::empty());
        assert(c.drop_first().flatten() =~= Seq::<Seq<FieldModel>>::empty());
        assert(c.flatten() =~= rows);
    } else {
        let rest = rows.subrange(m, rows.len() as int);
        lemma_batches_cover_rows(rest, m);
        assert(c == seq![rows.subrange(0, m)] + chunked_rows(rest, m));
        assert(c.first() == rows.subrange(0, m));
        assert(c.drop_first() =~= chunked_rows(rest, m));
        assert(c.flatten() =~= rows.subrange(0, m) + rest);
        assert(rows.subrange(0, m) + rest =~= rows);
        assert forall|k: int| 0 <= k < c.len() implies (#[trigger] c[k]).len() <= m by {
            if k > 0 {
                assert(c[k] == chunked_rows(rest, m)[k - 1]);
            }
        }
    }
}

/// The SQL name of one database column type, widths written out.
pub open spec fn sql_type_name(t: DbTypeTag) -> Seq<u8> {
    match t {
        DbTypeTag::TinyInt => "tinyint".spec_bytes(),
        DbTypeTag::TinyIntUnsigned => "tinyint unsigned".spec_bytes(),
        DbTypeTag::SmallInt => "smallint".spec_bytes(),
        DbTypeTag::SmallIntUnsigned => "smallint unsigned".spec_bytes(),
        DbTypeTag::Int => "int".spec_bytes(),
        DbTypeTag::IntUnsigned => "int unsigned".spec_bytes(),
        DbTypeTag::BigInt => "bigint".spec_bytes(),
        DbTypeTag::BigIntUnsigned => "bigint unsigned".spec_bytes(),
        DbTypeTag::Float => "float".spec_bytes(),
        DbTypeTag::Double => "double".spec_bytes(),
        DbTypeTag::Bool => "bool".spec_bytes(),
        DbTypeTag::Binary(w) => "binary(".spec_bytes() + dec_digits(w as nat) + ")".spec_bytes(),
        DbTypeTag::NChar(w) => "nchar(".spec_bytes() + dec_digits(w as nat) + ")".spec_bytes(),
        DbTypeTag::Timestamp => "timestamp".spec_bytes(),
    }
}

/// Appends the SQL name of one column type.
pub fn push_sql_type_name(out: &mut Vec<u8>, t: DbTypeTag)
    ensures
        final(out)@ == old(out)@ + sql_type_name(t),
{
    match t {
        DbTypeTag::TinyInt => push_bytes(out, "tinyint".as_bytes()),
        DbTypeTag::TinyIntUnsigned => push_bytes(out, "tinyint unsigned".as_bytes()),
        DbTypeTag::SmallInt => push_bytes(out, "smallint".as_bytes()),
        DbTypeTag::SmallIntUnsigned => push_bytes(out, "smallint unsigned".as_bytes()),
        DbTypeTag::Int => push_bytes(out, "int".as_bytes()),
        DbTypeTag::IntUnsigned => push_bytes(out, "int unsigned".as_bytes()),
        DbTypeTag::BigInt => push_bytes(out, "bigint".as_bytes()),
        DbTypeTag::BigIntUnsigned => push_bytes(out, "bigint unsigned".as_bytes()),
        DbTypeTag::Float => push_bytes(out, "float".as_bytes()),
        DbTypeTag::Double => push_bytes(out, "double".as_bytes()),
        DbTypeTag::Bool => push_bytes(out, "bool".as_bytes()),
        DbTypeTag::Binary(w) => {
            push_bytes(out, "binary(".as_bytes());
            push_u64_dec(out, w as u64);
            push_bytes(out, ")".as_bytes());
            assert(final(out)@ =~= old(out)@ + sql_type_name(t));
        },
        DbTypeTag::NChar(w) => {
            push_bytes(out, "nchar(".as_bytes());
            push_u64_dec(out, w as u64);
            push_bytes(out, ")".as_bytes());
            assert(final(out)@ =~= old(out)@ + sql_type_name(t));
        },
        DbTypeTag::Timestamp => push_bytes(out, "timestamp".as_bytes()),
    }
}

/// The comma-joined column clauses of the first `k` schema entries:
/// `name type`.
pub open spec fn ddl_columns_upto(fs: Seq<SchemaFieldModel>, k: int) -> Seq<u8>
    decreases k,
{
    if k <= 0 {
        Seq::empty()
    } else if k == 1 {
        fs[0].name + " ".spec_bytes() + sql_type_name(fs[0].tag)
    } else {
        ddl_columns_upto(fs, k - 1) + ",".spec_bytes() + fs[k - 1].name + " ".spec_bytes()
            + sql_type_name(fs[k - 1].tag)
    }
}

/// The table definition derived from an embedded schema by inverting the
/// type mapper per field; the table name is fixed.
pub open spec fn create_table_sql(fs: Seq<SchemaFieldModel>) -> Seq<u8> {
    "create table m1 (".spec_bytes() + ddl_columns_upto(fs, fs.len() as int) + ")".spec_bytes()
}

/// Renders the `create table` statement an embedded schema stands for:
/// one `name type` clause per field, in field order, widths written out.
pub fn build_create_table(schema: &TargetSchema) -> (r: Vec<u8>)
    ensures
        r@ == create_table_sql(schema@),
{
    let mut out: Vec<u8> = Vec::new();
    push_bytes(&mut out, "create table m1 (".as_bytes());
    let ghost header = out@;
    let n = schema.fields.len();
    let mut i: usize = 0;
    while i < n
        invariant
            0 <= i <= n,
            n == schema.fields@.len(),
            n == schema@.len(),
            out@ == header + ddl_columns_upto(schema@, i as int),
        decreases n - i,
    {
        if i > 0 {
            push_bytes(&mut out, ",".as_bytes());
        }
        push_bytes(&mut out, schema.fields[i].name.as_slice());
        push_bytes(&mut out, " ".as_bytes());
        push_sql_type_name(&mut out, schema.fields[i].tag);
        proof {
            assert(schema@[i as int] == schema.fields@[i as int]@);
            assert(out@ =~= header + ddl_columns_upto(schema@, i + 1));
        }
        i = i + 1;
    }
    push_bytes(&mut out, ")".as_bytes());
    assert(out@ =~= create_table_sql(schema@));
    out
}

/// The tuples of all rows, concatenated front first.
pub open spec fn concat_tuples(rows: Seq<Seq<FieldModel>>) -> Seq<u8>
    decreases rows.len(),
{
    if rows.len() == 0 {
        Seq::empty()
    } else {
        row_tuple(rows[0]) + concat_tuples(rows.drop_first())
    }
}

proof fn lemma_tuples_upto_is_concat(rows: Seq<Seq<FieldModel>>, k: int)
    requires
        0 <= k <= rows.len(),
    ensures
        insert_tuples_upto(rows, k) == concat_tuples(rows.subrange(0, k)),
    decreases k,
{
    if k <= 0 {
        assert(rows.subrange(0, 0).len() == 0);
    } else {
        lemma_tuples_upto_is_concat(rows, k - 1);
        lemma_concat_tuples_snoc(rows.subrange(0, k - 1), rows[k - 1]);
        assert(rows.subrange(0, k - 1).push(rows[k - 1]) =~= rows.subrange(0, k));
    }
}

proof fn lemma_concat_tuples_snoc(rows: Seq<Seq<FieldModel>>, row: Seq<FieldModel>)
    ensures
        concat_tuples(rows.push(row)) == concat_tuples(rows) + row_tuple(row),
    decreases rows.len(),
{
    if rows.len() == 0 {
        reveal_with_fuel(concat_tuples, 3);
        assert(rows.push(row)[0] == row);
        assert(rows.push(row).drop_first() =~= Seq::<Seq<FieldModel>>::empty());
        assert(concat_tuples(rows.push(row)) =~= concat_tuples(rows) + row_tuple(row));
    } else {
        assert(rows.push(row).drop_first() =~= rows.drop_first().push(row));
        lemma_concat_tuples_snoc(rows.drop_first(), row);
        assert(rows.push(row)[0] == rows[0]);
        assert(concat_tuples(rows.push(row)) =~= concat_tuples(rows) + row_tuple(row));
    }
}

/// A bulk insert is well formed: it is the fixed head followed by the
/// tuples of its rows, one per row in row order, and every tuple opens
/// with `(` and closes with `)`.
pub proof fn lemma_insert_statement_shape(rows: Seq<Seq<FieldModel>>)
    ensures
        insert_statement(rows) == insert_prefix() + concat_tuples(rows),
        forall|k: int|
            0 <= k < rows.len() ==> (#[trigger] row_tuple(rows[k]))[0] == 0x28u8 && row_tuple(
                rows[k],
            ).last() == 0x29u8,
{
    lemma_tuples_upto_is_concat(rows, rows.len() as int);
    assert(rows.subrange(0, rows.len() as int) =~= rows);
}

/// A quoted cell is closed and loses nothing: the literal of a binary or
/// text cell opens and closes with a quote, and reading the escaped
/// interior back yields exactly the stored payload, so no embedded quote
/// can close the literal early.
pub proof fn lemma_text_literal_quoted(f: FieldModel)
    requires
        f is Binary || f is NChar,
    ensures
        field_literal(f)[0] == 0x27u8,
        field_literal(f).last() == 0x27u8,
        f matches FieldModel::Binary(b) ==> unescaped_bytes(
            field_literal(f).subrange(1, field_literal(f).len() - 1),
        ) == Some(b),
        f matches FieldModel::NChar(s) ==> unescaped_bytes(
            field_literal(f).subrange(1, field_literal(f).len() - 1),
        ) == Some(encode_utf8(s)),
{
    match f {
        FieldModel::Binary(b) => {
            let lit = field_literal(f);
            assert(lit.subrange(1, lit.len() - 1) =~= escaped_bytes(b));
            crate::text::lemma_escape_roundtrip(b);
        },
        FieldModel::NChar(s) => {
            let lit = field_literal(f);
            assert(lit.subrange(1, lit.len() - 1) =~= escaped_bytes(encode_utf8(s)));
            crate::text::lemma_escape_roundtrip(encode_utf8(s));
        },
        _ => {},
    }
}

} // verus!
