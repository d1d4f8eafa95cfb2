use vstd::prelude::*;
use vstd::string::StringSliceAdditionalSpecFns;

use crate::mapper::{bytes_eq, declared_width, declared_width_of, describe_name_of,
    lemma_annotation_roundtrip, map_db_type, push_describe_name, tag_of_type_name,
    target_type_of};
use crate::text::{dec_digits, push_bytes, push_u64_dec};
use crate::types::{is_identifier, ColumnDescriptor, ColumnModel, DbTypeTag, SchemaMappingError,
    TargetType};

verus! {

/// One entry of the target-format schema: the column's name, its database
/// type (kept so the schema can be inverted back into a column list), and
/// the target type the mapper chose for it.
#[derive(Clone, Debug, PartialEq, Eq)]
pub struct SchemaField {
    pub name: Vec<u8>,
    pub tag: DbTypeTag,
    pub target: TargetType,
}

/// The mathematical value of a [`SchemaField`].
pub struct SchemaFieldModel {
    pub name: Seq<u8>,
    pub tag: DbTypeTag,
    pub target: TargetType,
}

impl View for SchemaField {
    type V = SchemaFieldModel;

    open spec fn view(&self) -> SchemaFieldModel {
        SchemaFieldModel { name: self.name@, tag: self.tag, target: self.target }
    }
}

impl DeepView for SchemaField {
    type V = SchemaFieldModel;

    open spec fn deep_view(&self) -> SchemaFieldModel {
        self.view()
    }
}

/// The target file format's schema: one entry per column, in column order.
/// One of these is embedded per file.
#[derive(Clone, Debug, PartialEq, Eq)]
pub struct TargetSchema {
    pub fields: Vec<SchemaField>,
}

impl View for TargetSchema {
    type V = Seq<SchemaFieldModel>;

    open spec fn view(&self) -> Seq<SchemaFieldModel> {
        self.fields.deep_view()
    }
}

/// The schema entry built for one column.
pub open spec fn built_field(c: ColumnModel) -> SchemaFieldModel {
    SchemaFieldModel { name: c.name, tag: c.db_type, target: target_type_of(c.db_type) }
}

/// The schema entries built for a column list, in order.
pub open spec fn fields_of_columns(cols: Seq<ColumnModel>) -> Seq<SchemaFieldModel> {
    Seq::new(cols.len(), |i: int| built_field(cols[i]))
}

/// The column list a schema describes: same names and database types, with
/// ordinals numbered by position.
pub open spec fn columns_of_fields(fs: Seq<SchemaFieldModel>) -> Seq<ColumnModel> {
    Seq::new(
        fs.len(),
        |i: int| ColumnModel { name: fs[i].name, db_type: fs[i].tag, ordinal: i as u32 },
    )
}

/// No two columns share a name.
pub open spec fn column_names_distinct(cols: Seq<ColumnModel>) -> bool {
    forall|i: int, j: int|
        0 <= i < j < cols.len() ==> (#[trigger] cols[i].name) != (#[trigger] cols[j].name)
}

/// Every column name is a plain identifier.
pub open spec fn column_names_identifiers(cols: Seq<ColumnModel>) -> bool {
    forall|i: int| 0 <= i < cols.len() ==> is_identifier(#[trigger] cols[i].name)
}

/// A column list a schema can be built from: identifier names, no
/// duplicates, ordinals numbered by position.
pub open spec fn wf_columns(cols: Seq<ColumnModel>) -> bool {
    &&& column_names_identifiers(cols)
    &&& column_names_distinct(cols)
    &&& forall|i: int| 0 <= i < cols.len() ==> (#[trigger] cols[i].ordinal) == i as u32
}

/// A well-formed schema: identifier names, distinct names, and every
/// entry's target type is the one the mapper assigns to its database type.
pub open spec fn wf_schema(fs: Seq<SchemaFieldModel>) -> bool {
    &&& forall|i: int| 0 <= i < fs.len() ==> is_identifier(#[trigger] fs[i].name)
    &&& forall|i: int, j: int|
        0 <= i < j < fs.len() ==> (#[trigger] fs[i].name) != (#[trigger] fs[j].name)
    &&& forall|i: int| 0 <= i < fs.len() ==> (#[trigger] fs[i].target) == target_type_of(fs[i].tag)
}

/// Builds the target schema for an ordered column list: one entry per
/// column, in column order, each mapped by the type mapper. Rejects a name
/// that is not a plain identifier and rejects duplicate names; the widths
/// of binary and text columns ride along inside the entry's types.
pub fn build_schema(cols: &Vec<ColumnDescriptor>) -> (r: Result<TargetSchema, SchemaMappingError>)
    ensures
        match r {
            Ok(s) => {
                &&& column_names_identifiers(cols.deep_view())
                &&& column_names_distinct(cols.deep_view())
                &&& s@ == fields_of_columns(cols.deep_view())
                &&& wf_schema(s@)
            },
            Err(e) => {
                &&& !(column_names_identifiers(cols.deep_view()) && column_names_distinct(
                    cols.deep_view(),
                ))
                &&& match e {
                    SchemaMappingError::InvalidColumnName(n) => exists|i: int|
                        0 <= i < cols@.len() && (#[trigger] cols.deep_view()[i].name) == n@
                            && !is_identifier(n@),
                    SchemaMappingError::DuplicateColumn(n) => column_names_identifiers(
                        cols.deep_view(),
                    ) && exists|i: int, j: int|
                        0 <= i < j < cols@.len() && (#[trigger] cols.deep_view()[i].name) == n@ && (
                        #[trigger] cols.deep_view()[j].name) == n@,
                    _ => false,
                }
            },
        },
{
    let ghost cm = cols.deep_view();
    assert(cm.len() == cols@.len());
    assert(forall|i: int| 0 <= i < cols@.len() ==> (#[trigger] cm[i]) == cols@[i]@);
    let n = cols.len();
    let mut i: usize = 0;
    while i < n
        invariant
            0 <= i <= n,
            n == cols@.len(),
            cm == cols.deep_view(),
            forall|k: int| 0 <= k < i ==> is_identifier(#[trigger] cm[k].name),
        decreases n - i,
    {
        if !crate::text::check_identifier(cols[i].name.as_slice()) {
            let bad = vstd::slice::slice_to_vec(cols[i].name.as_slice());
            proof {
                assert(cm[i as int] == cols@[i as int]@);
                assert(!is_identifier(cm[i as int].name));
                assert(!column_names_identifiers(cm));
            }
            return Err(SchemaMappingError::InvalidColumnName(bad));
        }
        i = i + 1;
    }
    let mut i: usize = 1;
    while i < n
        invariant
            n == 0 || 1 <= i <= n,
            n == cols@.len(),
            cm == cols.deep_view(),
            column_names_identifiers(cm),
            forall|p: int, q: int|
                0 <= p < q < i ==> (#[trigger] cm[p].name) != (#[trigger] cm[q].name),
        decreases n - i,
    {
        let mut j: usize = 0;
        while j < i
            invariant
                0 <= j <= i < n,
                n == cols@.len(),
                cm == cols.deep_view(),
                column_names_identifiers(cm),
                forall|q: int| 0 <= q < j ==> (#[trigger] cm[q].name) != cm[i as int].name,
            decreases i - j,
        {
            if bytes_eq(cols[j].name.as_slice(), cols[i].name.as_slice()) {
                let dup = vstd::slice::slice_to_vec(cols[i].name.as_slice());
                proof {
                    assert(cm[j as int] == cols@[j as int]@);
                    assert(cm[i as int] == cols@[i as int]@);
                    assert(cm[j as int].name == cm[i as int].name);
                    assert(!column_names_distinct(cm));
                }
                return Err(SchemaMappingError::DuplicateColumn(dup));
            }
            j = j + 1;
        }
        i = i + 1;
    }
    let mut fields: Vec<SchemaField> = Vec::new();
    let mut i: usize = 0;
    while i < n
        invariant
            0 <= i <= n,
            n == cols@.len(),
            cm == cols.deep_view(),
            column_names_identifiers(cm),
            column_names_distinct(cm),
            fields@.len() == i as int,
            forall|k: int| 0 <= k < i ==> (#[trigger] fields@[k])@ == built_field(cm[k]),
        decreases n - i,
    {
        let tag = cols[i].db_type;
        let name = vstd::slice::slice_to_vec(cols[i].name.as_slice());
        fields.push(SchemaField { name, tag, target: map_db_type(tag) });
        proof {
            assert(cm[i as int] == cols@[i as int]@);
            assert(fields@[i as int]@ == built_field(cm[i as int]));
        }
        i = i + 1;
    }
    let s = TargetSchema { fields };
    proof {
        assert forall|k: int| 0 <= k < n implies s@[k] == built_field(cm[k]) by {
            assert(s@[k] == fields@[k]@);
        }
        assert(s@ =~= fields_of_columns(cm));
    }
    Ok(s)
}

/// Recovers the column list a schema describes: same count, order, names,
/// database types and declared widths, ordinals numbered by position.
pub fn schema_columns(s: &TargetSchema) -> (r: Vec<ColumnDescriptor>)
    requires
        s@.len() <= u32::MAX,
    ensures
        r.deep_view() == columns_of_fields(s@),
{
    let n = s.fields.len();
    let mut cols: Vec<ColumnDescriptor> = Vec::new();
    let mut i: usize = 0;
    while i < n
        invariant
            0 <= i <= n,
            n == s.fields@.len(),
            n == s@.len(),
            n <= u32::MAX,
            cols@.len() == i as int,
            forall|k: int| 0 <= k < i ==> (#[trigger] cols@[k])@ == columns_of_fields(s@)[k],
        decreases n - i,
    {
        let name = vstd::slice::slice_to_vec(s.fields[i].name.as_slice());
        cols.push(ColumnDescriptor { name, db_type: s.fields[i].tag, ordinal: i as u32 });
        proof {
            assert(s@[i as int] == s.fields@[i as int]@);
            assert(cols@[i as int]@ == columns_of_fields(s@)[i as int]);
        }
        i = i + 1;
    }
    proof {
        assert forall|k: int| 0 <= k < n implies cols.deep_view()[k] == columns_of_fields(s@)[k]
        by {
            assert(cols.deep_view()[k] == cols@[k]@);
        }
        assert(cols.deep_view() =~= columns_of_fields(s@));
    }
    cols
}

/// Schema fidelity: the schema built from a well-formed column list keeps
/// the column count, order, names and per-column widths, and inverting it
/// yields the original column list back.
pub proof fn lemma_schema_fidelity(cols: Seq<ColumnModel>)
    requires
        wf_columns(cols),
        cols.len() <= u32::MAX,
    ensures
        fields_of_columns(cols).len() == cols.len(),
        forall|i: int|
            0 <= i < cols.len() ==> (#[trigger] fields_of_columns(cols)[i]).name == cols[i].name
                && fields_of_columns(cols)[i].tag == cols[i].db_type,
        columns_of_fields(fields_of_columns(cols)) == cols,
{
    let back = columns_of_fields(fields_of_columns(cols));
    assert forall|i: int| 0 <= i < cols.len() implies back[i] == cols[i] by {
        assert(fields_of_columns(cols)[i] == built_field(cols[i]));
        assert(back[i].name == cols[i].name);
        assert(back[i].db_type == cols[i].db_type);
        assert(back[i].ordinal == cols[i].ordinal);
    }
    assert(back =~= cols);
}

/// The JSON text of one target type inside the record schema. The
/// timestamp type carries its millisecond-instant annotation.
pub open spec fn avro_primitive_json(t: TargetType) -> Seq<u8> {
    match t {
        TargetType::Int32 => "\"int\"".spec_bytes(),
        TargetType::Int64 => "\"long\"".spec_bytes(),
        TargetType::TimestampMillis => "{\"type\":\"long\",\"logicalType\":\"timestamp-millis\"}".spec_bytes(),
        TargetType::Boolean => "\"boolean\"".spec_bytes(),
        TargetType::Float32 => "\"float\"".spec_bytes(),
        TargetType::Float64 => "\"double\"".spec_bytes(),
        TargetType::Bytes(_) => "\"bytes\"".spec_bytes(),
        TargetType::Utf8(_) => "\"string\"".spec_bytes(),
    }
}

/// The JSON text of one record field: every slot is a union with null, so
/// a missing database value has an explicit encoding; and each field's
/// `default` entry carries the column's describe name and declared width,
/// because that entry is the one field-level slot the container library
/// keeps through parsing and re-serialisation, so the file stays
/// self-describing where the bare primitive types would lose widths and
/// signedness. No real default is displaced: these nullable slots never
/// use one.
pub open spec fn avro_field_json(f: SchemaFieldModel) -> Seq<u8> {
    "{\"name\":\"".spec_bytes() + f.name + "\",\"type\":[\"null\",".spec_bytes()
        + avro_primitive_json(f.target) + "],\"default\":[\"".spec_bytes() + describe_name_of(
        f.tag,
    ) + "\",".spec_bytes() + dec_digits(declared_width_of(f.tag) as nat) + "]}".spec_bytes()
}

/// The comma-joined JSON of the first `k` record fields.
pub open spec fn avro_fields_json_upto(fs: Seq<SchemaFieldModel>, k: int) -> Seq<u8>
    decreases k,
{
    if k <= 0 {
        Seq::empty()
    } else if k == 1 {
        avro_field_json(fs[0])
    } else {
        avro_fields_json_upto(fs, k - 1) + ",".spec_bytes() + avro_field_json(fs[k - 1])
    }
}

/// The full JSON text of the record schema embedded in a container file.
/// The record name is fixed.
pub open spec fn avro_schema_json(fs: Seq<SchemaFieldModel>) -> Seq<u8> {
    "{\"type\":\"record\",\"name\":\"m1\",\"fields\":[".spec_bytes() + avro_fields_json_upto(
        fs,
        fs.len() as int,
    ) + "]}".spec_bytes()
}

/// Appends the JSON text of one record field.
fn push_avro_field_json(out: &mut Vec<u8>, f: &SchemaField)
    ensures
        final(out)@ == old(out)@ + avro_field_json(f@),
{
    push_bytes(out, "{\"name\":\"".as_bytes());
    push_bytes(out, f.name.as_slice());
    push_bytes(out, "\",\"type\":[\"null\",".as_bytes());
    match f.target {
        TargetType::Int32 => push_bytes(out, "\"int\"".as_bytes()),
        TargetType::Int64 => push_bytes(out, "\"long\"".as_bytes()),
        TargetType::TimestampMillis => push_bytes(
            out,
            "{\"type\":\"long\",\"logicalType\":\"timestamp-millis\"}".as_bytes(),
        ),
        TargetType::Boolean => push_bytes(out, "\"boolean\"".as_bytes()),
        TargetType::Float32 => push_bytes(out, "\"float\"".as_bytes()),
        TargetType::Float64 => push_bytes(out, "\"double\"".as_bytes()),
        TargetType::Bytes(_) => push_bytes(out, "\"bytes\"".as_bytes()),
        TargetType::Utf8(_) => push_bytes(out, "\"string\"".as_bytes()),
    }
    push_bytes(out, "],\"default\":[\"".as_bytes());
    push_describe_name(out, f.tag);
    push_bytes(out, "\",".as_bytes());
    push_u64_dec(out, declared_width(f.tag) as u64);
    push_bytes(out, "]}".as_bytes());
    assert(final(out)@ =~= old(out)@ + avro_field_json(f@));
}

/// Renders the record-container schema as JSON text, one field per column
/// in column order, each a union with null and carrying its column
/// annotation. Identifier names need no JSON escaping.
pub fn generate_avro_schema(s: &TargetSchema) -> (r: Vec<u8>)
    ensures
        r@ == avro_schema_json(s@),
{
    let mut out: Vec<u8> = Vec::new();
    push_bytes(&mut out, "{\"type\":\"record\",\"name\":\"m1\",\"fields\":[".as_bytes());
    let ghost header = out@;
    let n = s.fields.len();
    let mut i: usize = 0;
    while i < n
        invariant
            0 <= i <= n,
            n == s.fields@.len(),
            n == s@.len(),
            out@ == header + avro_fields_json_upto(s@, i as int),
        decreases n - i,
    {
        if i > 0 {
            push_bytes(&mut out, ",".as_bytes());
        }
        push_avro_field_json(&mut out, &s.fields[i]);
        proof {
            assert(s@[i as int] == s.fields@[i as int]@);
            assert(out@ =~= header + avro_fields_json_upto(s@, i + 1));
        }
        i = i + 1;
    }
    push_bytes(&mut out, "]}".as_bytes());
    assert(out@ =~= avro_schema_json(s@));
    out
}

/// Record-format schema fidelity: the name-and-width annotation the
/// schema renderer embeds for each column parses back to that column's
/// database type, column for column, so the column list is re-derivable
/// from the rendered schema, width for width and signedness for
/// signedness.
pub proof fn lemma_record_schema_fidelity(cols: Seq<ColumnModel>)
    ensures
        forall|i: int|
            0 <= i < cols.len() ==> tag_of_type_name(
                describe_name_of(#[trigger] fields_of_columns(cols)[i].tag),
                declared_width_of(fields_of_columns(cols)[i].tag),
            ) == Some(cols[i].db_type),
{
    assert forall|i: int|
        0 <= i < cols.len() implies tag_of_type_name(
        describe_name_of(#[trigger] fields_of_columns(cols)[i].tag),
        declared_width_of(fields_of_columns(cols)[i].tag),
    ) == Some(cols[i].db_type) by {
        assert(fields_of_columns(cols)[i].tag == cols[i].db_type);
        lemma_annotation_roundtrip(cols[i].db_type);
    }
}

} // verus!
