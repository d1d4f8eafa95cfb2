use vstd::prelude::*;
use vstd::utf8::encode_utf8;

use crate::mapper::tag_of_type_name;
use crate::schema::{avro_schema_json, generate_avro_schema, TargetSchema};
use crate::types::{ColumnDescriptor, DecodeError, DecodeReason, EncodeError, Error};

verus! {

#[verifier::external_type_specification]
#[verifier::external_body]
pub struct ExAvroSchema(avro_rs::Schema);

/// Whether the container library's schema parser accepts this JSON text.
/// The parser is a pure function of the text, so acceptance is too.
pub uninterp spec fn schema_text_parses(json: Seq<u8>) -> bool;

/// Relies on avro_rs::Schema::parse_str: compiles the JSON text of a
/// record schema into the container library's schema object; on failure
/// hands back the parser's message. The parse path returns every fault as
/// a value and reads nothing but the text, so whether it accepts is a
/// function of the bytes alone, named above. The result is opaque to the
/// library.
#[verifier::external_body]
fn parse_schema_text(json: &[u8]) -> (r: Result<avro_rs::Schema, String>)
    ensures
        r is Ok <==> schema_text_parses(json@),
{
    avro_rs::Schema::parse_str(&String::from_utf8_lossy(json)).map_err(|e| e.to_string())
}

/// Renders the target schema as record-container JSON and compiles it with
/// the container library: succeeds exactly when the parser accepts the
/// rendered text, which is handed over unchanged; a parser failure
/// surfaces as an encode fault.
pub fn compile_avro_schema(s: &TargetSchema) -> (r: Result<avro_rs::Schema, Error>)
    ensures
        r is Ok <==> schema_text_parses(avro_schema_json(s@)),
        r matches Err(e) ==> e matches Error::Encode(ee) && ee is Io,
{
    let json = generate_avro_schema(s);
    match parse_schema_text(json.as_slice()) {
        Ok(sc) => Ok(sc),
        Err(m) => Err(Error::Encode(EncodeError::Io(m))),
    }
}

/// What the annotation extraction below hands out for a schema value: for
/// a record schema, each field's name with the describe name and width its
/// default entry carries; nothing for any other schema. The extraction
/// only walks the schema value, so its outcome is a function of that value.
pub uninterp spec fn schema_annotations_of(s: avro_rs::Schema) -> Option<
    Seq<(String, String, u64)>,
>;

/// Relies on avro_rs::Schema: hands out, for a record schema, each field's
/// name together with the column annotation its default entry carries (the
/// database type's describe name at position zero, the declared width at
/// position one); an absent or non-text/non-number entry comes back empty
/// or zero, and a non-record schema comes back as nothing.
#[verifier::external_body]
fn schema_field_annotations(s: &avro_rs::Schema) -> (r: Option<Vec<(String, String, u64)>>)
    ensures
        match r {
            Some(f) => schema_annotations_of(*s) == Some(f@),
            None => schema_annotations_of(*s) is None,
        },
{
    match s {
        avro_rs::Schema::Record { fields, .. } => Some(
            fields
                .iter()
                .map(|f| {
                    let kind = f.default.as_ref().and_then(|d| d.get(0)).and_then(|v| v.as_str());
                    let width = f.default.as_ref().and_then(|d| d.get(1)).and_then(|v| v.as_u64());
                    (f.name.clone(), kind.unwrap_or("").to_string(), width.unwrap_or(0))
                })
                .collect(),
        ),
        _ => None,
    }
}

/// One annotated schema field names a column: the field name is the
/// column's, and the annotation's describe name and width parse to the
/// column's database type.
pub open spec fn annotation_describes(
    f: (String, String, u64),
    ordinal: int,
    c: ColumnDescriptor,
) -> bool {
    &&& c.name@ == encode_utf8(f.0@)
    &&& f.2 <= u32::MAX
    &&& tag_of_type_name(encode_utf8(f.1@), f.2 as u32) == Some(c.db_type)
    &&& c.ordinal == ordinal as u32
}

/// Reads the annotated schema fields back into the ordered column list:
/// one column per field, in field order, the declared width attached to
/// binary and text types. A width beyond the declarable range is refused
/// as out of range, and an out-of-table describe name as
/// `UnsupportedType`; the process never aborts.
pub fn columns_from_annotations(fields: &Vec<(String, String, u64)>) -> (r: Result<
    Vec<ColumnDescriptor>,
    Error,
>)
    requires
        fields@.len() <= u32::MAX,
    ensures
        match r {
            Ok(cols) => {
                &&& cols@.len() == fields@.len()
                &&& forall|i: int|
                    0 <= i < fields@.len() ==> annotation_describes(
                        #[trigger] fields@[i],
                        i,
                        cols@[i],
                    )
            },
            Err(e) => match e {
                Error::Decode(de) => de.reason == DecodeReason::OutOfRange && exists|i: int|
                    0 <= i < fields@.len() && (#[trigger] fields@[i]).2 > u32::MAX,
                Error::SchemaMapping(se) => se is UnsupportedType && exists|i: int|
                    0 <= i < fields@.len() && (#[trigger] fields@[i]).2 <= u32::MAX
                        && tag_of_type_name(encode_utf8(fields@[i].1@), fields@[i].2 as u32)
                        is None,
                _ => false,
            },
        },
{
    let n = fields.len();
    let mut cols: Vec<ColumnDescriptor> = Vec::new();
    let mut i: usize = 0;
    while i < n
        invariant
            0 <= i <= n,
            n == fields@.len(),
            n <= u32::MAX,
            cols@.len() == i,
            forall|k: int|
                0 <= k < i ==> annotation_describes(#[trigger] fields@[k], k, cols@[k]),
        decreases n - i,
    {
        let (name_text, kind_text, width_raw) = &fields[i];
        if *width_raw > 0xffff_ffff {
            proof {
                assert(fields@[i as int].2 > u32::MAX);
            }
            return Err(
                Error::Decode(DecodeError { column: i, reason: DecodeReason::OutOfRange }),
            );
        }
        let width: u32 = *width_raw as u32;
        let tag = match crate::mapper::parse_db_type(kind_text.as_str().as_bytes(), width) {
            Ok(t) => t,
            Err(se) => {
                proof {
                    assert(tag_of_type_name(encode_utf8(fields@[i as int].1@), width) is None);
                }
                return Err(Error::SchemaMapping(se));
            },
        };
        let name = vstd::slice::slice_to_vec(name_text.as_str().as_bytes());
        cols.push(ColumnDescriptor { name, db_type: tag, ordinal: i as u32 });
        proof {
            assert(annotation_describes(fields@[i as int], i as int, cols@[i as int]));
        }
        i = i + 1;
    }
    Ok(cols)
}

/// Reads the record schema embedded in a container file back into the
/// column list it was rendered from, so an import can derive its table
/// definition from the file alone: succeeds exactly when the schema is a
/// record whose every field annotation parses, and then yields column for
/// column what the annotations name, in field order with positional
/// ordinals. A non-record schema, an annotation outside the type table or
/// a width beyond the declarable range is refused, never a panic.
pub fn recover_columns(s: &avro_rs::Schema) -> (r: Result<Vec<ColumnDescriptor>, Error>)
    ensures
        match r {
            Ok(cols) => schema_annotations_of(*s) matches Some(a) && {
                &&& a.len() <= u32::MAX
                &&& cols@.len() == a.len()
                &&& forall|i: int|
                    0 <= i < a.len() ==> annotation_describes(#[trigger] a[i], i, cols@[i])
            },
            Err(e) => match e {
                Error::Decode(de) => {
                    ||| (schema_annotations_of(*s) is None && de.reason == DecodeReason::Mismatch)
                    ||| (schema_annotations_of(*s) matches Some(a) && de.reason
                        == DecodeReason::OutOfRange && (a.len() > u32::MAX || exists|i: int|
                        0 <= i < a.len() && (#[trigger] a[i]).2 > u32::MAX))
                },
                Error::SchemaMapping(se) => se is UnsupportedType && (schema_annotations_of(*s)
                    matches Some(a) && exists|i: int|
                    0 <= i < a.len() && (#[trigger] a[i]).2 <= u32::MAX && tag_of_type_name(
                        encode_utf8(a[i].1@),
                        a[i].2 as u32,
                    ) is None),
                _ => false,
            },
        },
{
    let fields = match schema_field_annotations(s) {
        Some(f) => f,
        None => {
            return Err(Error::Decode(DecodeError { column: 0, reason: DecodeReason::Mismatch }));
        },
    };
    if fields.len() > 0xffff_ffff {
        return Err(Error::Decode(DecodeError { column: 0, reason: DecodeReason::OutOfRange }));
    }
    columns_from_annotations(&fields)
}

} // verus!
