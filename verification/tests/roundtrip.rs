use avro_rs::types::Value;
use avro_rs::{Codec, Reader, Writer};
use taosdump::avro::{columns_from_annotations, compile_avro_schema, recover_columns};
use taosdump::commands::{dumpin, dumpout};
use taosdump::schema::TargetSchema;
use taosdump::types::{ColumnDescriptor, DbTypeTag, Field, TargetValue};

fn col(name: &str, db_type: DbTypeTag, ordinal: u32) -> ColumnDescriptor {
    ColumnDescriptor { name: name.as_bytes().to_vec(), db_type, ordinal }
}

fn to_avro(v: &TargetValue) -> Value {
    let inner = match v {
        TargetValue::Null => Value::Null,
        TargetValue::Boolean(b) => Value::Boolean(*b),
        TargetValue::Int(x) => Value::Int(*x),
        TargetValue::Long(x) => Value::Long(*x),
        TargetValue::Timestamp(x) => Value::TimestampMillis(*x),
        TargetValue::Float { bits, .. } => Value::Float(f32::from_bits(*bits)),
        TargetValue::Double { bits, .. } => Value::Double(f64::from_bits(*bits)),
        TargetValue::Bytes(b) => Value::Bytes(b.clone()),
        TargetValue::Str(s) => Value::String(s.clone()),
    };
    Value::Union(Box::new(inner))
}

fn from_avro(v: Value) -> TargetValue {
    let inner = match v {
        Value::Union(b) => *b,
        other => other,
    };
    match inner {
        Value::Null => TargetValue::Null,
        Value::Boolean(b) => TargetValue::Boolean(b),
        Value::Int(x) => TargetValue::Int(x),
        Value::Long(x) => TargetValue::Long(x),
        Value::TimestampMillis(x) => TargetValue::Timestamp(x),
        Value::Float(x) => TargetValue::Float {
            bits: x.to_bits(),
            lit: x.to_string().into_bytes(),
        },
        Value::Double(x) => TargetValue::Double {
            bits: x.to_bits(),
            lit: x.to_string().into_bytes(),
        },
        Value::Bytes(b) => TargetValue::Bytes(b),
        Value::String(s) => TargetValue::Str(s),
        other => panic!("unexpected stored value {:?}", other),
    }
}

/// Writes encoded records into an in-memory container file and reads them
/// back, exactly as the export and import paths do around the library:
/// the column list comes back from the file's embedded schema alone.
fn through_avro(
    schema: &TargetSchema,
    records: &[Vec<TargetValue>],
) -> (Vec<taosdump::types::ColumnDescriptor>, Vec<Vec<TargetValue>>) {
    let avro_schema = compile_avro_schema(schema).unwrap();
    let mut writer = Writer::with_codec(&avro_schema, Vec::new(), Codec::Deflate);
    for rec in records {
        let mut fields: Vec<(String, Value)> = Vec::new();
        for (i, v) in rec.iter().enumerate() {
            let name = String::from_utf8(schema.fields[i].name.clone()).unwrap();
            fields.push((name, to_avro(v)));
        }
        writer.append(Value::Record(fields)).unwrap();
    }
    let bytes = writer.into_inner().unwrap();
    let reader = Reader::new(&bytes[..]).unwrap();
    let cols = taosdump::avro::recover_columns(reader.writer_schema()).unwrap();
    let mut rows = Vec::new();
    for item in reader {
        match item.unwrap() {
            Value::Record(fields) => {
                rows.push(fields.into_iter().map(|(_, v)| from_avro(v)).collect());
            }
            other => panic!("unexpected top-level value {:?}", other),
        }
    }
    (cols, rows)
}

#[test]
fn m1_scenario_round_trips_bit_identically() {
    let cols = vec![
        col("ts", DbTypeTag::Timestamp, 0),
        col("c1", DbTypeTag::TinyInt, 1),
        col("c11", DbTypeTag::Binary(8), 2),
        col("c12", DbTypeTag::NChar(8), 3),
        col("c13", DbTypeTag::Bool, 4),
    ];
    let row = vec![
        Field::Timestamp(1_700_000_000_000),
        Field::TinyInt(5),
        Field::Binary(b"abcdefgh".to_vec()),
        Field::NChar("hello".to_string()),
        Field::Bool(true),
    ];
    let bundle = dumpout(&cols, &vec![row.clone()]).unwrap();
    assert_eq!(bundle.points, 5);
    let (recovered_cols, stored) = through_avro(&bundle.schema, &bundle.records);
    assert_eq!(recovered_cols, cols);
    assert_eq!(stored, bundle.records);
    let recovered = taosdump::schema::build_schema(&recovered_cols).unwrap();
    let plan = dumpin(&recovered, stored, 100, true).unwrap();
    assert_eq!(
        String::from_utf8(plan.ddl).unwrap(),
        "create table m1 (ts timestamp,c1 tinyint,c11 binary(8),c12 nchar(8),c13 bool)"
    );
    assert_eq!(plan.inserts.len(), 1);
    assert_eq!(
        String::from_utf8(plan.inserts[0].clone()).unwrap(),
        "insert into m1 values(1700000000000,5,'abcdefgh','hello',true)"
    );
    assert!(plan.skipped.is_empty());
}

#[test]
fn every_supported_type_round_trips_through_a_container() {
    let cols = vec![
        col("a", DbTypeTag::TinyInt, 0),
        col("b", DbTypeTag::TinyIntUnsigned, 1),
        col("c", DbTypeTag::SmallInt, 2),
        col("d", DbTypeTag::SmallIntUnsigned, 3),
        col("e", DbTypeTag::Int, 4),
        col("f", DbTypeTag::IntUnsigned, 5),
        col("g", DbTypeTag::BigInt, 6),
        col("h", DbTypeTag::BigIntUnsigned, 7),
        col("i", DbTypeTag::Float, 8),
        col("j", DbTypeTag::Double, 9),
        col("k", DbTypeTag::Bool, 10),
        col("l", DbTypeTag::Binary(32), 11),
        col("m", DbTypeTag::NChar(32), 12),
        col("n", DbTypeTag::Timestamp, 13),
    ];
    let f = -0.125f32;
    let d = 12345.6789f64;
    let rows = vec![
        vec![
            Field::TinyInt(i8::MIN),
            Field::UTinyInt(u8::MAX),
            Field::SmallInt(i16::MIN),
            Field::USmallInt(u16::MAX),
            Field::Int(i32::MAX),
            Field::UInt(u32::MAX),
            Field::BigInt(i64::MIN),
            Field::UBigInt(u64::MAX),
            Field::Float { bits: f.to_bits(), lit: f.to_string().into_bytes() },
            Field::Double { bits: d.to_bits(), lit: d.to_string().into_bytes() },
            Field::Bool(true),
            Field::Binary(vec![]),
            Field::NChar("grüße 👋".to_string()),
            Field::Timestamp(1_700_000_000_000),
        ],
        vec![
            Field::TinyInt(i8::MAX),
            Field::UTinyInt(0),
            Field::SmallInt(i16::MAX),
            Field::USmallInt(0),
            Field::Int(i32::MIN),
            Field::UInt(0),
            Field::BigInt(i64::MAX),
            Field::UBigInt(0),
            Field::Float { bits: 1.5f32.to_bits(), lit: 1.5f32.to_string().into_bytes() },
            Field::Double { bits: (-2.25f64).to_bits(), lit: (-2.25f64).to_string().into_bytes() },
            Field::Bool(false),
            Field::Binary(b"raw".to_vec()),
            Field::NChar(String::new()),
            Field::Timestamp(0),
        ],
    ];
    let bundle = dumpout(&cols, &rows).unwrap();
    let (recovered_cols, stored) = through_avro(&bundle.schema, &bundle.records);
    assert_eq!(recovered_cols, cols);
    assert_eq!(stored, bundle.records);
    let plan = dumpin(&bundle.schema, stored.clone(), 100, true).unwrap();
    assert!(plan.skipped.is_empty());
    // Decoding the stored values narrows them back to the original cells,
    // bit for bit, including the float bit patterns.
    let back0 = taosdump::decode::decode_row(&bundle.schema, stored[0].clone()).unwrap();
    let back1 = taosdump::decode::decode_row(&bundle.schema, stored[1].clone()).unwrap();
    assert_eq!(back0, rows[0]);
    assert_eq!(back1, rows[1]);
}

#[test]
fn embedded_schema_recovers_columns_without_a_file() {
    let cols = vec![
        col("ts", DbTypeTag::Timestamp, 0),
        col("c2", DbTypeTag::TinyIntUnsigned, 1),
        col("c6", DbTypeTag::IntUnsigned, 2),
        col("c11", DbTypeTag::Binary(8), 3),
        col("c12", DbTypeTag::NChar(16), 4),
    ];
    let schema = taosdump::schema::build_schema(&cols).unwrap();
    let compiled = compile_avro_schema(&schema).unwrap();
    let back = recover_columns(&compiled).unwrap();
    assert_eq!(back, cols);
}

#[test]
fn annotations_parse_back_to_columns() {
    let fields = vec![
        ("ts".to_string(), "TIMESTAMP".to_string(), 0u64),
        ("c11".to_string(), "BINARY".to_string(), 8u64),
    ];
    let cols = columns_from_annotations(&fields).unwrap();
    assert_eq!(cols[0].db_type, DbTypeTag::Timestamp);
    assert_eq!(cols[1].db_type, DbTypeTag::Binary(8));
    assert_eq!(cols[1].name, b"c11".to_vec());
    assert_eq!(cols[1].ordinal, 1);
    let bad = vec![("c".to_string(), "GEOMETRY".to_string(), 0u64)];
    assert!(columns_from_annotations(&bad).is_err());
    let wide = vec![("c".to_string(), "BINARY".to_string(), u64::MAX)];
    assert!(columns_from_annotations(&wide).is_err());
}
