use taosdump::decode::{decode_row, decode_value};
use taosdump::describe::columns_from_describe;
use taosdump::encode::{encode_batch, encode_field, encode_row};
use taosdump::mapper::{map_db_type, parse_db_type};
use taosdump::schema::{build_schema, schema_columns};
use taosdump::types::{ColumnDescriptor, DbTypeTag, DecodeReason, EncodeError, Field,
    SchemaMappingError, TargetType, TargetValue};

fn col(name: &str, db_type: DbTypeTag, ordinal: u32) -> ColumnDescriptor {
    ColumnDescriptor { name: name.as_bytes().to_vec(), db_type, ordinal }
}

fn m1_columns() -> Vec<ColumnDescriptor> {
    vec![
        col("ts", DbTypeTag::Timestamp, 0),
        col("c1", DbTypeTag::TinyInt, 1),
        col("c11", DbTypeTag::Binary(8), 2),
        col("c12", DbTypeTag::NChar(8), 3),
        col("c13", DbTypeTag::Bool, 4),
    ]
}

#[test]
fn type_mapper_is_deterministic() {
    let tags = [
        DbTypeTag::TinyInt,
        DbTypeTag::TinyIntUnsigned,
        DbTypeTag::SmallInt,
        DbTypeTag::SmallIntUnsigned,
        DbTypeTag::Int,
        DbTypeTag::IntUnsigned,
        DbTypeTag::BigInt,
        DbTypeTag::BigIntUnsigned,
        DbTypeTag::Float,
        DbTypeTag::Double,
        DbTypeTag::Bool,
        DbTypeTag::Binary(8),
        DbTypeTag::NChar(16),
        DbTypeTag::Timestamp,
    ];
    for t in tags {
        assert_eq!(map_db_type(t), map_db_type(t));
    }
}

#[test]
fn type_mapper_table() {
    assert_eq!(map_db_type(DbTypeTag::TinyInt), TargetType::Int32);
    assert_eq!(map_db_type(DbTypeTag::TinyIntUnsigned), TargetType::Int32);
    assert_eq!(map_db_type(DbTypeTag::SmallInt), TargetType::Int32);
    assert_eq!(map_db_type(DbTypeTag::SmallIntUnsigned), TargetType::Int32);
    assert_eq!(map_db_type(DbTypeTag::Int), TargetType::Int32);
    assert_eq!(map_db_type(DbTypeTag::IntUnsigned), TargetType::Int64);
    assert_eq!(map_db_type(DbTypeTag::BigInt), TargetType::Int64);
    assert_eq!(map_db_type(DbTypeTag::BigIntUnsigned), TargetType::Int64);
    assert_eq!(map_db_type(DbTypeTag::Float), TargetType::Float32);
    assert_eq!(map_db_type(DbTypeTag::Double), TargetType::Float64);
    assert_eq!(map_db_type(DbTypeTag::Bool), TargetType::Boolean);
    assert_eq!(map_db_type(DbTypeTag::Binary(8)), TargetType::Bytes(8));
    assert_eq!(map_db_type(DbTypeTag::NChar(16)), TargetType::Utf8(16));
    assert_eq!(map_db_type(DbTypeTag::Timestamp), TargetType::TimestampMillis);
}

#[test]
fn unsupported_type_is_rejected() {
    match parse_db_type(b"GEOMETRY", 0) {
        Err(SchemaMappingError::UnsupportedType(name)) => {
            assert_eq!(name, b"GEOMETRY".to_vec());
        }
        other => panic!("expected UnsupportedType, got {:?}", other),
    }
    match parse_db_type(b"JSON", 4) {
        Err(SchemaMappingError::UnsupportedType(name)) => assert_eq!(name, b"JSON".to_vec()),
        other => panic!("expected UnsupportedType, got {:?}", other),
    }
}

#[test]
fn describe_names_parse() {
    assert_eq!(parse_db_type(b"TINYINT", 0), Ok(DbTypeTag::TinyInt));
    assert_eq!(
        parse_db_type(b"TINYINT UNSIGNED", 0),
        Ok(DbTypeTag::TinyIntUnsigned)
    );
    assert_eq!(parse_db_type(b"SMALLINT", 0), Ok(DbTypeTag::SmallInt));
    assert_eq!(
        parse_db_type(b"SMALLINT UNSIGNED", 0),
        Ok(DbTypeTag::SmallIntUnsigned)
    );
    assert_eq!(parse_db_type(b"INT", 0), Ok(DbTypeTag::Int));
    assert_eq!(parse_db_type(b"INT UNSIGNED", 0), Ok(DbTypeTag::IntUnsigned));
    assert_eq!(parse_db_type(b"BIGINT", 0), Ok(DbTypeTag::BigInt));
    assert_eq!(
        parse_db_type(b"BIGINT UNSIGNED", 0),
        Ok(DbTypeTag::BigIntUnsigned)
    );
    assert_eq!(parse_db_type(b"FLOAT", 0), Ok(DbTypeTag::Float));
    assert_eq!(parse_db_type(b"DOUBLE", 0), Ok(DbTypeTag::Double));
    assert_eq!(parse_db_type(b"BOOL", 0), Ok(DbTypeTag::Bool));
    assert_eq!(parse_db_type(b"BINARY", 8), Ok(DbTypeTag::Binary(8)));
    assert_eq!(parse_db_type(b"NCHAR", 8), Ok(DbTypeTag::NChar(8)));
    assert_eq!(parse_db_type(b"TIMESTAMP", 0), Ok(DbTypeTag::Timestamp));
}

#[test]
fn schema_keeps_columns_in_order() {
    let cols = m1_columns();
    let schema = build_schema(&cols).unwrap();
    assert_eq!(schema.fields.len(), 5);
    assert_eq!(schema.fields[0].name, b"ts".to_vec());
    assert_eq!(schema.fields[0].tag, DbTypeTag::Timestamp);
    assert_eq!(schema.fields[0].target, TargetType::TimestampMillis);
    assert_eq!(schema.fields[2].name, b"c11".to_vec());
    assert_eq!(schema.fields[2].target, TargetType::Bytes(8));
    assert_eq!(schema.fields[3].target, TargetType::Utf8(8));
    let back = schema_columns(&schema);
    assert_eq!(back, cols);
}

#[test]
fn duplicate_column_is_rejected() {
    let cols = vec![
        col("ts", DbTypeTag::Timestamp, 0),
        col("c1", DbTypeTag::Int, 1),
        col("c1", DbTypeTag::Bool, 2),
    ];
    match build_schema(&cols) {
        Err(SchemaMappingError::DuplicateColumn(name)) => assert_eq!(name, b"c1".to_vec()),
        other => panic!("expected DuplicateColumn, got {:?}", other),
    }
}

#[test]
fn invalid_column_name_is_rejected() {
    let cols = vec![col("bad name", DbTypeTag::Int, 0)];
    match build_schema(&cols) {
        Err(SchemaMappingError::InvalidColumnName(name)) => {
            assert_eq!(name, b"bad name".to_vec());
        }
        other => panic!("expected InvalidColumnName, got {:?}", other),
    }
}

#[test]
fn widening_rules() {
    assert_eq!(encode_field(&Field::TinyInt(-5)), TargetValue::Int(-5));
    assert_eq!(encode_field(&Field::UTinyInt(200)), TargetValue::Int(200));
    assert_eq!(encode_field(&Field::SmallInt(-30000)), TargetValue::Int(-30000));
    assert_eq!(encode_field(&Field::USmallInt(60000)), TargetValue::Int(60000));
    assert_eq!(encode_field(&Field::Int(7)), TargetValue::Int(7));
    assert_eq!(
        encode_field(&Field::UInt(4_000_000_000)),
        TargetValue::Long(4_000_000_000)
    );
    assert_eq!(encode_field(&Field::BigInt(-9)), TargetValue::Long(-9));
    assert_eq!(
        encode_field(&Field::UBigInt(u64::MAX)),
        TargetValue::Long(-1)
    );
    assert_eq!(
        encode_field(&Field::Timestamp(1_700_000_000_000)),
        TargetValue::Timestamp(1_700_000_000_000)
    );
}

#[test]
fn encode_row_checks_arity_and_types() {
    let schema = build_schema(&m1_columns()).unwrap();
    let short = vec![Field::Timestamp(0)];
    match encode_row(&schema, &short) {
        Err(EncodeError::Arity { expected, got }) => {
            assert_eq!(expected, 5);
            assert_eq!(got, 1);
        }
        other => panic!("expected Arity, got {:?}", other),
    }
    let wrong = vec![
        Field::Timestamp(0),
        Field::Bool(true),
        Field::Binary(b"x".to_vec()),
        Field::NChar("y".to_string()),
        Field::Bool(false),
    ];
    match encode_row(&schema, &wrong) {
        Err(EncodeError::Mismatch { column }) => assert_eq!(column, 1),
        other => panic!("expected Mismatch, got {:?}", other),
    }
}

#[test]
fn overlong_payload_is_a_mismatch() {
    let schema = build_schema(&m1_columns()).unwrap();
    let row = vec![
        Field::Timestamp(0),
        Field::TinyInt(1),
        Field::Binary(b"123456789".to_vec()),
        Field::NChar("ok".to_string()),
        Field::Bool(true),
    ];
    match encode_row(&schema, &row) {
        Err(EncodeError::Mismatch { column }) => assert_eq!(column, 2),
        other => panic!("expected Mismatch, got {:?}", other),
    }
}

#[test]
fn null_cells_are_encoded() {
    let schema = build_schema(&m1_columns()).unwrap();
    let row = vec![Field::Null, Field::Null, Field::Null, Field::Null, Field::Null];
    let vals = encode_row(&schema, &row).unwrap();
    assert_eq!(vals, vec![
        TargetValue::Null,
        TargetValue::Null,
        TargetValue::Null,
        TargetValue::Null,
        TargetValue::Null
    ]);
}

#[test]
fn decode_narrows_and_checks_ranges() {
    assert_eq!(
        decode_value(DbTypeTag::TinyInt, TargetValue::Int(5), 0),
        Ok(Field::TinyInt(5))
    );
    match decode_value(DbTypeTag::TinyInt, TargetValue::Int(300), 3) {
        Err(e) => {
            assert_eq!(e.column, 3);
            assert_eq!(e.reason, DecodeReason::OutOfRange);
        }
        other => panic!("expected OutOfRange, got {:?}", other),
    }
    match decode_value(DbTypeTag::Bool, TargetValue::Int(1), 2) {
        Err(e) => {
            assert_eq!(e.column, 2);
            assert_eq!(e.reason, DecodeReason::Mismatch);
        }
        other => panic!("expected Mismatch, got {:?}", other),
    }
    assert_eq!(
        decode_value(DbTypeTag::BigIntUnsigned, TargetValue::Long(-1), 0),
        Ok(Field::UBigInt(u64::MAX))
    );
    assert_eq!(
        decode_value(DbTypeTag::IntUnsigned, TargetValue::Long(4_000_000_000), 0),
        Ok(Field::UInt(4_000_000_000))
    );
}

#[test]
fn decode_row_arity_fault() {
    let schema = build_schema(&m1_columns()).unwrap();
    match decode_row(&schema, vec![TargetValue::Null]) {
        Err(e) => assert_eq!(e.reason, DecodeReason::Arity),
        other => panic!("expected Arity, got {:?}", other),
    }
}

#[test]
fn every_type_round_trips_through_the_model() {
    let cols = vec![
        col("a", DbTypeTag::TinyInt, 0),
        col("b", DbTypeTag::TinyIntUnsigned, 1),
        col("c", DbTypeTag::SmallInt, 2),
        col("d", DbTypeTag::SmallIntUnsigned, 3),
        col("e", DbTypeTag::Int, 4),
        col("f", DbTypeTag::IntUnsigned, 5),
        col("g", DbTypeTag::BigInt, 6),
        col("h", DbTypeTag::BigIntUnsigned, 7),
        col("i", DbTypeTag::Float, 8),
        col("j", DbTypeTag::Double, 9),
        col("k", DbTypeTag::Bool, 10),
        col("l", DbTypeTag::Binary(16), 11),
        col("m", DbTypeTag::NChar(16), 12),
        col("n", DbTypeTag::Timestamp, 13),
    ];
    let schema = build_schema(&cols).unwrap();
    let f = -2.5f32;
    let d = 3.25f64;
    let row = vec![
        Field::TinyInt(i8::MIN),
        Field::UTinyInt(u8::MAX),
        Field::SmallInt(i16::MAX),
        Field::USmallInt(u16::MAX),
        Field::Int(i32::MIN),
        Field::UInt(u32::MAX),
        Field::BigInt(i64::MAX),
        Field::UBigInt(u64::MAX),
        Field::Float { bits: f.to_bits(), lit: f.to_string().into_bytes() },
        Field::Double { bits: d.to_bits(), lit: d.to_string().into_bytes() },
        Field::Bool(false),
        Field::Binary(vec![]),
        Field::NChar("grüße".to_string()),
        Field::Timestamp(1_700_000_000_000),
    ];
    let encoded = encode_batch(&schema, &vec![row.clone()]).unwrap();
    let back = decode_row(&schema, encoded[0].clone()).unwrap();
    assert_eq!(back, row);
}

#[test]
fn describe_rows_become_columns() {
    let rows = vec![
        vec![
            Field::Binary(b"ts".to_vec()),
            Field::Binary(b"TIMESTAMP".to_vec()),
            Field::Int(8),
        ],
        vec![
            Field::Binary(b"c11".to_vec()),
            Field::Binary(b"BINARY".to_vec()),
            Field::Int(8),
        ],
        vec![
            Field::NChar("c12".to_string()),
            Field::NChar("NCHAR".to_string()),
            Field::Int(8),
        ],
    ];
    let cols = columns_from_describe(&rows).unwrap();
    assert_eq!(cols.len(), 3);
    assert_eq!(cols[0].db_type, DbTypeTag::Timestamp);
    assert_eq!(cols[1], col("c11", DbTypeTag::Binary(8), 1));
    assert_eq!(cols[2], col("c12", DbTypeTag::NChar(8), 2));
}

#[test]
fn describe_faults_are_typed() {
    let no_type_text = vec![vec![Field::Binary(b"c".to_vec()), Field::Int(1)]];
    match columns_from_describe(&no_type_text) {
        Err(taosdump::types::Error::Decode(de)) => {
            assert_eq!(de.column, 1);
            assert_eq!(de.reason, DecodeReason::Mismatch);
        }
        other => panic!("expected Decode fault, got {:?}", other),
    }
    let unknown = vec![vec![
        Field::Binary(b"c".to_vec()),
        Field::Binary(b"GEOMETRY".to_vec()),
        Field::Int(1),
    ]];
    match columns_from_describe(&unknown) {
        Err(taosdump::types::Error::SchemaMapping(SchemaMappingError::UnsupportedType(n))) => {
            assert_eq!(n, b"GEOMETRY".to_vec());
        }
        other => panic!("expected UnsupportedType, got {:?}", other),
    }
}
