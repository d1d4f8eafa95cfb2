use taosdump::cli::parse_format;
use taosdump::commands::{dumpin, dumpout};
use taosdump::dbdump::{database_dump_payload, db_dump_file_name, show_create_database_sql};
use taosdump::files::data_file_pattern;
use taosdump::orchestrator::{export_advance, import_advance, ExportState, ImportState};
use taosdump::schema::{build_schema, generate_avro_schema};
use taosdump::sql::{build_create_table, build_insert_batches, build_insert_range};
use taosdump::types::{ColumnDescriptor, DbTypeTag, Field, TargetValue};
use taosdump::Formats;

fn col(name: &str, db_type: DbTypeTag, ordinal: u32) -> ColumnDescriptor {
    ColumnDescriptor { name: name.as_bytes().to_vec(), db_type, ordinal }
}

fn m1_columns() -> Vec<ColumnDescriptor> {
    vec![
        col("ts", DbTypeTag::Timestamp, 0),
        col("c1", DbTypeTag::TinyInt, 1),
        col("c11", DbTypeTag::Binary(8), 2),
        col("c12", DbTypeTag::NChar(8), 3),
        col("c13", DbTypeTag::Bool, 4),
    ]
}

fn m1_row() -> Vec<Field> {
    vec![
        Field::Timestamp(1_700_000_000_000),
        Field::TinyInt(5),
        Field::Binary(b"abcdefgh".to_vec()),
        Field::NChar("hello".to_string()),
        Field::Bool(true),
    ]
}

#[test]
fn avro_schema_json_text() {
    let schema = build_schema(&m1_columns()).unwrap();
    let json = generate_avro_schema(&schema);
    let mut expected = String::new();
    expected.push_str("{\"type\":\"record\",\"name\":\"m1\",\"fields\":[");
    expected.push_str("{\"name\":\"ts\",\"type\":[\"null\",");
    expected.push_str("{\"type\":\"long\",\"logicalType\":\"timestamp-millis\"}],");
    expected.push_str("\"default\":[\"TIMESTAMP\",0]},");
    expected.push_str("{\"name\":\"c1\",\"type\":[\"null\",\"int\"],\"default\":[\"TINYINT\",0]},");
    expected.push_str("{\"name\":\"c11\",\"type\":[\"null\",\"bytes\"],\"default\":[\"BINARY\",8]},");
    expected.push_str("{\"name\":\"c12\",\"type\":[\"null\",\"string\"],\"default\":[\"NCHAR\",8]},");
    expected.push_str("{\"name\":\"c13\",\"type\":[\"null\",\"boolean\"],\"default\":[\"BOOL\",0]}");
    expected.push_str("]}");
    assert_eq!(String::from_utf8(json).unwrap(), expected);
}

#[test]
fn create_table_text() {
    let schema = build_schema(&m1_columns()).unwrap();
    let ddl = build_create_table(&schema);
    assert_eq!(
        String::from_utf8(ddl).unwrap(),
        "create table m1 (ts timestamp,c1 tinyint,c11 binary(8),c12 nchar(8),c13 bool)"
    );
}

#[test]
fn insert_statement_text() {
    let rows = vec![m1_row()];
    let stmt = build_insert_range(&rows, 0, 1);
    assert_eq!(
        String::from_utf8(stmt).unwrap(),
        "insert into m1 values(1700000000000,5,'abcdefgh','hello',true)"
    );
}

#[test]
fn one_tuple_per_row() {
    let rows = vec![m1_row(), m1_row(), m1_row()];
    let stmt = build_insert_range(&rows, 0, 3);
    let text = String::from_utf8(stmt).unwrap();
    let tuple = "(1700000000000,5,'abcdefgh','hello',true)";
    assert_eq!(
        text,
        format!("insert into m1 values{}{}{}", tuple, tuple, tuple)
    );
}

#[test]
fn quotes_and_backslashes_are_escaped() {
    let rows = vec![vec![
        Field::NChar("it's".to_string()),
        Field::Binary(b"a\\b".to_vec()),
        Field::NChar("line\nbreak".to_string()),
    ]];
    let stmt = build_insert_range(&rows, 0, 1);
    assert_eq!(
        String::from_utf8(stmt).unwrap(),
        "insert into m1 values('it\\'s','a\\\\b','line\\nbreak')"
    );
}

#[test]
fn negative_and_extreme_numbers_render() {
    let rows = vec![vec![
        Field::BigInt(i64::MIN),
        Field::BigInt(i64::MAX),
        Field::TinyInt(-1),
        Field::UBigInt(u64::MAX),
        Field::Null,
    ]];
    let stmt = build_insert_range(&rows, 0, 1);
    assert_eq!(
        String::from_utf8(stmt).unwrap(),
        "insert into m1 values(-9223372036854775808,9223372036854775807,-1,18446744073709551615,NULL)"
    );
}

#[test]
fn batches_bound_statement_size() {
    let rows = vec![m1_row(), m1_row(), m1_row(), m1_row(), m1_row()];
    let stmts = build_insert_batches(&rows, 2);
    assert_eq!(stmts.len(), 3);
    let tuple = "(1700000000000,5,'abcdefgh','hello',true)";
    let two = format!("insert into m1 values{}{}", tuple, tuple);
    let one = format!("insert into m1 values{}", tuple);
    assert_eq!(String::from_utf8(stmts[0].clone()).unwrap(), two);
    assert_eq!(String::from_utf8(stmts[1].clone()).unwrap(), two);
    assert_eq!(String::from_utf8(stmts[2].clone()).unwrap(), one);
}

#[test]
fn dumpout_counts_points() {
    let cols = m1_columns();
    let rows = vec![m1_row(), m1_row()];
    let bundle = dumpout(&cols, &rows).unwrap();
    assert_eq!(bundle.points, 10);
    assert_eq!(bundle.records.len(), 2);
    assert_eq!(bundle.records[0][1], TargetValue::Int(5));
}

#[test]
fn dumpin_skips_bad_rows_when_lenient() {
    let cols = m1_columns();
    let schema = build_schema(&cols).unwrap();
    let good = vec![
        TargetValue::Timestamp(1),
        TargetValue::Int(2),
        TargetValue::Bytes(b"x".to_vec()),
        TargetValue::Str("y".to_string()),
        TargetValue::Boolean(false),
    ];
    let bad = vec![
        TargetValue::Timestamp(1),
        TargetValue::Int(300),
        TargetValue::Bytes(b"x".to_vec()),
        TargetValue::Str("y".to_string()),
        TargetValue::Boolean(false),
    ];
    let plan = dumpin(&schema, vec![good.clone(), bad.clone()], 100, false).unwrap();
    assert_eq!(plan.skipped.len(), 1);
    assert_eq!(plan.skipped[0].column, 1);
    assert_eq!(plan.skipped[0].reason, taosdump::types::DecodeReason::OutOfRange);
    assert_eq!(plan.inserts.len(), 1);
    assert_eq!(
        String::from_utf8(plan.inserts[0].clone()).unwrap(),
        "insert into m1 values(1,2,'x','y',false)"
    );
    assert!(dumpin(&schema, vec![good, bad], 100, true).is_err());
}

#[test]
fn file_patterns_follow_the_directory() {
    assert_eq!(
        data_file_pattern(b"/data/", Formats::Avro),
        b"/data/*.avro".to_vec()
    );
    assert_eq!(
        data_file_pattern(b"/data", Formats::Avro),
        b"/data/*.avro".to_vec()
    );
    assert_eq!(
        data_file_pattern(b"/data/", Formats::Parquet),
        b"/data/*.parquet".to_vec()
    );
    assert_eq!(
        data_file_pattern(b"/data", Formats::Parquet),
        b"/data/*.parquet".to_vec()
    );
}

#[test]
fn format_selector_is_case_insensitive() {
    assert_eq!(parse_format(b"avro"), Some(Formats::Avro));
    assert_eq!(parse_format(b"AVRO"), Some(Formats::Avro));
    assert_eq!(parse_format(b"Parquet"), Some(Formats::Parquet));
    assert_eq!(parse_format(b"parquet"), Some(Formats::Parquet));
    assert_eq!(parse_format(b"orc"), None);
    assert_eq!(parse_format(b""), None);
}

#[test]
fn database_dump_collects_binary_cells() {
    let rows = vec![
        vec![
            Field::Binary(b"demo".to_vec()),
            Field::Binary(b"create database demo".to_vec()),
        ],
    ];
    let payload = database_dump_payload(b"demo", &rows).unwrap();
    assert_eq!(payload, b"create database demo".to_vec());
    let bad = vec![vec![Field::Int(1)]];
    assert!(database_dump_payload(b"demo", &bad).is_err());
}

#[test]
fn database_dump_names() {
    assert_eq!(
        show_create_database_sql(b"demo"),
        b"show create database demo".to_vec()
    );
    assert_eq!(db_dump_file_name(b"/tmp/", b"demo"), b"/tmp/demo.db".to_vec());
}

#[test]
fn export_states_walk_in_order() {
    let mut s = ExportState::Connecting;
    s = export_advance(s, true);
    assert_eq!(s, ExportState::Describing);
    s = export_advance(s, true);
    assert_eq!(s, ExportState::Fetching);
    s = export_advance(s, true);
    assert_eq!(s, ExportState::Encoding);
    s = export_advance(s, true);
    assert_eq!(s, ExportState::Writing);
    s = export_advance(s, true);
    assert_eq!(s, ExportState::Done);
    assert_eq!(export_advance(ExportState::Fetching, false), ExportState::Failed);
    assert_eq!(export_advance(ExportState::Failed, true), ExportState::Failed);
}

#[test]
fn import_skips_a_bad_file_unless_told_to_abort() {
    let s = import_advance(ImportState::DecodingRows, false, true, false);
    assert_eq!(s, ImportState::ReadingSchema);
    let s = import_advance(ImportState::DecodingRows, false, false, false);
    assert_eq!(s, ImportState::Done);
    let s = import_advance(ImportState::DecodingRows, false, true, true);
    assert_eq!(s, ImportState::Failed);
    let s = import_advance(ImportState::Discovering, true, true, false);
    assert_eq!(s, ImportState::ReadingSchema);
    let s = import_advance(ImportState::Inserting, true, false, false);
    assert_eq!(s, ImportState::Done);
}

#[test]
fn library_start_is_ok() {
    assert!(taosdump::start().is_ok());
}
