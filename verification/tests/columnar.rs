use taosdump::dbdump::collect_binary_cells;
use taosdump::encode::encode_field;
use taosdump::parquet::{map_parquet_type, parquet_cell, parquet_column_tag, ParquetCell,
    ParquetConverted, ParquetPhysical};
use taosdump::types::{DbTypeTag, EncodeError, Field, TargetValue};

#[test]
fn columnar_layouts_carry_annotations() {
    let p = map_parquet_type(DbTypeTag::TinyIntUnsigned);
    assert_eq!(p.physical, ParquetPhysical::Int32);
    assert_eq!(p.converted, ParquetConverted::Uint8);
    let p = map_parquet_type(DbTypeTag::IntUnsigned);
    assert_eq!(p.physical, ParquetPhysical::Int32);
    assert_eq!(p.converted, ParquetConverted::Uint32);
    let p = map_parquet_type(DbTypeTag::Timestamp);
    assert_eq!(p.physical, ParquetPhysical::Int64);
    assert!(p.timestamp_millis);
    let p = map_parquet_type(DbTypeTag::Binary(8));
    assert_eq!(p.physical, ParquetPhysical::ByteArray);
    assert!(!p.utf8);
    assert_eq!(p.width, 8);
    let p = map_parquet_type(DbTypeTag::NChar(8));
    assert_eq!(p.physical, ParquetPhysical::ByteArray);
    assert!(p.utf8);
    assert_eq!(p.width, 8);
}

#[test]
fn columnar_layouts_invert_for_every_type() {
    let tags = [
        DbTypeTag::TinyInt,
        DbTypeTag::TinyIntUnsigned,
        DbTypeTag::SmallInt,
        DbTypeTag::SmallIntUnsigned,
        DbTypeTag::Int,
        DbTypeTag::IntUnsigned,
        DbTypeTag::BigInt,
        DbTypeTag::BigIntUnsigned,
        DbTypeTag::Float,
        DbTypeTag::Double,
        DbTypeTag::Bool,
        DbTypeTag::Binary(8),
        DbTypeTag::NChar(16),
        DbTypeTag::Timestamp,
    ];
    for t in tags {
        assert_eq!(parquet_column_tag(map_parquet_type(t)), Some(t));
    }
}

#[test]
fn unknown_columnar_layout_is_refused() {
    let mut p = map_parquet_type(DbTypeTag::Int);
    p.converted = ParquetConverted::Uint64;
    assert_eq!(parquet_column_tag(p), None);
    let mut p = map_parquet_type(DbTypeTag::Timestamp);
    p.converted = ParquetConverted::Uint64;
    assert_eq!(parquet_column_tag(p), None);
}

#[test]
fn table_listing_reads_binary_cells() {
    let rows = vec![
        vec![Field::Binary(b"st1".to_vec()), Field::Int(3)],
        vec![Field::Binary(b"st2".to_vec())],
    ];
    let cells = collect_binary_cells(&rows);
    assert_eq!(cells, vec![b"st1".to_vec(), b"st2".to_vec()]);
}

#[test]
fn every_widened_cell_has_a_slot() {
    let cases: Vec<(DbTypeTag, Field)> = vec![
        (DbTypeTag::TinyInt, Field::TinyInt(-5)),
        (DbTypeTag::TinyIntUnsigned, Field::UTinyInt(200)),
        (DbTypeTag::SmallInt, Field::SmallInt(-30000)),
        (DbTypeTag::SmallIntUnsigned, Field::USmallInt(60000)),
        (DbTypeTag::Int, Field::Int(7)),
        (DbTypeTag::IntUnsigned, Field::UInt(4_000_000_000)),
        (DbTypeTag::BigInt, Field::BigInt(-9)),
        (DbTypeTag::BigIntUnsigned, Field::UBigInt(u64::MAX)),
        (DbTypeTag::Bool, Field::Bool(true)),
        (DbTypeTag::Binary(8), Field::Binary(b"raw".to_vec())),
        (DbTypeTag::NChar(8), Field::NChar("text".to_string())),
        (DbTypeTag::Timestamp, Field::Timestamp(1_700_000_000_000)),
        (DbTypeTag::Float, Field::Float {
            bits: 1.5f32.to_bits(),
            lit: 1.5f32.to_string().into_bytes(),
        }),
        (DbTypeTag::Double, Field::Double {
            bits: (-2.25f64).to_bits(),
            lit: (-2.25f64).to_string().into_bytes(),
        }),
    ];
    for (tag, field) in cases {
        let layout = map_parquet_type(tag);
        let value = encode_field(&field);
        assert!(parquet_cell(layout, &value, 0).is_ok(), "{:?}", tag);
        assert_eq!(
            parquet_cell(layout, &TargetValue::Null, 0),
            Ok(ParquetCell::Null)
        );
    }
}

#[test]
fn unsigned_int_lands_in_its_int32_slot_as_bits() {
    let layout = map_parquet_type(DbTypeTag::IntUnsigned);
    let widened = encode_field(&Field::UInt(u32::MAX));
    assert_eq!(widened, TargetValue::Long(4_294_967_295));
    assert_eq!(parquet_cell(layout, &widened, 0), Ok(ParquetCell::I32(-1)));
    let widened = encode_field(&Field::UInt(4_000_000_000));
    assert_eq!(
        parquet_cell(layout, &widened, 0),
        Ok(ParquetCell::I32(4_000_000_000u32 as i32))
    );
}

#[test]
fn a_cell_off_its_slot_is_a_mismatch() {
    let layout = map_parquet_type(DbTypeTag::Bool);
    match parquet_cell(layout, &TargetValue::Long(1), 3) {
        Err(EncodeError::Mismatch { column }) => assert_eq!(column, 3),
        other => panic!("expected Mismatch, got {:?}", other),
    }
    let layout = map_parquet_type(DbTypeTag::Int);
    assert!(parquet_cell(layout, &TargetValue::Long(-1), 0).is_err());
    assert!(parquet_cell(layout, &TargetValue::Long(1 << 40), 0).is_err());
}
