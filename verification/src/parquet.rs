use vstd::prelude::*;

use crate::encode::{encoded_field, field_matches_tag};
use crate::types::{DbTypeTag, EncodeError, FieldModel, TargetValue, ValueModel};

verus! {

/// The physical slot one column occupies in the columnar container.
#[derive(Clone, Copy, Debug, PartialEq, Eq, Structural)]
pub enum ParquetPhysical {
    Boolean,
    Int32,
    Int64,
    Float,
    Double,
    ByteArray,
}

/// The converted-type annotation carried beside the physical slot, naming
/// the signedness and width the stored integer stands for.
#[derive(Clone, Copy, Debug, PartialEq, Eq, Structural)]
pub enum ParquetConverted {
    Plain,
    Int8,
    Int16,
    Uint8,
    Uint16,
    Uint32,
    Uint64,
}

/// How one column is laid out in the columnar container: physical slot,
/// converted-type annotation, the millisecond-instant annotation for
/// timestamps, the textual annotation for text columns, and the declared
/// width of binary and text columns. The width rides in the schema's
/// metadata; it is never read from an unrelated identifier.
#[derive(Clone, Copy, Debug, PartialEq, Eq, Structural)]
pub struct ParquetColumnType {
    pub physical: ParquetPhysical,
    pub converted: ParquetConverted,
    pub timestamp_millis: bool,
    pub utf8: bool,
    pub width: u32,
}

/// The columnar layout chosen for each database column type. It honors the
/// same semantic grouping as the record format: 8/16-bit integers keep
/// their signedness as annotations on the 32-bit slot, unsigned 32/64-bit
/// are annotated on their slots, and timestamps carry the millisecond
/// instant annotation, not UTC-adjusted.
pub open spec fn parquet_type_of(t: DbTypeTag) -> ParquetColumnType {
    match t {
        DbTypeTag::TinyInt => ParquetColumnType {
            physical: ParquetPhysical::Int32,
            converted: ParquetConverted::Int8,
            timestamp_millis: false,
            utf8: false,
            width: 0,
        },
        DbTypeTag::TinyIntUnsigned => ParquetColumnType {
            physical: ParquetPhysical::Int32,
            converted: ParquetConverted::Uint8,
            timestamp_millis: false,
            utf8: false,
            width: 0,
        },
        DbTypeTag::SmallInt => ParquetColumnType {
            physical: ParquetPhysical::Int32,
            converted: ParquetConverted::Int16,
            timestamp_millis: false,
            utf8: false,
            width: 0,
        },
        DbTypeTag::SmallIntUnsigned => ParquetColumnType {
            physical: ParquetPhysical::Int32,
            converted: ParquetConverted::Uint16,
            timestamp_millis: false,
            utf8: false,
            width: 0,
        },
        DbTypeTag::Int => ParquetColumnType {
            physical: ParquetPhysical::Int32,
            converted: ParquetConverted::Plain,
            timestamp_millis: false,
            utf8: false,
            width: 0,
        },
        DbTypeTag::IntUnsigned => ParquetColumnType {
            physical: ParquetPhysical::Int32,
            converted: ParquetConverted::Uint32,
            timestamp_millis: false,
            utf8: false,
            width: 0,
        },
        DbTypeTag::BigInt => ParquetColumnType {
            physical: ParquetPhysical::Int64,
            converted: ParquetConverted::Plain,
            timestamp_millis: false,
            utf8: false,
            width: 0,
        },
        DbTypeTag::BigIntUnsigned => ParquetColumnType {
            physical: ParquetPhysical::Int64,
            converted: ParquetConverted::Uint64,
            timestamp_millis: false,
            utf8: false,
            width: 0,
        },
        DbTypeTag::Timestamp => ParquetColumnType {
            physical: ParquetPhysical::Int64,
            converted: ParquetConverted::Plain,
            timestamp_millis: true,
            utf8: false,
            width: 0,
        },
        DbTypeTag::Float => ParquetColumnType {
            physical: ParquetPhysical::Float,
            converted: ParquetConverted::Plain,
            timestamp_millis: false,
            utf8: false,
            width: 0,
        },
        DbTypeTag::Double => ParquetColumnType {
            physical: ParquetPhysical::Double,
            converted: ParquetConverted::Plain,
            timestamp_millis: false,
            utf8: false,
            width: 0,
        },
        DbTypeTag::Bool => ParquetColumnType {
            physical: ParquetPhysical::Boolean,
            converted: ParquetConverted::Plain,
            timestamp_millis: false,
            utf8: false,
            width: 0,
        },
        DbTypeTag::Binary(w) => ParquetColumnType {
            physical: ParquetPhysical::ByteArray,
            converted: ParquetConverted::Plain,
            timestamp_millis: false,
            utf8: false,
            width: w,
        },
        DbTypeTag::NChar(w) => ParquetColumnType {
            physical: ParquetPhysical::ByteArray,
            converted: ParquetConverted::Plain,
            timestamp_millis: false,
            utf8: true,
            width: w,
        },
    }
}

/// Chooses the columnar layout for one database column type.
pub fn map_parquet_type(t: DbTypeTag) -> (r: ParquetColumnType)
    ensures
        r == parquet_type_of(t),
{
    let mut r = ParquetColumnType {
        physical: ParquetPhysical::Int32,
        converted: ParquetConverted::Plain,
        timestamp_millis: false,
        utf8: false,
        width: 0,
    };
    match t {
        DbTypeTag::TinyInt => {
            r.converted = ParquetConverted::Int8;
        },
        DbTypeTag::TinyIntUnsigned => {
            r.converted = ParquetConverted::Uint8;
        },
        DbTypeTag::SmallInt => {
            r.converted = ParquetConverted::Int16;
        },
        DbTypeTag::SmallIntUnsigned => {
            r.converted = ParquetConverted::Uint16;
        },
        DbTypeTag::Int => {
        },
        DbTypeTag::IntUnsigned => {
            r.converted = ParquetConverted::Uint32;
        },
        DbTypeTag::BigInt => {
            r.physical = ParquetPhysical::Int64;
        },
        DbTypeTag::BigIntUnsigned => {
            r.physical = ParquetPhysical::Int64;
            r.converted = ParquetConverted::Uint64;
        },
        DbTypeTag::Timestamp => {
            r.physical = ParquetPhysical::Int64;
            r.timestamp_millis = true;
        },
        DbTypeTag::Float => {
            r.physical = ParquetPhysical::Float;
        },
        DbTypeTag::Double => {
            r.physical = ParquetPhysical::Double;
        },
        DbTypeTag::Bool => {
            r.physical = ParquetPhysical::Boolean;
        },
        DbTypeTag::Binary(w) => {
            r.physical = ParquetPhysical::ByteArray;
            r.width = w;
        },
        DbTypeTag::NChar(w) => {
            r.physical = ParquetPhysical::ByteArray;
            r.utf8 = true;
            r.width = w;
        },
    }
    r
}

/// The database column type a columnar layout stands for, inverting the
/// mapping above; a combination the mapping never produces is refused.
pub open spec fn tag_of_parquet_type(p: ParquetColumnType) -> Option<DbTypeTag> {
    match p.physical {
        ParquetPhysical::Boolean => if p == parquet_type_of(DbTypeTag::Bool) {
            Some(DbTypeTag::Bool)
        } else {
            None
        },
        ParquetPhysical::Float => if p == parquet_type_of(DbTypeTag::Float) {
            Some(DbTypeTag::Float)
        } else {
            None
        },
        ParquetPhysical::Double => if p == parquet_type_of(DbTypeTag::Double) {
            Some(DbTypeTag::Double)
        } else {
            None
        },
        ParquetPhysical::Int32 => if p.timestamp_millis || p.utf8 || p.width != 0 {
            None
        } else {
            match p.converted {
                ParquetConverted::Plain => Some(DbTypeTag::Int),
                ParquetConverted::Int8 => Some(DbTypeTag::TinyInt),
                ParquetConverted::Int16 => Some(DbTypeTag::SmallInt),
                ParquetConverted::Uint8 => Some(DbTypeTag::TinyIntUnsigned),
                ParquetConverted::Uint16 => Some(DbTypeTag::SmallIntUnsigned),
                ParquetConverted::Uint32 => Some(DbTypeTag::IntUnsigned),
                ParquetConverted::Uint64 => None,
            }
        },
        ParquetPhysical::Int64 => if p.utf8 || p.width != 0 {
            None
        } else if p.timestamp_millis {
            if p.converted == ParquetConverted::Plain {
                Some(DbTypeTag::Timestamp)
            } else {
                None
            }
        } else {
            match p.converted {
                ParquetConverted::Plain => Some(DbTypeTag::BigInt),
                ParquetConverted::Uint64 => Some(DbTypeTag::BigIntUnsigned),
                _ => None,
            }
        },
        ParquetPhysical::ByteArray => if p.timestamp_millis || p.converted
            != ParquetConverted::Plain {
            None
        } else if p.utf8 {
            Some(DbTypeTag::NChar(p.width))
        } else {
            Some(DbTypeTag::Binary(p.width))
        },
    }
}

/// Recovers the database column type a columnar layout stands for.
pub fn parquet_column_tag(p: ParquetColumnType) -> (r: Option<DbTypeTag>)
    ensures
        r == tag_of_parquet_type(p),
{
    match p.physical {
        ParquetPhysical::Boolean => if p == map_parquet_type(DbTypeTag::Bool) {
            Some(DbTypeTag::Bool)
        } else {
            None
        },
        ParquetPhysical::Float => if p == map_parquet_type(DbTypeTag::Float) {
            Some(DbTypeTag::Float)
        } else {
            None
        },
        ParquetPhysical::Double => if p == map_parquet_type(DbTypeTag::Double) {
            Some(DbTypeTag::Double)
        } else {
            None
        },
        ParquetPhysical::Int32 => if p.timestamp_millis || p.utf8 || p.width != 0 {
            None
        } else {
            match p.converted {
                ParquetConverted::Plain => Some(DbTypeTag::Int),
                ParquetConverted::Int8 => Some(DbTypeTag::TinyInt),
                ParquetConverted::Int16 => Some(DbTypeTag::SmallInt),
                ParquetConverted::Uint8 => Some(DbTypeTag::TinyIntUnsigned),
                ParquetConverted::Uint16 => Some(DbTypeTag::SmallIntUnsigned),
                ParquetConverted::Uint32 => Some(DbTypeTag::IntUnsigned),
                ParquetConverted::Uint64 => None,
            }
        },
        ParquetPhysical::Int64 => if p.utf8 || p.width != 0 {
            None
        } else if p.timestamp_millis {
            if matches!(p.converted, ParquetConverted::Plain) {
                Some(DbTypeTag::Timestamp)
            } else {
                None
            }
        } else {
            match p.converted {
                ParquetConverted::Plain => Some(DbTypeTag::BigInt),
                ParquetConverted::Uint64 => Some(DbTypeTag::BigIntUnsigned),
                _ => None,
            }
        },
        ParquetPhysical::ByteArray => if p.timestamp_millis || !matches!(
            p.converted,
            ParquetConverted::Plain,
        ) {
            None
        } else if p.utf8 {
            Some(DbTypeTag::NChar(p.width))
        } else {
            Some(DbTypeTag::Binary(p.width))
        },
    }
}

/// Columnar schema fidelity: recovering the column type from the layout the
/// mapping chose yields the original type back, for every column type, so
/// a dump and reimport keeps widths, signedness and the instant annotation.
pub proof fn lemma_parquet_type_roundtrip(t: DbTypeTag)
    ensures
        tag_of_parquet_type(parquet_type_of(t)) == Some(t),
{
}


/// One cell as the columnar writer stores it: the value carried in its
/// column's physical slot. Floats stay as their bit patterns; the library
/// never interprets them.
#[derive(Clone, Debug, PartialEq, Eq)]
pub enum ParquetCell {
    Null,
    Bool(bool),
    I32(i32),
    I64(i64),
    F32Bits(u32),
    F64Bits(u64),
    Bytes(Vec<u8>),
    Text(String),
}

/// The mathematical value of a [`ParquetCell`].
pub enum ParquetCellModel {
    Null,
    Bool(bool),
    I32(i32),
    I64(i64),
    F32Bits(u32),
    F64Bits(u64),
    Bytes(Seq<u8>),
    Text(Seq<char>),
}

impl View for ParquetCell {
    type V = ParquetCellModel;

    open spec fn view(&self) -> ParquetCellModel {
        match self {
            ParquetCell::Null => ParquetCellModel::Null,
            ParquetCell::Bool(b) => ParquetCellModel::Bool(*b),
            ParquetCell::I32(x) => ParquetCellModel::I32(*x),
            ParquetCell::I64(x) => ParquetCellModel::I64(*x),
            ParquetCell::F32Bits(b) => ParquetCellModel::F32Bits(*b),
            ParquetCell::F64Bits(b) => ParquetCellModel::F64Bits(*b),
            ParquetCell::Bytes(b) => ParquetCellModel::Bytes(b@),
            ParquetCell::Text(s) => ParquetCellModel::Text(s@),
        }
    }
}

/// How one stored value lands in its column's physical slot: a null fills
/// any slot; integers widened into the 64-bit slot stay there; a value
/// widened to 64 bits whose column keeps the 32-bit slot (the unsigned
/// 32-bit column type) is stored as its 32-bit pattern; payloads go into
/// the byte-array slot. A value whose variant does not fit the slot has no
/// cell.
pub open spec fn parquet_cell_of(layout: ParquetColumnType, v: ValueModel) -> Option<
    ParquetCellModel,
> {
    match v {
        ValueModel::Null => Some(ParquetCellModel::Null),
        ValueModel::Boolean(b) => if layout.physical == ParquetPhysical::Boolean {
            Some(ParquetCellModel::Bool(b))
        } else {
            None
        },
        ValueModel::Int(x) => if layout.physical == ParquetPhysical::Int32 {
            Some(ParquetCellModel::I32(x))
        } else {
            None
        },
        ValueModel::Long(x) => if layout.physical == ParquetPhysical::Int64 {
            Some(ParquetCellModel::I64(x))
        } else if layout.physical == ParquetPhysical::Int32 && 0 <= x <= 0xffff_ffff {
            Some(ParquetCellModel::I32((x as u32) as i32))
        } else {
            None
        },
        ValueModel::Timestamp(x) => if layout.physical == ParquetPhysical::Int64 {
            Some(ParquetCellModel::I64(x))
        } else {
            None
        },
        ValueModel::Float { bits, lit } => if layout.physical == ParquetPhysical::Float {
            Some(ParquetCellModel::F32Bits(bits))
        } else {
            None
        },
        ValueModel::Double { bits, lit } => if layout.physical == ParquetPhysical::Double {
            Some(ParquetCellModel::F64Bits(bits))
        } else {
            None
        },
        ValueModel::Bytes(b) => if layout.physical == ParquetPhysical::ByteArray {
            Some(ParquetCellModel::Bytes(b))
        } else {
            None
        },
        ValueModel::Str(s) => if layout.physical == ParquetPhysical::ByteArray {
            Some(ParquetCellModel::Text(s))
        } else {
            None
        },
    }
}

/// Every encoded cell has a slot: a cell that fits its column's database
/// type, once widened, always lands in the layout that the columnar
/// mapping chose for that type — including the unsigned 32-bit column,
/// whose widened value is stored back as its 32-bit pattern.
pub proof fn lemma_encoded_cell_has_slot(t: DbTypeTag, f: FieldModel)
    requires
        field_matches_tag(f, t),
    ensures
        parquet_cell_of(parquet_type_of(t), encoded_field(f)) is Some,
{
}

/// Picks the slot value for one stored cell of column `column`: exactly
/// the cell the slot mapping assigns, and a typed fault where the value's
/// variant cannot fit the slot.
pub fn parquet_cell(layout: ParquetColumnType, v: &TargetValue, column: usize) -> (r: Result<
    ParquetCell,
    EncodeError,
>)
    ensures
        match parquet_cell_of(layout, v@) {
            Some(c) => r matches Ok(rc) && rc@ == c,
            None => r == Err::<ParquetCell, EncodeError>(EncodeError::Mismatch { column }),
        },
        forall|t: DbTypeTag, f: FieldModel|
            field_matches_tag(f, t) && layout == parquet_type_of(t) && v@ == encoded_field(f)
                ==> r is Ok,
{
    let r: Result<ParquetCell, EncodeError> = match v {
        TargetValue::Null => Ok(ParquetCell::Null),
        TargetValue::Boolean(b) => if matches!(layout.physical, ParquetPhysical::Boolean) {
            Ok(ParquetCell::Bool(*b))
        } else {
            Err(EncodeError::Mismatch { column })
        },
        TargetValue::Int(x) => if matches!(layout.physical, ParquetPhysical::Int32) {
            Ok(ParquetCell::I32(*x))
        } else {
            Err(EncodeError::Mismatch { column })
        },
        TargetValue::Long(x) => if matches!(layout.physical, ParquetPhysical::Int64) {
            Ok(ParquetCell::I64(*x))
        } else if matches!(layout.physical, ParquetPhysical::Int32) && 0 <= *x && *x
            <= 0xffff_ffff {
            Ok(ParquetCell::I32((*x as u32) as i32))
        } else {
            Err(EncodeError::Mismatch { column })
        },
        TargetValue::Timestamp(x) => if matches!(layout.physical, ParquetPhysical::Int64) {
            Ok(ParquetCell::I64(*x))
        } else {
            Err(EncodeError::Mismatch { column })
        },
        TargetValue::Float { bits, lit: _ } => if matches!(layout.physical, ParquetPhysical::Float) {
            Ok(ParquetCell::F32Bits(*bits))
        } else {
            Err(EncodeError::Mismatch { column })
        },
        TargetValue::Double { bits, lit: _ } => if matches!(
            layout.physical,
            ParquetPhysical::Double,
        ) {
            Ok(ParquetCell::F64Bits(*bits))
        } else {
            Err(EncodeError::Mismatch { column })
        },
        TargetValue::Bytes(b) => if matches!(layout.physical, ParquetPhysical::ByteArray) {
            Ok(ParquetCell::Bytes(vstd::slice::slice_to_vec(b.as_slice())))
        } else {
            Err(EncodeError::Mismatch { column })
        },
        TargetValue::Str(s) => if matches!(layout.physical, ParquetPhysical::ByteArray) {
            Ok(ParquetCell::Text(s.clone()))
        } else {
            Err(EncodeError::Mismatch { column })
        },
    };
    proof {
        assert forall|t: DbTypeTag, f: FieldModel|
            field_matches_tag(f, t) && layout == parquet_type_of(t) && v@ == encoded_field(f)
                implies r is Ok by {
            lemma_encoded_cell_has_slot(t, f);
        }
    }
    r
}

} // verus!
