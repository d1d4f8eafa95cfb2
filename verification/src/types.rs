use vstd::prelude::*;

verus! {

/// Closed enumeration of the database's column types. Fixed-width binary and
/// text columns carry their declared width; it is never inferred from data.
#[derive(Clone, Copy, Debug, PartialEq, Eq, Structural)]
pub enum DbTypeTag {
    TinyInt,
    TinyIntUnsigned,
    SmallInt,
    SmallIntUnsigned,
    Int,
    IntUnsigned,
    BigInt,
    BigIntUnsigned,
    Float,
    Double,
    Bool,
    Binary(u32),
    NChar(u32),
    Timestamp,
}

/// The target file format's primitive/logical types, shared by both container
/// formats. Byte widths for binary/text columns ride along as metadata.
#[derive(Clone, Copy, Debug, PartialEq, Eq, Structural)]
pub enum TargetType {
    Int32,
    Int64,
    /// 64-bit integer with a millisecond-instant annotation, not UTC-adjusted.
    TimestampMillis,
    Boolean,
    Float32,
    Float64,
    Bytes(u32),
    Utf8(u32),
}

/// One fetched database cell. Floating-point cells carry their IEEE-754 bit
/// pattern together with the decimal literal the database client rendered
/// for them; the library never interprets the bits itself.
#[derive(Clone, Debug, PartialEq, Eq)]
pub enum Field {
    Null,
    Bool(bool),
    TinyInt(i8),
    SmallInt(i16),
    Int(i32),
    BigInt(i64),
    Float { bits: u32, lit: Vec<u8> },
    Double { bits: u64, lit: Vec<u8> },
    Binary(Vec<u8>),
    NChar(String),
    /// Epoch milliseconds.
    Timestamp(i64),
    UTinyInt(u8),
    USmallInt(u16),
    UInt(u32),
    UBigInt(u64),
}

/// The mathematical value of a [`Field`].
pub enum FieldModel {
    Null,
    Bool(bool),
    TinyInt(i8),
    SmallInt(i16),
    Int(i32),
    BigInt(i64),
    Float { bits: u32, lit: Seq<u8> },
    Double { bits: u64, lit: Seq<u8> },
    Binary(Seq<u8>),
    NChar(Seq<char>),
    Timestamp(i64),
    UTinyInt(u8),
    USmallInt(u16),
    UInt(u32),
    UBigInt(u64),
}

impl View for Field {
    type V = FieldModel;

    open spec fn view(&self) -> FieldModel {
        match self {
            Field::Null => FieldModel::Null,
            Field::Bool(v) => FieldModel::Bool(*v),
            Field::TinyInt(v) => FieldModel::TinyInt(*v),
            Field::SmallInt(v) => FieldModel::SmallInt(*v),
            Field::Int(v) => FieldModel::Int(*v),
            Field::BigInt(v) => FieldModel::BigInt(*v),
            Field::Float { bits, lit } => FieldModel::Float { bits: *bits, lit: lit@ },
            Field::Double { bits, lit } => FieldModel::Double { bits: *bits, lit: lit@ },
            Field::Binary(v) => FieldModel::Binary(v@),
            Field::NChar(v) => FieldModel::NChar(v@),
            Field::Timestamp(v) => FieldModel::Timestamp(*v),
            Field::UTinyInt(v) => FieldModel::UTinyInt(*v),
            Field::USmallInt(v) => FieldModel::USmallInt(*v),
            Field::UInt(v) => FieldModel::UInt(*v),
            Field::UBigInt(v) => FieldModel::UBigInt(*v),
        }
    }
}

impl DeepView for Field {
    type V = FieldModel;

    open spec fn deep_view(&self) -> FieldModel {
        self.view()
    }
}

/// One value of a target-format record, after the widening rules have been
/// applied. This is the shape both container formats store.
#[derive(Clone, Debug, PartialEq, Eq)]
pub enum TargetValue {
    Null,
    Boolean(bool),
    Int(i32),
    Long(i64),
    /// Epoch milliseconds under the instant annotation.
    Timestamp(i64),
    Float { bits: u32, lit: Vec<u8> },
    Double { bits: u64, lit: Vec<u8> },
    Bytes(Vec<u8>),
    Str(String),
}

/// The mathematical value of a [`TargetValue`].
pub enum ValueModel {
    Null,
    Boolean(bool),
    Int(i32),
    Long(i64),
    Timestamp(i64),
    Float { bits: u32, lit: Seq<u8> },
    Double { bits: u64, lit: Seq<u8> },
    Bytes(Seq<u8>),
    Str(Seq<char>),
}

impl View for TargetValue {
    type V = ValueModel;

    open spec fn view(&self) -> ValueModel {
        match self {
            TargetValue::Null => ValueModel::Null,
            TargetValue::Boolean(v) => ValueModel::Boolean(*v),
            TargetValue::Int(v) => ValueModel::Int(*v),
            TargetValue::Long(v) => ValueModel::Long(*v),
            TargetValue::Timestamp(v) => ValueModel::Timestamp(*v),
            TargetValue::Float { bits, lit } => ValueModel::Float { bits: *bits, lit: lit@ },
            TargetValue::Double { bits, lit } => ValueModel::Double { bits: *bits, lit: lit@ },
            TargetValue::Bytes(v) => ValueModel::Bytes(v@),
            TargetValue::Str(v) => ValueModel::Str(v@),
        }
    }
}

impl DeepView for TargetValue {
    type V = ValueModel;

    open spec fn deep_view(&self) -> ValueModel {
        self.view()
    }
}

/// One column of the table being exported or imported. The name is carried
/// as its UTF-8 bytes, exactly as the describe query reported it.
#[derive(Clone, Debug, PartialEq, Eq)]
pub struct ColumnDescriptor {
    pub name: Vec<u8>,
    pub db_type: DbTypeTag,
    pub ordinal: u32,
}

/// The mathematical value of a [`ColumnDescriptor`].
pub struct ColumnModel {
    pub name: Seq<u8>,
    pub db_type: DbTypeTag,
    pub ordinal: u32,
}

impl View for ColumnDescriptor {
    type V = ColumnModel;

    open spec fn view(&self) -> ColumnModel {
        ColumnModel { name: self.name@, db_type: self.db_type, ordinal: self.ordinal }
    }
}

impl DeepView for ColumnDescriptor {
    type V = ColumnModel;

    open spec fn deep_view(&self) -> ColumnModel {
        self.view()
    }
}

/// Structural failures while building a schema.
#[derive(Clone, Debug, PartialEq, Eq)]
pub enum SchemaMappingError {
    /// The describe output named a column type outside the supported table.
    UnsupportedType(Vec<u8>),
    /// Two columns share a name.
    DuplicateColumn(Vec<u8>),
    /// A column name is not a plain identifier. This fault extends the
    /// structural taxonomy deliberately: column names are spliced unquoted
    /// into the table definition and stand as record-schema field names, so
    /// anything but a plain identifier must be refused before either text
    /// is built.
    InvalidColumnName(Vec<u8>),
}

/// Failures while converting one row into target-format values.
#[derive(Clone, Debug, PartialEq, Eq)]
pub enum EncodeError {
    /// The row holds a different number of cells than the schema has columns.
    Arity { expected: usize, got: usize },
    /// A cell's variant does not fit its column's type.
    Mismatch { column: usize },
    /// The file writer failed; raised by the caller that owns the writer.
    Io(String),
}

/// Why a stored value could not be decoded for its column.
#[derive(Clone, Copy, Debug, PartialEq, Eq, Structural)]
pub enum DecodeReason {
    /// The stored value's variant is not the one the column's type stores.
    Mismatch,
    /// The stored integer does not fit the column's declared width.
    OutOfRange,
    /// The stored row has a different arity than the schema.
    Arity,
}

/// Failure to decode one stored value, naming the column it sat in.
#[derive(Clone, Copy, Debug, PartialEq, Eq, Structural)]
pub struct DecodeError {
    pub column: usize,
    pub reason: DecodeReason,
}

/// The full error taxonomy. Components return these; only the orchestrator
/// may end a whole run, and only on connection or schema-mapping failures.
#[derive(Clone, Debug, PartialEq, Eq)]
pub enum Error {
    Connection(String),
    SchemaMapping(SchemaMappingError),
    Encode(EncodeError),
    Decode(DecodeError),
    FileIO(String),
    Query { statement: Vec<u8>, cause: String },
}

/// A byte that may open an identifier: an ASCII letter or an underscore.
pub open spec fn is_ident_start(b: u8) -> bool {
    (0x41 <= b <= 0x5a) || (0x61 <= b <= 0x7a) || b == 0x5f
}

/// A byte that may continue an identifier: a letter, digit or underscore.
pub open spec fn is_ident_byte(b: u8) -> bool {
    is_ident_start(b) || (0x30 <= b <= 0x39)
}

/// A plain SQL/record identifier over its UTF-8 bytes: nonempty, opening
/// with a letter or underscore, all bytes letters, digits or underscores.
pub open spec fn is_identifier(s: Seq<u8>) -> bool {
    &&& s.len() > 0
    &&& is_ident_start(s[0])
    &&& forall|i: int| 0 <= i < s.len() ==> is_ident_byte(#[trigger] s[i])
}

/// Bytes Rust's decimal rendering of a float can produce: digits, sign, dot,
/// and the letters of `inf` and `NaN`. None of them can break SQL syntax:
/// no quote, separator or control byte is admitted. An `inf` or `NaN`
/// literal therefore passes into the insert bare, and whether the database
/// accepts such a value is its own decision.
pub open spec fn is_float_lit_byte(b: u8) -> bool {
    (0x30 <= b <= 0x39) || b == 0x2d || b == 0x2e || b == 0x69 || b == 0x6e || b == 0x66 || b
        == 0x4e || b == 0x61
}

/// A well-formed floating-point literal payload.
pub open spec fn is_float_lit(s: Seq<u8>) -> bool {
    &&& s.len() > 0
    &&& forall|i: int| 0 <= i < s.len() ==> is_float_lit_byte(#[trigger] s[i])
}

} // verus!
