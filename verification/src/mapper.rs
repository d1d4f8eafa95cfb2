use vstd::prelude::*;
use vstd::string::StringSliceAdditionalSpecFns;

use crate::types::{DbTypeTag, SchemaMappingError, TargetType};

verus! {

/// The single-sourced mapping table from database column types to target
/// primitive types: total over the closed enum, and deterministic because it
/// is a function. Unsigned 8/16-bit widen into the signed 32-bit slot;
/// unsigned 32-bit widens to 64-bit, whose signed slot alone can carry its
/// full range; unsigned 64-bit is stored as the signed 64-bit bit pattern.
pub open spec fn target_type_of(t: DbTypeTag) -> TargetType {
    match t {
        DbTypeTag::TinyInt => TargetType::Int32,
        DbTypeTag::TinyIntUnsigned => TargetType::Int32,
        DbTypeTag::SmallInt => TargetType::Int32,
        DbTypeTag::SmallIntUnsigned => TargetType::Int32,
        DbTypeTag::Int => TargetType::Int32,
        DbTypeTag::IntUnsigned => TargetType::Int64,
        DbTypeTag::BigInt => TargetType::Int64,
        DbTypeTag::BigIntUnsigned => TargetType::Int64,
        DbTypeTag::Float => TargetType::Float32,
        DbTypeTag::Double => TargetType::Float64,
        DbTypeTag::Bool => TargetType::Boolean,
        DbTypeTag::Binary(w) => TargetType::Bytes(w),
        DbTypeTag::NChar(w) => TargetType::Utf8(w),
        DbTypeTag::Timestamp => TargetType::TimestampMillis,
    }
}

/// Maps one database column type to its target-format type; the same tag
/// always yields the same target type.
pub fn map_db_type(t: DbTypeTag) -> (r: TargetType)
    ensures
        r == target_type_of(t),
{
    match t {
        DbTypeTag::TinyInt => TargetType::Int32,
        DbTypeTag::TinyIntUnsigned => TargetType::Int32,
        DbTypeTag::SmallInt => TargetType::Int32,
        DbTypeTag::SmallIntUnsigned => TargetType::Int32,
        DbTypeTag::Int => TargetType::Int32,
        DbTypeTag::IntUnsigned => TargetType::Int64,
        DbTypeTag::BigInt => TargetType::Int64,
        DbTypeTag::BigIntUnsigned => TargetType::Int64,
        DbTypeTag::Float => TargetType::Float32,
        DbTypeTag::Double => TargetType::Float64,
        DbTypeTag::Bool => TargetType::Boolean,
        DbTypeTag::Binary(w) => TargetType::Bytes(w),
        DbTypeTag::NChar(w) => TargetType::Utf8(w),
        DbTypeTag::Timestamp => TargetType::TimestampMillis,
    }
}

/// The closed table of type names the describe query can report, uppercase.
/// Binary and text types take the column's declared width; every other name
/// is out of the table.
pub open spec fn tag_of_type_name(name: Seq<u8>, width: u32) -> Option<DbTypeTag> {
    if name == "TINYINT".spec_bytes() {
        Some(DbTypeTag::TinyInt)
    } else if name == "TINYINT UNSIGNED".spec_bytes() {
        Some(DbTypeTag::TinyIntUnsigned)
    } else if name == "SMALLINT".spec_bytes() {
        Some(DbTypeTag::SmallInt)
    } else if name == "SMALLINT UNSIGNED".spec_bytes() {
        Some(DbTypeTag::SmallIntUnsigned)
    } else if name == "INT".spec_bytes() {
        Some(DbTypeTag::Int)
    } else if name == "INT UNSIGNED".spec_bytes() {
        Some(DbTypeTag::IntUnsigned)
    } else if name == "BIGINT".spec_bytes() {
        Some(DbTypeTag::BigInt)
    } else if name == "BIGINT UNSIGNED".spec_bytes() {
        Some(DbTypeTag::BigIntUnsigned)
    } else if name == "FLOAT".spec_bytes() {
        Some(DbTypeTag::Float)
    } else if name == "DOUBLE".spec_bytes() {
        Some(DbTypeTag::Double)
    } else if name == "BOOL".spec_bytes() {
        Some(DbTypeTag::Bool)
    } else if name == "BINARY".spec_bytes() {
        Some(DbTypeTag::Binary(width))
    } else if name == "NCHAR".spec_bytes() {
        Some(DbTypeTag::NChar(width))
    } else if name == "TIMESTAMP".spec_bytes() {
        Some(DbTypeTag::Timestamp)
    } else {
        None
    }
}

/// Byte-for-byte equality of two slices.
pub fn bytes_eq(a: &[u8], b: &[u8]) -> (r: bool)
    ensures
        r == (a@ == b@),
{
    if a.len() != b.len() {
        return false;
    }
    let mut i: usize = 0;
    while i < a.len()
        invariant
            0 <= i <= a@.len(),
            a@.len() == b@.len(),
            forall|j: int| 0 <= j < i ==> a@[j] == b@[j],
        decreases a@.len() - i,
    {
        if a[i] != b[i] {
            return false;
        }
        i = i + 1;
    }
    assert(a@ =~= b@);
    true
}

/// Parses one type name from the describe output into the closed enum,
/// attaching the column's declared width to binary and text types. An
/// out-of-table name is rejected as `UnsupportedType`, never coerced and
/// never a panic.
pub fn parse_db_type(name: &[u8], width: u32) -> (r: Result<DbTypeTag, SchemaMappingError>)
    ensures
        match r {
            Ok(t) => tag_of_type_name(name@, width) == Some(t),
            Err(e) => tag_of_type_name(name@, width) is None && (e matches
                SchemaMappingError::UnsupportedType(n) && n@ == name@),
        },
{
    if bytes_eq(name, "TINYINT".as_bytes()) {
        Ok(DbTypeTag::TinyInt)
    } else if bytes_eq(name, "TINYINT UNSIGNED".as_bytes()) {
        Ok(DbTypeTag::TinyIntUnsigned)
    } else if bytes_eq(name, "SMALLINT".as_bytes()) {
        Ok(DbTypeTag::SmallInt)
    } else if bytes_eq(name, "SMALLINT UNSIGNED".as_bytes()) {
        Ok(DbTypeTag::SmallIntUnsigned)
    } else if bytes_eq(name, "INT".as_bytes()) {
        Ok(DbTypeTag::Int)
    } else if bytes_eq(name, "INT UNSIGNED".as_bytes()) {
        Ok(DbTypeTag::IntUnsigned)
    } else if bytes_eq(name, "BIGINT".as_bytes()) {
        Ok(DbTypeTag::BigInt)
    } else if bytes_eq(name, "BIGINT UNSIGNED".as_bytes()) {
        Ok(DbTypeTag::BigIntUnsigned)
    } else if bytes_eq(name, "FLOAT".as_bytes()) {
        Ok(DbTypeTag::Float)
    } else if bytes_eq(name, "DOUBLE".as_bytes()) {
        Ok(DbTypeTag::Double)
    } else if bytes_eq(name, "BOOL".as_bytes()) {
        Ok(DbTypeTag::Bool)
    } else if bytes_eq(name, "BINARY".as_bytes()) {
        Ok(DbTypeTag::Binary(width))
    } else if bytes_eq(name, "NCHAR".as_bytes()) {
        Ok(DbTypeTag::NChar(width))
    } else if bytes_eq(name, "TIMESTAMP".as_bytes()) {
        Ok(DbTypeTag::Timestamp)
    } else {
        Err(SchemaMappingError::UnsupportedType(vstd::slice::slice_to_vec(name)))
    }
}


/// The describe name of one database column type, uppercase, as the
/// describe query reports it; widths ride separately.
pub open spec fn describe_name_of(t: DbTypeTag) -> Seq<u8> {
    match t {
        DbTypeTag::TinyInt => "TINYINT".spec_bytes(),
        DbTypeTag::TinyIntUnsigned => "TINYINT UNSIGNED".spec_bytes(),
        DbTypeTag::SmallInt => "SMALLINT".spec_bytes(),
        DbTypeTag::SmallIntUnsigned => "SMALLINT UNSIGNED".spec_bytes(),
        DbTypeTag::Int => "INT".spec_bytes(),
        DbTypeTag::IntUnsigned => "INT UNSIGNED".spec_bytes(),
        DbTypeTag::BigInt => "BIGINT".spec_bytes(),
        DbTypeTag::BigIntUnsigned => "BIGINT UNSIGNED".spec_bytes(),
        DbTypeTag::Float => "FLOAT".spec_bytes(),
        DbTypeTag::Double => "DOUBLE".spec_bytes(),
        DbTypeTag::Bool => "BOOL".spec_bytes(),
        DbTypeTag::Binary(_) => "BINARY".spec_bytes(),
        DbTypeTag::NChar(_) => "NCHAR".spec_bytes(),
        DbTypeTag::Timestamp => "TIMESTAMP".spec_bytes(),
    }
}

/// The declared width a column type carries: the width of a binary or
/// text type, zero for every other type.
pub open spec fn declared_width_of(t: DbTypeTag) -> u32 {
    match t {
        DbTypeTag::Binary(w) => w,
        DbTypeTag::NChar(w) => w,
        _ => 0,
    }
}

/// Appends the describe name of one column type.
pub fn push_describe_name(out: &mut Vec<u8>, t: DbTypeTag)
    ensures
        final(out)@ == old(out)@ + describe_name_of(t),
{
    match t {
        DbTypeTag::TinyInt => crate::text::push_bytes(out, "TINYINT".as_bytes()),
        DbTypeTag::TinyIntUnsigned => crate::text::push_bytes(out, "TINYINT UNSIGNED".as_bytes()),
        DbTypeTag::SmallInt => crate::text::push_bytes(out, "SMALLINT".as_bytes()),
        DbTypeTag::SmallIntUnsigned => crate::text::push_bytes(
            out,
            "SMALLINT UNSIGNED".as_bytes(),
        ),
        DbTypeTag::Int => crate::text::push_bytes(out, "INT".as_bytes()),
        DbTypeTag::IntUnsigned => crate::text::push_bytes(out, "INT UNSIGNED".as_bytes()),
        DbTypeTag::BigInt => crate::text::push_bytes(out, "BIGINT".as_bytes()),
        DbTypeTag::BigIntUnsigned => crate::text::push_bytes(out, "BIGINT UNSIGNED".as_bytes()),
        DbTypeTag::Float => crate::text::push_bytes(out, "FLOAT".as_bytes()),
        DbTypeTag::Double => crate::text::push_bytes(out, "DOUBLE".as_bytes()),
        DbTypeTag::Bool => crate::text::push_bytes(out, "BOOL".as_bytes()),
        DbTypeTag::Binary(_) => crate::text::push_bytes(out, "BINARY".as_bytes()),
        DbTypeTag::NChar(_) => crate::text::push_bytes(out, "NCHAR".as_bytes()),
        DbTypeTag::Timestamp => crate::text::push_bytes(out, "TIMESTAMP".as_bytes()),
    }
}

/// The declared width a column type carries.
pub fn declared_width(t: DbTypeTag) -> (r: u32)
    ensures
        r == declared_width_of(t),
{
    match t {
        DbTypeTag::Binary(w) => w,
        DbTypeTag::NChar(w) => w,
        _ => 0,
    }
}

proof fn lemma_describe_name_bytes()
    ensures
        "TINYINT".spec_bytes() =~= seq![0x54u8, 0x49u8, 0x4eu8, 0x59u8, 0x49u8, 0x4eu8, 0x54u8],
        "TINYINT UNSIGNED".spec_bytes() =~= seq![0x54u8, 0x49u8, 0x4eu8, 0x59u8, 0x49u8, 0x4eu8, 0x54u8, 0x20u8, 0x55u8, 0x4eu8, 0x53u8, 0x49u8, 0x47u8, 0x4eu8, 0x45u8, 0x44u8],
        "SMALLINT".spec_bytes() =~= seq![0x53u8, 0x4du8, 0x41u8, 0x4cu8, 0x4cu8, 0x49u8, 0x4eu8, 0x54u8],
        "SMALLINT UNSIGNED".spec_bytes() =~= seq![0x53u8, 0x4du8, 0x41u8, 0x4cu8, 0x4cu8, 0x49u8, 0x4eu8, 0x54u8, 0x20u8, 0x55u8, 0x4eu8, 0x53u8, 0x49u8, 0x47u8, 0x4eu8, 0x45u8, 0x44u8],
        "INT".spec_bytes() =~= seq![0x49u8, 0x4eu8, 0x54u8],
        "INT UNSIGNED".spec_bytes() =~= seq![0x49u8, 0x4eu8, 0x54u8, 0x20u8, 0x55u8, 0x4eu8, 0x53u8, 0x49u8, 0x47u8, 0x4eu8, 0x45u8, 0x44u8],
        "BIGINT".spec_bytes() =~= seq![0x42u8, 0x49u8, 0x47u8, 0x49u8, 0x4eu8, 0x54u8],
        "BIGINT UNSIGNED".spec_bytes() =~= seq![0x42u8, 0x49u8, 0x47u8, 0x49u8, 0x4eu8, 0x54u8, 0x20u8, 0x55u8, 0x4eu8, 0x53u8, 0x49u8, 0x47u8, 0x4eu8, 0x45u8, 0x44u8],
        "FLOAT".spec_bytes() =~= seq![0x46u8, 0x4cu8, 0x4fu8, 0x41u8, 0x54u8],
        "DOUBLE".spec_bytes() =~= seq![0x44u8, 0x4fu8, 0x55u8, 0x42u8, 0x4cu8, 0x45u8],
        "BOOL".spec_bytes() =~= seq![0x42u8, 0x4fu8, 0x4fu8, 0x4cu8],
        "BINARY".spec_bytes() =~= seq![0x42u8, 0x49u8, 0x4eu8, 0x41u8, 0x52u8, 0x59u8],
        "NCHAR".spec_bytes() =~= seq![0x4eu8, 0x43u8, 0x48u8, 0x41u8, 0x52u8],
        "TIMESTAMP".spec_bytes() =~= seq![0x54u8, 0x49u8, 0x4du8, 0x45u8, 0x53u8, 0x54u8, 0x41u8, 0x4du8, 0x50u8],
{
    broadcast use vstd::utf8::is_ascii_chars_encode_utf8;

    reveal_strlit("TINYINT");
    assert(vstd::utf8::is_ascii_chars("TINYINT"@));
    reveal_strlit("TINYINT UNSIGNED");
    assert(vstd::utf8::is_ascii_chars("TINYINT UNSIGNED"@));
    reveal_strlit("SMALLINT");
    assert(vstd::utf8::is_ascii_chars("SMALLINT"@));
    reveal_strlit("SMALLINT UNSIGNED");
    assert(vstd::utf8::is_ascii_chars("SMALLINT UNSIGNED"@));
    reveal_strlit("INT");
    assert(vstd::utf8::is_ascii_chars("INT"@));
    reveal_strlit("INT UNSIGNED");
    assert(vstd::utf8::is_ascii_chars("INT UNSIGNED"@));
    reveal_strlit("BIGINT");
    assert(vstd::utf8::is_ascii_chars("BIGINT"@));
    reveal_strlit("BIGINT UNSIGNED");
    assert(vstd::utf8::is_ascii_chars("BIGINT UNSIGNED"@));
    reveal_strlit("FLOAT");
    assert(vstd::utf8::is_ascii_chars("FLOAT"@));
    reveal_strlit("DOUBLE");
    assert(vstd::utf8::is_ascii_chars("DOUBLE"@));
    reveal_strlit("BOOL");
    assert(vstd::utf8::is_ascii_chars("BOOL"@));
    reveal_strlit("BINARY");
    assert(vstd::utf8::is_ascii_chars("BINARY"@));
    reveal_strlit("NCHAR");
    assert(vstd::utf8::is_ascii_chars("NCHAR"@));
    reveal_strlit("TIMESTAMP");
    assert(vstd::utf8::is_ascii_chars("TIMESTAMP"@));
}

/// Annotation fidelity: parsing a column type's describe name together
/// with its declared width yields the type back, for every column type,
/// so the name-and-width annotation a schema carries loses nothing.
pub proof fn lemma_annotation_roundtrip(t: DbTypeTag)
    ensures
        tag_of_type_name(describe_name_of(t), declared_width_of(t)) == Some(t),
{
    lemma_describe_name_bytes();
    assert("TINYINT".spec_bytes().len() == 7);
    assert("TINYINT UNSIGNED".spec_bytes().len() == 16);
    assert("SMALLINT".spec_bytes().len() == 8);
    assert("SMALLINT UNSIGNED".spec_bytes().len() == 17);
    assert("INT".spec_bytes().len() == 3);
    assert("INT UNSIGNED".spec_bytes().len() == 12);
    assert("BIGINT".spec_bytes().len() == 6);
    assert("BIGINT UNSIGNED".spec_bytes().len() == 15);
    assert("FLOAT".spec_bytes().len() == 5);
    assert("DOUBLE".spec_bytes().len() == 6);
    assert("BOOL".spec_bytes().len() == 4);
    assert("BINARY".spec_bytes().len() == 6);
    assert("NCHAR".spec_bytes().len() == 5);
    assert("TIMESTAMP".spec_bytes().len() == 9);
    match t {
        DbTypeTag::TinyInt => {
            assert(tag_of_type_name(describe_name_of(t), declared_width_of(t)) == Some(t));
        },
        DbTypeTag::TinyIntUnsigned => {
            assert(tag_of_type_name(describe_name_of(t), declared_width_of(t)) == Some(t));
        },
        DbTypeTag::SmallInt => {
            assert(tag_of_type_name(describe_name_of(t), declared_width_of(t)) == Some(t));
        },
        DbTypeTag::SmallIntUnsigned => {
            assert(tag_of_type_name(describe_name_of(t), declared_width_of(t)) == Some(t));
        },
        DbTypeTag::Int => {
            assert(tag_of_type_name(describe_name_of(t), declared_width_of(t)) == Some(t));
        },
        DbTypeTag::IntUnsigned => {
            assert(tag_of_type_name(describe_name_of(t), declared_width_of(t)) == Some(t));
        },
        DbTypeTag::BigInt => {
            assert(tag_of_type_name(describe_name_of(t), declared_width_of(t)) == Some(t));
        },
        DbTypeTag::BigIntUnsigned => {
            assert(tag_of_type_name(describe_name_of(t), declared_width_of(t)) == Some(t));
        },
        DbTypeTag::Float => {
            assert(tag_of_type_name(describe_name_of(t), declared_width_of(t)) == Some(t));
        },
        DbTypeTag::Double => {
            assert(tag_of_type_name(describe_name_of(t), declared_width_of(t)) == Some(t));
        },
        DbTypeTag::Bool => {
            assert(tag_of_type_name(describe_name_of(t), declared_width_of(t)) == Some(t));
        },
        DbTypeTag::Binary(_) => {
            assert(tag_of_type_name(describe_name_of(t), declared_width_of(t)) == Some(t));
        },
        DbTypeTag::NChar(_) => {
            assert(tag_of_type_name(describe_name_of(t), declared_width_of(t)) == Some(t));
        },
        DbTypeTag::Timestamp => {
            assert(tag_of_type_name(describe_name_of(t), declared_width_of(t)) == Some(t));
        },
    }
}

} // verus!
