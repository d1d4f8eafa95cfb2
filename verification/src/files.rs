use vstd::prelude::*;
use vstd::string::StringSliceAdditionalSpecFns;

use crate::text::push_bytes;
use crate::Formats;

verus! {

/// The glob pattern that lists a directory's data files for one container
/// format: the directory, a separator unless one is already there, and the
/// format's file suffix.
pub open spec fn file_pattern(dir: Seq<u8>, f: Formats) -> Seq<u8> {
    let sep: Seq<u8> = if dir.len() > 0 && dir[dir.len() - 1] == 0x2f {
        Seq::empty()
    } else {
        "/".spec_bytes()
    };
    let suffix: Seq<u8> = match f {
        Formats::Avro => "*.avro".spec_bytes(),
        Formats::Parquet => "*.parquet".spec_bytes(),
    };
    dir + sep + suffix
}

/// Builds the glob pattern that file discovery walks for one format.
pub fn data_file_pattern(dir: &[u8], format: Formats) -> (r: Vec<u8>)
    ensures
        r@ == file_pattern(dir@, format),
{
    let mut out: Vec<u8> = Vec::new();
    push_bytes(&mut out, dir);
    if !(dir.len() > 0 && dir[dir.len() - 1] == 0x2f) {
        push_bytes(&mut out, "/".as_bytes());
    }
    match format {
        Formats::Avro => push_bytes(&mut out, "*.avro".as_bytes()),
        Formats::Parquet => push_bytes(&mut out, "*.parquet".as_bytes()),
    }
    assert(out@ =~= file_pattern(dir@, format));
    out
}

} // verus!
