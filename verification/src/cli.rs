use vstd::prelude::*;

use crate::Formats;

verus! {

/// The two actions the tool offers.
#[derive(Clone, Copy, Debug, PartialEq, Eq, Structural)]
pub enum Commands {
    DumpIn,
    DumpOut,
}

/// The parsed command line: the action, the container format's name as
/// given, the target directory path, and the worker count if one was set.
/// Argument parsing itself stays with the binary around the library.
#[derive(Clone, Debug, PartialEq, Eq)]
pub struct Cli {
    pub command: Commands,
    pub format: String,
    pub path: String,
    pub thread: Option<u32>,
}

/// A byte lowered into ASCII lower case.
pub open spec fn lower_byte(b: u8) -> u8 {
    if 0x41 <= b <= 0x5a {
        (b + 0x20) as u8
    } else {
        b
    }
}

/// The format a selector names, compared in ASCII lower case.
pub open spec fn format_of_selector(s: Seq<u8>) -> Option<Formats> {
    if s.map_values(|b: u8| lower_byte(b)) == seq![
        0x61u8,
        0x76u8,
        0x72u8,
        0x6fu8,
    ] {
        Some(Formats::Avro)
    } else if s.map_values(|b: u8| lower_byte(b)) == seq![
        0x70u8,
        0x61u8,
        0x72u8,
        0x71u8,
        0x75u8,
        0x65u8,
        0x74u8,
    ] {
        Some(Formats::Parquet)
    } else {
        None
    }
}

/// Parses the format selector, case-insensitively over ASCII: `avro` and
/// `parquet` are the two formats; anything else is unknown and the caller
/// reports it and exits nonzero.
pub fn parse_format(s: &[u8]) -> (r: Option<Formats>)
    ensures
        r == format_of_selector(s@),
{
    let mut lowered: Vec<u8> = Vec::new();
    let mut i: usize = 0;
    while i < s.len()
        invariant
            0 <= i <= s@.len(),
            lowered@.len() == i,
            forall|j: int| 0 <= j < i ==> lowered@[j] == lower_byte(#[trigger] s@[j]),
        decreases s@.len() - i,
    {
        let b = s[i];
        if 0x41 <= b && b <= 0x5a {
            lowered.push(b + 0x20);
        } else {
            lowered.push(b);
        }
        i = i + 1;
    }
    proof {
        assert(lowered@ =~= s@.map_values(|b: u8| lower_byte(b)));
    }
    let mut avro: Vec<u8> = Vec::new();
    avro.push(0x61);
    avro.push(0x76);
    avro.push(0x72);
    avro.push(0x6f);
    proof {
        assert(avro@ =~= seq![0x61u8, 0x76u8, 0x72u8, 0x6fu8]);
    }
    if crate::mapper::bytes_eq(lowered.as_slice(), avro.as_slice()) {
        return Some(Formats::Avro);
    }
    let mut parquet: Vec<u8> = Vec::new();
    parquet.push(0x70);
    parquet.push(0x61);
    parquet.push(0x72);
    parquet.push(0x71);
    parquet.push(0x75);
    parquet.push(0x65);
    parquet.push(0x74);
    proof {
        assert(parquet@ =~= seq![0x70u8, 0x61u8, 0x72u8, 0x71u8, 0x75u8, 0x65u8, 0x74u8]);
    }
    if crate::mapper::bytes_eq(lowered.as_slice(), parquet.as_slice()) {
        return Some(Formats::Parquet);
    }
    None
}

} // verus!
