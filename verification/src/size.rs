//! The size column of the table: the byte count as it stands, or in the
//! largest binary unit that it fills.

use crate::decimal::{byte_count_value, parse_decimal};
use crate::entry::{is_byte_count_numeral, FileEntry};
use byte_unit::{Byte, UnitType};
use vstd::pervasive::unreached;
use vstd::prelude::*;

verus! {

/// A byte count as byte-unit writes it in the binary unit it picks: the
/// largest of KiB, MiB, GiB, TiB, PiB and EiB that the count reaches, or B
/// below 1024; the value, a space, the unit.
pub uninterp spec fn binary_unit_text(bytes: int) -> Seq<char>;

/// Calls `byte_unit::Byte::from_u64`, then `Byte::get_appropriate_unit` with
/// `UnitType::Binary`, and collects what the adjusted value displays.
///
/// Trusted: the text is the one that `binary_unit_text` names for the count.
#[verifier::external_body]
fn format_binary_unit(bytes: u64) -> (r: String)
    ensures
        r@ == binary_unit_text(bytes as int),
{
    Byte::from_u64(bytes).get_appropriate_unit(UnitType::Binary).to_string()
}

/// The size column for a size given as a decimal numeral of bytes: in a
/// binary unit where clarity is asked for, else the numeral and ` B`.
pub open spec fn size_cell_text(size: Seq<char>, clarity: bool) -> Seq<char>
    recommends
        is_byte_count_numeral(size),
{
    if clarity {
        binary_unit_text(byte_count_value(size).unwrap() as int)
    } else {
        size + " B"@
    }
}

/// Writes the size column of a record.
pub fn size_cell(entry: &FileEntry, clarity: bool) -> (r: String)
    ensures
        r@ == size_cell_text(entry@.size, clarity),
{
    let size = entry.size();
    if clarity {
        match parse_decimal(size) {
            Some(bytes) => format_binary_unit(bytes),
            None => unreached(),
        }
    } else {
        let mut r = size.to_owned();
        r.append(" B");
        r
    }
}

} // verus!
