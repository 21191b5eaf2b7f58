//! A report of jemalloc's options and statistics.

use vstd::prelude::*;

verus! {

/// What jemalloc reports of itself.
pub struct JemallocInfo {
    pub options: Options,
    pub stats: Stats,
}

/// Sizes in bytes.
pub struct Stats {
    pub allocated: u64,
    pub resident: u64,
    pub active: u64,
    pub mapped: u64,
    pub metadata: u64,
    pub retained: u64,
}

pub struct Options {
    pub background_thread: Option<BackgroundThread>,
    pub number_of_arenas: u32,
}

pub struct BackgroundThread {
    pub enabled: bool,
    pub max: usize,
}

/// The numbers as they are read from jemalloc.
pub struct JemallocRawData {
    pub active_bytes: usize,
    pub allocated_bytes: usize,
    pub mapped_bytes: usize,
    pub metadata_bytes: usize,
    pub resident_bytes: usize,
    pub retained_bytes: usize,
    pub background_thread: Option<BackgroundThread>,
    pub number_of_arenas: u32,
}

/// A size as the report shows it: in the biggest binary unit that is not
/// bigger than the size, with two decimals, as `byte_unit` writes it.
pub uninterp spec fn binary_unit_text(bytes: u64) -> Seq<char>;

/// `byte_unit::Byte::get_appropriate_unit` with `UnitType::Binary`, and the
/// `Display` impl of the `AdjustedByte` that it returns, at a precision of
/// two: the text depends on the number of bytes alone.
#[verifier::external_body]
fn appropriate_binary_unit(bytes: u64) -> (out: String)
    ensures
        out@ == binary_unit_text(bytes),
{
    let adjusted = byte_unit::Byte::from_u64(bytes).get_appropriate_unit(
        byte_unit::UnitType::Binary,
    );
    format!("{adjusted:.2}")
}

/// A size as the report shows it, such as `2.00 KiB`.
pub fn format_bytes(bytes: u64) -> (out: String)
    ensures
        out@ == binary_unit_text(bytes),
{
    appropriate_binary_unit(bytes)
}

fn byte_from_usize(n: usize) -> (out: Option<u64>)
    ensures
        out == Some(n as u64),
{
    match u64::try_from(n) {
        Ok(bytes) => Some(bytes),
        Err(_) => None,
    }
}

impl JemallocInfo {
    /// The report for the numbers in `raw_data`. Every size fits, so there
    /// is always a report.
    pub fn from_raw(raw_data: JemallocRawData) -> (out: Option<Self>)
        ensures
            out == Some(
                JemallocInfo {
                    options: Options {
                        background_thread: raw_data.background_thread,
                        number_of_arenas: raw_data.number_of_arenas,
                    },
                    stats: Stats {
                        active: raw_data.active_bytes as u64,
                        allocated: raw_data.allocated_bytes as u64,
                        mapped: raw_data.mapped_bytes as u64,
                        metadata: raw_data.metadata_bytes as u64,
                        resident: raw_data.resident_bytes as u64,
                        retained: raw_data.retained_bytes as u64,
                    },
                },
            ),
    {
        let JemallocRawData {
            active_bytes,
            allocated_bytes,
            background_thread,
            mapped_bytes,
            metadata_bytes,
            number_of_arenas,
            resident_bytes,
            retained_bytes,
        } = raw_data;
        let active = byte_from_usize(active_bytes)?;
        let allocated = byte_from_usize(allocated_bytes)?;
        let mapped = byte_from_usize(mapped_bytes)?;
        let metadata = byte_from_usize(metadata_bytes)?;
        let resident = byte_from_usize(resident_bytes)?;
        let retained = byte_from_usize(retained_bytes)?;
        Some(
            JemallocInfo {
                options: Options { background_thread, number_of_arenas },
                stats: Stats { active, allocated, mapped, metadata, resident, retained },
            },
        )
    }
}

} // verus!
