//! Free disk space in megabytes, from whichever reading the platform gives.

use crate::text::{chars_of, field_at, line_at, nth_field, nth_line, parse_u64, parsed_u64};
use vstd::prelude::*;

verus! {

/// The number of bytes in a megabyte.
pub const BYTES_PER_MB: u64 = 1048576;

/// What was read about the free space of the root file system.
#[derive(Debug)]
pub enum DiskReading {
    /// File-system statistics: the number of free blocks and the size of a
    /// block in bytes.
    Blocks { free: u64, size: u64 },
    /// The output of the disk-usage command, in megabyte units: a header
    /// line, then one line per file system.
    UsageReport(String),
    /// The number of free bytes.
    Bytes(u64),
    /// Nothing could be read.
    Unavailable,
}

/// A disk reading with its text as a sequence of characters.
pub enum DiskReadingView {
    Blocks { free: u64, size: u64 },
    UsageReport(Seq<char>),
    Bytes(u64),
    Unavailable,
}

impl View for DiskReading {
    type V = DiskReadingView;

    open spec fn view(&self) -> DiskReadingView {
        match self {
            DiskReading::Blocks { free, size } => DiskReadingView::Blocks {
                free: *free,
                size: *size,
            },
            DiskReading::UsageReport(text) => DiskReadingView::UsageReport(text@),
            DiskReading::Bytes(bytes) => DiskReadingView::Bytes(*bytes),
            DiskReading::Unavailable => DiskReadingView::Unavailable,
        }
    }
}

/// The free megabytes that a usage report states: the fourth field of its
/// second line, read as an unsigned number.
pub open spec fn usage_report_free_mb(text: Seq<char>) -> Option<u64> {
    match nth_line(text, 1) {
        Some(line) => match nth_field(line, 3) {
            Some(field) => parsed_u64(field),
            None => None,
        },
        None => None,
    }
}

/// The free megabytes that a reading amounts to, rounded down. The metric is
/// absent where nothing was read, where a report does not hold the number,
/// and where the number of megabytes does not fit in 64 bits.
pub open spec fn disk_free_mb(reading: DiskReadingView) -> Option<u64> {
    match reading {
        DiskReadingView::Blocks { free, size } => if free * size / (BYTES_PER_MB as int)
            <= u64::MAX {
            Some((free * size / (BYTES_PER_MB as int)) as u64)
        } else {
            None
        },
        DiskReadingView::UsageReport(text) => usage_report_free_mb(text),
        DiskReadingView::Bytes(bytes) => Some(bytes / BYTES_PER_MB),
        DiskReadingView::Unavailable => None,
    }
}

/// Reads the free megabytes from the output of the disk-usage command.
pub fn parse_usage_report(text: &str) -> (r: Option<u64>)
    ensures
        r == usage_report_free_mb(text@),
{
    let chars = chars_of(text);
    match line_at(chars.as_slice(), 1) {
        Some(line) => match field_at(line, 3) {
            Some(field) => parse_u64(field),
            None => None,
        },
        None => None,
    }
}

/// The free disk space in megabytes that `reading` amounts to.
pub fn get_disk_free_mb(reading: &DiskReading) -> (r: Option<u64>)
    ensures
        r == disk_free_mb(reading@),
{
    match reading {
        DiskReading::Blocks { free, size } => {
            assert(0 <= *free * *size <= u64::MAX * u64::MAX) by (nonlinear_arith)
                requires
                    0 <= *free <= u64::MAX,
                    0 <= *size <= u64::MAX,
            ;
            let bytes: u128 = (*free as u128) * (*size as u128);
            let mb: u128 = bytes / (BYTES_PER_MB as u128);
            if mb <= u64::MAX as u128 {
                Some(mb as u64)
            } else {
                None
            }
        },
        DiskReading::UsageReport(text) => parse_usage_report(text.as_str()),
        DiskReading::Bytes(bytes) => Some(*bytes / BYTES_PER_MB),
        DiskReading::Unavailable => None,
    }
}

} // verus!
