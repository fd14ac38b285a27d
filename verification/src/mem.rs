//! Memory and swap readings.

use crate::text::{fields_of, number_after, split_fields, tail, value_after};
use vstd::prelude::*;
use vstd::string::StringSliceAdditionalSpecFns;

verus! {

/// The reading of physical memory or of swap space, in kilobytes.
#[derive(Clone, Copy, Debug, PartialEq, Eq)]
pub struct MemHarvest {
    pub total_kb: u64,
    pub used_kb: u64,
}

/// The reading that a pair of kernel counts in kilobytes holds: the
/// total, and as used what of the total is not available. More available
/// than there is leaves none used.
pub open spec fn reading_of(total_kb: u64, available_kb: u64) -> MemHarvest {
    MemHarvest {
        total_kb,
        used_kb: if total_kb >= available_kb {
            (total_kb - available_kb) as u64
        } else {
            0
        },
    }
}

/// The reading out of two of the kernel's memory counts, each a number
/// behind its key. Where either is missing there is no reading.
pub open spec fn keyed_reading(
    text: Seq<u8>,
    total_key: Seq<u8>,
    available_key: Seq<u8>,
) -> Option<MemHarvest> {
    let fields = fields_of(text);
    match (value_after(fields, total_key), value_after(fields, available_key)) {
        (Some(total_kb), Some(available_kb)) => Some(reading_of(total_kb, available_kb)),
        _ => None,
    }
}

/// The reading of physical memory in the kernel's memory table: the
/// total behind `MemTotal:`, the available behind `MemAvailable:`.
pub open spec fn meminfo_memory(text: Seq<u8>) -> Option<MemHarvest> {
    keyed_reading(text, "MemTotal:".spec_bytes(), "MemAvailable:".spec_bytes())
}

/// The reading of swap space in the kernel's memory table: the total
/// behind `SwapTotal:`, the available behind `SwapFree:`.
pub open spec fn meminfo_swap(text: Seq<u8>) -> Option<MemHarvest> {
    keyed_reading(text, "SwapTotal:".spec_bytes(), "SwapFree:".spec_bytes())
}

fn read_keyed(text: &[u8], total_key: &[u8], available_key: &[u8]) -> (harvest: Option<
    MemHarvest,
>)
    ensures
        harvest == keyed_reading(text@, total_key@, available_key@),
{
    proof {
        assert(tail(text@, 0) =~= text@);
    }
    let fields = split_fields(text, 0);
    let total_kb: u64 = match number_after(&fields, total_key) {
        Some(total_kb) => total_kb,
        None => {
            return None;
        },
    };
    let available_kb: u64 = match number_after(&fields, available_key) {
        Some(available_kb) => available_kb,
        None => {
            return None;
        },
    };
    Some(
        MemHarvest {
            total_kb,
            used_kb: if total_kb >= available_kb {
                total_kb - available_kb
            } else {
                0
            },
        },
    )
}

/// Reads the reading of physical memory out of the kernel's memory table.
pub fn memory_from_meminfo(text: &[u8]) -> (harvest: Option<MemHarvest>)
    ensures
        harvest == meminfo_memory(text@),
{
    read_keyed(text, "MemTotal:".as_bytes(), "MemAvailable:".as_bytes())
}

/// Reads the reading of swap space out of the kernel's memory table.
pub fn swap_from_meminfo(text: &[u8]) -> (harvest: Option<MemHarvest>)
    ensures
        harvest == meminfo_swap(text@),
{
    read_keyed(text, "SwapTotal:".as_bytes(), "SwapFree:".as_bytes())
}

} // verus!
