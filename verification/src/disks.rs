//! Disk usage and disk I/O readings.

use crate::ratio::{saturated, scaled_div};
use crate::text::{
    begins_with, fields_of, number_at, number_in, split_fields, starts_with, tail,
};
use vstd::prelude::*;
use vstd::string::StringSliceAdditionalSpecFns;

verus! {

/// The kernel's number of a block device, which keys the disk I/O table.
pub type DeviceId = u64;

/// The usage of one mounted file system, in bytes.
#[derive(Clone, Debug, PartialEq, Eq)]
pub struct DiskHarvest {
    pub name: String,
    pub mount_point: String,
    pub free_space: u64,
    pub used_space: u64,
    pub total_space: u64,
}

/// The bytes read from and written to one device since boot.
#[derive(Clone, Copy, Debug, PartialEq, Eq)]
pub struct IoHarvest {
    pub read_bytes: u64,
    pub write_bytes: u64,
}

/// Whether a mounted file system takes up space of its own: the source it
/// is mounted from is a device node, a path under `/dev/`.
pub open spec fn device_backed(source: Seq<u8>) -> bool {
    begins_with(source, "/dev/".spec_bytes())
}

/// Tells whether a mounted file system takes up space of its own.
pub fn is_device_backed(source: &[u8]) -> (backed: bool)
    ensures
        backed == device_backed(source@),
{
    starts_with(source, "/dev/".as_bytes())
}

/// The bytes in one sector, the unit in which the kernel counts block I/O.
pub const SECTOR_BYTES: u64 = 512;

/// The usage of a file system of `blocks` blocks of `block_size` bytes, of
/// which `blocks_free` are free: all three in bytes, saturating at
/// `u64::MAX`. More free blocks than blocks leave none used.
pub open spec fn usage(
    name: String,
    mount_point: String,
    blocks: u64,
    blocks_free: u64,
    block_size: u64,
) -> DiskHarvest {
    let used: nat = if blocks >= blocks_free {
        (blocks - blocks_free) as nat
    } else {
        0
    };
    DiskHarvest {
        name,
        mount_point,
        free_space: saturated(blocks_free as nat * block_size as nat),
        used_space: saturated(used * block_size as nat),
        total_space: saturated(blocks as nat * block_size as nat),
    }
}

/// Computes the usage of a file system from its block counts.
pub fn usage_of(
    name: String,
    mount_point: String,
    blocks: u64,
    blocks_free: u64,
    block_size: u64,
) -> (harvest: DiskHarvest)
    ensures
        harvest == usage(name, mount_point, blocks, blocks_free, block_size),
{
    let used: u64 = if blocks >= blocks_free {
        blocks - blocks_free
    } else {
        0
    };
    DiskHarvest {
        name,
        mount_point,
        free_space: scaled_div(blocks_free, block_size, 1),
        used_space: scaled_div(used, block_size, 1),
        total_space: scaled_div(blocks, block_size, 1),
    }
}

/// The I/O reading that the kernel's statistics line of a block device
/// holds: with the fields counted from `0`, the sectors read are field 2
/// and the sectors written field 6, each turned into bytes, saturating at
/// `u64::MAX`. A line in which either is missing or not a number holds no
/// reading.
pub open spec fn block_stat_io(stat: Seq<u8>) -> Option<IoHarvest> {
    let fields = fields_of(stat);
    match (number_in(fields, 2), number_in(fields, 6)) {
        (Some(read), Some(written)) => Some(
            IoHarvest {
                read_bytes: saturated(read as nat * SECTOR_BYTES as nat),
                write_bytes: saturated(written as nat * SECTOR_BYTES as nat),
            },
        ),
        _ => None,
    }
}

/// Reads the I/O reading out of the kernel's statistics line of a block
/// device.
pub fn io_from_block_stat(stat: &[u8]) -> (harvest: Option<IoHarvest>)
    ensures
        harvest == block_stat_io(stat@),
{
    proof {
        assert(tail(stat@, 0) =~= stat@);
    }
    let fields = split_fields(stat, 0);
    let read: u64 = match number_at(&fields, 2) {
        Some(read) => read,
        None => {
            return None;
        },
    };
    let written: u64 = match number_at(&fields, 6) {
        Some(written) => written,
        None => {
            return None;
        },
    };
    Some(
        IoHarvest {
            read_bytes: scaled_div(read, SECTOR_BYTES, 1),
            write_bytes: scaled_div(written, SECTOR_BYTES, 1),
        },
    )
}

} // verus!
