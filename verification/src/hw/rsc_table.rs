//! Layout of the OpenAMP resource table for Linux `remoteproc` + virtio RPMsg.
//!
//! Layout follows Zephyr `nxp_resource_table.c` for imx8mp DDR firmware: a
//! header (version, entry count, two reserved words), two entry offsets, the
//! NXP vendor entry, the virtio device entry and its two vrings, all packed.
//! Linux patches the vring device addresses in place at load time.

use vstd::prelude::*;

use crate::wire::get_u32;

verus! {

/// Vendor-specific resource type (NXP `'nxps'` entry).
pub const RSC_VENDOR_START: u32 = 128;

/// virtio device resource type.
pub const RSC_VDEV: u32 = 3;

/// virtio device id of RPMsg.
pub const VIRTIO_ID_RPMSG: u32 = 7;

/// Device address left for the host to assign.
pub const ADDR_ANY: u32 = 0xFFFF_FFFF;

/// Size of the table header: version, entry count, two reserved words.
pub const RESOURCE_HDR_LEN: u32 = 16;

/// Size of the NXP vendor entry.
pub const IMX_VENDOR_LEN: u32 = 20;

/// Size of the virtio device entry.
pub const VDEV_LEN: u32 = 28;

/// Size of one vring entry.
pub const VRING_LEN: u32 = 20;

/// Offset of the vendor entry: after the header and the two entry offsets.
pub const OFF_IMX: u32 = RESOURCE_HDR_LEN + 8;

/// Offset of the virtio device entry.
pub const OFF_VDEV: u32 = OFF_IMX + IMX_VENDOR_LEN;

/// Offset of the virtio status byte (after six `u32` fields of the vdev entry).
pub const VDEV_STATUS_OFFSET: u32 = OFF_VDEV + 24;

/// Offset of the TX vring's device address.
pub const VRING0_DA_OFFSET: u32 = OFF_VDEV + VDEV_LEN;

/// Offset of the RX vring's device address.
pub const VRING1_DA_OFFSET: u32 = OFF_VDEV + VDEV_LEN + VRING_LEN;

/// Total size of the table.
pub const TABLE_LEN: u32 = OFF_VDEV + VDEV_LEN + 2 * VRING_LEN;

/// VirtIO config status: driver OK.
pub const VIRTIO_CONFIG_STATUS_DRIVER_OK: u8 = 0x04;

/// Host-patched TX vring device address, from the table's bytes (Linux fills
/// in `ADDR_ANY` at load).
pub fn vring0_da(table: &[u8]) -> (r: u32)
    requires
        table@.len() == TABLE_LEN,
    ensures
        r == get_u32(table@, VRING0_DA_OFFSET as int),
{
    read_le_u32(table, VRING0_DA_OFFSET as usize)
}

/// Host-patched RX vring device address, from the table's bytes.
pub fn vring1_da(table: &[u8]) -> (r: u32)
    requires
        table@.len() == TABLE_LEN,
    ensures
        r == get_u32(table@, VRING1_DA_OFFSET as int),
{
    read_le_u32(table, VRING1_DA_OFFSET as usize)
}

fn read_le_u32(b: &[u8], at: usize) -> (r: u32)
    requires
        at + 4 <= b@.len(),
    ensures
        r == get_u32(b@, at as int),
{
    (b[at] as u32) | ((b[at + 1] as u32) << 8u32) | ((b[at + 2] as u32) << 16u32) | ((b[at
        + 3] as u32) << 24u32)
}

/// The offsets agree with the packed layout: the status byte lies inside the
/// vdev entry, and both vring addresses lie inside the table.
pub proof fn law_table_layout()
    ensures
        OFF_IMX == 24,
        OFF_VDEV == 44,
        VDEV_STATUS_OFFSET == 68,
        VRING0_DA_OFFSET == 72,
        VRING1_DA_OFFSET == 92,
        TABLE_LEN == 112,
        OFF_VDEV < VDEV_STATUS_OFFSET < OFF_VDEV + VDEV_LEN,
        VRING1_DA_OFFSET + 4 <= TABLE_LEN,
{
}

} // verus!
