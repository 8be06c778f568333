//! Register map bases and the register operations the drivers emit.
//!
//! Drivers in this crate do not touch memory-mapped I/O themselves: each one
//! computes the exact sequence of register operations to perform, and the
//! platform layer carries them out with volatile accesses, in order.

use vstd::prelude::*;

verus! {

/// Physical base of the IOMUXC block.
pub const IOMUXC_BASE: usize = 0x3033_0000;

/// Physical base of the CCM (clock controller).
pub const CCM_BASE: usize = 0x3038_0000;

/// Physical base of LPUART4.
pub const LPUART4_BASE: usize = 0x30A6_0000;

/// Physical base of FLEXCAN1 (M7 safety bus).
pub const FLEXCAN1_BASE: usize = 0x308C_0000;

/// Physical base of MU1 (A53 ↔ M7 mailbox).
pub const MU1_BASE: usize = 0x30AA_0000;

/// Resource Domain Controller.
pub const RDC_BASE: usize = 0x303A_0000;

/// One operation on a 32-bit memory-mapped register.
#[derive(Debug, Clone, Copy, PartialEq, Eq, Structural)]
pub enum RegOp {
    /// Store `value` at `addr`.
    Write { addr: usize, value: u32 },
    /// Read `addr`, replace the bits under `mask` by those of `value`, store it back
    /// (see [`modify`]).
    Modify { addr: usize, mask: u32, value: u32 },
    /// Read `addr` until a bit under `mask` is set.
    WaitSet { addr: usize, mask: u32 },
    /// Read `addr` until every bit under `mask` is clear.
    WaitClear { addr: usize, mask: u32 },
}

/// The value a read-modify-write stores: bits under `mask` from `value`, the
/// others from `current`.
pub open spec fn spec_modify(current: u32, mask: u32, value: u32) -> u32 {
    (current & !mask) | (value & mask)
}

/// The value register `addr` holds after `op`, if it held `v` before: a write
/// to it stores its value, a read-modify-write to it merges under the mask,
/// and anything else (another register, or a wait) leaves it as it was.
pub open spec fn op_effect(op: RegOp, addr: usize, v: u32) -> u32 {
    match op {
        RegOp::Write { addr: a, value } => if a == addr {
            value
        } else {
            v
        },
        RegOp::Modify { addr: a, mask, value } => if a == addr {
            spec_modify(v, mask, value)
        } else {
            v
        },
        RegOp::WaitSet { .. } => v,
        RegOp::WaitClear { .. } => v,
    }
}

/// The value register `addr` holds after the program `ops` runs in order, if
/// it held `v` before.
pub open spec fn reg_after(ops: Seq<RegOp>, addr: usize, v: u32) -> u32
    decreases ops.len(),
{
    if ops.len() == 0 {
        v
    } else {
        op_effect(ops.last(), addr, reg_after(ops.drop_last(), addr, v))
    }
}

/// The value to store back in a read-modify-write of a register that read `current`.
pub fn modify(current: u32, mask: u32, value: u32) -> (r: u32)
    ensures
        r == spec_modify(current, mask, value),
{
    (current & !mask) | (value & mask)
}

/// A read-modify-write takes the bits under the mask from the new value and
/// keeps every other bit of the register.
pub proof fn law_modify_bits(current: u32, mask: u32, value: u32)
    ensures
        spec_modify(current, mask, value) & mask == value & mask,
        spec_modify(current, mask, value) & !mask == current & !mask,
{
    assert(((current & !mask) | (value & mask)) & mask == value & mask) by (bit_vector);
    assert(((current & !mask) | (value & mask)) & !mask == current & !mask) by (bit_vector);
}

/// Modifying twice under the same mask is modifying once with the later value.
pub proof fn law_modify_idempotent(current: u32, mask: u32, v1: u32, v2: u32)
    ensures
        spec_modify(spec_modify(current, mask, v1), mask, v2) == spec_modify(current, mask, v2),
{
    assert((((current & !mask) | (v1 & mask)) & !mask) | (v2 & mask) == (current & !mask) | (v2
        & mask)) by (bit_vector);
}

} // verus!
