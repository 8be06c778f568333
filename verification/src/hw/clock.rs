//! Minimal CCM clock gating for M7 bring-up.

use vstd::prelude::*;

use super::reg::{RegOp, CCM_BASE};

verus! {

/// CCM clock-gating register 5.
pub const CCM_CCGR5: usize = CCM_BASE + 0x78;

pub const CCM_CCGR5_CG14_MASK: u32 = 0x0C00_0000;

pub const CCM_CCGR5_CG10_MASK: u32 = 0x0030_0000;

pub const CCM_CCGR_RUN_HW: u32 = 0x0C00_0000;

pub const CCM_CCGR_CAN1: u32 = 0x0030_0000;

/// Nominal M7 core clock after the SoC is in RUN mode (800 MHz max per TRM).
pub const CORE_CLK_HZ: u64 = 800_000_000;

/// FLEXCAN1 protocol engine clock (matches Linux `assigned-clock-rates = <40000000>`).
pub const CAN_PE_CLK_HZ: u32 = 40_000_000;

/// Enable the LPUART4 clock: the CCGR5 update, and the nominal core clock.
pub fn init_uart4() -> (r: (RegOp, u64))
    ensures
        r.0 == (RegOp::Modify {
            addr: CCM_CCGR5,
            mask: 0x0C00_0000,
            value: 0x0C00_0000,
        }),
        r.1 == CORE_CLK_HZ,
{
    (RegOp::Modify { addr: CCM_CCGR5, mask: CCM_CCGR5_CG14_MASK, value: CCM_CCGR_RUN_HW }, CORE_CLK_HZ)
}

/// Ungate FLEXCAN1.
pub fn init_can1() -> (r: RegOp)
    ensures
        r == (RegOp::Modify { addr: CCM_CCGR5, mask: 0x0030_0000, value: 0x0030_0000 }),
{
    RegOp::Modify { addr: CCM_CCGR5, mask: CCM_CCGR5_CG10_MASK, value: CCM_CCGR_CAN1 }
}

} // verus!
