//! i.MX8M Plus Cortex-M7 hardware bring-up: register programs for the
//! clocks, FLEXCAN1, LPUART4, the MU doorbell and the RPMsg transport.

use vstd::prelude::*;

pub mod clock;
pub mod flexcan;
pub mod mu;
pub mod reg;
pub mod rpmsg;
pub mod rsc_table;
pub mod uart;

pub use clock::{CAN_PE_CLK_HZ, CORE_CLK_HZ};
pub use flexcan::{FlexCan1, RxFrame};
pub use reg::RegOp;
pub use rpmsg::{RpmsgTx, ENDPOINT_NAME};
pub use uart::Uart4;

verus! {

pub const RDC_PDAP_CAN1: usize = reg::RDC_BASE + 0x284;

pub const RDC_PDAP_GPIO1: usize = reg::RDC_BASE + 0x200;

/// Grant the M7 domain access to CAN1 and IOMUXC (minimal RDC bring-up):
/// domain 1 (M7) becomes owner with full access (bits 23:16 = 0xFF).
pub fn rdc_allow_m7_peripherals() -> (r: Vec<RegOp>)
    ensures
        r@ == seq![
            RegOp::Modify { addr: (reg::RDC_BASE + 0x284) as usize, mask: 0x00FF_0000, value: 0x00FF_0000 },
            RegOp::Modify { addr: (reg::RDC_BASE + 0x200) as usize, mask: 0x00FF_0000, value: 0x00FF_0000 },
        ],
{
    let r = vec![
        RegOp::Modify { addr: RDC_PDAP_CAN1, mask: 0x00FF_0000, value: 0x00FF_0000 },
        RegOp::Modify { addr: RDC_PDAP_GPIO1, mask: 0x00FF_0000, value: 0x00FF_0000 },
    ];
    assert(r@ =~= seq![
        RegOp::Modify { addr: (reg::RDC_BASE + 0x284) as usize, mask: 0x00FF_0000, value: 0x00FF_0000 },
        RegOp::Modify { addr: (reg::RDC_BASE + 0x200) as usize, mask: 0x00FF_0000, value: 0x00FF_0000 },
    ]);
    r
}

} // verus!
