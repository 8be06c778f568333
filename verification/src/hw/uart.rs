//! Blocking LPUART4 console (Verdin iMX8M Plus M7 debug UART).
//!
//! Pin mux matches Zephyr `uart4_default` on SODIMM 151 (RX) / 153 (TX). When
//! a Wi-Fi/BT module is fitted, Linux must not claim UART4 — apply the Toradex
//! HMP device-tree overlay and `clk-imx8mp.mcore_booted=1` before expecting
//! output after Linux boots.

use vstd::prelude::*;
use vstd::string::StringSliceAdditionalSpecFns;

use super::reg::{RegOp, IOMUXC_BASE, LPUART4_BASE};

verus! {

/// IOMUXC pad configuration value (slow slew, medium drive — NXP 0x1C4).
pub const PAD_CONF_UART: u32 = 0x0000_01C4;

/// LPUART4 root clock assumed after CCM gating (80 MHz — verify on scope).
pub const UART_CLK_HZ: u32 = 80_000_000;

/// Console baud rate.
pub const BAUD_115200: u32 = 115_200;

/// Baud rate register.
pub const LPUART_BAUD: usize = LPUART4_BASE + 0x10;

/// Status register.
pub const LPUART_STAT: usize = LPUART4_BASE + 0x14;

/// Control register.
pub const LPUART_CTRL: usize = LPUART4_BASE + 0x18;

/// Data register.
pub const LPUART_DATA: usize = LPUART4_BASE + 0x1C;

/// TX data register empty.
pub const STAT_TDRE: u32 = 1 << 23;

/// Transmission complete.
pub const STAT_TC: u32 = 1 << 22;

/// Transmitter enable.
pub const CTRL_TE: u32 = 1 << 19;

/// Receiver enable.
pub const CTRL_RE: u32 = 1 << 18;

/// 8-bit, no parity, one stop bit (M=0, PE=0 — the reset default).
pub const CTRL_M_8N1: u32 = 0;

/// Verdin UART4 on SODIMM 151/153 (UART4_DCE — MCU is DTE).
pub struct Uart4;

/// The baud-rate divisor for 115200 baud at 16× oversampling.
pub open spec fn spec_sbr() -> u32 {
    (UART_CLK_HZ as int / (16 * BAUD_115200 as int)) as u32
}

/// Route one pad, configure it, and (when `daisy_off` is nonzero) select its
/// input daisy chain.
pub open spec fn spec_mux_pad(
    mux_off: u32,
    conf_off: u32,
    daisy_off: u32,
    mux_mode: u32,
    daisy_val: u32,
    pad_conf: u32,
) -> Seq<RegOp> {
    seq![
        RegOp::Write { addr: (IOMUXC_BASE + mux_off) as usize, value: mux_mode },
        RegOp::Write { addr: (IOMUXC_BASE + conf_off) as usize, value: pad_conf },
    ] + if daisy_off != 0 {
        seq![RegOp::Write { addr: (IOMUXC_BASE + daisy_off) as usize, value: daisy_val }]
    } else {
        Seq::empty()
    }
}

/// Route one pad (see [`spec_mux_pad`]).
pub fn mux_pad(
    mux_off: u32,
    conf_off: u32,
    daisy_off: u32,
    mux_mode: u32,
    daisy_val: u32,
    pad_conf: u32,
) -> (r: Vec<RegOp>)
    requires
        IOMUXC_BASE + mux_off <= usize::MAX,
        IOMUXC_BASE + conf_off <= usize::MAX,
        IOMUXC_BASE + daisy_off <= usize::MAX,
    ensures
        r@ == spec_mux_pad(mux_off, conf_off, daisy_off, mux_mode, daisy_val, pad_conf),
{
    let mut r = vec![
        RegOp::Write { addr: IOMUXC_BASE + mux_off as usize, value: mux_mode },
        RegOp::Write { addr: IOMUXC_BASE + conf_off as usize, value: pad_conf },
    ];
    if daisy_off != 0 {
        r.push(RegOp::Write { addr: IOMUXC_BASE + daisy_off as usize, value: daisy_val });
    }
    assert(r@ =~= spec_mux_pad(mux_off, conf_off, daisy_off, mux_mode, daisy_val, pad_conf));
    r
}

/// The UART4 pad configuration.
pub open spec fn spec_pinmux_uart4() -> Seq<RegOp> {
    spec_mux_pad(0x238, 0x498, 0x600, 0, 0x8, PAD_CONF_UART | (1u32 << 16u32)) + spec_mux_pad(
        0x23C,
        0x49C,
        0,
        0,
        0,
        PAD_CONF_UART,
    )
}

/// Route UART4 RX/TX to SODIMM 151/153.
pub fn pinmux_uart4() -> (r: Vec<RegOp>)
    ensures
        r@ == spec_pinmux_uart4(),
{
    let mut r = mux_pad(0x238, 0x498, 0x600, 0, 0x8, PAD_CONF_UART | (1u32 << 16u32));
    let mut tx = mux_pad(0x23C, 0x49C, 0, 0, 0, PAD_CONF_UART);
    r.append(&mut tx);
    r
}

/// The register writes that transmit one byte: wait for room, store it, wait
/// until it has left the shifter.
pub open spec fn spec_byte_ops(byte: u8) -> Seq<RegOp> {
    seq![
        RegOp::WaitSet { addr: LPUART_STAT, mask: STAT_TDRE },
        RegOp::Write { addr: LPUART_DATA, value: byte as u32 },
        RegOp::WaitSet { addr: LPUART_STAT, mask: STAT_TC },
    ]
}

/// The register writes that transmit `bytes`, in order.
pub open spec fn spec_write_ops(bytes: Seq<u8>) -> Seq<RegOp>
    decreases bytes.len(),
{
    if bytes.len() == 0 {
        Seq::empty()
    } else {
        spec_write_ops(bytes.drop_last()) + spec_byte_ops(bytes.last())
    }
}

impl Uart4 {
    /// Configure pin mux and LPUART4 for 115200 8N1: pad routing, then the
    /// UART disabled, the divisor programmed with 16× oversampling, and the
    /// transmitter and receiver enabled.
    pub fn new() -> (r: (Uart4, Vec<RegOp>))
        ensures
            r.1@ == spec_pinmux_uart4() + seq![
                RegOp::Write { addr: LPUART_CTRL, value: 0 },
                RegOp::Write { addr: LPUART_BAUD, value: (15u32 << 24u32) | (spec_sbr() & 0x1FFF) },
                RegOp::Write { addr: LPUART_CTRL, value: CTRL_TE | CTRL_RE | CTRL_M_8N1 },
            ],
    {
        let mut r = pinmux_uart4();
        let sbr = UART_CLK_HZ / (16 * BAUD_115200);
        r.push(RegOp::Write { addr: LPUART_CTRL, value: 0 });
        r.push(RegOp::Write { addr: LPUART_BAUD, value: ((16 - 1) << 24u32) | (sbr & 0x1FFF) });
        r.push(RegOp::Write { addr: LPUART_CTRL, value: CTRL_TE | CTRL_RE | CTRL_M_8N1 });
        assert(r@ =~= spec_pinmux_uart4() + seq![
            RegOp::Write { addr: LPUART_CTRL, value: 0 },
            RegOp::Write { addr: LPUART_BAUD, value: (15u32 << 24u32) | (spec_sbr() & 0x1FFF) },
            RegOp::Write { addr: LPUART_CTRL, value: CTRL_TE | CTRL_RE | CTRL_M_8N1 },
        ]);
        (Uart4, r)
    }

    /// Block until the transmit holding register is empty, then send one byte.
    pub fn write_byte(&self, byte: u8) -> (r: Vec<RegOp>)
        ensures
            r@ == spec_byte_ops(byte),
    {
        let r = vec![
            RegOp::WaitSet { addr: LPUART_STAT, mask: STAT_TDRE },
            RegOp::Write { addr: LPUART_DATA, value: byte as u32 },
            RegOp::WaitSet { addr: LPUART_STAT, mask: STAT_TC },
        ];
        assert(r@ =~= spec_byte_ops(byte));
        r
    }

    /// Transmit a byte slice.
    pub fn write(&self, bytes: &[u8]) -> (r: Vec<RegOp>)
        ensures
            r@ == spec_write_ops(bytes@),
    {
        let mut r: Vec<RegOp> = Vec::new();
        let mut i: usize = 0;
        while i < bytes.len()
            invariant
                i <= bytes@.len(),
                r@ == spec_write_ops(bytes@.take(i as int)),
            decreases bytes@.len() - i,
        {
            let mut one = self.write_byte(bytes[i]);
            proof {
                assert(bytes@.take(i + 1).drop_last() =~= bytes@.take(i as int));
            }
            r.append(&mut one);
            i = i + 1;
        }
        proof {
            assert(bytes@.take(bytes@.len() as int) =~= bytes@);
        }
        r
    }

    /// Transmit a UTF-8 string.
    pub fn write_str(&self, s: &str) -> (r: Vec<RegOp>)
        ensures
            r@ == spec_write_ops(s.spec_bytes()),
    {
        self.write(s.as_bytes())
    }
}

/// Sending two byte strings back to back is sending their concatenation.
pub proof fn law_write_concat(a: Seq<u8>, b: Seq<u8>)
    ensures
        spec_write_ops(a + b) == spec_write_ops(a) + spec_write_ops(b),
    decreases b.len(),
{
    if b.len() == 0 {
        assert(a + b =~= a);
        assert(spec_write_ops(b) =~= Seq::<RegOp>::empty());
        assert(spec_write_ops(a) + spec_write_ops(b) =~= spec_write_ops(a));
    } else {
        assert((a + b).drop_last() =~= a + b.drop_last());
        assert((a + b).last() == b.last());
        law_write_concat(a, b.drop_last());
        assert(spec_write_ops(a + b) =~= spec_write_ops(a) + spec_write_ops(b));
    }
}

/// Each byte costs exactly three register operations.
pub proof fn law_write_len(bytes: Seq<u8>)
    ensures
        spec_write_ops(bytes).len() == 3 * bytes.len(),
    decreases bytes.len(),
{
    if bytes.len() > 0 {
        law_write_len(bytes.drop_last());
    }
}

} // verus!
