//! FLEXCAN1 driver for the M7 safety bus (classic CAN 8-byte frames).
//!
//! Verdin pinmux: CAN_1_TX/RX on SODIMM 20/22 (SPDIF_TX/RX alt2). Linux must
//! release FLEXCAN1 to the M7 via the HMP device-tree overlay.
//!
//! The driver keeps the receive queue and computes every register operation;
//! the platform layer performs the reads and writes it asks for.
//!
//! # Not yet silicon-validated
//!
//! The register offsets (`CTRL2`, `ESR1`, `IMASK1`, `IFLAG1`) and the RX
//! mailbox unlock (reading the free-running TIMER register) must be confirmed
//! against the i.MX8M Plus reference manual before trusting RX on hardware.

use vstd::prelude::*;

use super::reg::{RegOp, FLEXCAN1_BASE, IOMUXC_BASE};

verus! {

pub const PAD_CONF_CAN: u32 = 0x0000_0154;

/// Module configuration.
pub const MCR: usize = 0x00;

/// Control 1 (bit timing).
pub const CTRL1: usize = 0x04;

/// Control 2.
pub const CTRL2: usize = 0x28;

/// Interrupt mask 1.
pub const IMASK1: usize = 0x44;

/// Interrupt flags 1.
pub const IFLAG1: usize = 0x48;

/// Message-buffer RAM base.
pub const MB_RAM: usize = 0x80;

pub const MCR_MDIS: u32 = 0x8000_0000;

pub const MCR_FRZ: u32 = 0x4000_0000;

pub const MCR_HALT: u32 = 0x1000_0000;

pub const MCR_NOT_RDY: u32 = 0x2000_0000;

pub const MB_SIZE: usize = 0x10;

/// Address of the receive message buffer.
pub const RX_MB_ADDR: usize = FLEXCAN1_BASE + MB_RAM;

/// Address of the transmit message buffer.
pub const TX_MB_ADDR: usize = FLEXCAN1_BASE + MB_RAM + MB_SIZE;

/// Mask of the CODE field of a message-buffer control/status word.
pub const MB_CS_CODE_MASK: u32 = 0x0F00_0000;

/// Identifier-extension (29-bit ID) bit of a control/status word.
pub const MB_CS_IDE: u32 = 0x0020_0000;

/// Receive buffer armed and empty.
pub const CODE_RX_EMPTY: u32 = 0x4;

/// Receive buffer holds a frame.
pub const CODE_RX_FULL: u32 = 0x2;

/// A newer frame arrived before the previous one was read: the mailbox holds
/// the newest frame, and at least one earlier frame was lost.
pub const CODE_RX_OVERRUN: u32 = 0x6;

/// Transmit buffer idle.
pub const CODE_TX_INACTIVE: u32 = 0x8;

/// Transmit buffer loaded with a data frame to send.
pub const CODE_TX_DATA: u32 = 0xC;

/// `IFLAG1` bit of the receive buffer.
pub const IFLAG1_RX: u32 = 1;

/// `IFLAG1` bit of the transmit buffer.
pub const IFLAG1_TX: u32 = 2;

/// Slots in the software receive ring (one is kept free to tell full from empty).
pub const RX_QUEUE_SLOTS: usize = 8;

/// Upper bound on polls waiting for a TX mailbox transition. Sized well past
/// the worst-case frame time at 1 Mbit/s so a healthy bus always completes,
/// while a bus-off / absent ECU falls through instead of hanging the safety loop.
pub const TX_TIMEOUT_SPINS: u32 = 1_000_000;

/// Classic CAN frame delivered from the RX mailbox.
#[derive(Debug, Clone, Copy)]
pub struct RxFrame {
    /// Standard 11-bit identifier.
    pub id: u32,
    /// Payload bytes (only the first `len` are valid).
    pub data: [u8; 8],
    /// Payload length in bytes (0–8).
    pub len: usize,
}

// ---------------------------------------------------------------------------
// Mailbox words
// ---------------------------------------------------------------------------

/// The CODE field of a message-buffer control/status word.
pub open spec fn spec_mb_code(cs: u32) -> u32 {
    (cs & MB_CS_CODE_MASK) >> 24u32
}

/// The CODE field of a message-buffer control/status word.
pub fn mb_code(cs: u32) -> (r: u32)
    ensures
        r == spec_mb_code(cs),
        r <= 0xF,
{
    assert((cs & MB_CS_CODE_MASK) >> 24u32 <= 0xF) by (bit_vector);
    (cs & MB_CS_CODE_MASK) >> 24u32
}

/// Set the CODE field of the message buffer at `mb` to `code`, keeping the
/// rest of its control/status word.
pub fn mb_set_code(mb: usize, code: u32) -> (r: RegOp)
    requires
        code <= 0xF,
    ensures
        r == (RegOp::Modify { addr: mb, mask: MB_CS_CODE_MASK, value: code << 24u32 }),
{
    RegOp::Modify { addr: mb, mask: MB_CS_CODE_MASK, value: code << 24u32 }
}

/// After a code update the buffer reports exactly that code, and the rest of
/// its control/status word is untouched.
pub proof fn law_set_code(cs: u32, code: u32)
    requires
        code <= 0xF,
    ensures
        spec_mb_code(crate::hw::reg::spec_modify(cs, MB_CS_CODE_MASK, code << 24u32)) == code,
        crate::hw::reg::spec_modify(cs, MB_CS_CODE_MASK, code << 24u32) & !MB_CS_CODE_MASK == cs
            & !MB_CS_CODE_MASK,
{
    assert(code <= 0xF ==> ((((cs & !0x0F00_0000u32) | ((code << 24u32) & 0x0F00_0000u32))
        & 0x0F00_0000u32) >> 24u32) == code) by (bit_vector);
    assert((((cs & !0x0F00_0000u32) | ((code << 24u32) & 0x0F00_0000u32)) & !0x0F00_0000u32)
        == cs & !0x0F00_0000u32) by (bit_vector);
}

/// The payload length code of a control/status word.
pub open spec fn spec_dlc(cs: u32) -> u32 {
    (cs >> 16u32) & 0xF
}

/// The identifier word of a standard-ID frame.
pub open spec fn spec_id_word(id: u32) -> u32 {
    id << 18u32
}

/// Byte `i` (0–7) of a frame whose payload sits big-endian in words `w0`, `w1`.
pub open spec fn spec_payload_byte(w0: u32, w1: u32, i: int) -> u8 {
    if i < 4 {
        (w0 >> ((3 - i) * 8) as u32) as u8
    } else {
        (w1 >> ((7 - i) * 8) as u32) as u8
    }
}

/// Byte `j` of `p`, or zero past its end.
pub open spec fn byte_or_zero(p: Seq<u8>, j: int) -> u8 {
    if j < p.len() {
        p[j]
    } else {
        0
    }
}

/// Payload word `k` (0 or 1) of a transmit frame carrying `p`.
pub open spec fn spec_tx_word(p: Seq<u8>, k: int) -> u32 {
    ((byte_or_zero(p, 4 * k) as u32) << 24u32) | ((byte_or_zero(p, 4 * k + 1) as u32) << 16u32)
        | ((byte_or_zero(p, 4 * k + 2) as u32) << 8u32) | (byte_or_zero(p, 4 * k + 3) as u32)
}

/// The control/status word that starts transmission of a `len`-byte data frame.
pub open spec fn spec_tx_cs(len: u32) -> u32 {
    (CODE_TX_DATA << 24u32) | (len << 16u32)
}

/// Mask of a standard 11-bit identifier.
pub const STD_ID_MASK: u32 = 0x7FF;

/// The payload length of a classic frame whose length code is `dlc`: codes
/// above 8 still carry 8 bytes.
pub open spec fn spec_rx_len(dlc: u32) -> u32 {
    if dlc < 8 {
        dlc
    } else {
        8
    }
}

/// The standard identifier held in an identifier word (bits 28:18).
pub open spec fn spec_std_id(id_word: u32) -> u32 {
    (id_word >> 18u32) & STD_ID_MASK
}

/// A frame as the receive path delivers it: a standard 11-bit identifier and
/// 0–8 payload bytes.
pub open spec fn rx_frame_wf(f: RxFrame) -> bool {
    f.id <= STD_ID_MASK && f.len <= 8
}

/// The frame the receive mailbox holds, from its control/status word, its
/// identifier word and its two payload words.
pub open spec fn spec_rx_frame_ok(cs: u32, id_word: u32, w0: u32, w1: u32, f: RxFrame) -> bool {
    &&& f.id == spec_std_id(id_word)
    &&& f.len == spec_rx_len(spec_dlc(cs)) as usize
    &&& rx_frame_wf(f)
    &&& forall|i: int|
        0 <= i < 8 ==> #[trigger] f.data@[i] == if i < spec_rx_len(spec_dlc(cs)) {
            spec_payload_byte(w0, w1, i)
        } else {
            0u8
        }
}

/// Read the frame latched in the receive mailbox: the standard identifier
/// from the ID word, the length from the control/status word's length code
/// (at most 8 bytes) and the payload bytes, big-endian, from the two data words.
pub fn unpack_frame(cs: u32, id_word: u32, w0: u32, w1: u32) -> (r: RxFrame)
    ensures
        spec_rx_frame_ok(cs, id_word, w0, w1, r),
{
    assert((cs >> 16u32) & 0xF <= 15) by (bit_vector);
    let len = ((cs >> 16u32) & 0xF) as usize;
    let id = (id_word >> 18u32) & STD_ID_MASK;
    assert((id_word >> 18u32) & 0x7FFu32 <= 0x7FF) by (bit_vector);
    let mut data = [0u8; 8];
    let n = if len < 8 {
        len
    } else {
        8
    };
    let mut i: usize = 0;
    while i < n
        invariant
            n <= 8,
            n == (if len < 8 {
                len
            } else {
                8
            }),
            len == spec_dlc(cs),
            i <= n,
            forall|j: int| 0 <= j < i ==> #[trigger] data@[j] == spec_payload_byte(w0, w1, j),
            forall|j: int| i <= j < 8 ==> #[trigger] data@[j] == 0u8,
        decreases n - i,
    {
        let byte = if i < 4 {
            (w0 >> ((3 - i) * 8) as u32) as u8
        } else {
            (w1 >> ((7 - i) * 8) as u32) as u8
        };
        data[i] = byte;
        i = i + 1;
    }
    RxFrame { id, data, len: n }
}

fn payload_byte(payload: &[u8], j: usize) -> (r: u8)
    ensures
        r == byte_or_zero(payload@, j as int),
{
    if j < payload.len() {
        payload[j]
    } else {
        0
    }
}

/// The two payload words of a transmit frame carrying (up to 8 bytes of) `payload`.
pub fn pack_payload(payload: &[u8]) -> (r: [u32; 2])
    ensures
        r@[0] == spec_tx_word(payload@, 0),
        r@[1] == spec_tx_word(payload@, 1),
{
    let w0 = ((payload_byte(payload, 0) as u32) << 24u32) | ((payload_byte(payload, 1) as u32)
        << 16u32) | ((payload_byte(payload, 2) as u32) << 8u32) | (payload_byte(payload, 3) as u32);
    let w1 = ((payload_byte(payload, 4) as u32) << 24u32) | ((payload_byte(payload, 5) as u32)
        << 16u32) | ((payload_byte(payload, 6) as u32) << 8u32) | (payload_byte(payload, 7) as u32);
    [w0, w1]
}

proof fn lemma_word_bytes(a: u8, b: u8, c: u8, d: u8)
    ensures
        ({
            let w = ((a as u32) << 24u32) | ((b as u32) << 16u32) | ((c as u32) << 8u32) | (d as u32);
            &&& (w >> 24u32) as u8 == a
            &&& (w >> 16u32) as u8 == b
            &&& (w >> 8u32) as u8 == c
            &&& (w >> 0u32) as u8 == d
        }),
{
    let w = ((a as u32) << 24u32) | ((b as u32) << 16u32) | ((c as u32) << 8u32) | (d as u32);
    assert((w >> 24u32) as u8 == a && (w >> 16u32) as u8 == b && (w >> 8u32) as u8 == c && (w
        >> 0u32) as u8 == d) by (bit_vector)
        requires
            w == ((a as u32) << 24u32) | ((b as u32) << 16u32) | ((c as u32) << 8u32) | (d as u32),
    ;
}

/// What the transmitter writes, the receiver reads back: a standard-ID frame
/// of up to 8 bytes loaded into a mailbox yields, through the receive-side
/// layout, the same identifier, the same length and the same payload bytes.
pub proof fn law_frame_layout_round_trip(id: u32, p: Seq<u8>)
    requires
        id <= STD_ID_MASK,
        p.len() <= 8,
    ensures
        spec_std_id(spec_id_word(id)) == id,
        spec_rx_len(spec_dlc(spec_tx_cs(p.len() as u32))) == p.len(),
        forall|i: int|
            0 <= i < p.len() ==> spec_payload_byte(spec_tx_word(p, 0), spec_tx_word(p, 1), i)
                == #[trigger] p[i],
{
    assert(id <= 0x7FF ==> ((id << 18u32) >> 18u32) & 0x7FF == id) by (bit_vector);
    let n = p.len() as u32;
    assert(n <= 8 ==> (((0xCu32 << 24u32) | (n << 16u32)) >> 16u32) & 0xF == n) by (bit_vector);
    lemma_word_bytes(byte_or_zero(p, 0), byte_or_zero(p, 1), byte_or_zero(p, 2), byte_or_zero(p, 3));
    lemma_word_bytes(byte_or_zero(p, 4), byte_or_zero(p, 5), byte_or_zero(p, 6), byte_or_zero(p, 7));
}

// ---------------------------------------------------------------------------
// Bounded waits
// ---------------------------------------------------------------------------

/// What to do after one poll of a hardware condition.
#[derive(Debug, Clone, Copy, PartialEq, Eq, Structural)]
pub enum Poll {
    /// The condition held.
    Holds,
    /// Not yet: poll again.
    Retry,
    /// The bound ran out before the condition held.
    TimedOut,
}

/// The decision after poll number `polls_done` (counting from 0) of a
/// condition, which found it `cond`.
pub open spec fn spec_spin(polls_done: u32, cond: bool) -> Poll {
    if cond {
        Poll::Holds
    } else if polls_done + 1 >= TX_TIMEOUT_SPINS {
        Poll::TimedOut
    } else {
        Poll::Retry
    }
}

/// One step of polling a condition up to [`TX_TIMEOUT_SPINS`] times.
pub fn spin_until(polls_done: u32, cond: bool) -> (r: Poll)
    requires
        polls_done < TX_TIMEOUT_SPINS,
    ensures
        r == spec_spin(polls_done, cond),
{
    if cond {
        Poll::Holds
    } else if polls_done + 1 >= TX_TIMEOUT_SPINS {
        Poll::TimedOut
    } else {
        Poll::Retry
    }
}

/// A wait for the transmit buffer is bounded: it never asks for a poll past
/// [`TX_TIMEOUT_SPINS`], and the last allowed poll that finds the condition
/// false gives up.
pub proof fn law_spin_bounded(polls_done: u32, cond: bool)
    requires
        polls_done < TX_TIMEOUT_SPINS,
    ensures
        spec_spin(polls_done, cond) == Poll::Retry ==> polls_done + 1 < TX_TIMEOUT_SPINS,
        polls_done + 1 == TX_TIMEOUT_SPINS && !cond ==> spec_spin(polls_done, cond)
            == Poll::TimedOut,
        cond ==> spec_spin(polls_done, cond) == Poll::Holds,
{
}

/// Whether the transmit buffer, whose control/status word reads `cs`, is idle.
pub fn tx_mailbox_idle(cs: u32) -> (r: bool)
    ensures
        r == (spec_mb_code(cs) == CODE_TX_INACTIVE),
{
    mb_code(cs) == CODE_TX_INACTIVE
}

/// Whether `IFLAG1` reports the transmit buffer done.
pub fn tx_complete(iflag: u32) -> (r: bool)
    ensures
        r == (iflag & IFLAG1_TX != 0),
{
    iflag & IFLAG1_TX != 0
}

/// Whether `IFLAG1` reports a frame in the receive buffer.
pub fn rx_pending(iflag: u32) -> (r: bool)
    ensures
        r == (iflag & IFLAG1_RX != 0),
{
    iflag & IFLAG1_RX != 0
}

// ---------------------------------------------------------------------------
// Controller bring-up
// ---------------------------------------------------------------------------

/// Route one pad to its alternate function and configure it.
pub fn mux_pad(mux_off: u32, conf_off: u32, alt: u32, pad_conf: u32) -> (r: Vec<RegOp>)
    requires
        IOMUXC_BASE + mux_off <= usize::MAX,
        IOMUXC_BASE + conf_off <= usize::MAX,
    ensures
        r@ == seq![
            RegOp::Write { addr: (IOMUXC_BASE + mux_off) as usize, value: alt },
            RegOp::Write { addr: (IOMUXC_BASE + conf_off) as usize, value: pad_conf },
        ],
{
    let r = vec![
        RegOp::Write { addr: IOMUXC_BASE + mux_off as usize, value: alt },
        RegOp::Write { addr: IOMUXC_BASE + conf_off as usize, value: pad_conf },
    ];
    assert(r@ =~= seq![
        RegOp::Write { addr: (IOMUXC_BASE + mux_off) as usize, value: alt },
        RegOp::Write { addr: (IOMUXC_BASE + conf_off) as usize, value: pad_conf },
    ]);
    r
}

/// The pad configuration of the CAN pins.
pub open spec fn spec_pinmux_can1() -> Seq<RegOp> {
    seq![
        RegOp::Write { addr: (IOMUXC_BASE + 0x0A4) as usize, value: 2 },
        RegOp::Write { addr: (IOMUXC_BASE + 0x314) as usize, value: PAD_CONF_CAN },
        RegOp::Write { addr: (IOMUXC_BASE + 0x0A0) as usize, value: 2 },
        RegOp::Write { addr: (IOMUXC_BASE + 0x310) as usize, value: PAD_CONF_CAN },
    ]
}

/// SPDIF_RX → CAN1_RX (alt 2), SPDIF_TX → CAN1_TX (alt 2).
pub fn pinmux_can1() -> (r: Vec<RegOp>)
    ensures
        r@ == spec_pinmux_can1(),
{
    let mut r = mux_pad(0x0A4, 0x314, 2, PAD_CONF_CAN);
    let mut tx = mux_pad(0x0A0, 0x310, 2, PAD_CONF_CAN);
    r.append(&mut tx);
    assert(r@ =~= spec_pinmux_can1());
    r
}

/// Bit timing for 1 Mbit/s from the 40 MHz protocol engine clock: prescaler 2
/// and 20 time quanta (sync 1, PROPSEG 7, PSEG1 6, PSEG2 6, RJW 1). The
/// controller reads every timing field as the field value plus one, so the
/// word holds PRESDIV 1, PROPSEG 6, PSEG1 5, PSEG2 5, RJW 0.
pub const CTRL1_1MBIT: u32 = 0x012D_0006;

/// The PRESDIV field (bits 31:24) of a CTRL1 word.
pub open spec fn ctrl1_presdiv(w: u32) -> u32 {
    w >> 24u32
}

/// The RJW field (bits 23:22) of a CTRL1 word.
pub open spec fn ctrl1_rjw(w: u32) -> u32 {
    (w >> 22u32) & 3
}

/// The PSEG1 field (bits 21:19) of a CTRL1 word.
pub open spec fn ctrl1_pseg1(w: u32) -> u32 {
    (w >> 19u32) & 7
}

/// The PSEG2 field (bits 18:16) of a CTRL1 word.
pub open spec fn ctrl1_pseg2(w: u32) -> u32 {
    (w >> 16u32) & 7
}

/// The PROPSEG field (bits 2:0) of a CTRL1 word.
pub open spec fn ctrl1_propseg(w: u32) -> u32 {
    w & 7
}

/// Time quanta per bit under a CTRL1 word: the sync segment plus the three
/// segments, each field read as its value plus one.
pub open spec fn ctrl1_quanta(w: u32) -> int {
    1 + (ctrl1_propseg(w) + 1) + (ctrl1_pseg1(w) + 1) + (ctrl1_pseg2(w) + 1)
}

/// The bit rate a CTRL1 word gives from a protocol-engine clock of `clk` Hz:
/// the clock divided by the prescaler (PRESDIV plus one) and by the quanta per bit.
pub open spec fn ctrl1_bit_rate(clk: int, w: u32) -> int {
    clk / ((ctrl1_presdiv(w) + 1) * ctrl1_quanta(w))
}

/// Arm the receive buffer of the controller at `base` (its first message
/// buffer): clear its ID word and mark it empty.
pub fn configure_rx_mb(base: usize) -> (r: Vec<RegOp>)
    requires
        base + MB_RAM + 0x04 <= usize::MAX,
    ensures
        r@ == seq![
            RegOp::Write { addr: (base + MB_RAM + 0x04) as usize, value: 0 },
            RegOp::Modify { addr: (base + MB_RAM) as usize, mask: MB_CS_CODE_MASK, value: CODE_RX_EMPTY << 24u32 },
        ],
{
    let mb = base + MB_RAM;
    let r = vec![RegOp::Write { addr: (mb + 0x04) as usize, value: 0 }, mb_set_code(mb, CODE_RX_EMPTY)];
    assert(r@ =~= seq![
        RegOp::Write { addr: (base + MB_RAM + 0x04) as usize, value: 0 },
        RegOp::Modify { addr: (base + MB_RAM) as usize, mask: MB_CS_CODE_MASK, value: CODE_RX_EMPTY << 24u32 },
    ]);
    r
}

/// Mark the transmit buffer of the controller at `base` (its second message
/// buffer) idle.
pub fn configure_tx_mb(base: usize) -> (r: Vec<RegOp>)
    requires
        base + MB_RAM + MB_SIZE <= usize::MAX,
    ensures
        r@ == seq![
            RegOp::Modify {
                addr: (base + MB_RAM + MB_SIZE) as usize,
                mask: MB_CS_CODE_MASK,
                value: CODE_TX_INACTIVE << 24u32,
            },
        ],
{
    let mb = base + MB_RAM + MB_SIZE;
    let r = vec![mb_set_code(mb, CODE_TX_INACTIVE)];
    assert(r@ =~= seq![
        RegOp::Modify {
            addr: (base + MB_RAM + MB_SIZE) as usize,
            mask: MB_CS_CODE_MASK,
            value: CODE_TX_INACTIVE << 24u32,
        },
    ]);
    r
}

/// Reset the controller into freeze mode, program 1 Mbit/s bit timing, arm the
/// receive and transmit buffers, unmask their interrupts, leave freeze mode and
/// wait until the controller reports ready.
pub open spec fn spec_init_controller() -> Seq<RegOp> {
    seq![
        RegOp::Write { addr: (FLEXCAN1_BASE + MCR) as usize, value: MCR_MDIS },
        RegOp::Write { addr: (FLEXCAN1_BASE + MCR) as usize, value: MCR_FRZ | MCR_HALT },
        RegOp::Write { addr: (FLEXCAN1_BASE + CTRL1) as usize, value: CTRL1_1MBIT },
        RegOp::Write { addr: (FLEXCAN1_BASE + CTRL2) as usize, value: 0 },
        RegOp::Write { addr: (RX_MB_ADDR + 0x04) as usize, value: 0 },
        RegOp::Modify { addr: RX_MB_ADDR, mask: MB_CS_CODE_MASK, value: CODE_RX_EMPTY << 24u32 },
        RegOp::Modify { addr: TX_MB_ADDR, mask: MB_CS_CODE_MASK, value: CODE_TX_INACTIVE << 24u32 },
        RegOp::Write { addr: (FLEXCAN1_BASE + IMASK1) as usize, value: IFLAG1_RX | IFLAG1_TX },
        RegOp::Modify { addr: (FLEXCAN1_BASE + MCR) as usize, mask: MCR_FRZ | MCR_HALT | MCR_MDIS, value: 0 },
        RegOp::WaitClear { addr: (FLEXCAN1_BASE + MCR) as usize, mask: MCR_NOT_RDY },
    ]
}

/// The controller bring-up sequence (see [`spec_init_controller`]).
pub fn init_controller() -> (r: Vec<RegOp>)
    ensures
        r@ == spec_init_controller(),
{
    let base = FLEXCAN1_BASE;
    let mut r = vec![
        RegOp::Write { addr: (base + MCR) as usize, value: MCR_MDIS },
        RegOp::Write { addr: (base + MCR) as usize, value: MCR_FRZ | MCR_HALT },
        RegOp::Write { addr: (base + CTRL1) as usize, value: CTRL1_1MBIT },
        RegOp::Write { addr: (base + CTRL2) as usize, value: 0 },
    ];
    let mut rx = configure_rx_mb(base);
    r.append(&mut rx);
    let mut tx = configure_tx_mb(base);
    r.append(&mut tx);
    r.push(RegOp::Write { addr: (base + IMASK1) as usize, value: IFLAG1_RX | IFLAG1_TX });
    r.push(RegOp::Modify { addr: (base + MCR) as usize, mask: MCR_FRZ | MCR_HALT | MCR_MDIS, value: 0 });
    r.push(RegOp::WaitClear { addr: (base + MCR) as usize, mask: MCR_NOT_RDY });
    assert(r@ =~= spec_init_controller());
    r
}

/// The timing word gives the documented 1 Mbit/s from the 40 MHz protocol
/// engine clock: prescaler 2, 20 time quanta per bit (PROPSEG 7, PSEG1 6,
/// PSEG2 6 quanta), resynchronisation jump width 1 quantum.
pub proof fn law_ctrl1_timing()
    ensures
        ctrl1_presdiv(CTRL1_1MBIT) + 1 == 2,
        ctrl1_propseg(CTRL1_1MBIT) + 1 == 7,
        ctrl1_pseg1(CTRL1_1MBIT) + 1 == 6,
        ctrl1_pseg2(CTRL1_1MBIT) + 1 == 6,
        ctrl1_rjw(CTRL1_1MBIT) + 1 == 1,
        ctrl1_quanta(CTRL1_1MBIT) == 20,
        ctrl1_bit_rate(crate::hw::clock::CAN_PE_CLK_HZ as int, CTRL1_1MBIT) == CAN_BITRATE_HZ,
{
    let w = CTRL1_1MBIT;
    assert(w >> 24u32 == 1 && (w >> 22u32) & 3 == 0 && (w >> 19u32) & 7 == 5 && (w >> 16u32) & 7
        == 5 && w & 7 == 6) by (bit_vector)
        requires
            w == 0x012D_0006u32,
    ;
    assert(ctrl1_presdiv(w) == 1 && ctrl1_quanta(w) == 20);
    assert((ctrl1_presdiv(w) + 1) * ctrl1_quanta(w) == 40);
    assert(40_000_000int / 40int == 1_000_000int) by (nonlinear_arith);
}

/// Nominal bit rate of the safety bus.
pub const CAN_BITRATE_HZ: u32 = 1_000_000;

// ---------------------------------------------------------------------------
// The driver
// ---------------------------------------------------------------------------

/// What to do with the receive buffer after reading its control/status word.
#[derive(Debug, Clone, Copy, PartialEq, Eq, Structural)]
pub enum RxLatch {
    /// No frame to keep: release the buffer ([`rx_release`]).
    Release,
    /// Read the ID and payload words, hand them to [`FlexCan1::store_frame`],
    /// then release the buffer.
    ReadFrame,
}

/// The register writes that load the transmit buffer with a standard-ID data
/// frame carrying (up to 8 bytes of) `payload` and start it.
pub open spec fn spec_tx_ops(id: u32, payload: Seq<u8>) -> Seq<RegOp> {
    seq![
        RegOp::Write { addr: (TX_MB_ADDR + 0x04) as usize, value: spec_id_word(id) },
        RegOp::Write { addr: (TX_MB_ADDR + 0x08) as usize, value: spec_tx_word(payload, 0) },
        RegOp::Write { addr: (TX_MB_ADDR + 0x0C) as usize, value: spec_tx_word(payload, 1) },
        RegOp::Write {
            addr: TX_MB_ADDR,
            value: spec_tx_cs(
                if payload.len() < 8 {
                    payload.len() as u32
                } else {
                    8
                },
            ),
        },
    ]
}

/// A change of the receive side's state.
#[derive(Debug, Clone, Copy)]
pub enum RxEvent {
    /// The receive buffer's control/status word was examined
    /// ([`FlexCan1::drain_hw`]).
    Drain(u32),
    /// A frame read from the receive buffer was offered to the queue
    /// ([`FlexCan1::store_frame`]).
    Store(RxFrame),
    /// The oldest queued frame was asked for ([`FlexCan1::pop`]).
    Poll,
}

/// The receive side's state (queued frames, lost count) after `e`.
pub open spec fn rx_step(state: (Seq<RxFrame>, u32), e: RxEvent) -> (Seq<RxFrame>, u32) {
    match e {
        RxEvent::Drain(cs) => (
            state.0,
            if spec_mb_code(cs) == CODE_RX_OVERRUN {
                state.1.wrapping_add(1)
            } else {
                state.1
            },
        ),
        RxEvent::Store(f) => if state.0.len() < RX_QUEUE_SLOTS - 1 {
            (state.0.push(f), state.1)
        } else {
            (state.0, state.1.wrapping_add(1))
        },
        RxEvent::Poll => (
            if state.0.len() > 0 {
                state.0.drop_first()
            } else {
                state.0
            },
            state.1,
        ),
    }
}

/// The receive side's state after the events of `h`, in order.
pub open spec fn rx_run(state: (Seq<RxFrame>, u32), h: Seq<RxEvent>) -> (Seq<RxFrame>, u32)
    decreases h.len(),
{
    if h.len() == 0 {
        state
    } else {
        rx_step(rx_run(state, h.drop_last()), h.last())
    }
}

/// The frames the polls of `h` returned, in order.
pub open spec fn rx_polled(state: (Seq<RxFrame>, u32), h: Seq<RxEvent>) -> Seq<RxFrame>
    decreases h.len(),
{
    if h.len() == 0 {
        Seq::empty()
    } else {
        let before = rx_run(state, h.drop_last());
        rx_polled(state, h.drop_last()) + if h.last() is Poll && before.0.len() > 0 {
            seq![before.0[0]]
        } else {
            Seq::empty()
        }
    }
}

/// The frames the queue took in during `h`, in order.
pub open spec fn rx_accepted(state: (Seq<RxFrame>, u32), h: Seq<RxEvent>) -> Seq<RxFrame>
    decreases h.len(),
{
    if h.len() == 0 {
        Seq::empty()
    } else {
        let before = rx_run(state, h.drop_last());
        rx_accepted(state, h.drop_last()) + match h.last() {
            RxEvent::Store(f) => if before.0.len() < RX_QUEUE_SLOTS - 1 {
                seq![f]
            } else {
                Seq::empty()
            },
            _ => Seq::empty(),
        }
    }
}

/// How many frames `h` lost: overruns the receive buffer reported, and frames
/// offered while the queue was full.
pub open spec fn rx_lost_count(state: (Seq<RxFrame>, u32), h: Seq<RxEvent>) -> nat
    decreases h.len(),
{
    if h.len() == 0 {
        0
    } else {
        let before = rx_run(state, h.drop_last());
        rx_lost_count(state, h.drop_last()) + match h.last() {
            RxEvent::Drain(cs) => if spec_mb_code(cs) == CODE_RX_OVERRUN {
                1nat
            } else {
                0nat
            },
            RxEvent::Store(_) => if before.0.len() < RX_QUEUE_SLOTS - 1 {
                0nat
            } else {
                1nat
            },
            RxEvent::Poll => 0nat,
        }
    }
}

/// FLEXCAN1 receive queue and transmit staging.
pub struct FlexCan1 {
    rx_queue: [Option<RxFrame>; 8],
    rx_head: usize,
    rx_tail: usize,
    /// Frames lost to hardware overruns or a full software queue (diagnostic).
    rx_dropped: u32,
}

/// Number of frames in a ring with the given head and tail.
pub open spec fn ring_count(head: usize, tail: usize) -> nat {
    if head >= tail {
        (head - tail) as nat
    } else {
        (head + RX_QUEUE_SLOTS - tail) as nat
    }
}

/// The ring slot `k` places after `tail`.
pub open spec fn ring_slot(tail: usize, k: int) -> int {
    if tail + k < RX_QUEUE_SLOTS {
        tail + k
    } else {
        tail + k - RX_QUEUE_SLOTS
    }
}

/// The slot after `i` in the ring.
pub open spec fn ring_next(i: usize) -> usize {
    if i + 1 < RX_QUEUE_SLOTS {
        (i + 1) as usize
    } else {
        0
    }
}

impl FlexCan1 {
    #[verifier::type_invariant]
    spec fn inv(self) -> bool {
        &&& self.rx_head < RX_QUEUE_SLOTS
        &&& self.rx_tail < RX_QUEUE_SLOTS
        &&& forall|k: int|
            0 <= k < ring_count(self.rx_head, self.rx_tail) ==> (#[trigger] self.rx_queue@[ring_slot(
                self.rx_tail,
                k,
            )]) is Some && rx_frame_wf(self.rx_queue@[ring_slot(self.rx_tail, k)]->Some_0)
    }

    /// The frames waiting to be polled, oldest first.
    pub closed spec fn queued(self) -> Seq<RxFrame> {
        Seq::new(
            ring_count(self.rx_head, self.rx_tail),
            |k: int| self.rx_queue@[ring_slot(self.rx_tail, k)]->Some_0,
        )
    }

    /// The count of frames lost so far (wrapping).
    pub closed spec fn lost(self) -> u32 {
        self.rx_dropped
    }

    /// The receive side's state: the queued frames and the lost count.
    pub open spec fn rx_model(self) -> (Seq<RxFrame>, u32) {
        (self.queued(), self.lost())
    }

    /// Pinmux, reset, and start the controller at 1 Mbit/s: an empty receive
    /// queue, and the bring-up program to perform (the pad muxing of
    /// [`pinmux_can1`], then the controller set-up of [`init_controller`]).
    pub fn new() -> (r: (Self, Vec<RegOp>))
        ensures
            r.0.queued() == Seq::<RxFrame>::empty(),
            r.0.lost() == 0,
            r.1@ == spec_pinmux_can1() + spec_init_controller(),
    {
        let mut ops = pinmux_can1();
        let mut init = init_controller();
        ops.append(&mut init);
        let r = FlexCan1 { rx_queue: [None; 8], rx_head: 0, rx_tail: 0, rx_dropped: 0 };
        assert(r.queued() =~= Seq::<RxFrame>::empty());
        (r, ops)
    }

    /// Count of RX frames lost to controller overruns or a full software queue.
    pub fn dropped(&self) -> (r: u32)
        ensures
            r == self.lost(),
    {
        self.rx_dropped
    }

    /// Take the oldest queued frame, if any: the last step of [`FlexCan1::poll`].
    pub fn pop(&mut self) -> (r: Option<RxFrame>)
        ensures
            old(self).queued().len() == 0 ==> r is None && final(self).queued() == old(self).queued(),
            old(self).queued().len() > 0 ==> r == Some(old(self).queued()[0]) && final(self).queued() == old(self).queued().drop_first(),
            r matches Some(f) ==> rx_frame_wf(f),
            final(self).rx_model() == rx_step(old(self).rx_model(), RxEvent::Poll),
            final(self).lost() == old(self).lost(),
    {
        proof {
            use_type_invariant(&*self);
        }
        if self.rx_head == self.rx_tail {
            return None;
        }
        let tail = self.rx_tail;
        let frame = self.rx_queue[tail];
        let ghost before = self.queued();
        let ghost head = self.rx_head;
        let ghost q = self.rx_queue;
        proof {
            assert(q@[ring_slot(tail, 0)] is Some);
            assert forall|k: int| 0 <= k < ring_count(head, ring_next(tail)) implies #[trigger] q@[ring_slot(
                ring_next(tail),
                k,
            )] is Some && rx_frame_wf(q@[ring_slot(ring_next(tail), k)]->Some_0) by {
                assert(ring_slot(ring_next(tail), k) == ring_slot(tail, k + 1));
                assert(q@[ring_slot(tail, k + 1)] is Some);
            }
        }
        self.rx_tail = if tail + 1 < RX_QUEUE_SLOTS {
            tail + 1
        } else {
            0
        };
        self.rx_queue[tail] = None;
        proof {
            assert forall|k: int| 0 <= k < ring_count(head, ring_next(tail)) implies ring_slot(
                ring_next(tail),
                k,
            ) != tail by {}
            assert(self.queued() =~= before.drop_first());
        }
        frame
    }

    /// Account for the control/status word `cs` read from the receive buffer
    /// once `IFLAG1` reported it: an overrun (a frame lost before this one)
    /// counts as dropped; a full or overrun buffer holding a standard-ID frame
    /// is to be read, anything else just released. Extended-ID frames are not
    /// part of the M7 dictionary and are dropped rather than mis-read.
    pub fn drain_hw(&mut self, cs: u32) -> (r: RxLatch)
        ensures
            final(self).rx_model() == rx_step(old(self).rx_model(), RxEvent::Drain(cs)),
            final(self).queued() == old(self).queued(),
            final(self).lost() == (if spec_mb_code(cs) == CODE_RX_OVERRUN {
                old(self).lost().wrapping_add(1)
            } else {
                old(self).lost()
            }),
            r == (if (spec_mb_code(cs) == CODE_RX_FULL || spec_mb_code(cs) == CODE_RX_OVERRUN) && cs
                & MB_CS_IDE == 0 {
                RxLatch::ReadFrame
            } else {
                RxLatch::Release
            }),
    {
        proof {
            use_type_invariant(&*self);
        }
        let code = mb_code(cs);
        if code != CODE_RX_FULL && code != CODE_RX_OVERRUN {
            return RxLatch::Release;
        }
        if code == CODE_RX_OVERRUN {
            self.rx_dropped = self.rx_dropped.wrapping_add(1);
        }
        if cs & MB_CS_IDE == 0 {
            RxLatch::ReadFrame
        } else {
            RxLatch::Release
        }
    }

    /// Queue the frame read from the receive buffer. When the software queue is
    /// full the new frame is lost, not the old ones.
    pub fn store_frame(&mut self, cs: u32, id_word: u32, w0: u32, w1: u32)
        ensures
            exists|f: RxFrame|
                spec_rx_frame_ok(cs, id_word, w0, w1, f) && final(self).rx_model() == rx_step(
                    old(self).rx_model(),
                    RxEvent::Store(f),
                ),
            old(self).queued().len() < RX_QUEUE_SLOTS,
            old(self).queued().len() < RX_QUEUE_SLOTS - 1 ==> final(self).lost() == old(self).lost() && final(self).queued().len() == old(self).queued().len() + 1
                && final(self).queued().drop_last() == old(self).queued() && spec_rx_frame_ok(
                cs,
                id_word,
                w0,
                w1,
                final(self).queued().last(),
            ),
            old(self).queued().len() == RX_QUEUE_SLOTS - 1 ==> final(self).queued() == old(self).queued() && final(self).lost() == old(self).lost().wrapping_add(1),
    {
        proof {
            use_type_invariant(&*self);
        }
        let frame = unpack_frame(cs, id_word, w0, w1);
        let head = self.rx_head;
        let next = if head + 1 < RX_QUEUE_SLOTS {
            head + 1
        } else {
            0
        };
        if next != self.rx_tail {
            let ghost before = self.queued();
            let ghost tail = self.rx_tail;
            let ghost q = self.rx_queue;
            proof {
                assert forall|k: int| 0 <= k < ring_count(head, tail) implies ring_slot(tail, k)
                    != head by {}
            }
            self.rx_queue[head] = Some(frame);
            proof {
                assert forall|k: int| 0 <= k < ring_count(next, tail) implies #[trigger] self.rx_queue@[ring_slot(
                    tail,
                    k,
                )] is Some by {
                    if k < ring_count(head, tail) {
                        assert(self.rx_queue@[ring_slot(tail, k)] == q@[ring_slot(tail, k)]);
                    } else {
                        assert(ring_slot(tail, k) == head);
                    }
                }
            }
            self.rx_head = next;
            proof {
                assert(self.queued().len() == before.len() + 1);
                assert(self.queued().drop_last() =~= before);
                assert(self.queued().last() == frame);
            }
        } else {
            self.rx_dropped = self.rx_dropped.wrapping_add(1);
        }
    }

    /// The register writes that load the transmit buffer with a standard-ID
    /// data frame of (up to 8 bytes of) `payload` and start it: the load step
    /// of [`FlexCan1::transmit`], once the buffer reads idle.
    pub fn tx_load(&self, id: u32, payload: &[u8]) -> (r: [RegOp; 4])
        ensures
            r@ == spec_tx_ops(id, payload@),
    {
        let len: u32 = if payload.len() < 8 {
            payload.len() as u32
        } else {
            8
        };
        let data = pack_payload(payload);
        let cs = (CODE_TX_DATA << 24u32) | (len << 16u32);
        let r = [
            RegOp::Write { addr: (TX_MB_ADDR + 0x04) as usize, value: id << 18u32 },
            RegOp::Write { addr: (TX_MB_ADDR + 0x08) as usize, value: data[0] },
            RegOp::Write { addr: (TX_MB_ADDR + 0x0C) as usize, value: data[1] },
            RegOp::Write { addr: TX_MB_ADDR, value: cs },
        ];
        assert(r@ =~= spec_tx_ops(id, payload@));
        r
    }
}

/// The writes that release the receive buffer.
pub open spec fn spec_rx_release() -> Seq<RegOp> {
    seq![
        RegOp::Modify { addr: RX_MB_ADDR, mask: MB_CS_CODE_MASK, value: CODE_RX_EMPTY << 24u32 },
        RegOp::Write { addr: (FLEXCAN1_BASE + IFLAG1) as usize, value: IFLAG1_RX },
    ]
}

/// The writes that close a completed transmission.
pub open spec fn spec_tx_finish() -> Seq<RegOp> {
    seq![
        RegOp::Write { addr: (FLEXCAN1_BASE + IFLAG1) as usize, value: IFLAG1_TX },
        RegOp::Modify { addr: TX_MB_ADDR, mask: MB_CS_CODE_MASK, value: CODE_TX_INACTIVE << 24u32 },
    ]
}

/// The write that aborts a transmission that never completed.
pub open spec fn spec_tx_abort() -> RegOp {
    RegOp::Modify { addr: TX_MB_ADDR, mask: MB_CS_CODE_MASK, value: CODE_TX_INACTIVE << 24u32 }
}

/// Release the receive buffer: re-arm it empty and acknowledge its flag.
pub fn rx_release() -> (r: [RegOp; 2])
    ensures
        r@ == spec_rx_release(),
{
    let r = [
        mb_set_code(RX_MB_ADDR, CODE_RX_EMPTY),
        RegOp::Write { addr: (FLEXCAN1_BASE + IFLAG1) as usize, value: IFLAG1_RX },
    ];
    assert(r@ =~= seq![
        RegOp::Modify { addr: RX_MB_ADDR, mask: MB_CS_CODE_MASK, value: CODE_RX_EMPTY << 24u32 },
        RegOp::Write { addr: (FLEXCAN1_BASE + IFLAG1) as usize, value: IFLAG1_RX },
    ]);
    r
}

/// After a completed transmission: acknowledge the flag and idle the buffer.
pub fn tx_finish() -> (r: [RegOp; 2])
    ensures
        r@ == spec_tx_finish(),
{
    let r = [
        RegOp::Write { addr: (FLEXCAN1_BASE + IFLAG1) as usize, value: IFLAG1_TX },
        mb_set_code(TX_MB_ADDR, CODE_TX_INACTIVE),
    ];
    assert(r@ =~= seq![
        RegOp::Write { addr: (FLEXCAN1_BASE + IFLAG1) as usize, value: IFLAG1_TX },
        RegOp::Modify { addr: TX_MB_ADDR, mask: MB_CS_CODE_MASK, value: CODE_TX_INACTIVE << 24u32 },
    ]);
    r
}

/// On a bus-off / missing ECU there is no ACK and the frame never completes:
/// abort it so a dead bus can't wedge the heartbeat TX.
pub fn tx_abort() -> (r: RegOp)
    ensures
        r == spec_tx_abort(),
{
    mb_set_code(TX_MB_ADDR, CODE_TX_INACTIVE)
}

/// Over any history of the receive side: frames come out of the queue in the
/// order it took them in, each once (what the polls returned, followed by what
/// is still queued, is what was queued at the start followed by every frame
/// the queue accepted); and the lost count grows by exactly the overruns the
/// receive buffer reported plus the frames offered to a full queue, wrapping
/// at 2^32. From [`FlexCan1::new`] (empty queue, nothing lost) the lost count is
/// therefore that total.
pub proof fn law_rx_history(state: (Seq<RxFrame>, u32), h: Seq<RxEvent>)
    ensures
        rx_polled(state, h) + rx_run(state, h).0 == state.0 + rx_accepted(state, h),
        rx_run(state, h).1 == ((state.1 + rx_lost_count(state, h)) % 0x1_0000_0000) as u32,
    decreases h.len(),
{
    if h.len() > 0 {
        let p = h.drop_last();
        law_rx_history(state, p);
        let before = rx_run(state, p);
        let polled = rx_polled(state, p);
        let accepted = rx_accepted(state, p);
        match h.last() {
            RxEvent::Store(f) => {
                if before.0.len() < RX_QUEUE_SLOTS - 1 {
                    assert(polled + before.0.push(f) =~= (polled + before.0).push(f));
                    assert(state.0 + accepted.push(f) =~= (state.0 + accepted).push(f));
                    assert(rx_accepted(state, h) =~= accepted.push(f));
                    assert(rx_polled(state, h) =~= polled);
                } else {
                    lemma_lost_step(state.1 as int + rx_lost_count(state, h));
                    assert(rx_accepted(state, h) =~= accepted);
                    assert(rx_polled(state, h) =~= polled);
                }
            },
            RxEvent::Poll => {
                assert(rx_accepted(state, h) =~= accepted);
                if before.0.len() > 0 {
                    assert(rx_polled(state, h) =~= polled.push(before.0[0]));
                    assert(polled.push(before.0[0]) + before.0.drop_first() =~= polled + before.0);
                } else {
                    assert(rx_polled(state, h) =~= polled);
                }
            },
            RxEvent::Drain(cs) => {
                assert(rx_accepted(state, h) =~= accepted);
                assert(rx_polled(state, h) =~= polled);
                if spec_mb_code(cs) == CODE_RX_OVERRUN {
                    lemma_lost_step(state.1 as int + rx_lost_count(state, h));
                }
            },
        }
    }
}

proof fn lemma_lost_step(k: int)
    requires
        k >= 1,
    ensures
        (k - 1) % 0x1_0000_0000 + 1 > u32::MAX ==> k % 0x1_0000_0000 == 0,
        (k - 1) % 0x1_0000_0000 + 1 <= u32::MAX ==> k % 0x1_0000_0000 == (k - 1) % 0x1_0000_0000 + 1,
{
}

// ---------------------------------------------------------------------------
// Driver operations as step machines
// ---------------------------------------------------------------------------

/// A short register program: what one step of a driver operation performs.
#[derive(Debug, Clone, Copy, PartialEq, Eq)]
pub enum Program {
    /// Nothing to write.
    Empty,
    /// One operation.
    One(RegOp),
    /// Two operations, in order.
    Pair([RegOp; 2]),
    /// Four operations, in order.
    Quad([RegOp; 4]),
}

/// The operations of a program, in order.
pub open spec fn program_ops(p: Program) -> Seq<RegOp> {
    match p {
        Program::Empty => Seq::empty(),
        Program::One(op) => seq![op],
        Program::Pair(ops) => ops@,
        Program::Quad(ops) => ops@,
    }
}

/// Where a drain of the receive buffer stands: which register it reads next,
/// with what it has read so far.
#[derive(Debug, Clone, Copy, PartialEq, Eq, Structural)]
pub enum DrainPhase {
    /// Read `IFLAG1`.
    Flag,
    /// Read the receive buffer's control/status word.
    Latch,
    /// Read the identifier word (the control/status word was `cs`).
    IdWord(u32),
    /// Read the first payload word.
    Word0(u32, u32),
    /// Read the second payload word.
    Word1(u32, u32, u32),
}

/// The register a drain in `phase` reads next.
pub open spec fn spec_drain_addr(phase: DrainPhase) -> usize {
    match phase {
        DrainPhase::Flag => (FLEXCAN1_BASE + IFLAG1) as usize,
        DrainPhase::Latch => RX_MB_ADDR,
        DrainPhase::IdWord(_) => (RX_MB_ADDR + 0x04) as usize,
        DrainPhase::Word0(_, _) => (RX_MB_ADDR + 0x08) as usize,
        DrainPhase::Word1(_, _, _) => (RX_MB_ADDR + 0x0C) as usize,
    }
}

/// The register a drain in `phase` reads next.
pub fn drain_addr(phase: DrainPhase) -> (r: usize)
    ensures
        r == spec_drain_addr(phase),
{
    match phase {
        DrainPhase::Flag => FLEXCAN1_BASE + IFLAG1,
        DrainPhase::Latch => RX_MB_ADDR,
        DrainPhase::IdWord(_) => RX_MB_ADDR + 0x04,
        DrainPhase::Word0(_, _) => RX_MB_ADDR + 0x08,
        DrainPhase::Word1(_, _, _) => RX_MB_ADDR + 0x0C,
    }
}

/// Whether a drain reads the frame out of a buffer whose control/status word
/// is `cs`: a full or overrun buffer holding a standard-ID frame.
pub open spec fn spec_latch_reads(cs: u32) -> bool {
    (spec_mb_code(cs) == CODE_RX_FULL || spec_mb_code(cs) == CODE_RX_OVERRUN) && cs & MB_CS_IDE
        == 0
}

/// The phase after reading `value` in `phase`; `None` once the drain is over.
pub open spec fn spec_drain_next(phase: DrainPhase, value: u32) -> Option<DrainPhase> {
    match phase {
        DrainPhase::Flag => if value & IFLAG1_RX != 0 {
            Some(DrainPhase::Latch)
        } else {
            None
        },
        DrainPhase::Latch => if spec_latch_reads(value) {
            Some(DrainPhase::IdWord(value))
        } else {
            None
        },
        DrainPhase::IdWord(cs) => Some(DrainPhase::Word0(cs, value)),
        DrainPhase::Word0(cs, id) => Some(DrainPhase::Word1(cs, id, value)),
        DrainPhase::Word1(_, _, _) => None,
    }
}

/// The writes after reading `value` in `phase`: the release of the buffer once
/// the frame (if any) has been taken.
pub open spec fn spec_drain_prog(phase: DrainPhase, value: u32) -> Seq<RegOp> {
    match phase {
        DrainPhase::Latch => if spec_latch_reads(value) {
            Seq::empty()
        } else {
            spec_rx_release()
        },
        DrainPhase::Word1(_, _, _) => spec_rx_release(),
        _ => Seq::empty(),
    }
}

/// How the receive side's state changes on reading `value` in `phase`: the
/// control/status word is accounted ([`FlexCan1::drain_hw`]), the last payload
/// word completes the frame that is offered to the queue
/// ([`FlexCan1::store_frame`]), and no other reading changes anything.
pub open spec fn spec_drain_model(
    before: (Seq<RxFrame>, u32),
    after: (Seq<RxFrame>, u32),
    phase: DrainPhase,
    value: u32,
) -> bool {
    match phase {
        DrainPhase::Latch => after == rx_step(before, RxEvent::Drain(value)),
        DrainPhase::Word1(cs, id_word, w0) => exists|f: RxFrame|
            spec_rx_frame_ok(cs, id_word, w0, value, f) && after == rx_step(
                before,
                RxEvent::Store(f),
            ),
        _ => after == before,
    }
}

/// Steps a drain in `phase` has left at most.
pub open spec fn drain_rank(phase: DrainPhase) -> nat {
    match phase {
        DrainPhase::Flag => 4,
        DrainPhase::Latch => 3,
        DrainPhase::IdWord(_) => 2,
        DrainPhase::Word0(_, _) => 1,
        DrainPhase::Word1(_, _, _) => 0,
    }
}

/// Where a transmission stands.
#[derive(Debug, Clone, Copy, PartialEq, Eq, Structural)]
pub enum TxPhase {
    /// Draining the receive buffer first.
    Drain(DrainPhase),
    /// Polling the transmit buffer's control/status word until it is idle;
    /// the count is the polls done so far.
    WaitIdle(u32),
    /// Polling `IFLAG1` until the frame has gone out; the count is the polls
    /// done so far.
    WaitDone(u32),
}

/// A transmission phase the machine can be in: poll counts stay under the bound.
pub open spec fn tx_phase_ok(phase: TxPhase) -> bool {
    match phase {
        TxPhase::Drain(_) => true,
        TxPhase::WaitIdle(n) => n < TX_TIMEOUT_SPINS,
        TxPhase::WaitDone(n) => n < TX_TIMEOUT_SPINS,
    }
}

/// The register a transmission in `phase` reads next.
pub open spec fn spec_tx_addr(phase: TxPhase) -> usize {
    match phase {
        TxPhase::Drain(d) => spec_drain_addr(d),
        TxPhase::WaitIdle(_) => TX_MB_ADDR,
        TxPhase::WaitDone(_) => (FLEXCAN1_BASE + IFLAG1) as usize,
    }
}

/// The register a transmission in `phase` reads next.
pub fn tx_addr(phase: TxPhase) -> (r: usize)
    ensures
        r == spec_tx_addr(phase),
{
    match phase {
        TxPhase::Drain(d) => drain_addr(d),
        TxPhase::WaitIdle(_) => TX_MB_ADDR,
        TxPhase::WaitDone(_) => FLEXCAN1_BASE + IFLAG1,
    }
}

/// The phase after reading `value` in `phase`; `None` once the transmission is
/// over (sent, aborted, or dropped because the buffer never went idle).
pub open spec fn spec_tx_next(phase: TxPhase, value: u32) -> Option<TxPhase> {
    match phase {
        TxPhase::Drain(d) => match spec_drain_next(d, value) {
            Some(d2) => Some(TxPhase::Drain(d2)),
            None => Some(TxPhase::WaitIdle(0)),
        },
        TxPhase::WaitIdle(n) => if spec_mb_code(value) == CODE_TX_INACTIVE {
            Some(TxPhase::WaitDone(0))
        } else if n + 1 >= TX_TIMEOUT_SPINS {
            None
        } else {
            Some(TxPhase::WaitIdle((n + 1) as u32))
        },
        TxPhase::WaitDone(n) => if value & IFLAG1_TX != 0 {
            None
        } else if n + 1 >= TX_TIMEOUT_SPINS {
            None
        } else {
            Some(TxPhase::WaitDone((n + 1) as u32))
        },
    }
}

/// The writes after reading `value` in `phase`: the drain's release; the
/// frame's load and start once the buffer reads idle; the completion, or the
/// abort when the bound runs out. A buffer that never goes idle gets no write.
pub open spec fn spec_tx_prog(id: u32, payload: Seq<u8>, phase: TxPhase, value: u32) -> Seq<RegOp> {
    match phase {
        TxPhase::Drain(d) => spec_drain_prog(d, value),
        TxPhase::WaitIdle(_) => if spec_mb_code(value) == CODE_TX_INACTIVE {
            spec_tx_ops(id, payload)
        } else {
            Seq::empty()
        },
        TxPhase::WaitDone(n) => if value & IFLAG1_TX != 0 {
            spec_tx_finish()
        } else if n + 1 >= TX_TIMEOUT_SPINS {
            seq![spec_tx_abort()]
        } else {
            Seq::empty()
        },
    }
}

/// Steps a transmission in `phase` has left at most.
pub open spec fn tx_rank(phase: TxPhase) -> int {
    match phase {
        TxPhase::Drain(d) => 2 * TX_TIMEOUT_SPINS + 1 + drain_rank(d),
        TxPhase::WaitIdle(n) => 2 * TX_TIMEOUT_SPINS - n,
        TxPhase::WaitDone(n) => TX_TIMEOUT_SPINS - n,
    }
}

/// What a receive step leads to.
#[derive(Debug, Clone, Copy, PartialEq, Eq)]
pub enum PollNext<F> {
    /// Read the register of this drain phase next.
    Read(DrainPhase),
    /// The drain is over and this is the oldest queued frame, if any.
    Done(Option<F>),
}

impl FlexCan1 {
    /// One step of a drain of the receive buffer: account for `value`, read
    /// from [`drain_addr`]`(phase)`. Returns the writes to perform and the next
    /// phase, or `None` once the drain is over. A drain starts in
    /// [`DrainPhase::Flag`] and reads, in order, `IFLAG1`, the control/status
    /// word, the identifier word and the two payload words, stopping early when
    /// no frame is flagged or the buffer holds none to take.
    pub fn drain_step(&mut self, phase: DrainPhase, value: u32) -> (r: (Program, Option<DrainPhase>))
        ensures
            program_ops(r.0) == spec_drain_prog(phase, value),
            r.1 == spec_drain_next(phase, value),
            spec_drain_model(old(self).rx_model(), final(self).rx_model(), phase, value),
    {
        match phase {
            DrainPhase::Flag => {
                if rx_pending(value) {
                    (Program::Empty, Some(DrainPhase::Latch))
                } else {
                    (Program::Empty, None)
                }
            },
            DrainPhase::Latch => {
                match self.drain_hw(value) {
                    RxLatch::ReadFrame => (Program::Empty, Some(DrainPhase::IdWord(value))),
                    RxLatch::Release => {
                        let ops = rx_release();
                        assert(program_ops(Program::Pair(ops)) == spec_rx_release());
                        (Program::Pair(ops), None)
                    },
                }
            },
            DrainPhase::IdWord(cs) => (Program::Empty, Some(DrainPhase::Word0(cs, value))),
            DrainPhase::Word0(cs, id_word) => (Program::Empty, Some(DrainPhase::Word1(cs, id_word, value))),
            DrainPhase::Word1(cs, id_word, w0) => {
                self.store_frame(cs, id_word, w0, value);
                let ops = rx_release();
                (Program::Pair(ops), None)
            },
        }
    }

    /// One step of a non-blocking receive: drain the receive buffer (see
    /// [`FlexCan1::drain_step`]), then hand out the oldest queued frame.
    pub fn poll(&mut self, phase: DrainPhase, value: u32) -> (r: (Program, PollNext<RxFrame>))
        ensures
            program_ops(r.0) == spec_drain_prog(phase, value),
            spec_drain_next(phase, value) matches Some(p) ==> r.1 == PollNext::<RxFrame>::Read(p)
                && spec_drain_model(old(self).rx_model(), final(self).rx_model(), phase, value),
            spec_drain_next(phase, value) is None ==> exists|mid: (Seq<RxFrame>, u32)|
                spec_drain_model(old(self).rx_model(), mid, phase, value) && final(self).rx_model()
                    == rx_step(mid, RxEvent::Poll) && r.1 == PollNext::Done(
                    if mid.0.len() > 0 {
                        Some(mid.0[0])
                    } else {
                        None
                    },
                ),
            r.1 matches PollNext::Done(Some(f)) ==> rx_frame_wf(f),
    {
        let (prog, next) = self.drain_step(phase, value);
        match next {
            Some(p) => (prog, PollNext::Read(p)),
            None => {
                let f = self.pop();
                (prog, PollNext::Done(f))
            },
        }
    }

    /// One step of a transmission of a standard-ID frame carrying (up to 8
    /// bytes of) `payload`: account for `value`, read from [`tx_addr`]`(phase)`,
    /// and return the writes to perform and the next phase, or `None` once the
    /// transmission is over. A transmission starts in
    /// `TxPhase::Drain(DrainPhase::Flag)`: it drains the receive buffer, waits
    /// (bounded) for the transmit buffer to go idle and gives up without a
    /// write if it never does, loads and starts the frame, then waits (bounded)
    /// for completion, aborting the frame if it never completes.
    pub fn transmit(&mut self, id: u32, payload: &[u8], phase: TxPhase, value: u32) -> (r: (
        Program,
        Option<TxPhase>,
    ))
        requires
            tx_phase_ok(phase),
        ensures
            program_ops(r.0) == spec_tx_prog(id, payload@, phase, value),
            r.1 == spec_tx_next(phase, value),
            r.1 matches Some(p) ==> tx_phase_ok(p),
            phase matches TxPhase::Drain(d) ==> spec_drain_model(
                old(self).rx_model(),
                final(self).rx_model(),
                d,
                value,
            ),
            !(phase is Drain) ==> final(self).rx_model() == old(self).rx_model(),
    {
        match phase {
            TxPhase::Drain(d) => {
                let (prog, next) = self.drain_step(d, value);
                match next {
                    Some(d2) => (prog, Some(TxPhase::Drain(d2))),
                    None => (prog, Some(TxPhase::WaitIdle(0))),
                }
            },
            TxPhase::WaitIdle(n) => {
                if tx_mailbox_idle(value) {
                    (Program::Quad(self.tx_load(id, payload)), Some(TxPhase::WaitDone(0)))
                } else {
                    match spin_until(n, false) {
                        Poll::Retry => (Program::Empty, Some(TxPhase::WaitIdle(n + 1))),
                        _ => (Program::Empty, None),
                    }
                }
            },
            TxPhase::WaitDone(n) => {
                if tx_complete(value) {
                    (Program::Pair(tx_finish()), None)
                } else {
                    match spin_until(n, false) {
                        Poll::Retry => (Program::Empty, Some(TxPhase::WaitDone(n + 1))),
                        _ => (Program::One(tx_abort()), None),
                    }
                }
            },
        }
    }
}

/// A drain never hangs: every step it takes leaves strictly fewer steps, so it
/// reads at most five registers.
pub proof fn law_drain_bounded(phase: DrainPhase, value: u32)
    ensures
        spec_drain_next(phase, value) matches Some(p) ==> drain_rank(p) < drain_rank(phase),
        drain_rank(phase) <= 4,
{
}

/// A transmission never hangs: every step leaves strictly fewer steps, so it
/// reads at most `2 * TX_TIMEOUT_SPINS + 5` registers. The frame is written
/// only after the transmit buffer has read idle, and once written it is either
/// completed or aborted when the bound runs out.
pub proof fn law_transmit_bounded(id: u32, payload: Seq<u8>, phase: TxPhase, value: u32)
    requires
        tx_phase_ok(phase),
    ensures
        spec_tx_next(phase, value) matches Some(p) ==> 0 <= tx_rank(p) < tx_rank(phase),
        0 <= tx_rank(phase) <= 2 * TX_TIMEOUT_SPINS + 5,
        spec_tx_prog(id, payload, phase, value) == spec_tx_ops(id, payload) ==> phase is WaitIdle
            && spec_mb_code(value) == CODE_TX_INACTIVE,
        phase is WaitIdle && spec_tx_next(phase, value) is None ==> spec_tx_prog(
            id,
            payload,
            phase,
            value,
        ).len() == 0,
        phase is WaitDone && spec_tx_next(phase, value) is None ==> spec_tx_prog(
            id,
            payload,
            phase,
            value,
        ) == spec_tx_finish() || spec_tx_prog(id, payload, phase, value) == seq![spec_tx_abort()],
{
    assert(spec_tx_ops(id, payload).len() == 4);
}

/// After the bring-up program (on its own, or after the pad muxing as
/// [`FlexCan1::new`] returns it), whatever the module configuration register
/// held before, its MDIS (bit 31), FRZ (bit 30) and HALT (bit 28) bits are all
/// clear: the controller is enabled and out of freeze mode. The program then
/// waits for NOT_RDY (bit 29) to clear, so it ends with the controller on the
/// bus. Before that, it had been reset into freeze mode with CTRL1 set to the
/// 1 Mbit/s timing.
pub proof fn law_init_leaves_freeze(mcr0: u32)
    ensures
        crate::hw::reg::reg_after(spec_init_controller(), (FLEXCAN1_BASE + 0x00) as usize, mcr0)
            & 0xD000_0000 == 0,
        crate::hw::reg::reg_after(
            spec_pinmux_can1() + spec_init_controller(),
            (FLEXCAN1_BASE + 0x00) as usize,
            mcr0,
        ) & 0xD000_0000 == 0,
        spec_init_controller().last() == (RegOp::WaitClear {
            addr: (FLEXCAN1_BASE + 0x00) as usize,
            mask: 0x2000_0000,
        }),
        spec_init_controller()[1] == (RegOp::Write {
            addr: (FLEXCAN1_BASE + 0x00) as usize,
            value: 0x5000_0000,
        }),
        spec_init_controller()[2] == (RegOp::Write {
            addr: (FLEXCAN1_BASE + 0x04) as usize,
            value: 0x012D_0006,
        }),
{
    let a = (FLEXCAN1_BASE + 0x00) as usize;
    let ops = spec_init_controller();
    let all = spec_pinmux_can1() + spec_init_controller();
    assert(ops.len() == 10);
    assert(ops.drop_last().last() == ops[8]);
    assert(all.len() == 14);
    assert(all.last() == ops[9]);
    assert(all.drop_last().last() == ops[8]);
    assert((MCR_FRZ | MCR_HALT | MCR_MDIS) == 0xD000_0000u32) by (bit_vector);
    assert((MCR_FRZ | MCR_HALT) == 0x5000_0000u32) by (bit_vector);
    assert(ops[8] == RegOp::Modify { addr: a, mask: 0xD000_0000u32, value: 0 });
    assert(ops[9] == RegOp::WaitClear { addr: a, mask: 0x2000_0000u32 });
    let x = crate::hw::reg::reg_after(ops.drop_last().drop_last(), a, mcr0);
    let y = crate::hw::reg::reg_after(all.drop_last().drop_last(), a, mcr0);
    assert(crate::hw::reg::reg_after(ops.drop_last(), a, mcr0) == crate::hw::reg::spec_modify(
        x,
        0xD000_0000u32,
        0,
    ));
    assert(crate::hw::reg::reg_after(ops, a, mcr0) == crate::hw::reg::reg_after(
        ops.drop_last(),
        a,
        mcr0,
    ));
    assert(crate::hw::reg::reg_after(all.drop_last(), a, mcr0) == crate::hw::reg::spec_modify(
        y,
        0xD000_0000u32,
        0,
    ));
    assert(crate::hw::reg::reg_after(all, a, mcr0) == crate::hw::reg::reg_after(
        all.drop_last(),
        a,
        mcr0,
    ));
    assert(((x & !0xD000_0000u32) | (0u32 & 0xD000_0000u32)) & 0xD000_0000u32 == 0) by (bit_vector);
    assert(((y & !0xD000_0000u32) | (0u32 & 0xD000_0000u32)) & 0xD000_0000u32 == 0) by (bit_vector);
}

/// Waiting for a transmission to complete: a read of `IFLAG1` with the
/// transmit buffer's bit (bit 1) set ends the transmission, whatever its other
/// bits, by acknowledging that bit and idling the buffer. With the bit clear,
/// the machine keeps polling without writing until the bound, and on the last
/// allowed poll aborts the frame by idling the buffer.
pub proof fn law_transmit_completion(id: u32, payload: Seq<u8>, n: u32, value: u32)
    requires
        n < TX_TIMEOUT_SPINS,
    ensures
        value & 2 != 0 ==> spec_tx_next(TxPhase::WaitDone(n), value) is None && spec_tx_prog(
            id,
            payload,
            TxPhase::WaitDone(n),
            value,
        ) == seq![
            RegOp::Write { addr: (FLEXCAN1_BASE + 0x48) as usize, value: 2 },
            RegOp::Modify { addr: (FLEXCAN1_BASE + 0x90) as usize, mask: 0x0F00_0000, value: 0x0800_0000 },
        ],
        value & 2 == 0 && n + 1 < 1_000_000 ==> spec_tx_next(TxPhase::WaitDone(n), value) == Some(
            TxPhase::WaitDone((n + 1) as u32),
        ) && spec_tx_prog(id, payload, TxPhase::WaitDone(n), value).len() == 0,
        value & 2 == 0 && n + 1 == 1_000_000 ==> spec_tx_next(TxPhase::WaitDone(n), value) is None
            && spec_tx_prog(id, payload, TxPhase::WaitDone(n), value) == seq![
            RegOp::Modify { addr: (FLEXCAN1_BASE + 0x90) as usize, mask: 0x0F00_0000, value: 0x0800_0000 },
        ],
        spec_tx_next(TxPhase::WaitDone(n), value) == spec_tx_next(TxPhase::WaitDone(n), value & 2),
        spec_tx_prog(id, payload, TxPhase::WaitDone(n), value) == spec_tx_prog(
            id,
            payload,
            TxPhase::WaitDone(n),
            value & 2,
        ),
{
    assert((value & 2) & 2 == value & 2) by (bit_vector);
    assert((8u32 << 24u32) == 0x0800_0000u32) by (bit_vector);
}

/// Waiting for the transmit buffer: a control/status word whose CODE field
/// (bits 27:24) reads inactive (8) loads and starts the frame, whatever its
/// other bits; any other code loads nothing.
pub proof fn law_transmit_waits_for_idle(id: u32, payload: Seq<u8>, n: u32, value: u32)
    requires
        n < TX_TIMEOUT_SPINS,
    ensures
        (value >> 24u32) & 0xF == 8 ==> spec_tx_next(TxPhase::WaitIdle(n), value) == Some(
            TxPhase::WaitDone(0),
        ) && spec_tx_prog(id, payload, TxPhase::WaitIdle(n), value) == spec_tx_ops(id, payload),
        (value >> 24u32) & 0xF != 8 ==> spec_tx_prog(id, payload, TxPhase::WaitIdle(n), value).len()
            == 0,
{
    assert((value & 0x0F00_0000u32) >> 24u32 == (value >> 24u32) & 0xF) by (bit_vector);
}

/// The transmit mailbox layout: the identifier word carries the standard
/// identifier in bits 28:18, the first data word carries payload bytes 0..4
/// and the second bytes 4..8, each big-endian (byte 0 most significant),
/// missing bytes reading as zero, and the control/status word starts a data
/// frame (CODE 0xC) with the length, at most 8, in bits 19:16 (see
/// [`byte_or_zero`]: payload byte `i`, or zero past the payload's end).
pub proof fn law_tx_mailbox_layout(id: u32, p: Seq<u8>)
    ensures
        ({
            let ops = spec_tx_ops(id, p);
            &&& ops.len() == 4
            &&& ops[0] == RegOp::Write { addr: (FLEXCAN1_BASE + 0x94) as usize, value: id << 18u32 }
            &&& ops[1] matches RegOp::Write { addr, value } && addr == (FLEXCAN1_BASE + 0x98) as usize
                && value == byte_or_zero(p, 0) * 0x100_0000 + byte_or_zero(p, 1) * 0x1_0000
                + byte_or_zero(p, 2) * 0x100 + byte_or_zero(p, 3)
            &&& ops[2] matches RegOp::Write { addr, value } && addr == (FLEXCAN1_BASE + 0x9C) as usize
                && value == byte_or_zero(p, 4) * 0x100_0000 + byte_or_zero(p, 5) * 0x1_0000
                + byte_or_zero(p, 6) * 0x100 + byte_or_zero(p, 7)
            &&& ops[3] matches RegOp::Write { addr, value } && addr == (FLEXCAN1_BASE + 0x90) as usize
                && value == 0x0C00_0000 + (if p.len() < 8 { p.len() as int } else { 8int }) * 0x1_0000
        }),
{
    lemma_word_value(byte_or_zero(p, 0), byte_or_zero(p, 1), byte_or_zero(p, 2), byte_or_zero(p, 3));
    lemma_word_value(byte_or_zero(p, 4), byte_or_zero(p, 5), byte_or_zero(p, 6), byte_or_zero(p, 7));
    assert(spec_tx_word(p, 0) == ((byte_or_zero(p, 0) as u32) << 24u32) | ((byte_or_zero(p, 1) as u32)
        << 16u32) | ((byte_or_zero(p, 2) as u32) << 8u32) | (byte_or_zero(p, 3) as u32));
    assert(spec_tx_word(p, 1) == ((byte_or_zero(p, 4) as u32) << 24u32) | ((byte_or_zero(p, 5) as u32)
        << 16u32) | ((byte_or_zero(p, 6) as u32) << 8u32) | (byte_or_zero(p, 7) as u32));
    let n: u32 = if p.len() < 8 { p.len() as u32 } else { 8 };
    assert(n <= 8 ==> (0xCu32 << 24u32) | (n << 16u32) == 0x0C00_0000 + n * 0x1_0000) by (bit_vector);
}

proof fn lemma_word_value(a: u8, b: u8, c: u8, d: u8)
    ensures
        ((a as u32) << 24u32) | ((b as u32) << 16u32) | ((c as u32) << 8u32) | (d as u32) == a
            * 0x100_0000 + b * 0x1_0000 + c * 0x100 + d,
{
    assert(((a as u32) << 24u32) | ((b as u32) << 16u32) | ((c as u32) << 8u32) | (d as u32) == a
        * 0x100_0000 + b * 0x1_0000 + c * 0x100 + d) by (bit_vector);
}

/// The receive mailbox layout: a frame's payload byte `i` is byte `i` of the
/// two data words read big-endian (byte 0 is the top byte of the first word),
/// and its identifier is bits 28:18 of the identifier word.
pub proof fn law_rx_mailbox_layout(cs: u32, id_word: u32, w0: u32, w1: u32, f: RxFrame)
    requires
        spec_rx_frame_ok(cs, id_word, w0, w1, f),
    ensures
        f.len >= 4 ==> w0 == f.data@[0] * 0x100_0000 + f.data@[1] * 0x1_0000 + f.data@[2] * 0x100
            + f.data@[3],
        f.len == 8 ==> w1 == f.data@[4] * 0x100_0000 + f.data@[5] * 0x1_0000 + f.data@[6] * 0x100
            + f.data@[7],
        f.id == (id_word / 0x4_0000) % 0x800,
        f.len == (if (cs / 0x1_0000) % 16 < 8 { (cs / 0x1_0000) % 16 } else { 8 }),
{
    assert(w0 == ((w0 >> 24u32) as u8) * 0x100_0000 + ((w0 >> 16u32) as u8) * 0x1_0000 + ((w0
        >> 8u32) as u8) * 0x100 + ((w0 >> 0u32) as u8)) by (bit_vector);
    assert(w1 == ((w1 >> 24u32) as u8) * 0x100_0000 + ((w1 >> 16u32) as u8) * 0x1_0000 + ((w1
        >> 8u32) as u8) * 0x100 + ((w1 >> 0u32) as u8)) by (bit_vector);
    assert((id_word >> 18u32) & 0x7FF == (id_word / 0x4_0000) % 0x800) by (bit_vector);
    assert((cs >> 16u32) & 0xF == (cs / 0x1_0000) % 16) by (bit_vector);
    if f.len >= 4 {
        assert(f.data@[0] == spec_payload_byte(w0, w1, 0));
        assert(f.data@[1] == spec_payload_byte(w0, w1, 1));
        assert(f.data@[2] == spec_payload_byte(w0, w1, 2));
        assert(f.data@[3] == spec_payload_byte(w0, w1, 3));
    }
    if f.len == 8 {
        assert(f.data@[4] == spec_payload_byte(w0, w1, 4));
        assert(f.data@[5] == spec_payload_byte(w0, w1, 5));
        assert(f.data@[6] == spec_payload_byte(w0, w1, 6));
        assert(f.data@[7] == spec_payload_byte(w0, w1, 7));
    }
}

} // verus!
