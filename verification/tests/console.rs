use sigma_racer_sidearm::bringup::{decimal_bytes, write_u32};
use sigma_racer_sidearm::hw::clock::{init_can1, init_uart4, CCM_CCGR5, CORE_CLK_HZ};
use sigma_racer_sidearm::hw::reg::{RegOp, RDC_BASE};
use sigma_racer_sidearm::hw::rdc_allow_m7_peripherals;
use sigma_racer_sidearm::hw::uart::{Uart4, LPUART_BAUD, LPUART_CTRL, LPUART_DATA, LPUART_STAT};

#[test]
fn decimal_text() {
    assert_eq!(decimal_bytes(0), b"0".to_vec());
    assert_eq!(decimal_bytes(7), b"7".to_vec());
    assert_eq!(decimal_bytes(1_000), b"1000".to_vec());
    assert_eq!(decimal_bytes(u32::MAX), b"4294967295".to_vec());
}

#[test]
fn uart_configuration() {
    let (_uart, ops) = Uart4::new();
    let n = ops.len();
    assert_eq!(n, 5 + 3);
    assert_eq!(ops[n - 3], RegOp::Write { addr: LPUART_CTRL, value: 0 });
    assert_eq!(ops[n - 2], RegOp::Write { addr: LPUART_BAUD, value: (15 << 24) | 43 });
    assert_eq!(ops[n - 1], RegOp::Write { addr: LPUART_CTRL, value: (1 << 19) | (1 << 18) });
}

#[test]
fn uart_byte_protocol() {
    let (uart, _) = Uart4::new();
    assert_eq!(
        uart.write_byte(b'A'),
        vec![
            RegOp::WaitSet { addr: LPUART_STAT, mask: 1 << 23 },
            RegOp::Write { addr: LPUART_DATA, value: 65 },
            RegOp::WaitSet { addr: LPUART_STAT, mask: 1 << 22 },
        ]
    );
    let ops = uart.write_str("tick ");
    assert_eq!(ops.len(), 15);
    assert_eq!(ops[4], RegOp::Write { addr: LPUART_DATA, value: b'i' as u32 });
    let digits = write_u32(&uart, 42);
    assert_eq!(digits.len(), 6);
    assert_eq!(digits[1], RegOp::Write { addr: LPUART_DATA, value: b'4' as u32 });
    assert_eq!(digits[4], RegOp::Write { addr: LPUART_DATA, value: b'2' as u32 });
}

#[test]
fn clock_and_domain_setup() {
    let (op, hz) = init_uart4();
    assert_eq!(hz, CORE_CLK_HZ);
    assert_eq!(op, RegOp::Modify { addr: CCM_CCGR5, mask: 0x0C00_0000, value: 0x0C00_0000 });
    assert_eq!(init_can1(), RegOp::Modify { addr: CCM_CCGR5, mask: 0x0030_0000, value: 0x0030_0000 });
    let rdc = rdc_allow_m7_peripherals();
    assert_eq!(rdc[0], RegOp::Modify { addr: RDC_BASE + 0x284, mask: 0x00FF_0000, value: 0x00FF_0000 });
    assert_eq!(rdc[1], RegOp::Modify { addr: RDC_BASE + 0x200, mask: 0x00FF_0000, value: 0x00FF_0000 });
}
