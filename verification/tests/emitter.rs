use uart_console::printer::NEWLINE;
use uart_console::uart::{putc, Store, Uart, LINE_STATUS_EMPTY, LINE_STATUS_OFFSET};

const BASE: usize = 0x1000_0000;

#[test]
fn new_uart_has_issued_nothing() {
    let uart = Uart::new(BASE);
    assert_eq!(uart.tx_addr(), BASE);
    assert!(uart.stores().is_empty());
    assert!(uart.sent().is_empty());
}

#[test]
fn putc_issues_one_store_to_the_transmit_register() {
    let mut uart = Uart::new(BASE);
    putc(&mut uart, 0x41);
    assert_eq!(uart.stores(), &[Store { addr: BASE, value: 0x41 }][..]);
    assert_eq!(uart.sent(), vec![0x41u8]);
    assert_eq!(uart.tx_addr(), BASE);
}

#[test]
fn putc_accepts_every_byte_value() {
    for b in 0..=255u8 {
        let mut uart = Uart::new(BASE);
        putc(&mut uart, b);
        assert_eq!(uart.stores().len(), 1);
        assert_eq!(uart.stores()[0], Store { addr: BASE, value: b });
    }
}

#[test]
fn putc_keeps_earlier_stores_in_order() {
    let mut uart = Uart::new(BASE);
    putc(&mut uart, 0x00);
    putc(&mut uart, 0xFF);
    putc(&mut uart, 0x00);
    assert_eq!(uart.sent(), vec![0x00u8, 0xFF, 0x00]);
    assert!(uart.stores().iter().all(|st| st.addr == BASE));
}

#[test]
fn putc_never_stores_to_the_line_status_register() {
    let mut uart = Uart::new(BASE);
    putc(&mut uart, LINE_STATUS_EMPTY);
    assert_eq!(LINE_STATUS_OFFSET, 5);
    assert_eq!(LINE_STATUS_EMPTY, 0x40);
    assert!(uart.stores().iter().all(|st| st.addr != BASE + LINE_STATUS_OFFSET));
}

#[test]
fn putc_at_the_highest_address() {
    let mut uart = Uart::new(usize::MAX);
    putc(&mut uart, NEWLINE);
    assert_eq!(uart.stores(), &[Store { addr: usize::MAX, value: 0x0A }][..]);
}
