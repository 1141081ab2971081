use rk3568_boot::bsp::UART2_PHYS_BASE;
use rk3568_boot::uart::init;
use rk3568_boot::uart::IER_ELSI;
use rk3568_boot::uart::IER_ERBFI;
use rk3568_boot::uart::IIR_NONE;
use rk3568_boot::uart::IIR_RX_DATA;
use rk3568_boot::uart::UART_IER;
use rk3568_boot::uart::UART_THR;

#[test]
fn init_starts_quiet() {
    let console = init(UART2_PHYS_BASE);
    assert_eq!(console.base_address, 0xFE66_0000);
    assert!(console.tx_wire.is_empty());
    assert!(console.rx_fifo.is_empty());
    assert_eq!(console.ier, 0);
    assert!(!console.irq_pending);
    assert!(console.writes.is_empty());
}

#[test]
fn put_byte_transmits_and_records_the_write() {
    let mut console = init(UART2_PHYS_BASE);
    console.put_byte(b'A');
    assert_eq!(console.tx_wire, vec![b'A']);
    assert_eq!(console.writes.len(), 1);
    assert_eq!(console.writes[0].offset, UART_THR);
    assert_eq!(console.writes[0].value, b'A' as u32);
}

#[test]
fn write_text_injects_cr_before_every_lf() {
    let mut console = init(UART2_PHYS_BASE);
    console.write_text(b"a\nb\n");
    assert_eq!(console.tx_wire, b"a\r\nb\r\n".to_vec());
}

#[test]
fn write_text_alters_no_other_byte() {
    let mut console = init(UART2_PHYS_BASE);
    console.write_text(b"plain text, no line feed");
    assert_eq!(console.tx_wire, b"plain text, no line feed".to_vec());
}

#[test]
fn write_text_keeps_carriage_returns_from_the_text() {
    let mut console = init(UART2_PHYS_BASE);
    // A CR-LF already in the text keeps its own CR; the LF still gets
    // its injected one. Decoding drops exactly the injected CR.
    console.write_text(b"x\r\ny");
    assert_eq!(console.tx_wire, b"x\r\r\ny".to_vec());
}

#[test]
fn write_text_empty_writes_nothing() {
    let mut console = init(UART2_PHYS_BASE);
    console.write_text(b"");
    assert!(console.tx_wire.is_empty());
    assert!(console.writes.is_empty());
}

#[test]
fn try_get_byte_without_data_does_not_block() {
    let mut console = init(UART2_PHYS_BASE);
    assert_eq!(console.try_get_byte(), None);
    assert!(console.tx_wire.is_empty());
}

#[test]
fn try_get_byte_drains_oldest_first() {
    let mut console = init(UART2_PHYS_BASE);
    console.receive_byte(b'x');
    console.receive_byte(b'y');
    assert_eq!(console.try_get_byte(), Some(b'x'));
    assert_eq!(console.try_get_byte(), Some(b'y'));
    assert_eq!(console.try_get_byte(), None);
}

#[test]
fn enable_receive_interrupt_sets_both_enable_bits() {
    let mut console = init(UART2_PHYS_BASE);
    console.enable_receive_interrupt();
    assert_ne!(console.ier & IER_ERBFI, 0);
    assert_ne!(console.ier & IER_ELSI, 0);
    assert_eq!(console.writes.len(), 1);
    assert_eq!(console.writes[0].offset, UART_IER);
    assert_eq!(console.writes[0].value, IER_ERBFI | IER_ELSI);
}

#[test]
fn interrupt_identity_read_acknowledges() {
    let mut console = init(UART2_PHYS_BASE);
    assert_eq!(console.read_interrupt_identity(), IIR_NONE);
    console.enable_receive_interrupt();
    console.receive_byte(b'q');
    assert!(console.irq_pending);
    assert_eq!(console.read_interrupt_identity(), IIR_RX_DATA);
    // The read cleared the pending condition.
    assert!(!console.irq_pending);
    assert_eq!(console.read_interrupt_identity(), IIR_NONE);
}

#[test]
fn receive_without_interrupt_enable_latches_nothing() {
    let mut console = init(UART2_PHYS_BASE);
    console.receive_byte(b'q');
    assert!(!console.irq_pending);
    assert_eq!(console.try_get_byte(), Some(b'q'));
}
