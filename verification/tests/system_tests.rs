use rk3568_boot::boot::kernel_boot;
use rk3568_boot::boot::idle_tick;
use rk3568_boot::boot::BootOptions;
use rk3568_boot::bsp::UART2_PHYS_BASE;
use rk3568_boot::bsp::UART_IRQ_ID;
use rk3568_boot::exceptions::handle_irq;
use rk3568_boot::exceptions::vector_slot_offset;
use rk3568_boot::exceptions::CpuState;
use rk3568_boot::exceptions::ExceptionClass;
use rk3568_boot::exceptions::ExceptionOrigin;
use rk3568_boot::fault::report_panic;
use rk3568_boot::gic::Gic;
use rk3568_boot::gic::SPURIOUS_ID;
use rk3568_boot::uart::init;

const BOOT_VBAR: u64 = 0x4000_0000;
const TABLE_ADDR: u64 = 0x0008_0800;

#[test]
fn vector_base_keeps_boot_loader_value_until_install() {
    let mut cpu = CpuState::new(BOOT_VBAR);
    // Before the table is installed, the register still holds the boot
    // loader's value.
    assert_eq!(cpu.vbar, BOOT_VBAR);
    assert!(!cpu.vectors_installed);
    cpu.install_vector_table(TABLE_ADDR);
    // After installation it holds the linked table's address exactly.
    assert_eq!(cpu.vbar, TABLE_ADDR);
    assert!(cpu.vectors_installed);
}

#[test]
fn irq_slot_sits_at_its_architectural_offset() {
    let off = vector_slot_offset(ExceptionOrigin::CurrentSpElx, ExceptionClass::Irq);
    assert_eq!(off, 0x280);
    let last = vector_slot_offset(ExceptionOrigin::LowerAarch32, ExceptionClass::SError);
    assert_eq!(last, 0x780);
    let first = vector_slot_offset(ExceptionOrigin::CurrentSpEl0, ExceptionClass::Synchronous);
    assert_eq!(first, 0);
}

#[test]
fn dispatcher_issues_exactly_one_eoi_with_a_byte_present() {
    let mut console = init(UART2_PHYS_BASE);
    let mut gic = Gic::new(0xFD40_0000);
    gic.init(UART_IRQ_ID, 0x80);
    console.enable_receive_interrupt();
    console.receive_byte(b'x');
    gic.raise(UART_IRQ_ID);
    let id = handle_irq(&mut gic, &mut console);
    assert_eq!(id, 56);
    assert_eq!(gic.eoi_log, vec![56]);
    // The one received byte was drained and echoed.
    assert_eq!(console.tx_wire, vec![b'x']);
    assert!(console.rx_fifo.is_empty());
}

#[test]
fn dispatcher_issues_exactly_one_eoi_with_no_byte_present() {
    let mut console = init(UART2_PHYS_BASE);
    let mut gic = Gic::new(0xFD40_0000);
    gic.init(UART_IRQ_ID, 0x80);
    gic.raise(UART_IRQ_ID);
    let id = handle_irq(&mut gic, &mut console);
    assert_eq!(id, 56);
    // Still exactly one end-of-interrupt write with identifier 56.
    assert_eq!(gic.eoi_log, vec![56]);
    assert!(console.tx_wire.is_empty());
}

#[test]
fn dispatcher_echo_normalizes_a_line_feed() {
    let mut console = init(UART2_PHYS_BASE);
    let mut gic = Gic::new(0xFD40_0000);
    gic.init(UART_IRQ_ID, 0x80);
    console.receive_byte(b'\n');
    gic.raise(UART_IRQ_ID);
    handle_irq(&mut gic, &mut console);
    assert_eq!(console.tx_wire, b"\r\n".to_vec());
}

#[test]
fn dispatcher_ends_unrecognized_interrupts_without_action() {
    let mut console = init(UART2_PHYS_BASE);
    let mut gic = Gic::new(0xFD40_0000);
    gic.init(77, 0x10);
    gic.raise(77);
    let id = handle_irq(&mut gic, &mut console);
    assert_eq!(id, 77);
    assert_eq!(gic.eoi_log, vec![77]);
    // The console was not touched.
    assert!(console.tx_wire.is_empty());
    assert!(console.rx_fifo.is_empty());
}

#[test]
fn dispatcher_leaves_a_spurious_acknowledge_alone() {
    let mut console = init(UART2_PHYS_BASE);
    let mut gic = Gic::new(0xFD40_0000);
    gic.init(UART_IRQ_ID, 0x80);
    let id = handle_irq(&mut gic, &mut console);
    assert_eq!(id, SPURIOUS_ID);
    assert!(gic.eoi_log.is_empty());
}

#[test]
fn boot_with_no_options_reaches_a_stable_polled_state() {
    let m = kernel_boot(
        BOOT_VBAR,
        TABLE_ADDR,
        BootOptions { install_vectors: false, enable_interrupts: false },
    );
    assert_eq!(m.console.tx_wire, b"[+] kernel core online\r\n".to_vec());
    // The boot loader's vector base survives, interrupts stay masked,
    // the controller is untouched.
    assert_eq!(m.cpu.vbar, BOOT_VBAR);
    assert!(m.cpu.irq_masked);
    assert!(m.gic.ops.is_empty());
    assert_eq!(m.console.ier, 0);
}

#[test]
fn boot_with_vectors_only_keeps_interrupts_masked() {
    let m = kernel_boot(
        BOOT_VBAR,
        TABLE_ADDR,
        BootOptions { install_vectors: true, enable_interrupts: false },
    );
    assert_eq!(m.cpu.vbar, TABLE_ADDR);
    assert!(m.cpu.irq_masked);
    assert!(m.gic.ops.is_empty());
}

#[test]
fn full_boot_arms_the_console_interrupt() {
    let m = kernel_boot(
        BOOT_VBAR,
        TABLE_ADDR,
        BootOptions { install_vectors: true, enable_interrupts: true },
    );
    assert_eq!(m.cpu.vbar, TABLE_ADDR);
    assert!(!m.cpu.irq_masked);
    assert!(m.gic.is_deliverable(UART_IRQ_ID));
    assert_eq!(m.gic.ops.len(), 8);
    assert_ne!(m.console.ier & 1, 0);
}

#[test]
fn booted_machine_echoes_a_received_byte() {
    let mut m = kernel_boot(
        BOOT_VBAR,
        TABLE_ADDR,
        BootOptions { install_vectors: true, enable_interrupts: true },
    );
    let before = m.console.tx_wire.len();
    m.console.receive_byte(b'k');
    m.gic.raise(UART_IRQ_ID);
    let id = handle_irq(&mut m.gic, &mut m.console);
    assert_eq!(id, UART_IRQ_ID);
    assert_eq!(m.console.tx_wire[before..], [b'k']);
    assert_eq!(m.gic.eoi_log, vec![UART_IRQ_ID]);
}

#[test]
fn idle_tick_emits_the_liveness_marker() {
    let mut m = kernel_boot(
        BOOT_VBAR,
        TABLE_ADDR,
        BootOptions { install_vectors: false, enable_interrupts: false },
    );
    let before = m.console.tx_wire.len();
    idle_tick(&mut m);
    assert_eq!(m.console.tx_wire[before..], [b'.']);
}

#[test]
fn panic_report_is_structured_and_normalized() {
    let mut console = init(UART2_PHYS_BASE);
    report_panic(&mut console, b"main.rs:42", b"unrecoverable fault");
    assert_eq!(
        console.tx_wire,
        b"\r\n*** KERNEL PANIC ***\r\nmain.rs:42: unrecoverable fault\r\n".to_vec()
    );
}

#[test]
fn panic_report_with_empty_message_still_reports_location() {
    let mut console = init(UART2_PHYS_BASE);
    report_panic(&mut console, b"boot.rs:7", b"");
    assert_eq!(
        console.tx_wire,
        b"\r\n*** KERNEL PANIC ***\r\nboot.rs:7: \r\n".to_vec()
    );
}
