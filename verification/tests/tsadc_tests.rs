use rk3568_boot::bsp::TSADC_PHYS_BASE;
use rk3568_boot::tsadc::Tsadc;
use rk3568_boot::tsadc::TSADC_INT_PD;
use rk3568_boot::tsadc::TSADC_USER_CON;

#[test]
fn new_leaves_the_peripheral_powered_down() {
    let t = Tsadc::new(TSADC_PHYS_BASE);
    assert_eq!(t.base_addr, 0xFE71_0000);
    assert_eq!(t.user_con, 0);
    assert_eq!(t.int_pd, 0);
    assert!(t.writes.is_empty());
}

#[test]
fn calibration_anchor_reads_exactly_zero_celsius() {
    let mut t = Tsadc::new(TSADC_PHYS_BASE);
    t.set_sample(1859);
    let millicelsius = t.read_temperature();
    assert_eq!(millicelsius, 0);
    assert_eq!(millicelsius as f64 / 1000.0, 0.0);
}

#[test]
fn code_above_anchor_reads_close_to_minus_ten() {
    let mut t = Tsadc::new(TSADC_PHYS_BASE);
    t.set_sample(1859 + 75);
    let millicelsius = t.read_temperature();
    let celsius = millicelsius as f64 / 1000.0;
    assert!((celsius - (-9.96)).abs() <= 0.01);
}

#[test]
fn consecutive_reads_of_one_input_agree() {
    let mut t = Tsadc::new(TSADC_PHYS_BASE);
    t.set_sample(2000);
    let first = t.read_temperature();
    let second = t.read_temperature();
    assert_eq!(first, second);
}

#[test]
fn front_end_is_powered_off_after_every_read() {
    let mut t = Tsadc::new(TSADC_PHYS_BASE);
    t.set_sample(1900);
    t.read_temperature();
    assert_eq!(t.user_con, 0);
    assert_eq!(t.int_pd & 1, 0);
    t.read_temperature();
    assert_eq!(t.user_con, 0);
}

#[test]
fn only_the_low_twelve_bits_of_the_code_count() {
    let mut a = Tsadc::new(TSADC_PHYS_BASE);
    let mut b = Tsadc::new(TSADC_PHYS_BASE);
    a.set_sample(100);
    b.set_sample(0xF000 | 100);
    assert_eq!(a.read_temperature(), b.read_temperature());
}

#[test]
fn one_session_issues_the_documented_write_sequence() {
    let mut t = Tsadc::new(TSADC_PHYS_BASE);
    t.set_sample(1859);
    t.read_temperature();
    let offsets: Vec<u64> = t.writes.iter().map(|w| w.offset).collect();
    let values: Vec<u32> = t.writes.iter().map(|w| w.value).collect();
    assert_eq!(
        offsets,
        vec![TSADC_USER_CON, TSADC_USER_CON, TSADC_INT_PD, TSADC_USER_CON]
    );
    // Power on; power on and start; write-one-to-clear; power off.
    assert_eq!(values, vec![0x8, 0x9, 0x1, 0x0]);
}
