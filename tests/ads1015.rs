use rocketry_control::ads1015::{
    average_raw, config_word, is_ready, raw_from_bus_word, swap_bytes, Channel, DataRate, Gain,
};

#[test]
fn test_gain_voltage_ranges() {
    assert_eq!(Gain::TwoThirds.voltage_range() as f32 / 1000.0, 6.144);
    assert_eq!(Gain::One.voltage_range() as f32 / 1000.0, 4.096);
    assert_eq!(Gain::Two.voltage_range() as f32 / 1000.0, 2.048);
}

#[test]
fn test_lsb_calculation() {
    // 12-bit result: 2048 steps per polarity
    let lsb_volts = Gain::One.lsb_size() as f32 / 1_000_000.0;
    assert!((lsb_volts - 0.002).abs() < 0.0001);
}

#[test]
fn test_data_rate_timing() {
    assert_eq!(DataRate::Sps128.conversion_time_ms(), 8);
    assert_eq!(DataRate::Sps3300.conversion_time_ms(), 1);

    assert_eq!(DataRate::Sps128.conversion_time_us(), 8000);
    assert_eq!(DataRate::Sps3300.conversion_time_us(), 303);
}

#[test]
fn config_word_for_ain0_gain_one_max_rate() {
    // OS | MUX=100 | PGA=001 | MODE | DR=110 | COMP_QUE=11
    assert_eq!(config_word(Channel::Ain0, Gain::One, DataRate::Sps3300), 0xC3C3);
    assert_eq!(config_word(Channel::Diff0_1, Gain::TwoThirds, DataRate::Sps128), 0x8103);
}

#[test]
fn raw_conversion_decodes_twelve_bit_results() {
    // device word 0x7FF0 arrives byte-swapped as 0xF07F
    assert_eq!(swap_bytes(0x7FF0), 0xF07F);
    assert_eq!(raw_from_bus_word(0xF07F), 2047);
    // device word 0x8000 is the most negative value
    assert_eq!(raw_from_bus_word(0x0080), -2048);
    // device word 0xFFF0 is -1
    assert_eq!(raw_from_bus_word(0xF0FF), -1);
    assert_eq!(raw_from_bus_word(0x1000), 1);
}

#[test]
fn ready_bit_is_read_from_the_swapped_word() {
    assert!(is_ready(0x0080));
    assert!(!is_ready(0x8000));
}

#[test]
fn averaging_rounds_toward_zero() {
    assert_eq!(average_raw(&vec![]), 0);
    assert_eq!(average_raw(&vec![10, 11]), 10);
    assert_eq!(average_raw(&vec![-10, -11]), -10);
    assert_eq!(average_raw(&vec![2047, 2047, 2047]), 2047);
}
