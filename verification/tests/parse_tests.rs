use nvidia_smi_exporter::sample::RowError;
use nvidia_smi_exporter::sample::parse_pstate;
use nvidia_smi_exporter::sample::parse_row;
use nvidia_smi_exporter::num::parse_i64;
use nvidia_smi_exporter::num::parse_u64;
use nvidia_smi_exporter::value::GaugeValue;
use nvidia_smi_exporter::value::parse_dec;
use nvidia_smi_exporter::value::value_string;

fn dec(neg: bool, mantissa: u64, scale: usize) -> GaugeValue {
    GaugeValue { neg, mantissa, scale }
}

#[test]
fn parse_u64_basics() {
    assert_eq!(parse_u64("0"), Some(0));
    assert_eq!(parse_u64("15109"), Some(15109));
    assert_eq!(parse_u64(""), None);
    assert_eq!(parse_u64("12a"), None);
    assert_eq!(parse_u64("18446744073709551615"), Some(u64::MAX));
    assert_eq!(parse_u64("18446744073709551616"), None);
}

#[test]
fn parse_i64_signs_and_range() {
    assert_eq!(parse_i64("123"), Some(123));
    assert_eq!(parse_i64("-5"), Some(-5));
    assert_eq!(parse_i64("+7"), Some(7));
    assert_eq!(parse_i64(""), None);
    assert_eq!(parse_i64("-"), None);
    assert_eq!(parse_i64("12 3"), None);
    assert_eq!(parse_i64("9223372036854775807"), Some(i64::MAX));
    assert_eq!(parse_i64("9223372036854775808"), None);
    assert_eq!(parse_i64("-9223372036854775808"), Some(i64::MIN));
    assert_eq!(parse_i64("-9223372036854775809"), None);
}

#[test]
fn parse_dec_shapes() {
    assert_eq!(parse_dec("7.5"), Some(dec(false, 75, 1)));
    assert_eq!(parse_dec("70.0"), Some(dec(false, 700, 1)));
    assert_eq!(parse_dec("450"), Some(dec(false, 450, 0)));
    assert_eq!(parse_dec("-3.25"), Some(dec(true, 325, 2)));
    assert_eq!(parse_dec(".5"), Some(dec(false, 5, 1)));
    assert_eq!(parse_dec("5."), Some(dec(false, 5, 0)));
    assert_eq!(parse_dec("N/A"), None);
    assert_eq!(parse_dec("1.2.3"), None);
    assert_eq!(parse_dec("."), None);
    assert_eq!(parse_dec("-0"), Some(dec(false, 0, 0)));
}

#[test]
fn pstate_strips_one_leading_character() {
    assert_eq!(parse_pstate("P0"), Some(0));
    assert_eq!(parse_pstate("P8"), Some(8));
    assert_eq!(parse_pstate("P12"), Some(12));
    assert_eq!(parse_pstate(""), None);
    assert_eq!(parse_pstate("P"), None);
    assert_eq!(parse_pstate("Px"), None);
}

#[test]
fn value_rendering() {
    assert_eq!(value_string(&GaugeValue { neg: false, mantissa: 0, scale: 0 }), "0");
    assert_eq!(value_string(&GaugeValue { neg: false, mantissa: 15109, scale: 0 }), "15109");
    assert_eq!(value_string(&GaugeValue { neg: true, mantissa: 12, scale: 0 }), "-12");
    assert_eq!(value_string(&GaugeValue { neg: false, mantissa: 205, scale: 1 }), "20.5");
    assert_eq!(value_string(&GaugeValue { neg: false, mantissa: 700, scale: 1 }), "70.0");
    assert_eq!(value_string(&GaugeValue { neg: false, mantissa: 5, scale: 3 }), "0.005");
    assert_eq!(value_string(&GaugeValue::from_i64(-42)), "-42");
}

#[test]
fn parse_row_well_formed() {
    let row = "0, Tesla T4, 450.1, 90.1, 15109, 123, 0, 7.5, 45, 5, 30, P0, 70.0, 20.5, 300,5000,800,1500,6000";
    let s = parse_row(row).unwrap();
    assert_eq!(s.index, "0");
    assert_eq!(s.name, "Tesla T4");
    assert_eq!(s.driver_version, "450.1");
    assert_eq!(s.vbios_version, "90.1");
    assert_eq!(s.memory_total, 15109);
    assert_eq!(s.memory_used, 123);
    assert_eq!(s.utilization_memory, 0);
    assert_eq!(s.compute_cap, dec(false, 75, 1));
    assert_eq!(s.temperature, 45);
    assert_eq!(s.utilization_gpu, 5);
    assert_eq!(s.fan_speed, 30);
    assert_eq!(s.performance_state, 0);
    assert_eq!(s.power_limit, dec(false, 700, 1));
    assert_eq!(s.power_draw, dec(false, 205, 1));
    assert_eq!(s.clock_graphics, 300);
    assert_eq!(s.clock_memory, 5000);
    assert_eq!(s.clock_video, 800);
    assert_eq!(s.clock_max_graphics, 1500);
    assert_eq!(s.clock_max_memory, 6000);
}

#[test]
fn parse_row_power_draw_not_available_reads_zero() {
    let row = "1, Tesla T4, 450.1, 90.1, 15109, 200, 1, 7.5, 50, 10, 35, P8, 70.0, N/A, 300,5000,800,1500,6000";
    let s = parse_row(row).unwrap();
    assert_eq!(s.power_draw, dec(false, 0, 0));
    assert_eq!(s.performance_state, 8);
}

#[test]
fn parse_row_errors() {
    assert_eq!(parse_row("0, only, three").unwrap_err(), RowError::Length);
    let bad_mem = "0, Tesla T4, 450.1, 90.1, xx, 123, 0, 7.5, 45, 5, 30, P0, 70.0, 20.5, 300,5000,800,1500,6000";
    assert_eq!(parse_row(bad_mem).unwrap_err(), RowError::Field(4));
    let bad_clock = "0, Tesla T4, 450.1, 90.1, 15109, 123, 0, 7.5, 45, 5, 30, P0, 70.0, 20.5, 300,5000,800,1500,x";
    assert_eq!(parse_row(bad_clock).unwrap_err(), RowError::Field(18));
    let bad_state = "0, Tesla T4, 450.1, 90.1, 15109, 123, 0, 7.5, 45, 5, 30, , 70.0, 20.5, 300,5000,800,1500,6000";
    assert_eq!(parse_row(bad_state).unwrap_err(), RowError::Field(11));
}

#[test]
fn parse_row_trims_carriage_return() {
    let row = "0, Tesla T4, 450.1, 90.1, 15109, 123, 0, 7.5, 45, 5, 30, P0, 70.0, 20.5, 300,5000,800,1500,6000\r";
    let s = parse_row(row).unwrap();
    assert_eq!(s.clock_max_memory, 6000);
}
