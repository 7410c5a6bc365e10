use status_line::aggregate_cpu;
use status_line::battery_text;
use status_line::brightness_field_from_raw;
use status_line::centi_to_string;
use status_line::clock_text;
use status_line::compose_status;
use status_line::deci_to_string;
use status_line::four_digits;
use status_line::initial_delay_ms;
use status_line::normalize_brightness;
use status_line::parse_u32;
use status_line::sample_clock;
use status_line::sample_memory;
use status_line::trim;
use status_line::two_digits;
use status_line::u64_to_string;
use status_line::volume_field;
use status_line::BatteryReading;
use status_line::BatteryState;
use status_line::ClockFields;
use status_line::MemReading;
use status_line::StatusSnapshot;

const SEP: &str = "<span color=\"#333333\">|</span>";

fn synthetic_snapshot() -> StatusSnapshot {
    StatusSnapshot {
        brightness_centi: Some(50),
        volume: Some(String::from("37%")),
        battery: Some(BatteryReading {
            state: BatteryState::Discharging,
            soc_percent: 73,
            minutes_to_empty: None,
            minutes_to_full: None,
        }),
        memory: Some(MemReading {
            used_mib_deci: 20480,
            total_mib_deci: 81920,
        }),
        cpu_bp: Some(4200),
        clock: ClockFields::from_raw(2024, 1, 1, 0, 0, 0),
    }
}

#[test]
fn golden_synthetic_snapshot() {
    let line = compose_status(&synthetic_snapshot());
    let golden = format!(
        "Brightness: 0.50 | 37% | Battery: Discharging 73% ?:? {SEP} MEM: 2048.0/8192.0 {SEP} CPU: 0.42 {SEP} 2024-01-01 00:00:00"
    );
    assert_eq!(line, golden);
}

#[test]
fn fields_appear_once_in_declared_order() {
    let line = compose_status(&synthetic_snapshot());
    let brightness = line.find("Brightness: 0.50").unwrap();
    let volume = line.find("37%").unwrap();
    let battery = line.find("Battery: Discharging").unwrap();
    let memory = line.find("MEM: 2048.0/8192.0").unwrap();
    let cpu = line.find("CPU: 0.42").unwrap();
    let clock = line.find("2024-01-01 00:00:00").unwrap();
    assert!(brightness < volume);
    assert!(volume < battery);
    assert!(battery < memory);
    assert!(memory < cpu);
    assert!(cpu < clock);
    assert_eq!(line.matches("Battery:").count(), 1);
    assert_eq!(line.matches("MEM:").count(), 1);
    assert_eq!(line.matches("CPU:").count(), 1);
    assert_eq!(line.matches(SEP).count(), 3);
}

#[test]
fn missing_battery_degrades_to_placeholder() {
    let mut snapshot = synthetic_snapshot();
    snapshot.battery = None;
    let line = compose_status(&snapshot);
    let golden = format!(
        "Brightness: 0.50 | 37% | Battery: ? {SEP} MEM: 2048.0/8192.0 {SEP} CPU: 0.42 {SEP} 2024-01-01 00:00:00"
    );
    assert_eq!(line, golden);
}

#[test]
fn all_fields_missing_still_publishes() {
    let snapshot = StatusSnapshot {
        brightness_centi: None,
        volume: None,
        battery: None,
        memory: None,
        cpu_bp: None,
        clock: None,
    };
    let line = compose_status(&snapshot);
    let golden = format!("Brightness: ? | ? | Battery: ? {SEP} MEM: ? {SEP} CPU: ? {SEP} ?");
    assert_eq!(line, golden);
}

#[test]
fn timer_delay_reaches_next_boundary() {
    assert_eq!(initial_delay_ms(1234, 300), 266);
    assert_eq!(initial_delay_ms(0, 300), 300);
    assert_eq!(initial_delay_ms(600, 300), 300);
    assert_eq!(initial_delay_ms(299, 300), 1);
    let period = 300u64;
    let now = 987654321u64;
    let delay = initial_delay_ms(now, period);
    assert_eq!((now + delay) % period, 0);
    assert!(delay >= 1 && delay <= period);
}

#[test]
fn trim_strips_surrounding_whitespace() {
    assert_eq!(trim("  120\n"), "120");
    assert_eq!(trim("120"), "120");
    assert_eq!(trim("\t Volume: 0.37 \r\n"), "Volume: 0.37");
    assert_eq!(trim("   \n\t"), "");
    assert_eq!(trim(""), "");
}

#[test]
fn parse_accepts_plain_decimals_only() {
    assert_eq!(parse_u32("120"), Some(120));
    assert_eq!(parse_u32("0"), Some(0));
    assert_eq!(parse_u32("999999999"), Some(999_999_999));
    assert_eq!(parse_u32(""), None);
    assert_eq!(parse_u32("12a"), None);
    assert_eq!(parse_u32("-5"), None);
    assert_eq!(parse_u32("1234567890"), None);
}

#[test]
fn brightness_normalization_is_bounded_and_monotonic() {
    assert_eq!(normalize_brightness(0, 240), 0);
    assert_eq!(normalize_brightness(120, 240), 50);
    assert_eq!(normalize_brightness(240, 240), 100);
    assert_eq!(normalize_brightness(300, 240), 100);
    let mut previous = 0;
    for raw in 0..=300 {
        let current = normalize_brightness(raw, 240);
        assert!(current >= previous);
        assert!(current <= 100);
        previous = current;
    }
}

#[test]
fn brightness_field_parses_and_scales() {
    assert_eq!(
        brightness_field_from_raw(&Some(String::from(" 120\n")), 240),
        Some(50)
    );
    assert_eq!(brightness_field_from_raw(&Some(String::from("240")), 240), Some(100));
    assert_eq!(brightness_field_from_raw(&Some(String::from("junk")), 240), None);
    assert_eq!(brightness_field_from_raw(&Some(String::from("")), 240), None);
    assert_eq!(brightness_field_from_raw(&None, 240), None);
    assert_eq!(brightness_field_from_raw(&Some(String::from("120")), 0), None);
}

#[test]
fn volume_field_trims_the_report() {
    assert_eq!(
        volume_field(&Some(String::from("Volume: 0.37\n"))),
        Some(String::from("Volume: 0.37"))
    );
    assert_eq!(volume_field(&None), None);
}

#[test]
fn cpu_aggregate_averages_and_clamps() {
    assert_eq!(aggregate_cpu(&vec![]), None);
    assert_eq!(aggregate_cpu(&vec![4200]), Some(4200));
    assert_eq!(aggregate_cpu(&vec![10000, 0]), Some(5000));
    assert_eq!(aggregate_cpu(&vec![20000]), Some(10000));
    assert_eq!(aggregate_cpu(&vec![3000, 5000, 4000, 4800]), Some(4200));
    let loads = vec![2500u32; 8];
    assert_eq!(aggregate_cpu(&loads), Some(2500));
}

#[test]
fn battery_reading_clamps_state_of_charge() {
    let reading = BatteryReading::new(BatteryState::Charging, 250, Some(5), None);
    assert_eq!(reading.soc_percent, 100);
    let reading = BatteryReading::new(BatteryState::Full, 100, None, None);
    assert_eq!(reading.soc_percent, 100);
    let reading = BatteryReading::new(BatteryState::Empty, 0, None, Some(90));
    assert_eq!(reading.soc_percent, 0);
}

#[test]
fn battery_text_formats_each_state() {
    let reading = BatteryReading {
        state: BatteryState::Charging,
        soc_percent: 40,
        minutes_to_empty: None,
        minutes_to_full: Some(85),
    };
    assert_eq!(battery_text(&reading), "Charging 40% ?:85m");
    let reading = BatteryReading {
        state: BatteryState::Discharging,
        soc_percent: 73,
        minutes_to_empty: Some(140),
        minutes_to_full: None,
    };
    assert_eq!(battery_text(&reading), "Discharging 73% 140m:?");
}

#[test]
fn memory_reading_scales_and_clamps() {
    let reading = MemReading::new(2048 * 1048576, 8192 * 1048576);
    assert_eq!(reading.used_mib_deci, 20480);
    assert_eq!(reading.total_mib_deci, 81920);
    let clamped = MemReading::new(10 * 1048576, 5 * 1048576);
    assert_eq!(clamped.used_mib_deci, clamped.total_mib_deci);
    let odd = MemReading::new(1048576 + 524288, 4 * 1048576);
    assert_eq!(odd.used_mib_deci, 15);
}

#[test]
fn clock_fields_validate_ranges() {
    assert!(ClockFields::from_raw(2024, 1, 1, 0, 0, 0).is_some());
    assert!(ClockFields::from_raw(2024, 0, 1, 0, 0, 0).is_none());
    assert!(ClockFields::from_raw(2024, 13, 1, 0, 0, 0).is_none());
    assert!(ClockFields::from_raw(2024, 1, 0, 0, 0, 0).is_none());
    assert!(ClockFields::from_raw(2024, 1, 32, 0, 0, 0).is_none());
    assert!(ClockFields::from_raw(2024, 1, 1, 24, 0, 0).is_none());
    assert!(ClockFields::from_raw(2024, 1, 1, 0, 60, 0).is_none());
    assert!(ClockFields::from_raw(2024, 1, 1, 0, 0, 60).is_none());
    assert!(ClockFields::from_raw(10000, 1, 1, 0, 0, 0).is_none());
    assert!(ClockFields::from_raw(-1, 1, 1, 0, 0, 0).is_none());
}

#[test]
fn clock_text_is_zero_padded() {
    let fields = ClockFields::from_raw(987, 6, 3, 4, 5, 9).unwrap();
    assert_eq!(clock_text(&fields), "0987-06-03 04:05:09");
    let fields = ClockFields::from_raw(2024, 12, 31, 23, 59, 59).unwrap();
    assert_eq!(clock_text(&fields), "2024-12-31 23:59:59");
}

#[test]
fn decimal_renderings_are_exact() {
    assert_eq!(u64_to_string(0), "0");
    assert_eq!(u64_to_string(42), "42");
    assert_eq!(u64_to_string(18446744073709551615), "18446744073709551615");
    assert_eq!(two_digits(7), "07");
    assert_eq!(two_digits(59), "59");
    assert_eq!(four_digits(2024), "2024");
    assert_eq!(four_digits(1), "0001");
    assert_eq!(centi_to_string(0), "0.00");
    assert_eq!(centi_to_string(50), "0.50");
    assert_eq!(centi_to_string(123), "1.23");
    assert_eq!(centi_to_string(10000), "100.00");
    assert_eq!(deci_to_string(20480), "2048.0");
    assert_eq!(deci_to_string(5), "0.5");
}

#[test]
fn live_memory_sample_is_well_formed() {
    let mut system = sysinfo::System::new();
    let reading = sample_memory(&mut system);
    assert!(reading.used_mib_deci <= reading.total_mib_deci);
    assert!(reading.total_mib_deci > 0);
}

#[test]
fn live_clock_sample_renders_fixed_pattern() {
    let fields = sample_clock().expect("the wall clock is within the calendar ranges");
    let text = clock_text(&fields);
    assert_eq!(text.len(), 19);
    let bytes = text.as_bytes();
    assert_eq!(bytes[4], b'-');
    assert_eq!(bytes[7], b'-');
    assert_eq!(bytes[10], b' ');
    assert_eq!(bytes[13], b':');
    assert_eq!(bytes[16], b':');
    for index in [0, 1, 2, 3, 5, 6, 8, 9, 11, 12, 14, 15, 17, 18] {
        assert!(bytes[index].is_ascii_digit());
    }
}
